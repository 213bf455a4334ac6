//! Account identifiers and their textual form.

use vstd::prelude::*;
use crate::error::TransferError;
use crate::hex::{
    all_hex, check_marked_hex, has_marker, hex_bytes, hex_value, is_hex_digit, is_marked_hex,
    strip_marker, with_marker,
};
use ethers::types::H160;
use std::str::FromStr;

verus! {

/// A 20-byte account identifier.
#[derive(Clone, Copy, Debug, PartialEq, Eq)]
pub struct AccountId {
    pub bytes: [u8; 20],
}

/// `s` is an account identifier: forty hexadecimal digits after an optional
/// marker.
pub open spec fn is_address_text(s: Seq<char>) -> bool {
    is_marked_hex(s, 40)
}

/// The twenty bytes that an account identifier's digits spell.
pub open spec fn address_bytes(s: Seq<char>) -> Seq<u8> {
    hex_bytes(strip_marker(s))
}

/// `H160::from_str` of `ethers`, on a text that is an account identifier.
/// The contract claims that it then succeeds and that byte `i` of the result
/// is spelled by digits `2i` and `2i + 1` behind the marker.
#[verifier::external_body]
fn h160_from_str(text: &str) -> (r: Option<[u8; 20]>)
    requires
        is_address_text(text@),
    ensures
        r is Some,
        r.unwrap()@ == address_bytes(text@),
{
    H160::from_str(text).ok().map(|h| h.0)
}

/// Checks that `address_str` is an account identifier and reads its bytes.
pub fn validate_address(address_str: &str) -> (r: Result<AccountId, TransferError>)
    ensures
        is_address_text(address_str@) ==> (r matches Ok(id) && id.bytes@ == address_bytes(
            address_str@,
        )),
        !is_address_text(address_str@) ==> (r matches Err(TransferError::InvalidAddress { input })
            && input@ == address_str@),
{
    if !check_marked_hex(address_str, 40) {
        return Err(TransferError::InvalidAddress { input: address_str.to_owned() });
    }
    match h160_from_str(address_str) {
        Some(bytes) => Ok(AccountId { bytes }),
        None => Err(TransferError::InvalidAddress { input: address_str.to_owned() }),
    }
}

impl AccountId {
    /// Tells whether `self` and `other` are the same account.
    pub fn same(&self, other: &AccountId) -> (r: bool)
        ensures
            r == (*self == *other),
            r == (self.bytes@ == other.bytes@),
    {
        let mut i: usize = 0;
        while i < 20
            invariant
                i <= 20,
                forall|j: int| 0 <= j < i ==> self.bytes[j] == other.bytes[j],
            decreases 20 - i,
        {
            if self.bytes[i] != other.bytes[i] {
                assert(self.bytes@[i as int] != other.bytes@[i as int]);
                return false;
            }
            i = i + 1;
        }
        assert(self.bytes =~= other.bytes);
        true
    }
}

/// `c` with an upper-case letter turned into its lower-case form.
pub open spec fn fold_case(c: char) -> char {
    if 'A' <= c && c <= 'Z' {
        (c as int + 32) as char
    } else {
        c
    }
}

/// `a` and `b` have the same length and differ at most in the case of
/// their letters.
pub open spec fn same_ignoring_case(a: Seq<char>, b: Seq<char>) -> bool {
    a.len() == b.len() && forall|i: int|
        0 <= i < a.len() ==> fold_case(#[trigger] a[i]) == fold_case(b[i])
}

/// Forty hexadecimal digits are an account identifier with and without the
/// marker, and both forms name the same twenty bytes.
pub proof fn lemma_marker_is_optional(digits: Seq<char>)
    requires
        digits.len() == 40,
        all_hex(digits),
    ensures
        is_address_text(digits),
        is_address_text(with_marker(digits)),
        address_bytes(with_marker(digits)) == address_bytes(digits),
{
    assert(is_hex_digit(digits[1]));
    assert(!has_marker(digits));
    let marked = with_marker(digits);
    assert(marked[0] == '0' && marked[1] == 'x');
    assert(strip_marker(marked) =~= digits);
}

/// Two account identifiers whose digits differ only in the case of their
/// letters name the same twenty bytes, whether or not either has the marker.
pub proof fn lemma_address_ignores_case(a: Seq<char>, b: Seq<char>)
    requires
        is_address_text(a),
        same_ignoring_case(strip_marker(a), strip_marker(b)),
    ensures
        is_address_text(b),
        address_bytes(a) == address_bytes(b),
{
    let x = strip_marker(a);
    let y = strip_marker(b);
    assert forall|i: int| 0 <= i < y.len() implies is_hex_digit(#[trigger] y[i]) && hex_value(
        y[i],
    ) == hex_value(x[i]) by {
        assert(is_hex_digit(x[i]));
        assert(fold_case(x[i]) == fold_case(y[i]));
    }
    assert(hex_bytes(x) =~= hex_bytes(y));
}

} // verus!
