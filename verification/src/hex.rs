//! Hexadecimal digits, the bytes they spell, and the optional marker `0x`.

use vstd::prelude::*;
use vstd::string::StrSliceExecFns;
use ethers::types::H256;
use std::str::FromStr;

verus! {

/// `c` is one of `0-9`, `a-f`, `A-F`.
pub open spec fn is_hex_digit(c: char) -> bool {
    ('0' <= c && c <= '9') || ('a' <= c && c <= 'f') || ('A' <= c && c <= 'F')
}

/// The number from 0 to 15 that a hexadecimal digit stands for.
pub open spec fn hex_value(c: char) -> nat {
    if '0' <= c && c <= '9' {
        (c as int - '0' as int) as nat
    } else if 'a' <= c && c <= 'f' {
        (c as int - 'a' as int + 10) as nat
    } else {
        (c as int - 'A' as int + 10) as nat
    }
}

/// The lower-case hexadecimal digit that stands for `v`, where `v < 16`.
pub open spec fn hex_digit_char(v: nat) -> char {
    if v < 10 {
        ('0' as int + v) as char
    } else {
        ('a' as int + v - 10) as char
    }
}

/// Every character of `s` is a hexadecimal digit.
pub open spec fn all_hex(s: Seq<char>) -> bool {
    forall|i: int| 0 <= i < s.len() ==> is_hex_digit(#[trigger] s[i])
}

/// The byte that two digits spell, the high nibble first.
pub open spec fn hex_byte(high: char, low: char) -> u8 {
    (16 * hex_value(high) + hex_value(low)) as u8
}

/// The bytes that an even number of digits spell, two digits to a byte.
pub open spec fn hex_bytes(s: Seq<char>) -> Seq<u8> {
    Seq::new(s.len() / 2, |i: int| hex_byte(s[2 * i], s[2 * i + 1]))
}

/// The lower-case digits that spell `bytes`, two digits to a byte.
pub open spec fn hex_text(bytes: Seq<u8>) -> Seq<char> {
    Seq::new(
        2 * bytes.len(),
        |i: int|
            if i % 2 == 0 {
                hex_digit_char((bytes[i / 2] / 16) as nat)
            } else {
                hex_digit_char((bytes[i / 2] % 16) as nat)
            },
    )
}

/// `s` begins with the marker `0x`.
pub open spec fn has_marker(s: Seq<char>) -> bool {
    s.len() >= 2 && s[0] == '0' && s[1] == 'x'
}

/// `s` without its marker, if it has one.
pub open spec fn strip_marker(s: Seq<char>) -> Seq<char> {
    if has_marker(s) {
        s.subrange(2, s.len() as int)
    } else {
        s
    }
}

/// The text `0x` followed by `digits`.
pub open spec fn with_marker(digits: Seq<char>) -> Seq<char> {
    seq!['0', 'x'] + digits
}

/// `s` holds exactly `digits` hexadecimal digits after an optional marker.
pub open spec fn is_marked_hex(s: Seq<char>, digits: nat) -> bool {
    strip_marker(s).len() == digits && all_hex(strip_marker(s))
}

/// The digits of a byte string spell that byte string.
pub proof fn lemma_hex_text_round_trip(bytes: Seq<u8>)
    ensures
        hex_text(bytes).len() == 2 * bytes.len(),
        all_hex(hex_text(bytes)),
        hex_bytes(hex_text(bytes)) == bytes,
        !has_marker(hex_text(bytes)),
{
    let text = hex_text(bytes);
    assert forall|i: int| 0 <= i < text.len() implies is_hex_digit(#[trigger] text[i]) by {
        let b = bytes[i / 2];
        assert(b / 16 < 16 && b % 16 < 16);
    }
    assert forall|k: int| 0 <= k < bytes.len() implies hex_bytes(text)[k] == bytes[k] by {
        let b = bytes[k];
        assert((2 * k) / 2 == k && (2 * k + 1) / 2 == k);
        assert((2 * k) % 2 == 0 && (2 * k + 1) % 2 == 1);
        assert(hex_value(hex_digit_char((b / 16) as nat)) == b / 16);
        assert(hex_value(hex_digit_char((b % 16) as nat)) == b % 16);
    }
    assert(hex_bytes(text) =~= bytes);
    if text.len() >= 2 {
        assert(text[1] != 'x');
    }
}

/// Tells whether `c` is a hexadecimal digit.
pub fn is_hex_char(c: char) -> (r: bool)
    ensures
        r == is_hex_digit(c),
{
    (c >= '0' && c <= '9') || (c >= 'a' && c <= 'f') || (c >= 'A' && c <= 'F')
}

/// Tells whether `text` holds exactly `digits` hexadecimal digits after an
/// optional marker `0x`.
pub fn check_marked_hex(text: &str, digits: usize) -> (r: bool)
    ensures
        r == is_marked_hex(text@, digits as nat),
{
    let n: usize = text.unicode_len();
    let marked: bool = n >= 2 && text.get_char(0) == '0' && text.get_char(1) == 'x';
    let start: usize = if marked {
        2
    } else {
        0
    };
    if n - start != digits {
        return false;
    }
    let mut i: usize = start;
    while i < n
        invariant
            start <= i <= n,
            n == text@.len(),
            start == (if has_marker(text@) {
                2usize
            } else {
                0usize
            }),
            forall|j: int| start <= j < i ==> is_hex_digit(#[trigger] text@[j]),
        decreases n - i,
    {
        if !is_hex_char(text.get_char(i)) {
            assert(!is_hex_digit(strip_marker(text@)[i - start]));
            return false;
        }
        i = i + 1;
    }
    assert forall|j: int| 0 <= j < strip_marker(text@).len() implies is_hex_digit(
        #[trigger] strip_marker(text@)[j],
    ) by {
        assert(is_hex_digit(text@[j + start]));
    }
    true
}

/// `H256::from_str` of `ethers`, on a text of 64 hexadecimal digits after an
/// optional marker. The contract claims that it then succeeds and that byte
/// `i` of the result is spelled by digits `2i` and `2i + 1` behind the
/// marker.
#[verifier::external_body]
pub(crate) fn h256_from_str(text: &str) -> (r: Option<[u8; 32]>)
    requires
        is_marked_hex(text@, 64),
    ensures
        r is Some,
        r.unwrap()@ == hex_bytes(strip_marker(text@)),
{
    H256::from_str(text).ok().map(|h| h.0)
}

} // verus!
