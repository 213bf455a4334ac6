//! Transaction identifiers: the handle that a broadcast returns and that the
//! poller asks about.

use vstd::prelude::*;
use crate::error::TransferError;
use crate::hex::{
    check_marked_hex, h256_from_str, hex_bytes, hex_text, is_marked_hex,
    lemma_hex_text_round_trip, strip_marker, with_marker,
};
use ethers::types::H256;

verus! {

/// The 32-byte hash that identifies a submitted transaction.
#[derive(Clone, Copy, Debug, PartialEq, Eq)]
pub struct TransactionId {
    pub bytes: [u8; 32],
}

/// `s` is a transaction identifier: 64 hexadecimal digits after an optional
/// marker.
pub open spec fn is_hash_text(s: Seq<char>) -> bool {
    is_marked_hex(s, 64)
}

/// The text of an identifier: the marker and 64 lower-case digits.
pub open spec fn hash_text(bytes: Seq<u8>) -> Seq<char> {
    with_marker(hex_text(bytes))
}

/// The `LowerHex` form `{:#x}` of `H256` of `ethers`: the marker `0x`, then
/// two lower-case digits for each byte in order.
#[verifier::external_body]
fn h256_to_hex(bytes: &[u8; 32]) -> (r: String)
    ensures
        r@ == hash_text(bytes@),
{
    format!("{:#x}", H256(*bytes))
}

impl TransactionId {
    /// Reads an identifier from its text, or `None` where the text is none.
    pub fn parse(text: &str) -> (r: Option<TransactionId>)
        ensures
            is_hash_text(text@) ==> (r matches Some(id) && id.bytes@ == hex_bytes(
                strip_marker(text@),
            )),
            !is_hash_text(text@) ==> r is None,
    {
        if !check_marked_hex(text, 64) {
            return None;
        }
        match h256_from_str(text) {
            Some(bytes) => Some(TransactionId { bytes }),
            None => None,
        }
    }

    /// The text of the identifier, as block explorers show it.
    pub fn to_hex(&self) -> (r: String)
        ensures
            r@ == hash_text(self.bytes@),
    {
        h256_to_hex(&self.bytes)
    }
}

/// The text of an identifier is read back as that identifier.
pub proof fn lemma_hash_text_round_trip(id: TransactionId)
    ensures
        is_hash_text(hash_text(id.bytes@)),
        hex_bytes(strip_marker(hash_text(id.bytes@))) == id.bytes@,
{
    lemma_hex_text_round_trip(id.bytes@);
    let text = hash_text(id.bytes@);
    assert(text[0] == '0' && text[1] == 'x');
    assert(strip_marker(text) =~= hex_text(id.bytes@));
}

/// What a broadcast amounts to: the identifier that the network returned,
/// or its reason for refusing the payload, word for word.
pub fn submission_outcome(response: Result<[u8; 32], String>) -> (r: Result<
    TransactionId,
    TransferError,
>)
    ensures
        match response {
            Ok(hash) => r matches Ok(id) && id.bytes == hash,
            Err(reason) => r matches Err(TransferError::SubmitError { reason: kept }) && kept
                == reason,
        },
{
    match response {
        Ok(hash) => Ok(TransactionId { bytes: hash }),
        Err(reason) => Err(TransferError::SubmitError { reason }),
    }
}

} // verus!
