//! Signing identities: a private scalar bound to the account it derives.

use vstd::prelude::*;
use crate::address::AccountId;
use crate::hex::{check_marked_hex, h256_from_str, hex_bytes, is_marked_hex, strip_marker};
use ethers::signers::{LocalWallet, Signer};

verus! {

/// The account that a 32-byte private scalar derives, or `None` where the
/// bytes are no scalar of the curve: what `LocalWallet::from_bytes` of
/// `ethers` computes as the wallet's address.
pub uninterp spec fn derived_address(secret: Seq<u8>) -> Option<Seq<u8>>;

/// `LocalWallet::from_bytes` of `ethers` and the address of the wallet it
/// makes; `None` where it refuses the bytes.
#[verifier::external_body]
fn wallet_address(secret: &[u8; 32]) -> (r: Option<[u8; 20]>)
    ensures
        r is Some <==> derived_address(secret@) is Some,
        r is Some ==> r.unwrap()@ == derived_address(secret@).unwrap(),
{
    LocalWallet::from_bytes(secret).ok().map(|wallet| wallet.address().0)
}

/// Why a text or a byte string makes no signing identity.
#[derive(Clone, Copy, Debug, PartialEq, Eq)]
pub enum KeyError {
    /// The text is not 64 hexadecimal digits after an optional marker.
    Format,
    /// The bytes are no private scalar of the curve.
    Scalar,
}

/// A private scalar together with the one account that it derives.
pub struct SigningIdentity {
    secret: [u8; 32],
    address: AccountId,
}

impl SigningIdentity {
    /// The account is the one that the scalar derives.
    #[verifier::type_invariant]
    spec fn bound(self) -> bool {
        derived_address(self.secret@) == Some(self.address.bytes@)
    }

    /// The private scalar, big-endian.
    pub closed spec fn secret(&self) -> Seq<u8> {
        self.secret@
    }

    /// The account that the identity signs for.
    pub closed spec fn account(&self) -> AccountId {
        self.address
    }

    /// The private scalar derives `account`.
    pub open spec fn signs_for(&self, account: AccountId) -> bool {
        derived_address(self.secret()) == Some(account.bytes@)
    }

    /// The identity of a private scalar, or `None` where the bytes are none.
    pub fn from_secret(secret: [u8; 32]) -> (r: Option<SigningIdentity>)
        ensures
            r is Some <==> derived_address(secret@) is Some,
            r matches Some(identity) ==> identity.secret() == secret@ && Some(
                identity.account().bytes@,
            ) == derived_address(secret@),
    {
        match wallet_address(&secret) {
            Some(bytes) => Some(SigningIdentity { secret, address: AccountId { bytes } }),
            None => None,
        }
    }

    /// The identity of a private scalar written as 64 hexadecimal digits
    /// after an optional marker.
    pub fn from_hex(text: &str) -> (r: Result<SigningIdentity, KeyError>)
        ensures
            !is_marked_hex(text@, 64) ==> r == Err::<SigningIdentity, KeyError>(KeyError::Format),
            is_marked_hex(text@, 64) ==> match derived_address(hex_bytes(strip_marker(text@))) {
                Some(account) => r matches Ok(identity) && identity.secret() == hex_bytes(
                    strip_marker(text@),
                ) && identity.account().bytes@ == account,
                None => r == Err::<SigningIdentity, KeyError>(KeyError::Scalar),
            },
    {
        if !check_marked_hex(text, 64) {
            return Err(KeyError::Format);
        }
        let secret: [u8; 32] = match h256_from_str(text) {
            Some(bytes) => bytes,
            None => {
                return Err(KeyError::Format);
            },
        };
        match SigningIdentity::from_secret(secret) {
            Some(identity) => Ok(identity),
            None => Err(KeyError::Scalar),
        }
    }

    /// The account that the identity signs for: the one its scalar derives.
    pub fn address(&self) -> (r: AccountId)
        ensures
            r == self.account(),
            self.signs_for(r),
    {
        proof {
            use_type_invariant(self);
        }
        self.address
    }

    /// The private scalar, for the signer.
    pub(crate) fn secret_bytes(&self) -> (r: &[u8; 32])
        ensures
            r@ == self.secret(),
    {
        &self.secret
    }
}

} // verus!
