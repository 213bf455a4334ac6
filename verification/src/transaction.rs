//! Building a transfer and signing it for one chain.

use vstd::prelude::*;
use crate::address::AccountId;
use crate::amount::Wei;
use crate::error::TransferError;
use crate::fee::{FeeParameters, FeePolicy, LatestBlock};
use crate::identity::SigningIdentity;
use crate::units::{amount_value, is_amount_text, parse_amount};
use ethers::signers::LocalWallet;
use ethers::types::transaction::eip2718::TypedTransaction;
use ethers::types::{TransactionRequest, H160, U256};

verus! {

/// Chain identifier of the Arbitrum Sepolia test network.
pub const ARBITRUM_SEPOLIA_CHAIN_ID: u64 = 421_614;

/// The largest chain identifier that a signature can carry: its `v` is
/// twice the identifier plus a number from 35 to 38, in 64 bits.
pub const MAX_CHAIN_ID: u64 = 9_223_372_036_854_775_788;

/// The network that a transfer is meant for, and how it is priced.
#[derive(Clone, Copy, Debug)]
pub struct TransferConfig {
    /// The chain identifier that the network must report.
    pub expected_chain_id: u64,
    /// The parameters of the fee estimate.
    pub fees: FeePolicy,
}

/// An unsigned transfer.
#[derive(Clone, Copy, Debug, PartialEq, Eq)]
pub struct TransferDraft {
    pub from: AccountId,
    pub to: AccountId,
    pub value: Wei,
    pub gas_limit: u64,
    pub gas_price: Wei,
}

/// An ECDSA signature over a transaction, as 256-bit numbers in
/// little-endian limbs and the recovery value `v`.
#[derive(Clone, Copy, Debug, PartialEq, Eq)]
pub struct Signature {
    pub r: [u64; 4],
    pub s: [u64; 4],
    pub v: u64,
}

/// A transfer signed for one chain, ready for broadcast.
#[derive(Clone, Debug, PartialEq, Eq)]
pub struct SignedTransaction {
    /// The encoded transaction with its signature.
    pub payload: Vec<u8>,
    /// The chain that the signature is valid for.
    pub chain_id: u64,
    /// The sender's transaction count that the payload carries.
    pub nonce: u64,
    /// The signature inside the payload.
    pub signature: Signature,
}

/// The signature that a private scalar gives a legacy transfer for one
/// chain, or `None` where the signer fails: what `sign_transaction_sync` of
/// an `ethers` wallet computes. Signing is deterministic (RFC 6979).
pub uninterp spec fn transfer_signature(
    secret: Seq<u8>,
    chain_id: u64,
    nonce: u64,
    gas_price: nat,
    gas_limit: u64,
    to: Seq<u8>,
    value: nat,
) -> Option<Signature>;

/// The bytes of a signed legacy transfer: what `rlp_signed` of an `ethers`
/// transaction computes.
pub uninterp spec fn signed_encoding(
    nonce: u64,
    gas_price: nat,
    gas_limit: u64,
    to: Seq<u8>,
    value: nat,
    signature: Signature,
) -> Seq<u8>;

/// `v` carries `chain_id`: it is twice the identifier, plus 35, plus a
/// recovery id from 0 to 3 (EIP-155).
pub open spec fn v_carries_chain(v: u64, chain_id: u64) -> bool {
    35 + 2 * chain_id <= v <= 38 + 2 * chain_id
}

/// `Wallet::sign_transaction_sync` of `ethers`, on the wallet of `secret`
/// and a legacy transaction made of the draft's fields, `nonce` and
/// `chain_id`, without data. `None` where the wallet cannot be made or the
/// signer fails. The source sets `v` to the recovery id plus 35 plus twice
/// the chain identifier.
#[verifier::external_body]
fn sign_transfer(secret: &[u8; 32], chain_id: u64, nonce: u64, draft: &TransferDraft) -> (r:
    Option<Signature>)
    requires
        chain_id <= MAX_CHAIN_ID,
    ensures
        r == transfer_signature(
            secret@,
            chain_id,
            nonce,
            draft.gas_price@,
            draft.gas_limit,
            draft.to.bytes@,
            draft.value@,
        ),
        r is Some ==> v_carries_chain(r.unwrap().v, chain_id),
{
    let wallet = LocalWallet::from_bytes(secret).ok()?;
    let request = TransactionRequest::new().nonce(nonce).gas_price(U256(draft.gas_price.limbs))
        .gas(draft.gas_limit).to(H160(draft.to.bytes)).value(U256(draft.value.limbs))
        .chain_id(chain_id);
    let signed = wallet.sign_transaction_sync(&TypedTransaction::Legacy(request)).ok()?;
    Some(Signature { r: signed.r.0, s: signed.s.0, v: signed.v })
}

/// `TypedTransaction::rlp_signed` of `ethers`, on a legacy transaction made
/// of the draft's fields and `nonce`, without data, and on `signature`.
#[verifier::external_body]
fn encode_signed(nonce: u64, draft: &TransferDraft, signature: &Signature) -> (r: Vec<u8>)
    ensures
        r@ == signed_encoding(
            nonce,
            draft.gas_price@,
            draft.gas_limit,
            draft.to.bytes@,
            draft.value@,
            *signature,
        ),
{
    let request = TransactionRequest::new().nonce(nonce).gas_price(U256(draft.gas_price.limbs))
        .gas(draft.gas_limit).to(H160(draft.to.bytes)).value(U256(draft.value.limbs));
    let signature = ethers::types::Signature {
        r: U256(signature.r),
        s: U256(signature.s),
        v: signature.v,
    };
    TypedTransaction::Legacy(request).rlp_signed(&signature).to_vec()
}

impl TransferConfig {
    /// The chain identifier fits in a signature.
    pub open spec fn wf(&self) -> bool {
        self.expected_chain_id <= MAX_CHAIN_ID
    }

    /// Transfers on Arbitrum Sepolia under the standard fee policy.
    pub fn arbitrum_sepolia() -> (r: TransferConfig)
        ensures
            r.wf(),
            r.expected_chain_id == ARBITRUM_SEPOLIA_CHAIN_ID,
            r.fees == FeePolicy::standard_policy(),
    {
        TransferConfig { expected_chain_id: ARBITRUM_SEPOLIA_CHAIN_ID, fees: FeePolicy::standard() }
    }
}

impl TransferDraft {
    /// The signature that `secret` gives this draft.
    pub open spec fn signature_by(&self, secret: Seq<u8>, chain_id: u64, nonce: u64) -> Option<
        Signature,
    > {
        transfer_signature(
            secret,
            chain_id,
            nonce,
            self.gas_price@,
            self.gas_limit,
            self.to.bytes@,
            self.value@,
        )
    }

    /// The signed bytes of this draft under `signature`.
    pub open spec fn encoding_with(&self, nonce: u64, signature: Signature) -> Seq<u8> {
        signed_encoding(
            nonce,
            self.gas_price@,
            self.gas_limit,
            self.to.bytes@,
            self.value@,
            signature,
        )
    }
}

impl SignedTransaction {
    /// The signature carries the chain that the transaction was signed for.
    pub open spec fn wf(&self) -> bool {
        v_carries_chain(self.signature.v, self.chain_id)
    }
}

/// Refuses a network that is not the expected one.
pub fn check_network(config: &TransferConfig, chain_id: u64) -> (r: Result<(), TransferError>)
    ensures
        chain_id == config.expected_chain_id ==> r is Ok,
        chain_id != config.expected_chain_id ==> r == Err::<(), TransferError>(
            TransferError::WrongNetwork { expected: config.expected_chain_id, actual: chain_id },
        ),
{
    if chain_id != config.expected_chain_id {
        Err(TransferError::WrongNetwork { expected: config.expected_chain_id, actual: chain_id })
    } else {
        Ok(())
    }
}

/// Refuses an identity whose private scalar derives another account than
/// `sender`.
pub fn check_identity(identity: &SigningIdentity, sender: &AccountId) -> (r: Result<
    (),
    TransferError,
>)
    ensures
        identity.signs_for(*sender) ==> r is Ok,
        !identity.signs_for(*sender) ==> r == Err::<(), TransferError>(
            TransferError::IdentityMismatch {
                signer: identity.account().bytes,
                sender: sender.bytes,
            },
        ),
{
    let signer: AccountId = identity.address();
    if signer.same(sender) {
        Ok(())
    } else {
        Err(TransferError::IdentityMismatch { signer: signer.bytes, sender: sender.bytes })
    }
}

/// The draft of a transfer with its fee budget.
pub fn assemble(from: &AccountId, to: &AccountId, value: Wei, fees: &FeeParameters) -> (r:
    TransferDraft)
    ensures
        r.from == *from,
        r.to == *to,
        r.value == value,
        r.gas_limit == fees.gas_limit,
        r.gas_price == fees.effective_gas_price,
{
    TransferDraft {
        from: *from,
        to: *to,
        value,
        gas_limit: fees.gas_limit,
        gas_price: fees.effective_gas_price,
    }
}

/// Checks a transfer and drafts it. In this order: the network must be the
/// expected one; the identity must sign for `from`; the fee budget is
/// estimated from `block`; the amount must be exact.
pub fn build_draft(
    config: &TransferConfig,
    from: &AccountId,
    to: &AccountId,
    amount: &str,
    identity: &SigningIdentity,
    chain_id: u64,
    block: &LatestBlock,
) -> (r: Result<TransferDraft, TransferError>)
    requires
        config.fees.admits(*block),
    ensures
        chain_id != config.expected_chain_id ==> r == Err::<TransferDraft, TransferError>(
            TransferError::WrongNetwork { expected: config.expected_chain_id, actual: chain_id },
        ),
        chain_id == config.expected_chain_id && !identity.signs_for(*from) ==> r == Err::<
            TransferDraft,
            TransferError,
        >(TransferError::IdentityMismatch { signer: identity.account().bytes, sender: from.bytes }),
        chain_id == config.expected_chain_id && identity.signs_for(*from) && !is_amount_text(
            amount@,
        ) ==> (r matches Err(TransferError::AmountParseError { input }) && input@ == amount@),
        chain_id == config.expected_chain_id && identity.signs_for(*from) && is_amount_text(
            amount@,
        ) ==> (r matches Ok(draft) && draft.from == *from && draft.to == *to && draft.value@
            == amount_value(amount@) && draft.gas_limit == config.fees.gas_limit
            && draft.gas_price@ == config.fees.price_for(config.fees.base_fee_of(*block))),
{
    match check_network(config, chain_id) {
        Err(e) => {
            return Err(e);
        },
        Ok(_) => {},
    }
    match check_identity(identity, from) {
        Err(e) => {
            return Err(e);
        },
        Ok(_) => {},
    }
    let fees: FeeParameters = config.fees.estimate(block);
    let value: Wei = match parse_amount(amount) {
        Err(e) => {
            return Err(e);
        },
        Ok(v) => v,
    };
    Ok(assemble(from, to, value, &fees))
}

/// What signing amounts to, given what the signer returned: the encoded
/// transaction, or `SigningFailed` where the signer returned nothing.
pub fn seal(draft: &TransferDraft, chain_id: u64, nonce: u64, signature: Option<Signature>) -> (r:
    Result<SignedTransaction, TransferError>)
    ensures
        match signature {
            Some(s) => r matches Ok(signed) && signed.chain_id == chain_id && signed.nonce
                == nonce && signed.signature == s && signed.payload@ == draft.encoding_with(
                nonce,
                s,
            ),
            None => r == Err::<SignedTransaction, TransferError>(TransferError::SigningFailed),
        },
{
    match signature {
        Some(s) => Ok(
            SignedTransaction {
                payload: encode_signed(nonce, draft, &s),
                chain_id,
                nonce,
                signature: s,
            },
        ),
        None => Err(TransferError::SigningFailed),
    }
}

/// Signs a draft with `identity` for the chain `chain_id`. Whatever the
/// signer returns, the result is what `seal` makes of it.
pub fn sign_draft(draft: &TransferDraft, identity: &SigningIdentity, chain_id: u64, nonce: u64) -> (r:
    Result<SignedTransaction, TransferError>)
    requires
        chain_id <= MAX_CHAIN_ID,
    ensures
        match draft.signature_by(identity.secret(), chain_id, nonce) {
            Some(s) => r matches Ok(signed) && signed.wf() && signed.chain_id == chain_id
                && signed.nonce == nonce && signed.signature == s && signed.payload@
                == draft.encoding_with(nonce, s),
            None => r == Err::<SignedTransaction, TransferError>(TransferError::SigningFailed),
        },
{
    let signature: Option<Signature> = sign_transfer(
        identity.secret_bytes(),
        chain_id,
        nonce,
        draft,
    );
    seal(draft, chain_id, nonce, signature)
}

/// Builds a transfer of `amount` from `from` to `to` and signs it with
/// `identity`, for the network that reported `chain_id` and `block`.
///
/// Every precondition is checked before anything is signed: a wrong network
/// is refused first, whatever the other arguments; then an identity that
/// does not sign for `from`; then an amount that is not exact.
pub fn build_and_sign(
    config: &TransferConfig,
    from: &AccountId,
    to: &AccountId,
    amount: &str,
    identity: &SigningIdentity,
    chain_id: u64,
    block: &LatestBlock,
    nonce: u64,
) -> (r: Result<SignedTransaction, TransferError>)
    requires
        config.wf(),
        config.fees.admits(*block),
    ensures
        chain_id != config.expected_chain_id ==> r == Err::<SignedTransaction, TransferError>(
            TransferError::WrongNetwork { expected: config.expected_chain_id, actual: chain_id },
        ),
        chain_id == config.expected_chain_id && !identity.signs_for(*from) ==> r == Err::<
            SignedTransaction,
            TransferError,
        >(TransferError::IdentityMismatch { signer: identity.account().bytes, sender: from.bytes }),
        chain_id == config.expected_chain_id && identity.signs_for(*from) && !is_amount_text(
            amount@,
        ) ==> (r matches Err(TransferError::AmountParseError { input }) && input@ == amount@),
        chain_id == config.expected_chain_id && identity.signs_for(*from) && is_amount_text(
            amount@,
        ) ==> match transfer_signature(
            identity.secret(),
            chain_id,
            nonce,
            config.fees.price_for(config.fees.base_fee_of(*block)),
            config.fees.gas_limit,
            to.bytes@,
            amount_value(amount@),
        ) {
            Some(s) => r matches Ok(signed) && signed.wf() && signed.chain_id == chain_id
                && signed.nonce == nonce && signed.signature == s && signed.payload@
                == signed_encoding(
                nonce,
                config.fees.price_for(config.fees.base_fee_of(*block)),
                config.fees.gas_limit,
                to.bytes@,
                amount_value(amount@),
                s,
            ),
            None => r == Err::<SignedTransaction, TransferError>(TransferError::SigningFailed),
        },
{
    let draft: TransferDraft = match build_draft(
        config,
        from,
        to,
        amount,
        identity,
        chain_id,
        block,
    ) {
        Err(e) => {
            return Err(e);
        },
        Ok(d) => d,
    };
    sign_draft(&draft, identity, chain_id, nonce)
}

} // verus!
