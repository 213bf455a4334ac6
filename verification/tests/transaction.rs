use eth_transfer::address::{validate_address, AccountId};
use eth_transfer::amount::Wei;
use eth_transfer::error::TransferError;
use eth_transfer::fee::{FeeParameters, FeePolicy, LatestBlock};
use eth_transfer::identity::SigningIdentity;
use eth_transfer::transaction::{
    assemble, build_and_sign, build_draft, check_identity, check_network, seal, sign_draft,
    Signature, TransferConfig, TransferDraft, ARBITRUM_SEPOLIA_CHAIN_ID, MAX_CHAIN_ID,
};
use ethers::signers::{LocalWallet, Signer};
use ethers::types::transaction::eip2718::TypedTransaction;
use ethers::types::{NameOrAddress, TransactionRequest, H160, U256};
use ethers::utils::rlp::Rlp;

const KEY: &str = "ac0974bec39a17e36ba4a6b4d238ff944bacb478cbed5efcae784d7bf4f2ff80";
const SENDER: &str = "0xf39Fd6e51aad88F6F4ce6aB8827279cffFb92266";
const RECEIVER: &str = "0x7292dD72151DaCFBbE76305db1C8Ab1928E922E4";
const STRANGER: &str = "0xd78677EFed3b87f8f421E68dA3F984ad8Ef76439";

fn identity() -> SigningIdentity {
    SigningIdentity::from_hex(KEY).ok().unwrap()
}

fn account(text: &str) -> AccountId {
    validate_address(text).unwrap()
}

fn block() -> LatestBlock {
    LatestBlock { number: 10, base_fee: Some(Wei::from_u64(100)) }
}

fn draft() -> TransferDraft {
    TransferDraft {
        from: account(SENDER),
        to: account(RECEIVER),
        value: Wei::from_u64(100_000_000_000_000),
        gas_limit: 100_000,
        gas_price: Wei::from_u64(10_000_120),
    }
}

#[test]
fn config_for_arbitrum_sepolia() {
    let config = TransferConfig::arbitrum_sepolia();
    assert_eq!(config.expected_chain_id, 421_614);
    assert_eq!(ARBITRUM_SEPOLIA_CHAIN_ID, 421_614);
    assert_eq!(config.fees, FeePolicy::standard());
    assert_eq!(MAX_CHAIN_ID, (u64::MAX - 38) / 2);
}

#[test]
fn network_check() {
    let config = TransferConfig::arbitrum_sepolia();
    assert_eq!(check_network(&config, 421_614), Ok(()));
    assert_eq!(
        check_network(&config, 1),
        Err(TransferError::WrongNetwork { expected: 421_614, actual: 1 })
    );
}

#[test]
fn identity_check() {
    assert_eq!(check_identity(&identity(), &account(SENDER)), Ok(()));
    assert_eq!(
        check_identity(&identity(), &account(STRANGER)),
        Err(TransferError::IdentityMismatch {
            signer: account(SENDER).bytes,
            sender: account(STRANGER).bytes,
        })
    );
}

#[test]
fn assemble_takes_the_price_and_limit_of_the_budget() {
    let fees = FeeParameters {
        base_fee: Wei::from_u64(100),
        priority_fee: Wei::from_u64(10_000_000),
        effective_gas_price: Wei::from_u64(10_000_120),
        gas_limit: 100_000,
    };
    assert_eq!(
        assemble(&account(SENDER), &account(RECEIVER), Wei::from_u64(100_000_000_000_000), &fees),
        draft()
    );
}

#[test]
fn build_draft_of_a_valid_transfer() {
    let config = TransferConfig::arbitrum_sepolia();
    let built = build_draft(
        &config,
        &account(SENDER),
        &account(RECEIVER),
        "0.0001",
        &identity(),
        421_614,
        &block(),
    );
    assert_eq!(built, Ok(draft()));
}

#[test]
fn wrong_network_is_refused_first() {
    let config = TransferConfig::arbitrum_sepolia();
    let expected = Err(TransferError::WrongNetwork { expected: 421_614, actual: 42_161 });
    let valid = build_and_sign(
        &config,
        &account(SENDER),
        &account(RECEIVER),
        "0.0001",
        &identity(),
        42_161,
        &block(),
        0,
    );
    assert_eq!(valid, expected);
    let all_wrong = build_and_sign(
        &config,
        &account(STRANGER),
        &account(RECEIVER),
        "not an amount",
        &identity(),
        42_161,
        &block(),
        0,
    );
    assert_eq!(all_wrong, expected);
}

#[test]
fn identity_mismatch_is_refused_before_the_amount() {
    let config = TransferConfig::arbitrum_sepolia();
    let expected = Err(TransferError::IdentityMismatch {
        signer: account(SENDER).bytes,
        sender: account(STRANGER).bytes,
    });
    for amount in ["0.0001", "0.0000000000000000001", "-1"] {
        let result = build_and_sign(
            &config,
            &account(STRANGER),
            &account(RECEIVER),
            amount,
            &identity(),
            421_614,
            &block(),
            0,
        );
        assert_eq!(result, expected);
    }
}

#[test]
fn inexact_amount_is_refused() {
    let config = TransferConfig::arbitrum_sepolia();
    for amount in ["0.0000000000000000001", "one", ""] {
        let result = build_and_sign(
            &config,
            &account(SENDER),
            &account(RECEIVER),
            amount,
            &identity(),
            421_614,
            &block(),
            0,
        );
        assert_eq!(result, Err(TransferError::AmountParseError { input: amount.to_string() }));
    }
}

#[test]
fn signed_payload_is_what_the_wallet_signs() {
    let config = TransferConfig::arbitrum_sepolia();
    let signed = build_and_sign(
        &config,
        &account(SENDER),
        &account(RECEIVER),
        "0.0001",
        &identity(),
        421_614,
        &block(),
        7,
    )
    .unwrap();

    let wallet = KEY.parse::<LocalWallet>().unwrap().with_chain_id(421_614u64);
    let request = TransactionRequest::new()
        .to(H160(account(RECEIVER).bytes))
        .value(U256::from(100_000_000_000_000u64))
        .from(H160(account(SENDER).bytes))
        .gas(U256::from(100_000))
        .gas_price(U256::from(10_000_120u64))
        .nonce(7)
        .chain_id(421_614u64);
    let tx = TypedTransaction::Legacy(request);
    let signature = wallet.sign_transaction_sync(&tx).unwrap();
    assert_eq!(signed.payload, tx.rlp_signed(&signature).to_vec());
    assert_eq!(
        signed.signature,
        Signature { r: signature.r.0, s: signature.s.0, v: signature.v }
    );
    assert_eq!(signed.chain_id, 421_614);
    assert_eq!(signed.nonce, 7);
}

#[test]
fn signed_payload_carries_the_draft_and_the_chain() {
    let signed = sign_draft(&draft(), &identity(), 421_614, 3).unwrap();
    let (decoded, signature) =
        TransactionRequest::decode_signed_rlp(&Rlp::new(&signed.payload)).unwrap();
    assert_eq!(decoded.from, Some(H160(account(SENDER).bytes)));
    assert_eq!(decoded.to, Some(NameOrAddress::Address(H160(account(RECEIVER).bytes))));
    assert_eq!(decoded.value, Some(U256::from(100_000_000_000_000u64)));
    assert_eq!(decoded.gas, Some(U256::from(100_000)));
    assert_eq!(decoded.gas_price, Some(U256::from(10_000_120u64)));
    assert_eq!(decoded.nonce, Some(U256::from(3)));
    assert_eq!(decoded.chain_id.map(|id| id.as_u64()), Some(421_614));
    assert_eq!(decoded.data, None);
    assert!(signature.v == 35 + 2 * 421_614 || signature.v == 36 + 2 * 421_614);
    assert_eq!(signed.signature.v, signature.v);
}

#[test]
fn signing_is_repeatable_and_depends_on_every_field() {
    let base = sign_draft(&draft(), &identity(), 421_614, 3).unwrap();
    assert_eq!(sign_draft(&draft(), &identity(), 421_614, 3).unwrap(), base);
    assert_ne!(sign_draft(&draft(), &identity(), 421_614, 4).unwrap().payload, base.payload);
    assert_ne!(sign_draft(&draft(), &identity(), 421_613, 3).unwrap().payload, base.payload);
    let mut other = draft();
    other.value = Wei::from_u64(1);
    assert_ne!(sign_draft(&other, &identity(), 421_614, 3).unwrap().payload, base.payload);
    let mut other = draft();
    other.gas_price = Wei::from_u64(1);
    assert_ne!(sign_draft(&other, &identity(), 421_614, 3).unwrap().payload, base.payload);
    let mut other = draft();
    other.gas_limit = 21_000;
    assert_ne!(sign_draft(&other, &identity(), 421_614, 3).unwrap().payload, base.payload);
    let mut other = draft();
    other.to = account(STRANGER);
    assert_ne!(sign_draft(&other, &identity(), 421_614, 3).unwrap().payload, base.payload);
}

#[test]
fn signing_for_the_largest_chain_identifier() {
    let signed = sign_draft(&draft(), &identity(), MAX_CHAIN_ID, 0).unwrap();
    assert!(signed.signature.v >= 35 + 2 * MAX_CHAIN_ID);
    assert_eq!(signed.chain_id, MAX_CHAIN_ID);
}

#[test]
fn seal_without_a_signature_fails() {
    assert_eq!(seal(&draft(), 421_614, 0, None), Err(TransferError::SigningFailed));
}

#[test]
fn seal_encodes_the_signature_it_is_given() {
    let signed = sign_draft(&draft(), &identity(), 421_614, 5).unwrap();
    let sealed = seal(&draft(), 421_614, 5, Some(signed.signature)).unwrap();
    assert_eq!(sealed, signed);
    let other = Signature { r: [1, 0, 0, 0], s: [2, 0, 0, 0], v: 843_263 };
    let forged = seal(&draft(), 421_614, 5, Some(other)).unwrap();
    assert_ne!(forged.payload, signed.payload);
    assert_eq!(forged.signature, other);
}
