use eth_transfer::address::validate_address;
use eth_transfer::amount::Wei;
use eth_transfer::error::TransferError;
use eth_transfer::fee::LatestBlock;
use eth_transfer::identity::SigningIdentity;
use eth_transfer::poller::{PollAction, PollEvent, PollPolicy, PollState, Poller, Receipt};
use eth_transfer::transaction::{build_and_sign, TransferConfig};
use eth_transfer::txid::{submission_outcome, TransactionId};

const KEY: &str = "0xac0974bec39a17e36ba4a6b4d238ff944bacb478cbed5efcae784d7bf4f2ff80";
const SENDER: &str = "0xf39Fd6e51aad88F6F4ce6aB8827279cffFb92266";
const RECEIVER: &str = "0x7292dD72151DaCFBbE76305db1C8Ab1928E922E4";

fn poll(poller: &mut Poller, answers: Vec<PollEvent>) -> u32 {
    let mut queries = 0;
    let mut answers = answers.into_iter();
    while let PollAction::Query { .. } = poller.next_action() {
        let answer = answers.next().unwrap_or(PollEvent::Absent);
        queries += 1;
        poller.observe(&answer);
    }
    queries
}

#[test]
fn transfer_confirmed_on_the_third_poll() {
    let config = TransferConfig::arbitrum_sepolia();
    let from = validate_address(SENDER).unwrap();
    let to = validate_address(RECEIVER).unwrap();
    let identity = SigningIdentity::from_hex(KEY).ok().unwrap();
    let block = LatestBlock { number: 1, base_fee: Some(Wei::from_u64(100)) };

    let fees = config.fees.estimate(&block);
    assert_eq!(fees.effective_gas_price, Wei::from_u64(100 + 20 + 10_000_000));

    let signed = build_and_sign(&config, &from, &to, "0.0001", &identity, 421_614, &block, 0);
    assert!(signed.is_ok());

    let tx_id = submission_outcome(Ok([0x11; 32])).unwrap();
    let mut poller = Poller::new(tx_id, PollPolicy::standard());
    let receipt = Receipt { block_number: 77, gas_used: Wei::from_u64(21_000), status: 1 };
    let queries =
        poll(&mut poller, vec![PollEvent::Absent, PollEvent::Absent, PollEvent::Included(receipt)]);
    assert_eq!(queries, 3);
    assert_eq!(poller.ticks(), 3);
    assert_eq!(
        *poller.state(),
        PollState::Confirmed { block_number: 77, gas_used: Wei::from_u64(21_000) }
    );
}

#[test]
fn transfer_with_a_foreign_identity_is_never_signed() {
    let config = TransferConfig::arbitrum_sepolia();
    let declared = validate_address("0xd78677EFed3b87f8f421E68dA3F984ad8Ef76439").unwrap();
    let to = validate_address(RECEIVER).unwrap();
    let identity = SigningIdentity::from_hex(KEY).ok().unwrap();
    let block = LatestBlock { number: 1, base_fee: Some(Wei::from_u64(100)) };

    let result = build_and_sign(&config, &declared, &to, "0.0001", &identity, 421_614, &block, 0);
    assert_eq!(
        result,
        Err(TransferError::IdentityMismatch {
            signer: validate_address(SENDER).unwrap().bytes,
            sender: declared.bytes,
        })
    );
}

#[test]
fn transfer_times_out_after_twelve_absent_polls() {
    let tx_id = TransactionId { bytes: [0x22; 32] };
    let mut poller = Poller::new(tx_id, PollPolicy::standard());
    let queries = poll(&mut poller, Vec::new());
    assert_eq!(queries, 12);
    assert_eq!(*poller.state(), PollState::TimedOut);
    assert_eq!(poller.ticks(), 12);
    assert_eq!(poller.tx_id(), tx_id);
    assert_eq!(poller.tx_id().to_hex(), format!("0x{}", "22".repeat(32)));
}
