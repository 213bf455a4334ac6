use eth_transfer::error::{Stage, TransferError};

#[test]
fn every_failure_names_its_stage() {
    let cases = vec![
        (TransferError::InvalidAddress { input: "0x1".to_string() }, Stage::AddressValidator),
        (
            TransferError::IdentityMismatch { signer: [1; 20], sender: [2; 20] },
            Stage::BuilderAndSigner,
        ),
        (TransferError::WrongNetwork { expected: 421_614, actual: 1 }, Stage::BuilderAndSigner),
        (TransferError::AmountParseError { input: "x".to_string() }, Stage::BuilderAndSigner),
        (TransferError::SigningFailed, Stage::BuilderAndSigner),
        (TransferError::SubmitError { reason: "nonce too low".to_string() }, Stage::Broadcaster),
        (TransferError::PollError { reason: "timeout".to_string() }, Stage::ConfirmationPoller),
    ];
    for (error, stage) in cases {
        assert_eq!(error.stage(), stage, "{:?}", error);
    }
}
