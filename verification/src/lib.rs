//! Lifecycle of a native-asset transfer on an account-based ledger: address
//! validation, fee estimation under a dynamic base-fee model, transaction
//! building and signing, and a bounded confirmation poller.
//!
//! Every function here is verified against the contract in its header. The
//! few places where the library relies on the `ethers` crate are private
//! functions marked `external_body`; their contracts are stated, not proved.

pub mod address;
pub mod amount;
pub mod decimal;
pub mod error;
pub mod fee;
pub mod hex;
pub mod identity;
pub mod poller;
pub mod transaction;
pub mod txid;
pub mod units;
