//! Transaction intent lifecycle for multi-signer accounts: proposing transfers,
//! recording signer votes, evaluating the quorum and driving execution at most once.

pub mod intent;
pub mod laws;
pub mod ledger;
pub mod quorum;
pub mod signer;
pub mod store;

pub use intent::{GatewayOutcome, IntentError, IntentStatus, TransactionIntent};
pub use quorum::{evaluate, evaluate_with_universe, Decision};
pub use signer::Signer;
pub use store::IntentStore;
