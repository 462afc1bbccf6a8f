//! On-chain accounting of content consumption units (CCU), gated by EIP-712
//! signatures: a platform registry, per-(user, platform) consumption ledgers
//! with their replay protection, the typed-data hashing and signer recovery
//! they rest on, and the lookups of the deployment tooling's output file.

pub mod bytes;
pub mod channel;
pub mod consumption;
pub mod contract;
pub mod eip712;
pub mod errors;
pub mod laws;
pub mod output_writer;
pub mod owned;
pub mod platform;
pub mod script_error;
pub mod signature;
pub mod store;
