//! A verified model of an interchain-accounts test contract: the messages it
//! accepts, the outgoing interchain messages it builds, the storage slots it
//! reads and writes, and the decoding of undelegation callbacks.

pub mod decimal;
pub mod msg;
pub mod chain;
pub mod text;
pub mod proto;
pub mod state;
pub mod contract;
pub mod sudo;
pub mod query;
pub mod laws;
pub mod runs;
pub mod execution_laws;
