//! A single-node ledger engine for a Starknet-style smart-contract network.
//!
//! The engine receives typed transactions (account deployment, class
//! declaration, invocation), validates them against a layered in-memory
//! state store, derives deterministic contract addresses and transaction
//! hashes, and applies protocol-level state transitions.  Contract
//! entry-point execution and the prime-field hash primitives are external
//! capabilities: the former is delegated to the embedding process, the
//! latter are reached through a small set of trusted wrappers.

pub mod block;
pub mod crypto;
pub mod felt;
pub mod hash;
pub mod sequencer;
pub mod state;
pub mod transaction;

pub use block::{BlockContext, Config, StarknetBlock, StarknetBlocks};
pub use felt::Felt;
pub use sequencer::{Error, KatanaSequencer};
pub use state::{CachedState, CompiledClass, DictStateReader, StateError};
pub use transaction::{
    DeclareTransaction, DeployAccountTransaction, InvokeTransaction, Transaction,
};
