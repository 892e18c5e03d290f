//! An in-memory world state for account-based ledger execution: accounts,
//! their storage and code, an execution context, and the commit of diffs.
pub mod types;
pub mod vec_map;
pub mod hash;
pub mod memory;
pub mod laws;

pub use crate::memory::{AccountModel, MemoryAccount, MemoryBackend, MemoryVicinity};
pub use crate::types::{Apply, Basic, Log, H160, H256, U256};
pub use crate::vec_map::{KeyEq, VecMap};
