//! Start-up configuration of a local Ethereum development node: chain and
//! network parameters, the funded accounts, and the rules by which blocks are
//! mined. The values are assembled once and only read afterwards; the one
//! operation here that computes anything draws the pause between two
//! automatically mined blocks.

pub mod interval;
pub mod mining;
pub mod primitives;
pub mod provider;

pub use crate::interval::{IntervalConfig, InvalidRange};
pub use crate::mining::{MemPoolConfig, MineOrdering, MiningConfig};
pub use crate::primitives::{AccountInfo, Address, BlobGas, SecretKey, SpecId, B256, U256};
pub use crate::provider::{AccountConfig, ForkConfig, ProviderConfig};
