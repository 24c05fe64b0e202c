//! The node's configuration as a whole.

use vstd::prelude::*;
use std::collections::HashMap;
use std::path::PathBuf;
use std::time::SystemTime;
use crate::mining::MiningConfig;
use crate::primitives::{AccountInfo, Address, BlobGas, SecretKey, SpecId, B256, U256};

verus! {

/// `std::path::PathBuf`, which a configuration stores and never opens.
#[verifier::external_type_specification]
#[verifier::external_body]
pub struct ExPathBuf(PathBuf);

/// `std::time::SystemTime`, which a configuration stores and never reads.
#[verifier::external_type_specification]
#[verifier::external_body]
pub struct ExSystemTime(SystemTime);

/// Where to fork from: the remote node, the block to start at (the latest
/// one if none is named), and headers to send with every request.
#[derive(Clone, Debug, PartialEq, Eq)]
pub struct ForkConfig {
    pub json_rpc_url: String,
    pub block_number: Option<u64>,
    pub http_headers: Option<HashMap<String, String>>,
}

/// Configuration input for a single account
pub struct AccountConfig {
    /// the secret key of the account
    pub secret_key: SecretKey,
    /// the balance of the account
    pub balance: U256,
}

/// Configuration for the provider
///
/// Built once when the node starts and only read from then on. Nothing here
/// checks a value: whoever builds the configuration has done so.
pub struct ProviderConfig {
    pub allow_blocks_with_same_timestamp: bool,
    pub allow_unlimited_contract_size: bool,
    /// The accounts that own a secret key, in the order in which they were
    /// given.
    pub accounts: Vec<AccountConfig>,
    pub block_gas_limit: u64,
    /// Where the forking client keeps what it has fetched. The directory is
    /// neither made nor looked at here.
    pub cache_dir: PathBuf,
    pub chain_id: u64,
    /// The address that is credited with the reward for each block.
    pub coinbase: Address,
    /// The chain to fork from; none for a chain of its own.
    pub fork: Option<ForkConfig>,
    /// Genesis accounts in addition to `accounts`: funded without a secret
    /// key, as impersonated accounts are.
    pub genesis_accounts: HashMap<Address, AccountInfo>,
    pub hardfork: SpecId,
    /// The base fee of the first block; where absent, the engine computes it.
    pub initial_base_fee_per_gas: Option<U256>,
    /// The blob gas of the first block; where absent, the engine computes it.
    pub initial_blob_gas: Option<BlobGas>,
    /// The time of the first block; where absent, the engine takes its own.
    pub initial_date: Option<SystemTime>,
    /// The beacon block root of the first block's parent; where absent, the
    /// engine takes its own.
    pub initial_parent_beacon_block_root: Option<B256>,
    pub mining: MiningConfig,
    pub network_id: u64,
}

/// A configuration holds each value as it was given: whatever a field was
/// built from is what the field reads, for every field and every value, an
/// absent one included.
pub proof fn lemma_fields_read_back(
    allow_blocks_with_same_timestamp: bool,
    allow_unlimited_contract_size: bool,
    accounts: Vec<AccountConfig>,
    block_gas_limit: u64,
    cache_dir: PathBuf,
    chain_id: u64,
    coinbase: Address,
    fork: Option<ForkConfig>,
    genesis_accounts: HashMap<Address, AccountInfo>,
    hardfork: SpecId,
    initial_base_fee_per_gas: Option<U256>,
    initial_blob_gas: Option<BlobGas>,
    initial_date: Option<SystemTime>,
    initial_parent_beacon_block_root: Option<B256>,
    mining: MiningConfig,
    network_id: u64,
)
    ensures
        ({
            let config = ProviderConfig {
                allow_blocks_with_same_timestamp,
                allow_unlimited_contract_size,
                accounts,
                block_gas_limit,
                cache_dir,
                chain_id,
                coinbase,
                fork,
                genesis_accounts,
                hardfork,
                initial_base_fee_per_gas,
                initial_blob_gas,
                initial_date,
                initial_parent_beacon_block_root,
                mining,
                network_id,
            };
            &&& config.allow_blocks_with_same_timestamp == allow_blocks_with_same_timestamp
            &&& config.allow_unlimited_contract_size == allow_unlimited_contract_size
            &&& config.accounts == accounts
            &&& config.block_gas_limit == block_gas_limit
            &&& config.cache_dir == cache_dir
            &&& config.chain_id == chain_id
            &&& config.coinbase == coinbase
            &&& config.fork == fork
            &&& config.genesis_accounts == genesis_accounts
            &&& config.hardfork == hardfork
            &&& config.initial_base_fee_per_gas == initial_base_fee_per_gas
            &&& config.initial_blob_gas == initial_blob_gas
            &&& config.initial_date == initial_date
            &&& config.initial_parent_beacon_block_root == initial_parent_beacon_block_root
            &&& config.mining == mining
            &&& config.network_id == network_id
        }),
{
}

/// The two ways of funding accounts stand side by side: putting other
/// accounts in place of `accounts` leaves `genesis_accounts` as it was, and
/// the other way round, whether or not the two name the same account.
pub proof fn lemma_funding_is_independent(
    config: ProviderConfig,
    accounts: Vec<AccountConfig>,
    genesis_accounts: HashMap<Address, AccountInfo>,
)
    ensures
        (ProviderConfig { accounts, ..config }).genesis_accounts == config.genesis_accounts,
        (ProviderConfig { accounts, ..config }).accounts == accounts,
        (ProviderConfig { genesis_accounts, ..config }).accounts == config.accounts,
        (ProviderConfig { genesis_accounts, ..config }).genesis_accounts == genesis_accounts,
{
}

} // verus!
