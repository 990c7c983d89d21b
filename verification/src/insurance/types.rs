//! Domain types of the insurance vault: balances, LP stakes, bad debt
//! records, impermanent loss metrics and threshold status.
use vstd::prelude::*;
use vstd::std_specs::convert::FromSpecImpl;

verus! {

/// Chain type for multi-chain address derivation.
#[derive(Clone, Copy, Debug, PartialEq, Eq, Hash, Structural)]
pub enum ChainType {
    Unspecified,
    Ethereum,
    Solana,
    Bitcoin,
}

/// The wire number of each `ChainType` variant.
pub open spec fn chain_type_number(v: ChainType) -> i32 {
    match v {
        ChainType::Unspecified => 0,
        ChainType::Ethereum => 1,
        ChainType::Solana => 2,
        ChainType::Bitcoin => 3,
    }
}

/// The `ChainType` that a wire number denotes; unknown numbers give `Unspecified`.
pub open spec fn chain_type_of(n: i32) -> ChainType {
    if n == 1 {
        ChainType::Ethereum
    } else if n == 2 {
        ChainType::Solana
    } else if n == 3 {
        ChainType::Bitcoin
    } else {
        ChainType::Unspecified
    }
}

impl From<i32> for ChainType {
    /// The variant of a wire number; unknown numbers give `Unspecified`.
    fn from(v: i32) -> (r: ChainType) {
        match v {
            1 => ChainType::Ethereum,
            2 => ChainType::Solana,
            3 => ChainType::Bitcoin,
            _ => ChainType::Unspecified,
        }
    }
}

impl FromSpecImpl<i32> for ChainType {
    open spec fn obeys_from_spec() -> bool {
        true
    }

    open spec fn from_spec(v: i32) -> ChainType {
        chain_type_of(v)
    }
}

impl From<ChainType> for i32 {
    /// The wire number of a variant.
    fn from(t: ChainType) -> (r: i32) {
        match t {
            ChainType::Unspecified => 0,
            ChainType::Ethereum => 1,
            ChainType::Solana => 2,
            ChainType::Bitcoin => 3,
        }
    }
}

impl FromSpecImpl<ChainType> for i32 {
    open spec fn obeys_from_spec() -> bool {
        true
    }

    open spec fn from_spec(t: ChainType) -> i32 {
        chain_type_number(t)
    }
}

/// Every `ChainType` survives the trip to its wire number and back, and every
/// number in `0..=3` survives the trip to a variant and back; any
/// other number reads as `Unspecified`.
pub proof fn lemma_chain_type_roundtrip(v: ChainType, n: i32)
    ensures
        chain_type_of(chain_type_number(v)) == v,
        0 <= n <= 3 ==> chain_type_number(chain_type_of(n)) == n,
        !(0 <= n <= 3) ==> chain_type_of(n) == ChainType::Unspecified,
{
}

/// The wire numbers of `ChainType`, both ways: `Unspecified` is 0, `Ethereum` is 1, `Solana` is 2, `Bitcoin` is 3; any other number reads
/// as `Unspecified`.
pub proof fn law_chain_type_wire_numbers(n: i32)
    ensures
        chain_type_number(ChainType::Unspecified) == 0,
        chain_type_number(ChainType::Ethereum) == 1,
        chain_type_number(ChainType::Solana) == 2,
        chain_type_number(ChainType::Bitcoin) == 3,
        chain_type_of(0) == ChainType::Unspecified,
        chain_type_of(1) == ChainType::Ethereum,
        chain_type_of(2) == ChainType::Solana,
        chain_type_of(3) == ChainType::Bitcoin,
        !(0 <= n <= 3) ==> chain_type_of(n) == ChainType::Unspecified,
{
}

/// Vault balance for an asset. Monetary values are satoshi-format strings (u256).
#[derive(Clone, Debug, PartialEq, Eq)]
pub struct VaultBalance {
    pub asset_index: u64,
    pub asset_symbol: String,
    pub total_balance: String,
    pub available_balance: String,
    pub reserved_balance: String,
    pub min_threshold: String,
    pub updated_at: u64,
}

/// LP stake held by a provider. Monetary values are satoshi-format strings (u256).
#[derive(Clone, Debug, PartialEq, Eq)]
pub struct LpStake {
    pub stake_id: String,
    pub address: String,
    pub asset_index: u64,
    pub asset_symbol: String,
    pub amount: String,
    pub shares: String,
    pub pending_yield: String,
    pub stake_time: u64,
    pub last_claim_time: u64,
    pub external_address: Option<String>,
    pub chain_type: Option<ChainType>,
}

/// Record of bad debt absorbed by the insurance vault.
#[derive(Clone, Debug, PartialEq, Eq)]
pub struct BadDebtRecord {
    pub record_id: String,
    pub position_id: String,
    pub market_index: u64,
    pub asset_index: u64,
    pub asset_symbol: String,
    pub deficit_amount: String,
    pub recovered_amount: String,
    pub gap_amount: String,
    pub absorber_address: String,
    pub timestamp: u64,
    pub event_type: String,
    pub absorber_external_address: Option<String>,
    pub absorber_chain_type: Option<ChainType>,
}

/// Impermanent loss metrics for an asset.
#[derive(Clone, Debug, PartialEq, Eq)]
pub struct IlMetrics {
    pub asset_index: u64,
    pub asset_symbol: String,
    pub current_il: String,
    pub il_1h_avg: String,
    pub il_24h_avg: String,
    pub timestamp: u64,
}

/// Vault threshold status for an asset.
#[derive(Clone, Debug, PartialEq, Eq)]
pub struct ThresholdStatus {
    pub asset_index: u64,
    pub asset_symbol: String,
    pub near_depletion: bool,
    pub paused: bool,
    pub depletion_percentage: String,
    pub last_checked: u64,
}

/// Pagination metadata for list responses.
#[derive(Clone, Debug, PartialEq, Eq)]
pub struct PageInfo {
    pub next_key: Vec<u8>,
    pub total: u64,
}

} // verus!
