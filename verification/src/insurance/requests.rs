//! Request types of the insurance vault module.
use vstd::prelude::*;
use crate::common::{opt_view, own};
use crate::insurance::types::ChainType;

verus! {

/// Absorb a liquidation deficit into the insurance vault.
#[derive(Clone, Debug, PartialEq, Eq)]
pub struct AbsorbDeficitRequest {
    pub position_id: String,
    pub market_index: u64,
    pub asset_index: u64,
    pub deficit_amount: String,
    pub recovered_amount: String,
    pub absorber_address: String,
    pub absorber_external_address: Option<String>,
    pub absorber_chain_type: Option<ChainType>,
}

impl AbsorbDeficitRequest {
    /// Creates the request with no external address.
    pub fn new(position_id: &str, market_index: u64, asset_index: u64, deficit_amount: &str, recovered_amount: &str, absorber_address: &str) -> (r: Self)
        ensures
            r.position_id@ == position_id@,
            r.deficit_amount@ == deficit_amount@,
            r.recovered_amount@ == recovered_amount@,
            r.absorber_address@ == absorber_address@,
            r == (AbsorbDeficitRequest { position_id: r.position_id, market_index: market_index, asset_index: asset_index, deficit_amount: r.deficit_amount, recovered_amount: r.recovered_amount, absorber_address: r.absorber_address, absorber_external_address: None, absorber_chain_type: None }),
    {
        AbsorbDeficitRequest { position_id: own(position_id), market_index: market_index, asset_index: asset_index, deficit_amount: own(deficit_amount), recovered_amount: own(recovered_amount), absorber_address: own(absorber_address), absorber_external_address: None, absorber_chain_type: None }
    }

    /// Records the absorber's address on an external chain.
    pub fn absorber_external(self, addr: &str, chain: ChainType) -> (r: Self)
        ensures
            opt_view(r.absorber_external_address) == Some(addr@),
            r == (AbsorbDeficitRequest { absorber_external_address: r.absorber_external_address, absorber_chain_type: Some(chain), ..self }),
    {
        AbsorbDeficitRequest { absorber_external_address: Some(own(addr)), absorber_chain_type: Some(chain), ..self }
    }

}

/// Replenish the vault from fees or penalties.
#[derive(Clone, Debug, PartialEq, Eq)]
pub struct ReplenishVaultRequest {
    pub asset_index: u64,
    pub amount: String,
    pub source: String,
    pub replenisher_address: String,
    pub replenisher_external_address: Option<String>,
    pub replenisher_chain_type: Option<ChainType>,
}

impl ReplenishVaultRequest {
    /// Creates the request with no external address.
    pub fn new(asset_index: u64, amount: &str, source: &str, replenisher_address: &str) -> (r: Self)
        ensures
            r.amount@ == amount@,
            r.source@ == source@,
            r.replenisher_address@ == replenisher_address@,
            r == (ReplenishVaultRequest { asset_index: asset_index, amount: r.amount, source: r.source, replenisher_address: r.replenisher_address, replenisher_external_address: None, replenisher_chain_type: None }),
    {
        ReplenishVaultRequest { asset_index: asset_index, amount: own(amount), source: own(source), replenisher_address: own(replenisher_address), replenisher_external_address: None, replenisher_chain_type: None }
    }

    /// Records the replenisher's address on an external chain.
    pub fn replenisher_external(self, addr: &str, chain: ChainType) -> (r: Self)
        ensures
            opt_view(r.replenisher_external_address) == Some(addr@),
            r == (ReplenishVaultRequest { replenisher_external_address: r.replenisher_external_address, replenisher_chain_type: Some(chain), ..self }),
    {
        ReplenishVaultRequest { replenisher_external_address: Some(own(addr)), replenisher_chain_type: Some(chain), ..self }
    }

}

/// Stake assets into the insurance vault.
#[derive(Clone, Debug, PartialEq, Eq)]
pub struct StakeToVaultRequest {
    pub address: String,
    pub asset_index: u64,
    pub amount: String,
    pub external_address: Option<String>,
}

impl StakeToVaultRequest {
    /// Creates the request with no external address.
    pub fn new(address: &str, asset_index: u64, amount: &str) -> (r: Self)
        ensures
            r.address@ == address@,
            r.amount@ == amount@,
            r == (StakeToVaultRequest { address: r.address, asset_index: asset_index, amount: r.amount, external_address: None }),
    {
        StakeToVaultRequest { address: own(address), asset_index: asset_index, amount: own(amount), external_address: None }
    }

    /// Records the staker's external address.
    pub fn external_address(self, addr: &str) -> (r: Self)
        ensures
            opt_view(r.external_address) == Some(addr@),
            r == (StakeToVaultRequest { external_address: r.external_address, ..self }),
    {
        StakeToVaultRequest { external_address: Some(own(addr)), ..self }
    }

}

/// Withdraw staked assets from the insurance vault.
#[derive(Clone, Debug, PartialEq, Eq)]
pub struct WithdrawStakeRequest {
    pub address: String,
    pub asset_index: u64,
    pub shares: String,
    pub external_address: Option<String>,
}

impl WithdrawStakeRequest {
    /// Creates the request with no external address.
    pub fn new(address: &str, asset_index: u64, shares: &str) -> (r: Self)
        ensures
            r.address@ == address@,
            r.shares@ == shares@,
            r == (WithdrawStakeRequest { address: r.address, asset_index: asset_index, shares: r.shares, external_address: None }),
    {
        WithdrawStakeRequest { address: own(address), asset_index: asset_index, shares: own(shares), external_address: None }
    }

    /// Records the staker's external address.
    pub fn external_address(self, addr: &str) -> (r: Self)
        ensures
            opt_view(r.external_address) == Some(addr@),
            r == (WithdrawStakeRequest { external_address: r.external_address, ..self }),
    {
        WithdrawStakeRequest { external_address: Some(own(addr)), ..self }
    }

}

/// Claim accumulated yield from an insurance vault stake.
#[derive(Clone, Debug, PartialEq, Eq)]
pub struct ClaimYieldRequest {
    pub address: String,
    pub asset_index: u64,
    pub external_address: Option<String>,
}

impl ClaimYieldRequest {
    /// Creates the request with no external address.
    pub fn new(address: &str, asset_index: u64) -> (r: Self)
        ensures
            r.address@ == address@,
            r == (ClaimYieldRequest { address: r.address, asset_index: asset_index, external_address: None }),
    {
        ClaimYieldRequest { address: own(address), asset_index: asset_index, external_address: None }
    }

    /// Records the staker's external address.
    pub fn external_address(self, addr: &str) -> (r: Self)
        ensures
            opt_view(r.external_address) == Some(addr@),
            r == (ClaimYieldRequest { external_address: r.external_address, ..self }),
    {
        ClaimYieldRequest { external_address: Some(own(addr)), ..self }
    }

}

/// Claim a bounty for absorption/liquidation work.
#[derive(Clone, Debug, PartialEq, Eq)]
pub struct ClaimBountyRequest {
    pub address: String,
    pub asset_index: u64,
    pub liquidation_id: String,
    pub external_address: Option<String>,
}

impl ClaimBountyRequest {
    /// Creates the request with no external address.
    pub fn new(address: &str, asset_index: u64, liquidation_id: &str) -> (r: Self)
        ensures
            r.address@ == address@,
            r.liquidation_id@ == liquidation_id@,
            r == (ClaimBountyRequest { address: r.address, asset_index: asset_index, liquidation_id: r.liquidation_id, external_address: None }),
    {
        ClaimBountyRequest { address: own(address), asset_index: asset_index, liquidation_id: own(liquidation_id), external_address: None }
    }

    /// Records the claimer's external address.
    pub fn external_address(self, addr: &str) -> (r: Self)
        ensures
            opt_view(r.external_address) == Some(addr@),
            r == (ClaimBountyRequest { external_address: r.external_address, ..self }),
    {
        ClaimBountyRequest { external_address: Some(own(addr)), ..self }
    }

}

/// Hedge impermanent loss.
#[derive(Clone, Debug, PartialEq, Eq)]
pub struct HedgeIlRequest {
    pub address: String,
    pub asset_index: u64,
    pub amount: String,
    pub external_address: Option<String>,
}

impl HedgeIlRequest {
    /// Creates the request with no external address.
    pub fn new(address: &str, asset_index: u64, amount: &str) -> (r: Self)
        ensures
            r.address@ == address@,
            r.amount@ == amount@,
            r == (HedgeIlRequest { address: r.address, asset_index: asset_index, amount: r.amount, external_address: None }),
    {
        HedgeIlRequest { address: own(address), asset_index: asset_index, amount: own(amount), external_address: None }
    }

    /// Records the hedger's external address.
    pub fn external_address(self, addr: &str) -> (r: Self)
        ensures
            opt_view(r.external_address) == Some(addr@),
            r == (HedgeIlRequest { external_address: r.external_address, ..self }),
    {
        HedgeIlRequest { external_address: Some(own(addr)), ..self }
    }

}

/// Query vault balance, optionally filtered by asset.
#[derive(Clone, Debug, PartialEq, Eq)]
pub struct GetVaultBalanceRequest {
    pub asset_index: Option<u64>,
}

impl GetVaultBalanceRequest {
    /// The query for `asset_index`, or for every asset.
    pub fn new(asset_index: Option<u64>) -> (r: Self)
        ensures
            r == (GetVaultBalanceRequest { asset_index: asset_index }),
    {
        GetVaultBalanceRequest { asset_index: asset_index }
    }
}

/// Query a specific LP stake by address and optional asset.
#[derive(Clone, Debug, PartialEq, Eq)]
pub struct GetLpStakeRequest {
    pub address: String,
    pub asset_index: Option<u64>,
    pub external_address: Option<String>,
    pub chain_type: Option<ChainType>,
}

impl GetLpStakeRequest {
    /// The query for the stakes of `address`.
    pub fn new(address: &str) -> (r: Self)
        ensures
            r.address@ == address@,
            r == (GetLpStakeRequest { address: r.address, asset_index: None, external_address: None, chain_type: None }),
    {
        GetLpStakeRequest { address: own(address), asset_index: None, external_address: None, chain_type: None }
    }
    /// Restricts the query to one asset.
    pub fn asset_index(self, idx: u64) -> (r: Self)
        ensures
            r == (GetLpStakeRequest { asset_index: Some(idx), ..self }),
    {
        GetLpStakeRequest { asset_index: Some(idx), ..self }
    }
    /// Queries by an address on an external chain.
    pub fn external(self, addr: &str, chain: ChainType) -> (r: Self)
        ensures
            opt_view(r.external_address) == Some(addr@),
            r == (GetLpStakeRequest { external_address: r.external_address, chain_type: Some(chain), ..self }),
    {
        GetLpStakeRequest { external_address: Some(own(addr)), chain_type: Some(chain), ..self }
    }
}

/// List all LP stakes with pagination.
#[derive(Clone, Debug, PartialEq, Eq)]
pub struct ListLpStakesRequest {
    pub offset: u64,
    pub limit: u64,
    pub count_total: bool,
}

impl ListLpStakesRequest {
    /// One page of stakes, without the total count.
    pub fn new(offset: u64, limit: u64) -> (r: Self)
        ensures
            r == (ListLpStakesRequest { offset: offset, limit: limit, count_total: false }),
    {
        ListLpStakesRequest { offset: offset, limit: limit, count_total: false }
    }
    /// Asks for the total count as well.
    pub fn count_total(self) -> (r: Self)
        ensures
            r == (ListLpStakesRequest { count_total: true, ..self }),
    {
        ListLpStakesRequest { count_total: true, ..self }
    }
}

/// Query bad debt history with pagination and optional time bounds.
#[derive(Clone, Debug, PartialEq, Eq)]
pub struct GetBadDebtHistoryRequest {
    pub offset: u64,
    pub limit: u64,
    pub count_total: bool,
    pub start_time: Option<u64>,
    pub end_time: Option<u64>,
}

impl GetBadDebtHistoryRequest {
    /// One page of history, without time bounds or total count.
    pub fn new(offset: u64, limit: u64) -> (r: Self)
        ensures
            r == (GetBadDebtHistoryRequest { offset: offset, limit: limit, count_total: false, start_time: None, end_time: None }),
    {
        GetBadDebtHistoryRequest { offset: offset, limit: limit, count_total: false, start_time: None, end_time: None }
    }
    /// Asks for the total count as well.
    pub fn count_total(self) -> (r: Self)
        ensures
            r == (GetBadDebtHistoryRequest { count_total: true, ..self }),
    {
        GetBadDebtHistoryRequest { count_total: true, ..self }
    }
    /// Only records at or after `ts`.
    pub fn start_time(self, ts: u64) -> (r: Self)
        ensures
            r == (GetBadDebtHistoryRequest { start_time: Some(ts), ..self }),
    {
        GetBadDebtHistoryRequest { start_time: Some(ts), ..self }
    }
    /// Only records at or before `ts`.
    pub fn end_time(self, ts: u64) -> (r: Self)
        ensures
            r == (GetBadDebtHistoryRequest { end_time: Some(ts), ..self }),
    {
        GetBadDebtHistoryRequest { end_time: Some(ts), ..self }
    }
}

/// Query IL metrics, optionally filtered by asset.
#[derive(Clone, Debug, PartialEq, Eq)]
pub struct GetIlMetricsRequest {
    pub asset_index: Option<u64>,
}

impl GetIlMetricsRequest {
    /// The query for `asset_index`, or for every asset.
    pub fn new(asset_index: Option<u64>) -> (r: Self)
        ensures
            r == (GetIlMetricsRequest { asset_index: asset_index }),
    {
        GetIlMetricsRequest { asset_index: asset_index }
    }
}

/// Query threshold status, optionally filtered by asset.
#[derive(Clone, Debug, PartialEq, Eq)]
pub struct GetThresholdStatusRequest {
    pub asset_index: Option<u64>,
}

impl GetThresholdStatusRequest {
    /// The query for `asset_index`, or for every asset.
    pub fn new(asset_index: Option<u64>) -> (r: Self)
        ensures
            r == (GetThresholdStatusRequest { asset_index: asset_index }),
    {
        GetThresholdStatusRequest { asset_index: asset_index }
    }
}

} // verus!
