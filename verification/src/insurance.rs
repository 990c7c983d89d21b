//! Insurance vault module: vault balances, LP stakes, bad debt absorption,
//! yield and bounty claims, impermanent loss hedging and threshold status.
pub mod builder;
pub mod requests;
pub mod types;

pub use builder::{
    AbsorbDeficitBuilder, ClaimBountyBuilder, ClaimYieldBuilder, HedgeIlBuilder,
    ReplenishVaultBuilder, StakeToVaultBuilder, WithdrawStakeBuilder,
};
pub use requests::{
    AbsorbDeficitRequest, ClaimBountyRequest, ClaimYieldRequest, GetBadDebtHistoryRequest,
    GetIlMetricsRequest, GetLpStakeRequest, GetThresholdStatusRequest, GetVaultBalanceRequest,
    HedgeIlRequest, ListLpStakesRequest, ReplenishVaultRequest, StakeToVaultRequest,
    WithdrawStakeRequest,
};
pub use types::{BadDebtRecord, ChainType, IlMetrics, LpStake, PageInfo, ThresholdStatus, VaultBalance};
pub use crate::common::VERSION;
