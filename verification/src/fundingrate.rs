//! Funding-rate module: funding-rate data, application modes, per-market
//! funding profiles, module configuration and funding events.
use vstd::prelude::*;
use vstd::std_specs::convert::FromSpecImpl;
use crate::common::{fails_with, opt_view, own, require, SdkError};

pub use crate::common::VERSION;

verus! {

/// How funding is realized per position.
#[derive(Clone, Copy, Debug, PartialEq, Eq, Hash, Structural)]
pub enum FundingApplicationMode {
    Unspecified,
    /// Full signed payment (standard zero-sum).
    BothSides,
    /// Skip the deduction when the payer is in unrealized loss.
    UpsideOnly,
    /// Full application plus a configurable skim to treasury and LPs.
    MormBoost,
}

/// The wire number of each `FundingApplicationMode` variant.
pub open spec fn funding_application_mode_number(v: FundingApplicationMode) -> i32 {
    match v {
        FundingApplicationMode::Unspecified => 0,
        FundingApplicationMode::BothSides => 1,
        FundingApplicationMode::UpsideOnly => 2,
        FundingApplicationMode::MormBoost => 3,
    }
}

/// The `FundingApplicationMode` that a wire number denotes; unknown numbers give `Unspecified`.
pub open spec fn funding_application_mode_of(n: i32) -> FundingApplicationMode {
    if n == 1 {
        FundingApplicationMode::BothSides
    } else if n == 2 {
        FundingApplicationMode::UpsideOnly
    } else if n == 3 {
        FundingApplicationMode::MormBoost
    } else {
        FundingApplicationMode::Unspecified
    }
}

impl From<i32> for FundingApplicationMode {
    /// The variant of a wire number; unknown numbers give `Unspecified`.
    fn from(v: i32) -> (r: FundingApplicationMode) {
        match v {
            1 => FundingApplicationMode::BothSides,
            2 => FundingApplicationMode::UpsideOnly,
            3 => FundingApplicationMode::MormBoost,
            _ => FundingApplicationMode::Unspecified,
        }
    }
}

impl FromSpecImpl<i32> for FundingApplicationMode {
    open spec fn obeys_from_spec() -> bool {
        true
    }

    open spec fn from_spec(v: i32) -> FundingApplicationMode {
        funding_application_mode_of(v)
    }
}

impl From<FundingApplicationMode> for i32 {
    /// The wire number of a variant.
    fn from(t: FundingApplicationMode) -> (r: i32) {
        match t {
            FundingApplicationMode::Unspecified => 0,
            FundingApplicationMode::BothSides => 1,
            FundingApplicationMode::UpsideOnly => 2,
            FundingApplicationMode::MormBoost => 3,
        }
    }
}

impl FromSpecImpl<FundingApplicationMode> for i32 {
    open spec fn obeys_from_spec() -> bool {
        true
    }

    open spec fn from_spec(t: FundingApplicationMode) -> i32 {
        funding_application_mode_number(t)
    }
}

/// Every `FundingApplicationMode` survives the trip to its wire number and back, and every
/// number in `0..=3` survives the trip to a variant and back; any
/// other number reads as `Unspecified`.
pub proof fn lemma_funding_application_mode_roundtrip(v: FundingApplicationMode, n: i32)
    ensures
        funding_application_mode_of(funding_application_mode_number(v)) == v,
        0 <= n <= 3 ==> funding_application_mode_number(funding_application_mode_of(n)) == n,
        !(0 <= n <= 3) ==> funding_application_mode_of(n) == FundingApplicationMode::Unspecified,
{
}

/// The wire numbers of `FundingApplicationMode`, both ways: `Unspecified` is 0, `BothSides` is 1, `UpsideOnly` is 2, `MormBoost` is 3; any other number reads
/// as `Unspecified`.
pub proof fn law_funding_application_mode_wire_numbers(n: i32)
    ensures
        funding_application_mode_number(FundingApplicationMode::Unspecified) == 0,
        funding_application_mode_number(FundingApplicationMode::BothSides) == 1,
        funding_application_mode_number(FundingApplicationMode::UpsideOnly) == 2,
        funding_application_mode_number(FundingApplicationMode::MormBoost) == 3,
        funding_application_mode_of(0) == FundingApplicationMode::Unspecified,
        funding_application_mode_of(1) == FundingApplicationMode::BothSides,
        funding_application_mode_of(2) == FundingApplicationMode::UpsideOnly,
        funding_application_mode_of(3) == FundingApplicationMode::MormBoost,
        !(0 <= n <= 3) ==> funding_application_mode_of(n) == FundingApplicationMode::Unspecified,
{
}

/// Leverage model used for the funding calculation.
#[derive(Clone, Copy, Debug, PartialEq, Eq, Hash, Structural)]
pub enum FundingType {
    Unspecified,
    Linear,
    Power,
}

/// The wire number of each `FundingType` variant.
pub open spec fn funding_type_number(v: FundingType) -> i32 {
    match v {
        FundingType::Unspecified => 0,
        FundingType::Linear => 1,
        FundingType::Power => 2,
    }
}

/// The `FundingType` that a wire number denotes; unknown numbers give `Unspecified`.
pub open spec fn funding_type_of(n: i32) -> FundingType {
    if n == 1 {
        FundingType::Linear
    } else if n == 2 {
        FundingType::Power
    } else {
        FundingType::Unspecified
    }
}

impl From<i32> for FundingType {
    /// The variant of a wire number; unknown numbers give `Unspecified`.
    fn from(v: i32) -> (r: FundingType) {
        match v {
            1 => FundingType::Linear,
            2 => FundingType::Power,
            _ => FundingType::Unspecified,
        }
    }
}

impl FromSpecImpl<i32> for FundingType {
    open spec fn obeys_from_spec() -> bool {
        true
    }

    open spec fn from_spec(v: i32) -> FundingType {
        funding_type_of(v)
    }
}

impl From<FundingType> for i32 {
    /// The wire number of a variant.
    fn from(t: FundingType) -> (r: i32) {
        match t {
            FundingType::Unspecified => 0,
            FundingType::Linear => 1,
            FundingType::Power => 2,
        }
    }
}

impl FromSpecImpl<FundingType> for i32 {
    open spec fn obeys_from_spec() -> bool {
        true
    }

    open spec fn from_spec(t: FundingType) -> i32 {
        funding_type_number(t)
    }
}

/// Every `FundingType` survives the trip to its wire number and back, and every
/// number in `0..=2` survives the trip to a variant and back; any
/// other number reads as `Unspecified`.
pub proof fn lemma_funding_type_roundtrip(v: FundingType, n: i32)
    ensures
        funding_type_of(funding_type_number(v)) == v,
        0 <= n <= 2 ==> funding_type_number(funding_type_of(n)) == n,
        !(0 <= n <= 2) ==> funding_type_of(n) == FundingType::Unspecified,
{
}

/// The wire numbers of `FundingType`, both ways: `Unspecified` is 0, `Linear` is 1, `Power` is 2; any other number reads
/// as `Unspecified`.
pub proof fn law_funding_type_wire_numbers(n: i32)
    ensures
        funding_type_number(FundingType::Unspecified) == 0,
        funding_type_number(FundingType::Linear) == 1,
        funding_type_number(FundingType::Power) == 2,
        funding_type_of(0) == FundingType::Unspecified,
        funding_type_of(1) == FundingType::Linear,
        funding_type_of(2) == FundingType::Power,
        !(0 <= n <= 2) ==> funding_type_of(n) == FundingType::Unspecified,
{
}

/// Funding-rate calculation result of a market; monetary values in satoshi (1e8).
#[derive(Clone, Debug, PartialEq, Eq)]
pub struct FundingRateData {
    pub market_index: u64,
    pub symbol: String,
    pub funding_rate: i64,
    pub mark_price: u64,
    pub index_price: u64,
    pub ema_funding_rate: i64,
    pub next_funding_time: u64,
}

/// Funding application configuration of a market.
#[derive(Clone, Debug, PartialEq, Eq)]
pub struct FundingMarketProfile {
    pub mode: FundingApplicationMode,
    pub vrf_bias_bps: u32,
    pub protocol_cut_bps: u32,
    pub lp_incentive_bps: u32,
}

/// Position data needed to apply funding.
#[derive(Clone, Debug, PartialEq, Eq)]
pub struct FundingPosition {
    pub address: String,
    pub position_id: String,
    pub size: u64,
    pub entry_price: u64,
    pub is_long: bool,
    pub leverage: u64,
    pub power: u64,
    pub entries_count: u32,
}

/// Module-level funding-rate configuration.
#[derive(Clone, Debug, PartialEq, Eq)]
pub struct FundingRateConfig {
    pub payment_interval_secs: u64,
    pub enable_linear_leverage: bool,
    pub enable_power_leverage: bool,
    pub enable_vrf: bool,
    pub worker_count: u32,
    pub ema_lambda: u64,
    pub max_funding_rate: i64,
    pub min_funding_rate: i64,
    pub default_volatility_sigma: u64,
}

/// Emitted for each position that receives a funding payment.
#[derive(Clone, Debug, PartialEq, Eq)]
pub struct FundingApplied {
    pub address: String,
    pub market_index: u64,
    pub payment: i64,
    pub shortfall: u64,
    pub profile_mode: u32,
    pub funding_type: FundingType,
    pub timestamp: u64,
    pub size: u64,
    pub is_long: bool,
    pub mark_price: u64,
    pub index_price: u64,
}

/// Emitted when upside-only funding skips a deduction.
#[derive(Clone, Debug, PartialEq, Eq)]
pub struct FundingShortfall {
    pub market_index: u64,
    pub shortfall_satoshi: u64,
    pub timestamp: u64,
}

/// Emitted for the treasury and LP routing of boosted funding.
#[derive(Clone, Debug, PartialEq, Eq)]
pub struct MormFundingCutEvent {
    pub market_index: u64,
    pub treasury_amount: u64,
    pub lp_reward_amount: u64,
}

/// Update a market's funding profile (governance only).
#[derive(Clone, Debug, PartialEq, Eq)]
pub struct UpdateMarketProfileRequest {
    pub authority: String,
    pub market_index: u64,
    pub profile: FundingMarketProfile,
}

impl UpdateMarketProfileRequest {
    /// Creates a profile update.
    pub fn new(authority: &str, market_index: u64, profile: FundingMarketProfile) -> (r: Self)
        ensures
            r.authority@ == authority@,
            r == (UpdateMarketProfileRequest { authority: r.authority, market_index: market_index, profile: profile }),
    {
        UpdateMarketProfileRequest { authority: own(authority), market_index: market_index, profile: profile }
    }
}

/// Query the current funding rate of a market.
#[derive(Clone, Debug, PartialEq, Eq)]
pub struct GetFundingRateRequest {
    pub market_index: u64,
}

impl GetFundingRateRequest {
    /// The query for one market.
    pub fn new(market_index: u64) -> (r: Self)
        ensures
            r == (GetFundingRateRequest { market_index: market_index }),
    {
        GetFundingRateRequest { market_index: market_index }
    }
}

/// Query the next funding time of a market.
#[derive(Clone, Debug, PartialEq, Eq)]
pub struct GetNextFundingTimeRequest {
    pub market_index: u64,
}

impl GetNextFundingTimeRequest {
    /// The query for one market.
    pub fn new(market_index: u64) -> (r: Self)
        ensures
            r == (GetNextFundingTimeRequest { market_index: market_index }),
    {
        GetNextFundingTimeRequest { market_index: market_index }
    }
}

/// Query the funding profile of a market.
#[derive(Clone, Debug, PartialEq, Eq)]
pub struct GetMarketProfileRequest {
    pub market_index: u64,
}

impl GetMarketProfileRequest {
    /// The query for one market.
    pub fn new(market_index: u64) -> (r: Self)
        ensures
            r == (GetMarketProfileRequest { market_index: market_index }),
    {
        GetMarketProfileRequest { market_index: market_index }
    }
}

/// Builder for a market funding-profile update.
pub struct UpdateMarketProfileBuilder {
    pub authority: Option<String>,
    pub market_index: Option<u64>,
    pub profile: Option<FundingMarketProfile>,
}

impl UpdateMarketProfileBuilder {
    /// A builder with no field set.
    pub fn new() -> (r: Self)
        ensures
            r.authority is None,
            r.market_index is None,
            r.profile is None,
    {
        UpdateMarketProfileBuilder { authority: None, market_index: None, profile: None }
    }

    /// Sets the governance authority.
    pub fn authority(self, authority: &str) -> (r: Self)
        ensures
            opt_view(r.authority) == Some(authority@),
            r == (UpdateMarketProfileBuilder { authority: r.authority, ..self }),
    {
        UpdateMarketProfileBuilder { authority: Some(own(authority)), ..self }
    }

    /// Sets the market.
    pub fn market_index(self, idx: u64) -> (r: Self)
        ensures
            r == (UpdateMarketProfileBuilder { market_index: Some(idx), ..self }),
    {
        UpdateMarketProfileBuilder { market_index: Some(idx), ..self }
    }

    /// Sets the new profile.
    pub fn profile(self, p: FundingMarketProfile) -> (r: Self)
        ensures
            r == (UpdateMarketProfileBuilder { profile: Some(p), ..self }),
    {
        UpdateMarketProfileBuilder { profile: Some(p), ..self }
    }

    /// Builds the update; the authority, market and profile are required, in that order.
    pub fn build(self) -> (r: Result<UpdateMarketProfileRequest, SdkError>)
        ensures
            self.authority is None ==> fails_with(r, "authority is required"@),
            self.authority is Some && self.market_index is None ==> fails_with(r, "market_index is required"@),
            self.authority is Some && self.market_index is Some && self.profile is None ==> fails_with(r, "profile is required"@),
            self.authority is Some && self.market_index is Some && self.profile is Some ==> r == Ok::<UpdateMarketProfileRequest, SdkError>(UpdateMarketProfileRequest {
                authority: self.authority.unwrap(),
                market_index: self.market_index.unwrap(),
                profile: self.profile.unwrap(),
            }),
    {
        let authority = require(self.authority, "authority is required")?;
        let market_index = require(self.market_index, "market_index is required")?;
        let profile = require(self.profile, "profile is required")?;
        Ok(UpdateMarketProfileRequest { authority, market_index, profile })
    }
}

/// Funding rate snapshot for a market.
#[derive(Clone, Debug, PartialEq, Eq)]
pub struct FundingRateSnapshot {
    pub funding_rate: i64,
    pub mark_price: u64,
    pub index_price: u64,
    pub ema_funding_rate: i64,
    pub symbol: String,
}

} // verus!
