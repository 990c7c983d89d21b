//! Fluent builders for the insurance vault requests.
use vstd::prelude::*;
use crate::common::{fails_with, opt_view, own, require, SdkError};
use crate::insurance::requests::{
    AbsorbDeficitRequest, ClaimBountyRequest, ClaimYieldRequest, HedgeIlRequest,
    ReplenishVaultRequest, StakeToVaultRequest, WithdrawStakeRequest,
};
use crate::insurance::types::ChainType;

verus! {

/// Builder for `AbsorbDeficitRequest`.
pub struct AbsorbDeficitBuilder {
    pub position_id: Option<String>,
    pub market_index: Option<u64>,
    pub asset_index: Option<u64>,
    pub deficit_amount: Option<String>,
    pub recovered_amount: Option<String>,
    pub absorber_address: Option<String>,
    pub absorber_external_address: Option<String>,
    pub absorber_chain_type: Option<ChainType>,
}

impl AbsorbDeficitBuilder {
    /// A builder with no field set.
    pub fn new() -> (r: Self)
        ensures
            r.position_id is None,
            r.market_index is None,
            r.asset_index is None,
            r.deficit_amount is None,
            r.recovered_amount is None,
            r.absorber_address is None,
            r.absorber_external_address is None,
            r.absorber_chain_type is None,
    {
        AbsorbDeficitBuilder { position_id: None, market_index: None, asset_index: None, deficit_amount: None, recovered_amount: None, absorber_address: None, absorber_external_address: None, absorber_chain_type: None }
    }

    /// Sets `position_id`.
    pub fn position_id(self, v: &str) -> (r: Self)
        ensures
            opt_view(r.position_id) == Some(v@),
            r == (AbsorbDeficitBuilder { position_id: r.position_id, ..self }),
    {
        AbsorbDeficitBuilder { position_id: Some(own(v)), ..self }
    }

    /// Sets `market_index`.
    pub fn market_index(self, v: u64) -> (r: Self)
        ensures
            r == (AbsorbDeficitBuilder { market_index: Some(v), ..self }),
    {
        AbsorbDeficitBuilder { market_index: Some(v), ..self }
    }

    /// Sets `asset_index`.
    pub fn asset_index(self, v: u64) -> (r: Self)
        ensures
            r == (AbsorbDeficitBuilder { asset_index: Some(v), ..self }),
    {
        AbsorbDeficitBuilder { asset_index: Some(v), ..self }
    }

    /// Sets `deficit_amount`.
    pub fn deficit_amount(self, v: &str) -> (r: Self)
        ensures
            opt_view(r.deficit_amount) == Some(v@),
            r == (AbsorbDeficitBuilder { deficit_amount: r.deficit_amount, ..self }),
    {
        AbsorbDeficitBuilder { deficit_amount: Some(own(v)), ..self }
    }

    /// Sets `recovered_amount`.
    pub fn recovered_amount(self, v: &str) -> (r: Self)
        ensures
            opt_view(r.recovered_amount) == Some(v@),
            r == (AbsorbDeficitBuilder { recovered_amount: r.recovered_amount, ..self }),
    {
        AbsorbDeficitBuilder { recovered_amount: Some(own(v)), ..self }
    }

    /// Sets `absorber_address`.
    pub fn absorber_address(self, v: &str) -> (r: Self)
        ensures
            opt_view(r.absorber_address) == Some(v@),
            r == (AbsorbDeficitBuilder { absorber_address: r.absorber_address, ..self }),
    {
        AbsorbDeficitBuilder { absorber_address: Some(own(v)), ..self }
    }

    /// Records the absorber's address on an external chain.
    pub fn absorber_external(self, addr: &str, chain: ChainType) -> (r: Self)
        ensures
            opt_view(r.absorber_external_address) == Some(addr@),
            r == (AbsorbDeficitBuilder { absorber_external_address: r.absorber_external_address, absorber_chain_type: Some(chain), ..self }),
    {
        AbsorbDeficitBuilder { absorber_external_address: Some(own(addr)), absorber_chain_type: Some(chain), ..self }
    }

    /// Builds the request; every required field must have been set.
    pub fn build(self) -> (r: Result<AbsorbDeficitRequest, SdkError>)
        ensures
            self.position_id is None ==> fails_with(r, "position_id is required"@),
            self.position_id is Some && self.market_index is None ==> fails_with(r, "market_index is required"@),
            self.position_id is Some && self.market_index is Some && self.asset_index is None ==> fails_with(r, "asset_index is required"@),
            self.position_id is Some && self.market_index is Some && self.asset_index is Some && self.deficit_amount is None ==> fails_with(r, "deficit_amount is required"@),
            self.position_id is Some && self.market_index is Some && self.asset_index is Some && self.deficit_amount is Some && self.recovered_amount is None ==> fails_with(r, "recovered_amount is required"@),
            self.position_id is Some && self.market_index is Some && self.asset_index is Some && self.deficit_amount is Some && self.recovered_amount is Some && self.absorber_address is None ==> fails_with(r, "absorber_address is required"@),
            self.position_id is Some && self.market_index is Some && self.asset_index is Some && self.deficit_amount is Some && self.recovered_amount is Some && self.absorber_address is Some ==> r == Ok::<AbsorbDeficitRequest, SdkError>(AbsorbDeficitRequest {
                position_id: self.position_id.unwrap(),
                market_index: self.market_index.unwrap(),
                asset_index: self.asset_index.unwrap(),
                deficit_amount: self.deficit_amount.unwrap(),
                recovered_amount: self.recovered_amount.unwrap(),
                absorber_address: self.absorber_address.unwrap(),
                absorber_external_address: self.absorber_external_address,
                absorber_chain_type: self.absorber_chain_type,
            }),
    {
        let position_id = require(self.position_id, "position_id is required")?;
        let market_index = require(self.market_index, "market_index is required")?;
        let asset_index = require(self.asset_index, "asset_index is required")?;
        let deficit_amount = require(self.deficit_amount, "deficit_amount is required")?;
        let recovered_amount = require(self.recovered_amount, "recovered_amount is required")?;
        let absorber_address = require(self.absorber_address, "absorber_address is required")?;
        Ok(AbsorbDeficitRequest { position_id, market_index, asset_index, deficit_amount, recovered_amount, absorber_address, absorber_external_address: self.absorber_external_address, absorber_chain_type: self.absorber_chain_type })
    }
}

/// Builder for `ReplenishVaultRequest`.
pub struct ReplenishVaultBuilder {
    pub asset_index: Option<u64>,
    pub amount: Option<String>,
    pub source: Option<String>,
    pub replenisher_address: Option<String>,
    pub replenisher_external_address: Option<String>,
    pub replenisher_chain_type: Option<ChainType>,
}

impl ReplenishVaultBuilder {
    /// A builder with no field set.
    pub fn new() -> (r: Self)
        ensures
            r.asset_index is None,
            r.amount is None,
            r.source is None,
            r.replenisher_address is None,
            r.replenisher_external_address is None,
            r.replenisher_chain_type is None,
    {
        ReplenishVaultBuilder { asset_index: None, amount: None, source: None, replenisher_address: None, replenisher_external_address: None, replenisher_chain_type: None }
    }

    /// Sets `asset_index`.
    pub fn asset_index(self, v: u64) -> (r: Self)
        ensures
            r == (ReplenishVaultBuilder { asset_index: Some(v), ..self }),
    {
        ReplenishVaultBuilder { asset_index: Some(v), ..self }
    }

    /// Sets `amount`.
    pub fn amount(self, v: &str) -> (r: Self)
        ensures
            opt_view(r.amount) == Some(v@),
            r == (ReplenishVaultBuilder { amount: r.amount, ..self }),
    {
        ReplenishVaultBuilder { amount: Some(own(v)), ..self }
    }

    /// Sets `source`.
    pub fn source(self, v: &str) -> (r: Self)
        ensures
            opt_view(r.source) == Some(v@),
            r == (ReplenishVaultBuilder { source: r.source, ..self }),
    {
        ReplenishVaultBuilder { source: Some(own(v)), ..self }
    }

    /// Sets `replenisher_address`.
    pub fn replenisher_address(self, v: &str) -> (r: Self)
        ensures
            opt_view(r.replenisher_address) == Some(v@),
            r == (ReplenishVaultBuilder { replenisher_address: r.replenisher_address, ..self }),
    {
        ReplenishVaultBuilder { replenisher_address: Some(own(v)), ..self }
    }

    /// Records the replenisher's address on an external chain.
    pub fn replenisher_external(self, addr: &str, chain: ChainType) -> (r: Self)
        ensures
            opt_view(r.replenisher_external_address) == Some(addr@),
            r == (ReplenishVaultBuilder { replenisher_external_address: r.replenisher_external_address, replenisher_chain_type: Some(chain), ..self }),
    {
        ReplenishVaultBuilder { replenisher_external_address: Some(own(addr)), replenisher_chain_type: Some(chain), ..self }
    }

    /// Builds the request; every required field must have been set.
    pub fn build(self) -> (r: Result<ReplenishVaultRequest, SdkError>)
        ensures
            self.asset_index is None ==> fails_with(r, "asset_index is required"@),
            self.asset_index is Some && self.amount is None ==> fails_with(r, "amount is required"@),
            self.asset_index is Some && self.amount is Some && self.source is None ==> fails_with(r, "source is required"@),
            self.asset_index is Some && self.amount is Some && self.source is Some && self.replenisher_address is None ==> fails_with(r, "replenisher_address is required"@),
            self.asset_index is Some && self.amount is Some && self.source is Some && self.replenisher_address is Some ==> r == Ok::<ReplenishVaultRequest, SdkError>(ReplenishVaultRequest {
                asset_index: self.asset_index.unwrap(),
                amount: self.amount.unwrap(),
                source: self.source.unwrap(),
                replenisher_address: self.replenisher_address.unwrap(),
                replenisher_external_address: self.replenisher_external_address,
                replenisher_chain_type: self.replenisher_chain_type,
            }),
    {
        let asset_index = require(self.asset_index, "asset_index is required")?;
        let amount = require(self.amount, "amount is required")?;
        let source = require(self.source, "source is required")?;
        let replenisher_address = require(self.replenisher_address, "replenisher_address is required")?;
        Ok(ReplenishVaultRequest { asset_index, amount, source, replenisher_address, replenisher_external_address: self.replenisher_external_address, replenisher_chain_type: self.replenisher_chain_type })
    }
}

/// Builder for `StakeToVaultRequest`.
pub struct StakeToVaultBuilder {
    pub address: Option<String>,
    pub asset_index: Option<u64>,
    pub amount: Option<String>,
    pub external_address: Option<String>,
}

impl StakeToVaultBuilder {
    /// A builder with no field set.
    pub fn new() -> (r: Self)
        ensures
            r.address is None,
            r.asset_index is None,
            r.amount is None,
            r.external_address is None,
    {
        StakeToVaultBuilder { address: None, asset_index: None, amount: None, external_address: None }
    }

    /// Sets `address`.
    pub fn address(self, v: &str) -> (r: Self)
        ensures
            opt_view(r.address) == Some(v@),
            r == (StakeToVaultBuilder { address: r.address, ..self }),
    {
        StakeToVaultBuilder { address: Some(own(v)), ..self }
    }

    /// Sets `asset_index`.
    pub fn asset_index(self, v: u64) -> (r: Self)
        ensures
            r == (StakeToVaultBuilder { asset_index: Some(v), ..self }),
    {
        StakeToVaultBuilder { asset_index: Some(v), ..self }
    }

    /// Sets `amount`.
    pub fn amount(self, v: &str) -> (r: Self)
        ensures
            opt_view(r.amount) == Some(v@),
            r == (StakeToVaultBuilder { amount: r.amount, ..self }),
    {
        StakeToVaultBuilder { amount: Some(own(v)), ..self }
    }

    /// Sets `external_address`.
    pub fn external_address(self, v: &str) -> (r: Self)
        ensures
            opt_view(r.external_address) == Some(v@),
            r == (StakeToVaultBuilder { external_address: r.external_address, ..self }),
    {
        StakeToVaultBuilder { external_address: Some(own(v)), ..self }
    }

    /// Builds the request; every required field must have been set.
    pub fn build(self) -> (r: Result<StakeToVaultRequest, SdkError>)
        ensures
            self.address is None ==> fails_with(r, "address is required"@),
            self.address is Some && self.asset_index is None ==> fails_with(r, "asset_index is required"@),
            self.address is Some && self.asset_index is Some && self.amount is None ==> fails_with(r, "amount is required"@),
            self.address is Some && self.asset_index is Some && self.amount is Some ==> r == Ok::<StakeToVaultRequest, SdkError>(StakeToVaultRequest {
                address: self.address.unwrap(),
                asset_index: self.asset_index.unwrap(),
                amount: self.amount.unwrap(),
                external_address: self.external_address,
            }),
    {
        let address = require(self.address, "address is required")?;
        let asset_index = require(self.asset_index, "asset_index is required")?;
        let amount = require(self.amount, "amount is required")?;
        Ok(StakeToVaultRequest { address, asset_index, amount, external_address: self.external_address })
    }
}

/// Builder for `WithdrawStakeRequest`.
pub struct WithdrawStakeBuilder {
    pub address: Option<String>,
    pub asset_index: Option<u64>,
    pub shares: Option<String>,
    pub external_address: Option<String>,
}

impl WithdrawStakeBuilder {
    /// A builder with no field set.
    pub fn new() -> (r: Self)
        ensures
            r.address is None,
            r.asset_index is None,
            r.shares is None,
            r.external_address is None,
    {
        WithdrawStakeBuilder { address: None, asset_index: None, shares: None, external_address: None }
    }

    /// Sets `address`.
    pub fn address(self, v: &str) -> (r: Self)
        ensures
            opt_view(r.address) == Some(v@),
            r == (WithdrawStakeBuilder { address: r.address, ..self }),
    {
        WithdrawStakeBuilder { address: Some(own(v)), ..self }
    }

    /// Sets `asset_index`.
    pub fn asset_index(self, v: u64) -> (r: Self)
        ensures
            r == (WithdrawStakeBuilder { asset_index: Some(v), ..self }),
    {
        WithdrawStakeBuilder { asset_index: Some(v), ..self }
    }

    /// Sets `shares`.
    pub fn shares(self, v: &str) -> (r: Self)
        ensures
            opt_view(r.shares) == Some(v@),
            r == (WithdrawStakeBuilder { shares: r.shares, ..self }),
    {
        WithdrawStakeBuilder { shares: Some(own(v)), ..self }
    }

    /// Sets `external_address`.
    pub fn external_address(self, v: &str) -> (r: Self)
        ensures
            opt_view(r.external_address) == Some(v@),
            r == (WithdrawStakeBuilder { external_address: r.external_address, ..self }),
    {
        WithdrawStakeBuilder { external_address: Some(own(v)), ..self }
    }

    /// Builds the request; every required field must have been set.
    pub fn build(self) -> (r: Result<WithdrawStakeRequest, SdkError>)
        ensures
            self.address is None ==> fails_with(r, "address is required"@),
            self.address is Some && self.asset_index is None ==> fails_with(r, "asset_index is required"@),
            self.address is Some && self.asset_index is Some && self.shares is None ==> fails_with(r, "shares is required"@),
            self.address is Some && self.asset_index is Some && self.shares is Some ==> r == Ok::<WithdrawStakeRequest, SdkError>(WithdrawStakeRequest {
                address: self.address.unwrap(),
                asset_index: self.asset_index.unwrap(),
                shares: self.shares.unwrap(),
                external_address: self.external_address,
            }),
    {
        let address = require(self.address, "address is required")?;
        let asset_index = require(self.asset_index, "asset_index is required")?;
        let shares = require(self.shares, "shares is required")?;
        Ok(WithdrawStakeRequest { address, asset_index, shares, external_address: self.external_address })
    }
}

/// Builder for `ClaimYieldRequest`.
pub struct ClaimYieldBuilder {
    pub address: Option<String>,
    pub asset_index: Option<u64>,
    pub external_address: Option<String>,
}

impl ClaimYieldBuilder {
    /// A builder with no field set.
    pub fn new() -> (r: Self)
        ensures
            r.address is None,
            r.asset_index is None,
            r.external_address is None,
    {
        ClaimYieldBuilder { address: None, asset_index: None, external_address: None }
    }

    /// Sets `address`.
    pub fn address(self, v: &str) -> (r: Self)
        ensures
            opt_view(r.address) == Some(v@),
            r == (ClaimYieldBuilder { address: r.address, ..self }),
    {
        ClaimYieldBuilder { address: Some(own(v)), ..self }
    }

    /// Sets `asset_index`.
    pub fn asset_index(self, v: u64) -> (r: Self)
        ensures
            r == (ClaimYieldBuilder { asset_index: Some(v), ..self }),
    {
        ClaimYieldBuilder { asset_index: Some(v), ..self }
    }

    /// Sets `external_address`.
    pub fn external_address(self, v: &str) -> (r: Self)
        ensures
            opt_view(r.external_address) == Some(v@),
            r == (ClaimYieldBuilder { external_address: r.external_address, ..self }),
    {
        ClaimYieldBuilder { external_address: Some(own(v)), ..self }
    }

    /// Builds the request; every required field must have been set.
    pub fn build(self) -> (r: Result<ClaimYieldRequest, SdkError>)
        ensures
            self.address is None ==> fails_with(r, "address is required"@),
            self.address is Some && self.asset_index is None ==> fails_with(r, "asset_index is required"@),
            self.address is Some && self.asset_index is Some ==> r == Ok::<ClaimYieldRequest, SdkError>(ClaimYieldRequest {
                address: self.address.unwrap(),
                asset_index: self.asset_index.unwrap(),
                external_address: self.external_address,
            }),
    {
        let address = require(self.address, "address is required")?;
        let asset_index = require(self.asset_index, "asset_index is required")?;
        Ok(ClaimYieldRequest { address, asset_index, external_address: self.external_address })
    }
}

/// Builder for `ClaimBountyRequest`.
pub struct ClaimBountyBuilder {
    pub address: Option<String>,
    pub asset_index: Option<u64>,
    pub liquidation_id: Option<String>,
    pub external_address: Option<String>,
}

impl ClaimBountyBuilder {
    /// A builder with no field set.
    pub fn new() -> (r: Self)
        ensures
            r.address is None,
            r.asset_index is None,
            r.liquidation_id is None,
            r.external_address is None,
    {
        ClaimBountyBuilder { address: None, asset_index: None, liquidation_id: None, external_address: None }
    }

    /// Sets `address`.
    pub fn address(self, v: &str) -> (r: Self)
        ensures
            opt_view(r.address) == Some(v@),
            r == (ClaimBountyBuilder { address: r.address, ..self }),
    {
        ClaimBountyBuilder { address: Some(own(v)), ..self }
    }

    /// Sets `asset_index`.
    pub fn asset_index(self, v: u64) -> (r: Self)
        ensures
            r == (ClaimBountyBuilder { asset_index: Some(v), ..self }),
    {
        ClaimBountyBuilder { asset_index: Some(v), ..self }
    }

    /// Sets `liquidation_id`.
    pub fn liquidation_id(self, v: &str) -> (r: Self)
        ensures
            opt_view(r.liquidation_id) == Some(v@),
            r == (ClaimBountyBuilder { liquidation_id: r.liquidation_id, ..self }),
    {
        ClaimBountyBuilder { liquidation_id: Some(own(v)), ..self }
    }

    /// Sets `external_address`.
    pub fn external_address(self, v: &str) -> (r: Self)
        ensures
            opt_view(r.external_address) == Some(v@),
            r == (ClaimBountyBuilder { external_address: r.external_address, ..self }),
    {
        ClaimBountyBuilder { external_address: Some(own(v)), ..self }
    }

    /// Builds the request; every required field must have been set.
    pub fn build(self) -> (r: Result<ClaimBountyRequest, SdkError>)
        ensures
            self.address is None ==> fails_with(r, "address is required"@),
            self.address is Some && self.asset_index is None ==> fails_with(r, "asset_index is required"@),
            self.address is Some && self.asset_index is Some && self.liquidation_id is None ==> fails_with(r, "liquidation_id is required"@),
            self.address is Some && self.asset_index is Some && self.liquidation_id is Some ==> r == Ok::<ClaimBountyRequest, SdkError>(ClaimBountyRequest {
                address: self.address.unwrap(),
                asset_index: self.asset_index.unwrap(),
                liquidation_id: self.liquidation_id.unwrap(),
                external_address: self.external_address,
            }),
    {
        let address = require(self.address, "address is required")?;
        let asset_index = require(self.asset_index, "asset_index is required")?;
        let liquidation_id = require(self.liquidation_id, "liquidation_id is required")?;
        Ok(ClaimBountyRequest { address, asset_index, liquidation_id, external_address: self.external_address })
    }
}

/// Builder for `HedgeIlRequest`.
pub struct HedgeIlBuilder {
    pub address: Option<String>,
    pub asset_index: Option<u64>,
    pub amount: Option<String>,
    pub external_address: Option<String>,
}

impl HedgeIlBuilder {
    /// A builder with no field set.
    pub fn new() -> (r: Self)
        ensures
            r.address is None,
            r.asset_index is None,
            r.amount is None,
            r.external_address is None,
    {
        HedgeIlBuilder { address: None, asset_index: None, amount: None, external_address: None }
    }

    /// Sets `address`.
    pub fn address(self, v: &str) -> (r: Self)
        ensures
            opt_view(r.address) == Some(v@),
            r == (HedgeIlBuilder { address: r.address, ..self }),
    {
        HedgeIlBuilder { address: Some(own(v)), ..self }
    }

    /// Sets `asset_index`.
    pub fn asset_index(self, v: u64) -> (r: Self)
        ensures
            r == (HedgeIlBuilder { asset_index: Some(v), ..self }),
    {
        HedgeIlBuilder { asset_index: Some(v), ..self }
    }

    /// Sets `amount`.
    pub fn amount(self, v: &str) -> (r: Self)
        ensures
            opt_view(r.amount) == Some(v@),
            r == (HedgeIlBuilder { amount: r.amount, ..self }),
    {
        HedgeIlBuilder { amount: Some(own(v)), ..self }
    }

    /// Sets `external_address`.
    pub fn external_address(self, v: &str) -> (r: Self)
        ensures
            opt_view(r.external_address) == Some(v@),
            r == (HedgeIlBuilder { external_address: r.external_address, ..self }),
    {
        HedgeIlBuilder { external_address: Some(own(v)), ..self }
    }

    /// Builds the request; every required field must have been set.
    pub fn build(self) -> (r: Result<HedgeIlRequest, SdkError>)
        ensures
            self.address is None ==> fails_with(r, "address is required"@),
            self.address is Some && self.asset_index is None ==> fails_with(r, "asset_index is required"@),
            self.address is Some && self.asset_index is Some && self.amount is None ==> fails_with(r, "amount is required"@),
            self.address is Some && self.asset_index is Some && self.amount is Some ==> r == Ok::<HedgeIlRequest, SdkError>(HedgeIlRequest {
                address: self.address.unwrap(),
                asset_index: self.asset_index.unwrap(),
                amount: self.amount.unwrap(),
                external_address: self.external_address,
            }),
    {
        let address = require(self.address, "address is required")?;
        let asset_index = require(self.asset_index, "asset_index is required")?;
        let amount = require(self.amount, "amount is required")?;
        Ok(HedgeIlRequest { address, asset_index, amount, external_address: self.external_address })
    }
}

} // verus!
