//! Fluent builders for the DAO transactions.
use vstd::prelude::*;
use crate::common::{fails_with, opt_view, own, require, text_or_empty, AccountId, ProtoAny, SdkError, StringMap};
use crate::dao::requests::{
    CancelDaoProposalRequest, CreateDaoProposalRequest, CreateDaoRequest, DaoDepositRequest,
    DaoVoteRequest, ExecuteDaoProposalRequest, SignDaoProposalRequest, WithdrawDaoDepositRequest,
};
use crate::dao::types::{DaoConfig, DaoType, GovernedAsset, WeightedDaoVoteOption};

verus! {

/// Builder for a DAO creation.
pub struct CreateDaoBuilder {
    pub from_address: Option<AccountId>,
    pub name: Option<String>,
    pub description: Option<String>,
    pub community_token_mint: Option<String>,
    pub council_token_mint: Option<String>,
    pub dao_type: Option<DaoType>,
    pub config: Option<DaoConfig>,
    pub initial_governed_assets: Vec<GovernedAsset>,
    pub metadata: StringMap,
}

impl CreateDaoBuilder {
    /// A builder with nothing set.
    pub fn new() -> (r: Self)
        ensures
            r.from_address is None,
            r.name is None,
            r.description is None,
            r.community_token_mint is None,
            r.council_token_mint is None,
            r.dao_type is None,
            r.config is None,
            r.initial_governed_assets@.len() == 0,
            r.metadata@ == Map::<Seq<char>, Seq<char>>::empty(),
    {
        CreateDaoBuilder {
            from_address: None,
            name: None,
            description: None,
            community_token_mint: None,
            council_token_mint: None,
            dao_type: None,
            config: None,
            initial_governed_assets: Vec::new(),
            metadata: StringMap::new(),
        }
    }

    /// Sets the sender.
    pub fn from_address(self, address: AccountId) -> (r: Self)
        ensures
            r == (CreateDaoBuilder { from_address: Some(address), ..self }),
    {
        CreateDaoBuilder { from_address: Some(address), ..self }
    }

    /// Sets the DAO name.
    pub fn name(self, v: &str) -> (r: Self)
        ensures
            opt_view(r.name) == Some(v@),
            r == (CreateDaoBuilder { name: r.name, ..self }),
    {
        CreateDaoBuilder { name: Some(own(v)), ..self }
    }

    /// Sets the description.
    pub fn description(self, v: &str) -> (r: Self)
        ensures
            opt_view(r.description) == Some(v@),
            r == (CreateDaoBuilder { description: r.description, ..self }),
    {
        CreateDaoBuilder { description: Some(own(v)), ..self }
    }

    /// Sets the community token mint.
    pub fn community_token_mint(self, v: &str) -> (r: Self)
        ensures
            opt_view(r.community_token_mint) == Some(v@),
            r == (CreateDaoBuilder { community_token_mint: r.community_token_mint, ..self }),
    {
        CreateDaoBuilder { community_token_mint: Some(own(v)), ..self }
    }

    /// Sets the council token mint.
    pub fn council_token_mint(self, v: &str) -> (r: Self)
        ensures
            opt_view(r.council_token_mint) == Some(v@),
            r == (CreateDaoBuilder { council_token_mint: r.council_token_mint, ..self }),
    {
        CreateDaoBuilder { council_token_mint: Some(own(v)), ..self }
    }

    /// Sets the governance model.
    pub fn dao_type(self, dao_type: DaoType) -> (r: Self)
        ensures
            r == (CreateDaoBuilder { dao_type: Some(dao_type), ..self }),
    {
        CreateDaoBuilder { dao_type: Some(dao_type), ..self }
    }

    /// Sets the DAO configuration.
    pub fn config(self, config: DaoConfig) -> (r: Self)
        ensures
            r == (CreateDaoBuilder { config: Some(config), ..self }),
    {
        CreateDaoBuilder { config: Some(config), ..self }
    }

    /// Sets the assets governed from creation.
    pub fn governed_assets(self, assets: Vec<GovernedAsset>) -> (r: Self)
        ensures
            r == (CreateDaoBuilder { initial_governed_assets: assets, ..self }),
    {
        CreateDaoBuilder { initial_governed_assets: assets, ..self }
    }

    /// Adds (or replaces) one metadata entry.
    pub fn metadata(self, key: &str, value: &str) -> (r: Self)
        ensures
            r.metadata@ == self.metadata@.insert(key@, value@),
            r == (CreateDaoBuilder { metadata: r.metadata, ..self }),
    {
        let mut s = self;
        s.metadata = s.metadata.insert(key, value);
        s
    }

    /// Builds the creation. The sender, name, community mint, type and
    /// configuration are required, checked in that order; an absent
    /// description is empty.
    pub fn build(self) -> (r: Result<CreateDaoRequest, SdkError>)
        ensures
            self.from_address is None ==> fails_with(r, "from_address is required for DAO creation"@),
            self.from_address is Some && self.name is None ==> fails_with(r, "name is required"@),
            self.from_address is Some && self.name is Some && self.community_token_mint is None ==> fails_with(r, "community_token_mint is required"@),
            self.from_address is Some && self.name is Some && self.community_token_mint is Some && self.dao_type is None ==> fails_with(r, "dao_type is required"@),
            self.from_address is Some && self.name is Some && self.community_token_mint is Some && self.dao_type is Some && self.config is None ==> fails_with(r, "config is required for DAO creation"@),
            self.from_address is Some && self.name is Some && self.community_token_mint is Some && self.dao_type is Some && self.config is Some ==> (r matches Ok(req) && {
                &&& req.from_address == self.from_address.unwrap()
                &&& req.name == self.name.unwrap()
                &&& req.description@ == text_or_empty(self.description)
                &&& req.community_token_mint == self.community_token_mint.unwrap()
                &&& req.council_token_mint == self.council_token_mint
                &&& req.dao_type == self.dao_type.unwrap()
                &&& req.config == self.config.unwrap()
                &&& req.initial_governed_assets == self.initial_governed_assets
                &&& req.metadata == self.metadata
            }),
    {
        let from_address = require(self.from_address, "from_address is required for DAO creation")?;
        let name = require(self.name, "name is required")?;
        let community_token_mint = require(self.community_token_mint, "community_token_mint is required")?;
        let dao_type = require(self.dao_type, "dao_type is required")?;
        let config = require(self.config, "config is required for DAO creation")?;
        let description = match self.description {
            Some(d) => d,
            None => String::new(),
        };
        Ok(CreateDaoRequest {
            from_address,
            name,
            description,
            community_token_mint,
            council_token_mint: self.council_token_mint,
            dao_type,
            config,
            initial_governed_assets: self.initial_governed_assets,
            metadata: self.metadata,
        })
    }
}

/// Builder for a DAO proposal.
pub struct CreateDaoProposalBuilder {
    pub from_address: Option<AccountId>,
    pub dao_id: Option<u64>,
    pub title: Option<String>,
    pub description: Option<String>,
    pub metadata: Option<String>,
    pub instructions: Vec<ProtoAny>,
    pub additional_metadata: StringMap,
}

impl CreateDaoProposalBuilder {
    /// A builder with nothing set.
    pub fn new() -> (r: Self)
        ensures
            r.from_address is None,
            r.dao_id is None,
            r.title is None,
            r.description is None,
            r.metadata is None,
            r.instructions@.len() == 0,
            r.additional_metadata@ == Map::<Seq<char>, Seq<char>>::empty(),
    {
        CreateDaoProposalBuilder {
            from_address: None,
            dao_id: None,
            title: None,
            description: None,
            metadata: None,
            instructions: Vec::new(),
            additional_metadata: StringMap::new(),
        }
    }

    /// Sets the sender.
    pub fn from_address(self, address: AccountId) -> (r: Self)
        ensures
            r == (CreateDaoProposalBuilder { from_address: Some(address), ..self }),
    {
        CreateDaoProposalBuilder { from_address: Some(address), ..self }
    }

    /// Sets the DAO.
    pub fn dao_id(self, id: u64) -> (r: Self)
        ensures
            r == (CreateDaoProposalBuilder { dao_id: Some(id), ..self }),
    {
        CreateDaoProposalBuilder { dao_id: Some(id), ..self }
    }

    /// Sets the title.
    pub fn title(self, v: &str) -> (r: Self)
        ensures
            opt_view(r.title) == Some(v@),
            r == (CreateDaoProposalBuilder { title: r.title, ..self }),
    {
        CreateDaoProposalBuilder { title: Some(own(v)), ..self }
    }

    /// Sets the description.
    pub fn description(self, v: &str) -> (r: Self)
        ensures
            opt_view(r.description) == Some(v@),
            r == (CreateDaoProposalBuilder { description: r.description, ..self }),
    {
        CreateDaoProposalBuilder { description: Some(own(v)), ..self }
    }

    /// Sets the free-form metadata.
    pub fn metadata(self, v: &str) -> (r: Self)
        ensures
            opt_view(r.metadata) == Some(v@),
            r == (CreateDaoProposalBuilder { metadata: r.metadata, ..self }),
    {
        CreateDaoProposalBuilder { metadata: Some(own(v)), ..self }
    }

    /// Replaces the instructions.
    pub fn instructions(self, instructions: Vec<ProtoAny>) -> (r: Self)
        ensures
            r == (CreateDaoProposalBuilder { instructions: instructions, ..self }),
    {
        CreateDaoProposalBuilder { instructions: instructions, ..self }
    }

    /// Appends one instruction.
    pub fn add_instruction(self, instruction: ProtoAny) -> (r: Self)
        ensures
            r.instructions@ == self.instructions@.push(instruction),
            r == (CreateDaoProposalBuilder { instructions: r.instructions, ..self }),
    {
        let mut s = self;
        s.instructions.push(instruction);
        s
    }

    /// Adds (or replaces) one additional metadata entry.
    pub fn additional_metadata(self, key: &str, value: &str) -> (r: Self)
        ensures
            r.additional_metadata@ == self.additional_metadata@.insert(key@, value@),
            r == (CreateDaoProposalBuilder { additional_metadata: r.additional_metadata, ..self }),
    {
        let mut s = self;
        s.additional_metadata = s.additional_metadata.insert(key, value);
        s
    }

    /// Builds the proposal. The sender, DAO, title and description are
    /// required, checked in that order; absent metadata is empty.
    pub fn build(self) -> (r: Result<CreateDaoProposalRequest, SdkError>)
        ensures
            self.from_address is None ==> fails_with(r, "from_address is required for proposal creation"@),
            self.from_address is Some && self.dao_id is None ==> fails_with(r, "dao_id is required"@),
            self.from_address is Some && self.dao_id is Some && self.title is None ==> fails_with(r, "title is required"@),
            self.from_address is Some && self.dao_id is Some && self.title is Some && self.description is None ==> fails_with(r, "description is required"@),
            self.from_address is Some && self.dao_id is Some && self.title is Some && self.description is Some ==> (r matches Ok(req) && {
                &&& req.from_address == self.from_address.unwrap()
                &&& req.dao_id == self.dao_id.unwrap()
                &&& req.title == self.title.unwrap()
                &&& req.description == self.description.unwrap()
                &&& req.metadata@ == text_or_empty(self.metadata)
                &&& req.instructions == self.instructions
                &&& req.additional_metadata == self.additional_metadata
            }),
    {
        let from_address = require(self.from_address, "from_address is required for proposal creation")?;
        let dao_id = require(self.dao_id, "dao_id is required")?;
        let title = require(self.title, "title is required")?;
        let description = require(self.description, "description is required")?;
        let metadata = match self.metadata {
            Some(m) => m,
            None => String::new(),
        };
        Ok(CreateDaoProposalRequest {
            from_address,
            dao_id,
            title,
            description,
            metadata,
            instructions: self.instructions,
            additional_metadata: self.additional_metadata,
        })
    }
}

/// Builder for a (possibly split) DAO vote.
pub struct DaoVoteBuilder {
    pub from_address: Option<AccountId>,
    pub dao_id: Option<u64>,
    pub proposal_id: Option<u64>,
    pub options: Vec<WeightedDaoVoteOption>,
    pub conviction_multiplier: u64,
}

impl DaoVoteBuilder {
    /// A builder with nothing set.
    pub fn new() -> (r: Self)
        ensures
            r.from_address is None,
            r.dao_id is None,
            r.proposal_id is None,
            r.options@.len() == 0,
            r.conviction_multiplier == 0,
    {
        DaoVoteBuilder {
            from_address: None,
            dao_id: None,
            proposal_id: None,
            options: Vec::new(),
            conviction_multiplier: 0,
        }
    }

    /// Sets the sender.
    pub fn from_address(self, address: AccountId) -> (r: Self)
        ensures
            r == (DaoVoteBuilder { from_address: Some(address), ..self }),
    {
        DaoVoteBuilder { from_address: Some(address), ..self }
    }

    /// Sets the DAO.
    pub fn dao_id(self, id: u64) -> (r: Self)
        ensures
            r == (DaoVoteBuilder { dao_id: Some(id), ..self }),
    {
        DaoVoteBuilder { dao_id: Some(id), ..self }
    }

    /// Sets the proposal.
    pub fn proposal_id(self, id: u64) -> (r: Self)
        ensures
            r == (DaoVoteBuilder { proposal_id: Some(id), ..self }),
    {
        DaoVoteBuilder { proposal_id: Some(id), ..self }
    }

    /// Replaces the weighted options.
    pub fn options(self, options: Vec<WeightedDaoVoteOption>) -> (r: Self)
        ensures
            r == (DaoVoteBuilder { options: options, ..self }),
    {
        DaoVoteBuilder { options: options, ..self }
    }

    /// Appends one weighted option.
    pub fn add_option(self, option: WeightedDaoVoteOption) -> (r: Self)
        ensures
            r.options@ == self.options@.push(option),
            r == (DaoVoteBuilder { options: r.options, ..self }),
    {
        let mut s = self;
        s.options.push(option);
        s
    }

    /// Sets the conviction multiplier.
    pub fn conviction_multiplier(self, multiplier: u64) -> (r: Self)
        ensures
            r == (DaoVoteBuilder { conviction_multiplier: multiplier, ..self }),
    {
        DaoVoteBuilder { conviction_multiplier: multiplier, ..self }
    }

    /// Builds the vote. The sender, DAO and proposal are required, in that
    /// order, and then at least one option.
    pub fn build(self) -> (r: Result<DaoVoteRequest, SdkError>)
        ensures
            self.from_address is None ==> fails_with(r, "from_address is required for voting"@),
            self.from_address is Some && self.dao_id is None ==> fails_with(r, "dao_id is required"@),
            self.from_address is Some && self.dao_id is Some && self.proposal_id is None ==> fails_with(
                r,
                "proposal_id is required"@,
            ),
            self.from_address is Some && self.dao_id is Some && self.proposal_id is Some && self.options@.len()
                == 0 ==> fails_with(r, "at least one vote option is required"@),
            self.from_address is Some && self.dao_id is Some && self.proposal_id is Some && self.options@.len()
                > 0 ==> r == Ok::<DaoVoteRequest, SdkError>(DaoVoteRequest {
                from_address: self.from_address.unwrap(),
                dao_id: self.dao_id.unwrap(),
                proposal_id: self.proposal_id.unwrap(),
                options: self.options,
                conviction_multiplier: self.conviction_multiplier,
            }),
    {
        let from_address = require(self.from_address, "from_address is required for voting")?;
        let dao_id = require(self.dao_id, "dao_id is required")?;
        let proposal_id = require(self.proposal_id, "proposal_id is required")?;
        if self.options.len() == 0 {
            return Err(SdkError::invalid_input("at least one vote option is required"));
        }
        Ok(DaoVoteRequest {
            from_address,
            dao_id,
            proposal_id,
            options: self.options,
            conviction_multiplier: self.conviction_multiplier,
        })
    }
}

/// Builder for `SignDaoProposalRequest`.
pub struct SignDaoProposalBuilder {
    pub from_address: Option<AccountId>,
    pub dao_id: Option<u64>,
    pub proposal_id: Option<u64>,
}

impl SignDaoProposalBuilder {
    /// A builder with no field set.
    pub fn new() -> (r: Self)
        ensures
            r.from_address is None,
            r.dao_id is None,
            r.proposal_id is None,
    {
        SignDaoProposalBuilder { from_address: None, dao_id: None, proposal_id: None }
    }

    /// Sets the sender.
    pub fn from_address(self, address: AccountId) -> (r: Self)
        ensures
            r == (SignDaoProposalBuilder { from_address: Some(address), ..self }),
    {
        SignDaoProposalBuilder { from_address: Some(address), ..self }
    }

    /// Sets the DAO.
    pub fn dao_id(self, id: u64) -> (r: Self)
        ensures
            r == (SignDaoProposalBuilder { dao_id: Some(id), ..self }),
    {
        SignDaoProposalBuilder { dao_id: Some(id), ..self }
    }

    /// Sets the proposal.
    pub fn proposal_id(self, id: u64) -> (r: Self)
        ensures
            r == (SignDaoProposalBuilder { proposal_id: Some(id), ..self }),
    {
        SignDaoProposalBuilder { proposal_id: Some(id), ..self }
    }

    /// Builds the request; the sender, DAO and proposal are required, in that order.
    pub fn build(self) -> (r: Result<SignDaoProposalRequest, SdkError>)
        ensures
            self.from_address is None ==> fails_with(r, "from_address is required for signing a proposal"@),
            self.from_address is Some && self.dao_id is None ==> fails_with(r, "dao_id is required"@),
            self.from_address is Some && self.dao_id is Some && self.proposal_id is None ==> fails_with(r, "proposal_id is required"@),
            self.from_address is Some && self.dao_id is Some && self.proposal_id is Some ==> r == Ok::<SignDaoProposalRequest, SdkError>(SignDaoProposalRequest {
                from_address: self.from_address.unwrap(),
                dao_id: self.dao_id.unwrap(),
                proposal_id: self.proposal_id.unwrap(),
            }),
    {
        let from_address = require(self.from_address, "from_address is required for signing a proposal")?;
        let dao_id = require(self.dao_id, "dao_id is required")?;
        let proposal_id = require(self.proposal_id, "proposal_id is required")?;
        Ok(SignDaoProposalRequest { from_address, dao_id, proposal_id })
    }
}

/// Builder for `ExecuteDaoProposalRequest`.
pub struct ExecuteDaoProposalBuilder {
    pub from_address: Option<AccountId>,
    pub dao_id: Option<u64>,
    pub proposal_id: Option<u64>,
}

impl ExecuteDaoProposalBuilder {
    /// A builder with no field set.
    pub fn new() -> (r: Self)
        ensures
            r.from_address is None,
            r.dao_id is None,
            r.proposal_id is None,
    {
        ExecuteDaoProposalBuilder { from_address: None, dao_id: None, proposal_id: None }
    }

    /// Sets the sender.
    pub fn from_address(self, address: AccountId) -> (r: Self)
        ensures
            r == (ExecuteDaoProposalBuilder { from_address: Some(address), ..self }),
    {
        ExecuteDaoProposalBuilder { from_address: Some(address), ..self }
    }

    /// Sets the DAO.
    pub fn dao_id(self, id: u64) -> (r: Self)
        ensures
            r == (ExecuteDaoProposalBuilder { dao_id: Some(id), ..self }),
    {
        ExecuteDaoProposalBuilder { dao_id: Some(id), ..self }
    }

    /// Sets the proposal.
    pub fn proposal_id(self, id: u64) -> (r: Self)
        ensures
            r == (ExecuteDaoProposalBuilder { proposal_id: Some(id), ..self }),
    {
        ExecuteDaoProposalBuilder { proposal_id: Some(id), ..self }
    }

    /// Builds the request; the sender, DAO and proposal are required, in that order.
    pub fn build(self) -> (r: Result<ExecuteDaoProposalRequest, SdkError>)
        ensures
            self.from_address is None ==> fails_with(r, "from_address is required for execution"@),
            self.from_address is Some && self.dao_id is None ==> fails_with(r, "dao_id is required"@),
            self.from_address is Some && self.dao_id is Some && self.proposal_id is None ==> fails_with(r, "proposal_id is required"@),
            self.from_address is Some && self.dao_id is Some && self.proposal_id is Some ==> r == Ok::<ExecuteDaoProposalRequest, SdkError>(ExecuteDaoProposalRequest {
                from_address: self.from_address.unwrap(),
                dao_id: self.dao_id.unwrap(),
                proposal_id: self.proposal_id.unwrap(),
            }),
    {
        let from_address = require(self.from_address, "from_address is required for execution")?;
        let dao_id = require(self.dao_id, "dao_id is required")?;
        let proposal_id = require(self.proposal_id, "proposal_id is required")?;
        Ok(ExecuteDaoProposalRequest { from_address, dao_id, proposal_id })
    }
}

/// Builder for a DAO deposit; a zero lock time means no lock.
pub struct DaoDepositBuilder {
    pub from_address: Option<AccountId>,
    pub dao_id: Option<u64>,
    pub token_mint: Option<String>,
    pub amount: Option<String>,
    pub lock_until: u64,
}

impl DaoDepositBuilder {
    /// A builder with nothing set.
    pub fn new() -> (r: Self)
        ensures
            r.from_address is None,
            r.dao_id is None,
            r.token_mint is None,
            r.amount is None,
            r.lock_until == 0,
    {
        DaoDepositBuilder {
            from_address: None,
            dao_id: None,
            token_mint: None,
            amount: None,
            lock_until: 0,
        }
    }

    /// Sets the sender.
    pub fn from_address(self, address: AccountId) -> (r: Self)
        ensures
            r == (DaoDepositBuilder { from_address: Some(address), ..self }),
    {
        DaoDepositBuilder { from_address: Some(address), ..self }
    }

    /// Sets the DAO.
    pub fn dao_id(self, id: u64) -> (r: Self)
        ensures
            r == (DaoDepositBuilder { dao_id: Some(id), ..self }),
    {
        DaoDepositBuilder { dao_id: Some(id), ..self }
    }

    /// Sets the token mint.
    pub fn token_mint(self, v: &str) -> (r: Self)
        ensures
            opt_view(r.token_mint) == Some(v@),
            r == (DaoDepositBuilder { token_mint: r.token_mint, ..self }),
    {
        DaoDepositBuilder { token_mint: Some(own(v)), ..self }
    }

    /// Sets the amount.
    pub fn amount(self, v: &str) -> (r: Self)
        ensures
            opt_view(r.amount) == Some(v@),
            r == (DaoDepositBuilder { amount: r.amount, ..self }),
    {
        DaoDepositBuilder { amount: Some(own(v)), ..self }
    }

    /// Locks the deposit until the given time.
    pub fn lock_until(self, lock_until: u64) -> (r: Self)
        ensures
            r == (DaoDepositBuilder { lock_until: lock_until, ..self }),
    {
        DaoDepositBuilder { lock_until: lock_until, ..self }
    }

    /// Builds the deposit; the sender, DAO, mint and amount are required, in
    /// that order.
    pub fn build(self) -> (r: Result<DaoDepositRequest, SdkError>)
        ensures
            self.from_address is None ==> fails_with(r, "from_address is required for deposit"@),
            self.from_address is Some && self.dao_id is None ==> fails_with(r, "dao_id is required"@),
            self.from_address is Some && self.dao_id is Some && self.token_mint is None ==> fails_with(r, "token_mint is required"@),
            self.from_address is Some && self.dao_id is Some && self.token_mint is Some && self.amount is None ==> fails_with(r, "amount is required"@),
            self.from_address is Some && self.dao_id is Some && self.token_mint is Some && self.amount is Some ==> r == Ok::<DaoDepositRequest, SdkError>(DaoDepositRequest {
                from_address: self.from_address.unwrap(),
                dao_id: self.dao_id.unwrap(),
                token_mint: self.token_mint.unwrap(),
                amount: self.amount.unwrap(),
                lock_until: self.lock_until,
            }),
    {
        let from_address = require(self.from_address, "from_address is required for deposit")?;
        let dao_id = require(self.dao_id, "dao_id is required")?;
        let token_mint = require(self.token_mint, "token_mint is required")?;
        let amount = require(self.amount, "amount is required")?;
        Ok(DaoDepositRequest { from_address, dao_id, token_mint, amount, lock_until: self.lock_until })
    }
}

/// Builder for a DAO proposal cancellation.
pub struct CancelDaoProposalBuilder {
    pub from_address: Option<AccountId>,
    pub dao_id: Option<u64>,
    pub proposal_id: Option<u64>,
    pub reason: Option<String>,
}

impl CancelDaoProposalBuilder {
    /// A builder with nothing set.
    pub fn new() -> (r: Self)
        ensures
            r.from_address is None,
            r.dao_id is None,
            r.proposal_id is None,
            r.reason is None,
    {
        CancelDaoProposalBuilder {
            from_address: None,
            dao_id: None,
            proposal_id: None,
            reason: None,
        }
    }

    /// Sets the sender.
    pub fn from_address(self, address: AccountId) -> (r: Self)
        ensures
            r == (CancelDaoProposalBuilder { from_address: Some(address), ..self }),
    {
        CancelDaoProposalBuilder { from_address: Some(address), ..self }
    }

    /// Sets the DAO.
    pub fn dao_id(self, id: u64) -> (r: Self)
        ensures
            r == (CancelDaoProposalBuilder { dao_id: Some(id), ..self }),
    {
        CancelDaoProposalBuilder { dao_id: Some(id), ..self }
    }

    /// Sets the proposal.
    pub fn proposal_id(self, id: u64) -> (r: Self)
        ensures
            r == (CancelDaoProposalBuilder { proposal_id: Some(id), ..self }),
    {
        CancelDaoProposalBuilder { proposal_id: Some(id), ..self }
    }

    /// Sets the reason.
    pub fn reason(self, v: &str) -> (r: Self)
        ensures
            opt_view(r.reason) == Some(v@),
            r == (CancelDaoProposalBuilder { reason: r.reason, ..self }),
    {
        CancelDaoProposalBuilder { reason: Some(own(v)), ..self }
    }

    /// Builds the cancellation. The sender, DAO and proposal are required, in
    /// that order; without a reason it reads "No reason provided".
    pub fn build(self) -> (r: Result<CancelDaoProposalRequest, SdkError>)
        ensures
            self.from_address is None ==> fails_with(r, "from_address is required for cancellation"@),
            self.from_address is Some && self.dao_id is None ==> fails_with(r, "dao_id is required"@),
            self.from_address is Some && self.dao_id is Some && self.proposal_id is None ==> fails_with(
                r,
                "proposal_id is required"@,
            ),
            self.from_address is Some && self.dao_id is Some && self.proposal_id is Some ==> (r matches Ok(req) && {
                &&& req.from_address == self.from_address.unwrap()
                &&& req.dao_id == self.dao_id.unwrap()
                &&& req.proposal_id == self.proposal_id.unwrap()
                &&& req.reason@ == (if self.reason is Some {
                    self.reason.unwrap()@
                } else {
                    "No reason provided"@
                })
            }),
    {
        let from_address = require(self.from_address, "from_address is required for cancellation")?;
        let dao_id = require(self.dao_id, "dao_id is required")?;
        let proposal_id = require(self.proposal_id, "proposal_id is required")?;
        let reason = match self.reason {
            Some(r) => r,
            None => own("No reason provided"),
        };
        Ok(CancelDaoProposalRequest { from_address, dao_id, proposal_id, reason })
    }
}

/// Builder for a DAO deposit withdrawal.
pub struct WithdrawDaoDepositBuilder {
    pub from_address: Option<AccountId>,
    pub dao_id: Option<u64>,
    pub token_mint: Option<String>,
    pub amount: Option<String>,
}

impl WithdrawDaoDepositBuilder {
    /// A builder with no field set.
    pub fn new() -> (r: Self)
        ensures
            r.from_address is None,
            r.dao_id is None,
            r.token_mint is None,
            r.amount is None,
    {
        WithdrawDaoDepositBuilder { from_address: None, dao_id: None, token_mint: None, amount: None }
    }

    /// Sets the sender.
    pub fn from_address(self, address: AccountId) -> (r: Self)
        ensures
            r == (WithdrawDaoDepositBuilder { from_address: Some(address), ..self }),
    {
        WithdrawDaoDepositBuilder { from_address: Some(address), ..self }
    }

    /// Sets the DAO.
    pub fn dao_id(self, id: u64) -> (r: Self)
        ensures
            r == (WithdrawDaoDepositBuilder { dao_id: Some(id), ..self }),
    {
        WithdrawDaoDepositBuilder { dao_id: Some(id), ..self }
    }

    /// Sets the token mint.
    pub fn token_mint(self, v: &str) -> (r: Self)
        ensures
            opt_view(r.token_mint) == Some(v@),
            r == (WithdrawDaoDepositBuilder { token_mint: r.token_mint, ..self }),
    {
        WithdrawDaoDepositBuilder { token_mint: Some(own(v)), ..self }
    }

    /// Sets the amount ("0" withdraws everything).
    pub fn amount(self, v: &str) -> (r: Self)
        ensures
            opt_view(r.amount) == Some(v@),
            r == (WithdrawDaoDepositBuilder { amount: r.amount, ..self }),
    {
        WithdrawDaoDepositBuilder { amount: Some(own(v)), ..self }
    }

    /// Builds the withdrawal; the sender, DAO, mint and amount are required, in that order.
    pub fn build(self) -> (r: Result<WithdrawDaoDepositRequest, SdkError>)
        ensures
            self.from_address is None ==> fails_with(r, "from_address is required for withdrawal"@),
            self.from_address is Some && self.dao_id is None ==> fails_with(r, "dao_id is required"@),
            self.from_address is Some && self.dao_id is Some && self.token_mint is None ==> fails_with(r, "token_mint is required"@),
            self.from_address is Some && self.dao_id is Some && self.token_mint is Some && self.amount is None ==> fails_with(r, "amount is required (use \"0\" for all)"@),
            self.from_address is Some && self.dao_id is Some && self.token_mint is Some && self.amount is Some ==> r == Ok::<WithdrawDaoDepositRequest, SdkError>(WithdrawDaoDepositRequest {
                from_address: self.from_address.unwrap(),
                dao_id: self.dao_id.unwrap(),
                token_mint: self.token_mint.unwrap(),
                amount: self.amount.unwrap(),
            }),
    {
        let from_address = require(self.from_address, "from_address is required for withdrawal")?;
        let dao_id = require(self.dao_id, "dao_id is required")?;
        let token_mint = require(self.token_mint, "token_mint is required")?;
        let amount = require(self.amount, "amount is required (use \"0\" for all)")?;
        Ok(WithdrawDaoDepositRequest { from_address, dao_id, token_mint, amount })
    }
}

} // verus!
