//! Request types of the DAO module.
use vstd::prelude::*;
use crate::common::{opt_view, own, AccountId, ProtoAny, StringMap};
use crate::dao::types::{
    DaoConfig, DaoProposalStatus, DaoStatus, DaoType, GovernedAsset, WeightedDaoVoteOption,
};

verus! {

/// Request to create a DAO.
#[derive(Clone, Debug, PartialEq, Eq)]
pub struct CreateDaoRequest {
    pub from_address: AccountId,
    pub name: String,
    pub description: String,
    pub community_token_mint: String,
    pub council_token_mint: Option<String>,
    pub dao_type: DaoType,
    pub config: DaoConfig,
    pub initial_governed_assets: Vec<GovernedAsset>,
    pub metadata: StringMap,
}

impl CreateDaoRequest {
    /// A DAO with no description, council mint, governed assets or metadata.
    pub fn new(
        from_address: AccountId,
        name: &str,
        community_token_mint: &str,
        dao_type: DaoType,
        config: DaoConfig,
    ) -> (r: Self)
        ensures
            r.from_address == from_address,
            r.name@ == name@,
            r.description@ == Seq::<char>::empty(),
            r.community_token_mint@ == community_token_mint@,
            r.council_token_mint is None,
            r.dao_type == dao_type,
            r.config == config,
            r.initial_governed_assets@.len() == 0,
            r.metadata@ == Map::<Seq<char>, Seq<char>>::empty(),
    {
        CreateDaoRequest {
            from_address,
            name: own(name),
            description: String::new(),
            community_token_mint: own(community_token_mint),
            council_token_mint: None,
            dao_type,
            config,
            initial_governed_assets: Vec::new(),
            metadata: StringMap::new(),
        }
    }

    /// Sets the description.
    pub fn with_description(self, description: &str) -> (r: Self)
        ensures
            r.description@ == description@,
            r == (CreateDaoRequest { description: r.description, ..self }),
    {
        CreateDaoRequest { description: own(description), ..self }
    }

    /// Sets the council token mint.
    pub fn with_council_token_mint(self, mint: &str) -> (r: Self)
        ensures
            opt_view(r.council_token_mint) == Some(mint@),
            r == (CreateDaoRequest { council_token_mint: r.council_token_mint, ..self }),
    {
        CreateDaoRequest { council_token_mint: Some(own(mint)), ..self }
    }

    /// Sets the assets governed from creation.
    pub fn with_governed_assets(self, assets: Vec<GovernedAsset>) -> (r: Self)
        ensures
            r == (CreateDaoRequest { initial_governed_assets: assets, ..self }),
    {
        CreateDaoRequest { initial_governed_assets: assets, ..self }
    }

    /// Replaces the metadata.
    pub fn with_metadata(self, metadata: StringMap) -> (r: Self)
        ensures
            r == (CreateDaoRequest { metadata: metadata, ..self }),
    {
        CreateDaoRequest { metadata: metadata, ..self }
    }
}

/// Request to create a proposal inside a DAO.
#[derive(Clone, Debug, PartialEq, Eq)]
pub struct CreateDaoProposalRequest {
    pub from_address: AccountId,
    pub dao_id: u64,
    pub title: String,
    pub description: String,
    pub metadata: String,
    pub instructions: Vec<ProtoAny>,
    pub additional_metadata: StringMap,
}

impl CreateDaoProposalRequest {
    /// A proposal with no metadata, instructions or additional metadata.
    pub fn new(from_address: AccountId, dao_id: u64, title: &str, description: &str) -> (r: Self)
        ensures
            r.from_address == from_address,
            r.dao_id == dao_id,
            r.title@ == title@,
            r.description@ == description@,
            r.metadata@ == Seq::<char>::empty(),
            r.instructions@.len() == 0,
            r.additional_metadata@ == Map::<Seq<char>, Seq<char>>::empty(),
    {
        CreateDaoProposalRequest {
            from_address,
            dao_id,
            title: own(title),
            description: own(description),
            metadata: String::new(),
            instructions: Vec::new(),
            additional_metadata: StringMap::new(),
        }
    }

    /// Sets the free-form metadata.
    pub fn with_metadata(self, metadata: &str) -> (r: Self)
        ensures
            r.metadata@ == metadata@,
            r == (CreateDaoProposalRequest { metadata: r.metadata, ..self }),
    {
        CreateDaoProposalRequest { metadata: own(metadata), ..self }
    }

    /// Sets the instructions executed if the proposal passes.
    pub fn with_instructions(self, instructions: Vec<ProtoAny>) -> (r: Self)
        ensures
            r == (CreateDaoProposalRequest { instructions: instructions, ..self }),
    {
        CreateDaoProposalRequest { instructions: instructions, ..self }
    }

    /// Replaces the additional metadata.
    pub fn with_additional_metadata(self, metadata: StringMap) -> (r: Self)
        ensures
            r == (CreateDaoProposalRequest { additional_metadata: metadata, ..self }),
    {
        CreateDaoProposalRequest { additional_metadata: metadata, ..self }
    }
}

/// Request to sign a DAO proposal (council sign-off).
#[derive(Clone, Debug, PartialEq, Eq)]
pub struct SignDaoProposalRequest {
    pub from_address: AccountId,
    pub dao_id: u64,
    pub proposal_id: u64,
}

impl SignDaoProposalRequest {
    /// Creates a signature request.
    pub fn new(from_address: AccountId, dao_id: u64, proposal_id: u64) -> (r: Self)
        ensures
            r == (SignDaoProposalRequest { from_address: from_address, dao_id: dao_id, proposal_id: proposal_id }),
    {
        SignDaoProposalRequest { from_address: from_address, dao_id: dao_id, proposal_id: proposal_id }
    }
}

/// Request to deposit governance tokens into a DAO.
#[derive(Clone, Debug, PartialEq, Eq)]
pub struct DaoDepositRequest {
    pub from_address: AccountId,
    pub dao_id: u64,
    pub token_mint: String,
    pub amount: String,
    pub lock_until: u64,
}

impl DaoDepositRequest {
    /// A deposit with no lock.
    pub fn new(from_address: AccountId, dao_id: u64, token_mint: &str, amount: &str) -> (r: Self)
        ensures
            r.token_mint@ == token_mint@,
            r.amount@ == amount@,
            r == (DaoDepositRequest { from_address: from_address, dao_id: dao_id, token_mint: r.token_mint, amount: r.amount, lock_until: 0 }),
    {
        DaoDepositRequest { from_address: from_address, dao_id: dao_id, token_mint: own(token_mint), amount: own(amount), lock_until: 0 }
    }
    /// Locks the deposit until the given time.
    pub fn with_lock_until(self, lock_until: u64) -> (r: Self)
        ensures
            r == (DaoDepositRequest { lock_until: lock_until, ..self }),
    {
        DaoDepositRequest { lock_until: lock_until, ..self }
    }
}

/// Request to vote on a DAO proposal.
#[derive(Clone, Debug, PartialEq, Eq)]
pub struct DaoVoteRequest {
    pub from_address: AccountId,
    pub dao_id: u64,
    pub proposal_id: u64,
    pub options: Vec<WeightedDaoVoteOption>,
    pub conviction_multiplier: u64,
}

impl DaoVoteRequest {
    /// A vote without conviction.
    pub fn new(from_address: AccountId, dao_id: u64, proposal_id: u64, options: Vec<WeightedDaoVoteOption>) -> (r: Self)
        ensures
            r == (DaoVoteRequest { from_address: from_address, dao_id: dao_id, proposal_id: proposal_id, options: options, conviction_multiplier: 0 }),
    {
        DaoVoteRequest { from_address: from_address, dao_id: dao_id, proposal_id: proposal_id, options: options, conviction_multiplier: 0 }
    }
    /// Sets the conviction multiplier.
    pub fn with_conviction(self, multiplier: u64) -> (r: Self)
        ensures
            r == (DaoVoteRequest { conviction_multiplier: multiplier, ..self }),
    {
        DaoVoteRequest { conviction_multiplier: multiplier, ..self }
    }
}

/// Request to cancel a DAO proposal.
#[derive(Clone, Debug, PartialEq, Eq)]
pub struct CancelDaoProposalRequest {
    pub from_address: AccountId,
    pub dao_id: u64,
    pub proposal_id: u64,
    pub reason: String,
}

impl CancelDaoProposalRequest {
    /// Creates a cancellation.
    pub fn new(from_address: AccountId, dao_id: u64, proposal_id: u64, reason: &str) -> (r: Self)
        ensures
            r.reason@ == reason@,
            r == (CancelDaoProposalRequest { from_address: from_address, dao_id: dao_id, proposal_id: proposal_id, reason: r.reason }),
    {
        CancelDaoProposalRequest { from_address: from_address, dao_id: dao_id, proposal_id: proposal_id, reason: own(reason) }
    }
}

/// Request to execute a passed DAO proposal.
#[derive(Clone, Debug, PartialEq, Eq)]
pub struct ExecuteDaoProposalRequest {
    pub from_address: AccountId,
    pub dao_id: u64,
    pub proposal_id: u64,
}

impl ExecuteDaoProposalRequest {
    /// Creates an execution request.
    pub fn new(from_address: AccountId, dao_id: u64, proposal_id: u64) -> (r: Self)
        ensures
            r == (ExecuteDaoProposalRequest { from_address: from_address, dao_id: dao_id, proposal_id: proposal_id }),
    {
        ExecuteDaoProposalRequest { from_address: from_address, dao_id: dao_id, proposal_id: proposal_id }
    }
}

/// Request to withdraw a deposit from a DAO.
#[derive(Clone, Debug, PartialEq, Eq)]
pub struct WithdrawDaoDepositRequest {
    pub from_address: AccountId,
    pub dao_id: u64,
    pub token_mint: String,
    pub amount: String,
}

impl WithdrawDaoDepositRequest {
    /// Creates a withdrawal.
    pub fn new(from_address: AccountId, dao_id: u64, token_mint: &str, amount: &str) -> (r: Self)
        ensures
            r.token_mint@ == token_mint@,
            r.amount@ == amount@,
            r == (WithdrawDaoDepositRequest { from_address: from_address, dao_id: dao_id, token_mint: r.token_mint, amount: r.amount }),
    {
        WithdrawDaoDepositRequest { from_address: from_address, dao_id: dao_id, token_mint: own(token_mint), amount: own(amount) }
    }
}

/// Query one DAO.
#[derive(Clone, Debug, PartialEq, Eq)]
pub struct QueryDaoRequest {
    pub dao_id: u64,
}

impl QueryDaoRequest {
    /// The query for one DAO.
    pub fn new(dao_id: u64) -> (r: Self)
        ensures
            r == (QueryDaoRequest { dao_id: dao_id }),
    {
        QueryDaoRequest { dao_id: dao_id }
    }
}

/// Query DAOs with optional filters (paginated).
#[derive(Clone, Debug, PartialEq, Eq)]
pub struct QueryDaosRequest {
    pub limit: i32,
    pub offset: i32,
    pub status_filter: Option<DaoStatus>,
    pub type_filter: Option<DaoType>,
    pub creator_filter: Option<String>,
}

impl QueryDaosRequest {
    /// One unfiltered page of DAOs.
    pub fn new(limit: i32, offset: i32) -> (r: Self)
        ensures
            r == (QueryDaosRequest { limit: limit, offset: offset, status_filter: None, type_filter: None, creator_filter: None }),
    {
        QueryDaosRequest { limit: limit, offset: offset, status_filter: None, type_filter: None, creator_filter: None }
    }
    /// Only DAOs with this status.
    pub fn status_filter(self, status: DaoStatus) -> (r: Self)
        ensures
            r == (QueryDaosRequest { status_filter: Some(status), ..self }),
    {
        QueryDaosRequest { status_filter: Some(status), ..self }
    }
    /// Only DAOs of this type.
    pub fn type_filter(self, dao_type: DaoType) -> (r: Self)
        ensures
            r == (QueryDaosRequest { type_filter: Some(dao_type), ..self }),
    {
        QueryDaosRequest { type_filter: Some(dao_type), ..self }
    }
    /// Only DAOs of this creator.
    pub fn creator_filter(self, creator: &str) -> (r: Self)
        ensures
            opt_view(r.creator_filter) == Some(creator@),
            r == (QueryDaosRequest { creator_filter: r.creator_filter, ..self }),
    {
        QueryDaosRequest { creator_filter: Some(own(creator)), ..self }
    }
}

/// Query one DAO proposal.
#[derive(Clone, Debug, PartialEq, Eq)]
pub struct QueryDaoProposalRequest {
    pub dao_id: u64,
    pub proposal_id: u64,
}

impl QueryDaoProposalRequest {
    /// The query for one proposal.
    pub fn new(dao_id: u64, proposal_id: u64) -> (r: Self)
        ensures
            r == (QueryDaoProposalRequest { dao_id: dao_id, proposal_id: proposal_id }),
    {
        QueryDaoProposalRequest { dao_id: dao_id, proposal_id: proposal_id }
    }
}

/// Query the proposals of a DAO with optional filters (paginated).
#[derive(Clone, Debug, PartialEq, Eq)]
pub struct QueryDaoProposalsRequest {
    pub dao_id: u64,
    pub limit: i32,
    pub offset: i32,
    pub status_filter: Option<DaoProposalStatus>,
    pub proposer_filter: Option<String>,
}

impl QueryDaoProposalsRequest {
    /// One unfiltered page of proposals.
    pub fn new(dao_id: u64, limit: i32, offset: i32) -> (r: Self)
        ensures
            r == (QueryDaoProposalsRequest { dao_id: dao_id, limit: limit, offset: offset, status_filter: None, proposer_filter: None }),
    {
        QueryDaoProposalsRequest { dao_id: dao_id, limit: limit, offset: offset, status_filter: None, proposer_filter: None }
    }
    /// Only proposals with this status.
    pub fn status_filter(self, status: DaoProposalStatus) -> (r: Self)
        ensures
            r == (QueryDaoProposalsRequest { status_filter: Some(status), ..self }),
    {
        QueryDaoProposalsRequest { status_filter: Some(status), ..self }
    }
    /// Only proposals of this proposer.
    pub fn proposer_filter(self, proposer: &str) -> (r: Self)
        ensures
            opt_view(r.proposer_filter) == Some(proposer@),
            r == (QueryDaoProposalsRequest { proposer_filter: r.proposer_filter, ..self }),
    {
        QueryDaoProposalsRequest { proposer_filter: Some(own(proposer)), ..self }
    }
}

/// Query one vote on a DAO proposal.
#[derive(Clone, Debug, PartialEq, Eq)]
pub struct QueryDaoVoteRequest {
    pub dao_id: u64,
    pub proposal_id: u64,
    pub voter: String,
}

impl QueryDaoVoteRequest {
    /// The query for one voter's vote.
    pub fn new(dao_id: u64, proposal_id: u64, voter: &str) -> (r: Self)
        ensures
            r.voter@ == voter@,
            r == (QueryDaoVoteRequest { dao_id: dao_id, proposal_id: proposal_id, voter: r.voter }),
    {
        QueryDaoVoteRequest { dao_id: dao_id, proposal_id: proposal_id, voter: own(voter) }
    }
}

/// Query the votes on a DAO proposal (paginated).
#[derive(Clone, Debug, PartialEq, Eq)]
pub struct QueryDaoVotesRequest {
    pub dao_id: u64,
    pub proposal_id: u64,
    pub limit: i32,
    pub offset: i32,
}

impl QueryDaoVotesRequest {
    /// One page of votes.
    pub fn new(dao_id: u64, proposal_id: u64, limit: i32, offset: i32) -> (r: Self)
        ensures
            r == (QueryDaoVotesRequest { dao_id: dao_id, proposal_id: proposal_id, limit: limit, offset: offset }),
    {
        QueryDaoVotesRequest { dao_id: dao_id, proposal_id: proposal_id, limit: limit, offset: offset }
    }
}

/// Query one deposit in a DAO.
#[derive(Clone, Debug, PartialEq, Eq)]
pub struct QueryDaoDepositRequest {
    pub dao_id: u64,
    pub depositor: String,
}

impl QueryDaoDepositRequest {
    /// The query for one depositor's deposit.
    pub fn new(dao_id: u64, depositor: &str) -> (r: Self)
        ensures
            r.depositor@ == depositor@,
            r == (QueryDaoDepositRequest { dao_id: dao_id, depositor: r.depositor }),
    {
        QueryDaoDepositRequest { dao_id: dao_id, depositor: own(depositor) }
    }
}

/// Query the deposits of a DAO with an optional depositor filter (paginated).
#[derive(Clone, Debug, PartialEq, Eq)]
pub struct QueryDaoDepositsRequest {
    pub dao_id: u64,
    pub depositor_filter: Option<String>,
    pub limit: i32,
    pub offset: i32,
}

impl QueryDaoDepositsRequest {
    /// One unfiltered page of deposits.
    pub fn new(dao_id: u64, limit: i32, offset: i32) -> (r: Self)
        ensures
            r == (QueryDaoDepositsRequest { dao_id: dao_id, limit: limit, offset: offset, depositor_filter: None }),
    {
        QueryDaoDepositsRequest { dao_id: dao_id, limit: limit, offset: offset, depositor_filter: None }
    }
    /// Only deposits of this depositor.
    pub fn depositor_filter(self, depositor: &str) -> (r: Self)
        ensures
            opt_view(r.depositor_filter) == Some(depositor@),
            r == (QueryDaoDepositsRequest { depositor_filter: r.depositor_filter, ..self }),
    {
        QueryDaoDepositsRequest { depositor_filter: Some(own(depositor)), ..self }
    }
}

/// Query the tally of a DAO proposal.
#[derive(Clone, Debug, PartialEq, Eq)]
pub struct QueryDaoTallyResultRequest {
    pub dao_id: u64,
    pub proposal_id: u64,
}

impl QueryDaoTallyResultRequest {
    /// The query for one tally.
    pub fn new(dao_id: u64, proposal_id: u64) -> (r: Self)
        ensures
            r == (QueryDaoTallyResultRequest { dao_id: dao_id, proposal_id: proposal_id }),
    {
        QueryDaoTallyResultRequest { dao_id: dao_id, proposal_id: proposal_id }
    }
}

} // verus!
