//! Request types of the governance module.
use vstd::prelude::*;
use crate::common::{opt_view, own, AccountId, ProtoAny, StringMap};
use crate::gov::types::{ProposalClass, ProposalStatus, UpgradePlan, WeightedVoteOption};

verus! {

/// Request to submit a governance proposal.
#[derive(Clone, Debug, PartialEq, Eq)]
pub struct SubmitProposalRequest {
    pub from_address: AccountId,
    pub proposal_class: ProposalClass,
    pub title: String,
    pub description: String,
    pub metadata: String,
    pub messages: Vec<ProtoAny>,
    pub initial_deposit: String,
    pub additional_metadata: StringMap,
}

impl SubmitProposalRequest {
    /// A proposal with no metadata, messages or additional metadata.
    pub fn new(
        from_address: AccountId,
        proposal_class: ProposalClass,
        title: &str,
        description: &str,
        initial_deposit: &str,
    ) -> (r: Self)
        ensures
            r.from_address == from_address,
            r.proposal_class == proposal_class,
            r.title@ == title@,
            r.description@ == description@,
            r.metadata@ == Seq::<char>::empty(),
            r.messages@.len() == 0,
            r.initial_deposit@ == initial_deposit@,
            r.additional_metadata@ == Map::<Seq<char>, Seq<char>>::empty(),
    {
        SubmitProposalRequest {
            from_address,
            proposal_class,
            title: own(title),
            description: own(description),
            metadata: String::new(),
            messages: Vec::new(),
            initial_deposit: own(initial_deposit),
            additional_metadata: StringMap::new(),
        }
    }

    /// Sets the free-form metadata.
    pub fn with_metadata(self, metadata: &str) -> (r: Self)
        ensures
            r.metadata@ == metadata@,
            r == (SubmitProposalRequest { metadata: r.metadata, ..self }),
    {
        SubmitProposalRequest { metadata: own(metadata), ..self }
    }

    /// Sets the messages executed if the proposal passes.
    pub fn with_messages(self, messages: Vec<ProtoAny>) -> (r: Self)
        ensures
            r == (SubmitProposalRequest { messages: messages, ..self }),
    {
        SubmitProposalRequest { messages: messages, ..self }
    }

    /// Replaces the additional metadata.
    pub fn with_additional_metadata(self, metadata: StringMap) -> (r: Self)
        ensures
            r == (SubmitProposalRequest { additional_metadata: metadata, ..self }),
    {
        SubmitProposalRequest { additional_metadata: metadata, ..self }
    }
}

/// Request to schedule a software upgrade through governance.
#[derive(Clone, Debug, PartialEq, Eq)]
pub struct ScheduleUpgradeRequest {
    pub from_address: AccountId,
    pub proposal_class: ProposalClass,
    pub upgrade_plan: UpgradePlan,
    pub title: String,
    pub description: String,
    pub metadata: String,
    pub initial_deposit: String,
    pub additional_metadata: StringMap,
}

impl ScheduleUpgradeRequest {
    /// An upgrade proposal with no metadata or additional metadata.
    pub fn new(
        from_address: AccountId,
        proposal_class: ProposalClass,
        upgrade_plan: UpgradePlan,
        title: &str,
        description: &str,
        initial_deposit: &str,
    ) -> (r: Self)
        ensures
            r.from_address == from_address,
            r.proposal_class == proposal_class,
            r.upgrade_plan == upgrade_plan,
            r.title@ == title@,
            r.description@ == description@,
            r.metadata@ == Seq::<char>::empty(),
            r.initial_deposit@ == initial_deposit@,
            r.additional_metadata@ == Map::<Seq<char>, Seq<char>>::empty(),
    {
        ScheduleUpgradeRequest {
            from_address,
            proposal_class,
            upgrade_plan,
            title: own(title),
            description: own(description),
            metadata: String::new(),
            initial_deposit: own(initial_deposit),
            additional_metadata: StringMap::new(),
        }
    }

    /// Sets the free-form metadata.
    pub fn with_metadata(self, metadata: &str) -> (r: Self)
        ensures
            r.metadata@ == metadata@,
            r == (ScheduleUpgradeRequest { metadata: r.metadata, ..self }),
    {
        ScheduleUpgradeRequest { metadata: own(metadata), ..self }
    }

    /// Replaces the additional metadata.
    pub fn with_additional_metadata(self, metadata: StringMap) -> (r: Self)
        ensures
            r == (ScheduleUpgradeRequest { additional_metadata: metadata, ..self }),
    {
        ScheduleUpgradeRequest { additional_metadata: metadata, ..self }
    }
}

/// Request to deposit on a proposal.
#[derive(Clone, Debug, PartialEq, Eq)]
pub struct ProposalDepositRequest {
    pub from_address: AccountId,
    pub proposal_id: u64,
    pub amount: String,
}

impl ProposalDepositRequest {
    /// Creates a deposit.
    pub fn new(from_address: AccountId, proposal_id: u64, amount: &str) -> (r: Self)
        ensures
            r.amount@ == amount@,
            r == (ProposalDepositRequest { from_address: from_address, proposal_id: proposal_id, amount: r.amount }),
    {
        ProposalDepositRequest { from_address: from_address, proposal_id: proposal_id, amount: own(amount) }
    }
}

/// Request to vote on a proposal.
#[derive(Clone, Debug, PartialEq, Eq)]
pub struct ProposalVoteRequest {
    pub from_address: AccountId,
    pub proposal_id: u64,
    pub options: Vec<WeightedVoteOption>,
    pub conviction_multiplier: u64,
}

impl ProposalVoteRequest {
    /// A vote without conviction.
    pub fn new(from_address: AccountId, proposal_id: u64, options: Vec<WeightedVoteOption>) -> (r: Self)
        ensures
            r == (ProposalVoteRequest { from_address: from_address, proposal_id: proposal_id, options: options, conviction_multiplier: 0 }),
    {
        ProposalVoteRequest { from_address: from_address, proposal_id: proposal_id, options: options, conviction_multiplier: 0 }
    }
    /// Sets the conviction multiplier.
    pub fn with_conviction(self, multiplier: u64) -> (r: Self)
        ensures
            r == (ProposalVoteRequest { conviction_multiplier: multiplier, ..self }),
    {
        ProposalVoteRequest { conviction_multiplier: multiplier, ..self }
    }
}

/// Request to cancel a proposal.
#[derive(Clone, Debug, PartialEq, Eq)]
pub struct CancelProposalRequest {
    pub from_address: AccountId,
    pub proposal_id: u64,
    pub reason: String,
}

impl CancelProposalRequest {
    /// Creates a cancellation.
    pub fn new(from_address: AccountId, proposal_id: u64, reason: &str) -> (r: Self)
        ensures
            r.reason@ == reason@,
            r == (CancelProposalRequest { from_address: from_address, proposal_id: proposal_id, reason: r.reason }),
    {
        CancelProposalRequest { from_address: from_address, proposal_id: proposal_id, reason: own(reason) }
    }
}

/// Query the governance parameters.
#[derive(Clone, Debug, PartialEq, Eq)]
pub struct QueryGovParamsRequest;

/// Query one proposal.
#[derive(Clone, Debug, PartialEq, Eq)]
pub struct QueryProposalRequest {
    pub proposal_id: u64,
}

impl QueryProposalRequest {
    /// The query for one proposal.
    pub fn new(proposal_id: u64) -> (r: Self)
        ensures
            r == (QueryProposalRequest { proposal_id: proposal_id }),
    {
        QueryProposalRequest { proposal_id: proposal_id }
    }
}

/// Query proposals with optional filters (paginated).
#[derive(Clone, Debug, PartialEq, Eq)]
pub struct QueryProposalsRequest {
    pub limit: i32,
    pub offset: i32,
    pub status_filter: Option<ProposalStatus>,
    pub class_filter: Option<ProposalClass>,
    pub proposer_filter: Option<String>,
}

impl QueryProposalsRequest {
    /// One unfiltered page of proposals.
    pub fn new(limit: i32, offset: i32) -> (r: Self)
        ensures
            r == (QueryProposalsRequest { limit: limit, offset: offset, status_filter: None, class_filter: None, proposer_filter: None }),
    {
        QueryProposalsRequest { limit: limit, offset: offset, status_filter: None, class_filter: None, proposer_filter: None }
    }
    /// Only proposals with this status.
    pub fn status_filter(self, status: ProposalStatus) -> (r: Self)
        ensures
            r == (QueryProposalsRequest { status_filter: Some(status), ..self }),
    {
        QueryProposalsRequest { status_filter: Some(status), ..self }
    }
    /// Only proposals of this class.
    pub fn class_filter(self, class: ProposalClass) -> (r: Self)
        ensures
            r == (QueryProposalsRequest { class_filter: Some(class), ..self }),
    {
        QueryProposalsRequest { class_filter: Some(class), ..self }
    }
    /// Only proposals of this proposer.
    pub fn proposer_filter(self, proposer: &str) -> (r: Self)
        ensures
            opt_view(r.proposer_filter) == Some(proposer@),
            r == (QueryProposalsRequest { proposer_filter: r.proposer_filter, ..self }),
    {
        QueryProposalsRequest { proposer_filter: Some(own(proposer)), ..self }
    }
}

/// Query one vote on a proposal.
#[derive(Clone, Debug, PartialEq, Eq)]
pub struct QueryProposalVoteRequest {
    pub proposal_id: u64,
    pub voter: String,
}

impl QueryProposalVoteRequest {
    /// The query for one voter's vote.
    pub fn new(proposal_id: u64, voter: &str) -> (r: Self)
        ensures
            r.voter@ == voter@,
            r == (QueryProposalVoteRequest { proposal_id: proposal_id, voter: r.voter }),
    {
        QueryProposalVoteRequest { proposal_id: proposal_id, voter: own(voter) }
    }
}

/// Query the votes on a proposal (paginated).
#[derive(Clone, Debug, PartialEq, Eq)]
pub struct QueryProposalVotesRequest {
    pub proposal_id: u64,
    pub limit: i32,
    pub offset: i32,
}

impl QueryProposalVotesRequest {
    /// One page of votes.
    pub fn new(proposal_id: u64, limit: i32, offset: i32) -> (r: Self)
        ensures
            r == (QueryProposalVotesRequest { proposal_id: proposal_id, limit: limit, offset: offset }),
    {
        QueryProposalVotesRequest { proposal_id: proposal_id, limit: limit, offset: offset }
    }
}

/// Query one deposit on a proposal.
#[derive(Clone, Debug, PartialEq, Eq)]
pub struct QueryProposalDepositRequest {
    pub proposal_id: u64,
    pub depositor: String,
}

impl QueryProposalDepositRequest {
    /// The query for one depositor's deposit.
    pub fn new(proposal_id: u64, depositor: &str) -> (r: Self)
        ensures
            r.depositor@ == depositor@,
            r == (QueryProposalDepositRequest { proposal_id: proposal_id, depositor: r.depositor }),
    {
        QueryProposalDepositRequest { proposal_id: proposal_id, depositor: own(depositor) }
    }
}

/// Query the deposits on a proposal (paginated).
#[derive(Clone, Debug, PartialEq, Eq)]
pub struct QueryProposalDepositsRequest {
    pub proposal_id: u64,
    pub limit: i32,
    pub offset: i32,
}

impl QueryProposalDepositsRequest {
    /// One page of deposits.
    pub fn new(proposal_id: u64, limit: i32, offset: i32) -> (r: Self)
        ensures
            r == (QueryProposalDepositsRequest { proposal_id: proposal_id, limit: limit, offset: offset }),
    {
        QueryProposalDepositsRequest { proposal_id: proposal_id, limit: limit, offset: offset }
    }
}

/// Query the tally of a proposal.
#[derive(Clone, Debug, PartialEq, Eq)]
pub struct QueryTallyResultRequest {
    pub proposal_id: u64,
}

impl QueryTallyResultRequest {
    /// The query for one tally.
    pub fn new(proposal_id: u64) -> (r: Self)
        ensures
            r == (QueryTallyResultRequest { proposal_id: proposal_id }),
    {
        QueryTallyResultRequest { proposal_id: proposal_id }
    }
}

} // verus!
