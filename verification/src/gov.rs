//! Governance module: proposal submission, upgrade scheduling, deposits,
//! (split and conviction) votes, cancellation and proposal queries.
pub mod builder;
pub mod requests;
pub mod types;

pub use builder::{
    CancelProposalBuilder, ProposalDepositBuilder, ProposalVoteBuilder, ScheduleUpgradeBuilder,
    SubmitProposalBuilder,
};
pub use crate::common::{AccountId, SdkError, VERSION};
pub use requests::{
    CancelProposalRequest, ProposalDepositRequest, ProposalVoteRequest, QueryGovParamsRequest,
    QueryProposalDepositRequest, QueryProposalDepositsRequest, QueryProposalRequest,
    QueryProposalVoteRequest, QueryProposalVotesRequest, QueryProposalsRequest,
    QueryTallyResultRequest, ScheduleUpgradeRequest, SubmitProposalRequest,
};
pub use types::{
    Deposit, GovParams, Proposal, ProposalClass, ProposalClassParams, ProposalStatus,
    ProposalUpdate, TallyResult, UpgradePlan, UpgradeStatus, Vote, VoteOption, WeightedVoteOption,
};
