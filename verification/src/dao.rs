//! DAO module: permissionless DAO instances with their own treasury,
//! proposals, council sign-off, voting, deposits and governed assets.
pub mod builder;
pub mod requests;
pub mod types;

pub use builder::{
    CancelDaoProposalBuilder, CreateDaoBuilder, CreateDaoProposalBuilder, DaoDepositBuilder,
    DaoVoteBuilder, ExecuteDaoProposalBuilder, SignDaoProposalBuilder, WithdrawDaoDepositBuilder,
};
pub use crate::common::{AccountId, SdkError, VERSION};
pub use requests::{
    CancelDaoProposalRequest, CreateDaoProposalRequest, CreateDaoRequest, DaoDepositRequest,
    DaoVoteRequest, ExecuteDaoProposalRequest, QueryDaoDepositRequest, QueryDaoDepositsRequest,
    QueryDaoProposalRequest, QueryDaoProposalsRequest, QueryDaoRequest, QueryDaoTallyResultRequest,
    QueryDaoVoteRequest, QueryDaoVotesRequest, QueryDaosRequest, SignDaoProposalRequest,
    WithdrawDaoDepositRequest,
};
pub use types::{
    Dao, DaoConfig, DaoDeposit, DaoPlugin, DaoProposal, DaoProposalStatus, DaoProposalUpdate,
    DaoStatus, DaoTallyResult, DaoType, DaoVote, DaoVoteOption, GovernedAsset,
    WeightedDaoVoteOption,
};
