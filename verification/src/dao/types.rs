//! Domain types for the DAO module: clean representations of the DAO
//! protobuf messages with their enum wire numbers.
use vstd::prelude::*;
use vstd::std_specs::convert::FromSpecImpl;
use crate::common::{own, ProtoAny, StringMap};

verus! {

/// Governance model of a DAO instance.
#[derive(Clone, Copy, Debug, PartialEq, Eq, Hash, Structural)]
pub enum DaoType {
    Unspecified,
    Community,
    Council,
    Hybrid,
}

/// The wire number of each `DaoType` variant.
pub open spec fn dao_type_number(v: DaoType) -> i32 {
    match v {
        DaoType::Unspecified => 0,
        DaoType::Community => 1,
        DaoType::Council => 2,
        DaoType::Hybrid => 3,
    }
}

/// The `DaoType` that a wire number denotes; unknown numbers give `Unspecified`.
pub open spec fn dao_type_of(n: i32) -> DaoType {
    if n == 1 {
        DaoType::Community
    } else if n == 2 {
        DaoType::Council
    } else if n == 3 {
        DaoType::Hybrid
    } else {
        DaoType::Unspecified
    }
}

impl From<i32> for DaoType {
    /// The variant of a wire number; unknown numbers give `Unspecified`.
    fn from(v: i32) -> (r: DaoType) {
        match v {
            1 => DaoType::Community,
            2 => DaoType::Council,
            3 => DaoType::Hybrid,
            _ => DaoType::Unspecified,
        }
    }
}

impl FromSpecImpl<i32> for DaoType {
    open spec fn obeys_from_spec() -> bool {
        true
    }

    open spec fn from_spec(v: i32) -> DaoType {
        dao_type_of(v)
    }
}

impl From<DaoType> for i32 {
    /// The wire number of a variant.
    fn from(t: DaoType) -> (r: i32) {
        match t {
            DaoType::Unspecified => 0,
            DaoType::Community => 1,
            DaoType::Council => 2,
            DaoType::Hybrid => 3,
        }
    }
}

impl FromSpecImpl<DaoType> for i32 {
    open spec fn obeys_from_spec() -> bool {
        true
    }

    open spec fn from_spec(t: DaoType) -> i32 {
        dao_type_number(t)
    }
}

/// Every `DaoType` survives the trip to its wire number and back, and every
/// number in `0..=3` survives the trip to a variant and back; any
/// other number reads as `Unspecified`.
pub proof fn lemma_dao_type_roundtrip(v: DaoType, n: i32)
    ensures
        dao_type_of(dao_type_number(v)) == v,
        0 <= n <= 3 ==> dao_type_number(dao_type_of(n)) == n,
        !(0 <= n <= 3) ==> dao_type_of(n) == DaoType::Unspecified,
{
}

/// The wire numbers of `DaoType`, both ways: `Unspecified` is 0, `Community` is 1, `Council` is 2, `Hybrid` is 3; any other number reads
/// as `Unspecified`.
pub proof fn law_dao_type_wire_numbers(n: i32)
    ensures
        dao_type_number(DaoType::Unspecified) == 0,
        dao_type_number(DaoType::Community) == 1,
        dao_type_number(DaoType::Council) == 2,
        dao_type_number(DaoType::Hybrid) == 3,
        dao_type_of(0) == DaoType::Unspecified,
        dao_type_of(1) == DaoType::Community,
        dao_type_of(2) == DaoType::Council,
        dao_type_of(3) == DaoType::Hybrid,
        !(0 <= n <= 3) ==> dao_type_of(n) == DaoType::Unspecified,
{
}

/// Lifecycle status of a DAO instance.
#[derive(Clone, Copy, Debug, PartialEq, Eq, Hash, Structural)]
pub enum DaoStatus {
    Unspecified,
    Active,
    Paused,
    Deprecated,
}

/// The wire number of each `DaoStatus` variant.
pub open spec fn dao_status_number(v: DaoStatus) -> i32 {
    match v {
        DaoStatus::Unspecified => 0,
        DaoStatus::Active => 1,
        DaoStatus::Paused => 2,
        DaoStatus::Deprecated => 3,
    }
}

/// The `DaoStatus` that a wire number denotes; unknown numbers give `Unspecified`.
pub open spec fn dao_status_of(n: i32) -> DaoStatus {
    if n == 1 {
        DaoStatus::Active
    } else if n == 2 {
        DaoStatus::Paused
    } else if n == 3 {
        DaoStatus::Deprecated
    } else {
        DaoStatus::Unspecified
    }
}

impl From<i32> for DaoStatus {
    /// The variant of a wire number; unknown numbers give `Unspecified`.
    fn from(v: i32) -> (r: DaoStatus) {
        match v {
            1 => DaoStatus::Active,
            2 => DaoStatus::Paused,
            3 => DaoStatus::Deprecated,
            _ => DaoStatus::Unspecified,
        }
    }
}

impl FromSpecImpl<i32> for DaoStatus {
    open spec fn obeys_from_spec() -> bool {
        true
    }

    open spec fn from_spec(v: i32) -> DaoStatus {
        dao_status_of(v)
    }
}

impl From<DaoStatus> for i32 {
    /// The wire number of a variant.
    fn from(t: DaoStatus) -> (r: i32) {
        match t {
            DaoStatus::Unspecified => 0,
            DaoStatus::Active => 1,
            DaoStatus::Paused => 2,
            DaoStatus::Deprecated => 3,
        }
    }
}

impl FromSpecImpl<DaoStatus> for i32 {
    open spec fn obeys_from_spec() -> bool {
        true
    }

    open spec fn from_spec(t: DaoStatus) -> i32 {
        dao_status_number(t)
    }
}

/// Every `DaoStatus` survives the trip to its wire number and back, and every
/// number in `0..=3` survives the trip to a variant and back; any
/// other number reads as `Unspecified`.
pub proof fn lemma_dao_status_roundtrip(v: DaoStatus, n: i32)
    ensures
        dao_status_of(dao_status_number(v)) == v,
        0 <= n <= 3 ==> dao_status_number(dao_status_of(n)) == n,
        !(0 <= n <= 3) ==> dao_status_of(n) == DaoStatus::Unspecified,
{
}

/// The wire numbers of `DaoStatus`, both ways: `Unspecified` is 0, `Active` is 1, `Paused` is 2, `Deprecated` is 3; any other number reads
/// as `Unspecified`.
pub proof fn law_dao_status_wire_numbers(n: i32)
    ensures
        dao_status_number(DaoStatus::Unspecified) == 0,
        dao_status_number(DaoStatus::Active) == 1,
        dao_status_number(DaoStatus::Paused) == 2,
        dao_status_number(DaoStatus::Deprecated) == 3,
        dao_status_of(0) == DaoStatus::Unspecified,
        dao_status_of(1) == DaoStatus::Active,
        dao_status_of(2) == DaoStatus::Paused,
        dao_status_of(3) == DaoStatus::Deprecated,
        !(0 <= n <= 3) ==> dao_status_of(n) == DaoStatus::Unspecified,
{
}

/// Status of a proposal scoped to a specific DAO.
#[derive(Clone, Copy, Debug, PartialEq, Eq, Hash, Structural)]
pub enum DaoProposalStatus {
    Unspecified,
    Draft,
    Signing,
    Voting,
    Succeeded,
    Defeated,
    Executed,
    Cancelled,
    Failed,
}

/// The wire number of each `DaoProposalStatus` variant.
pub open spec fn dao_proposal_status_number(v: DaoProposalStatus) -> i32 {
    match v {
        DaoProposalStatus::Unspecified => 0,
        DaoProposalStatus::Draft => 1,
        DaoProposalStatus::Signing => 2,
        DaoProposalStatus::Voting => 3,
        DaoProposalStatus::Succeeded => 4,
        DaoProposalStatus::Defeated => 5,
        DaoProposalStatus::Executed => 6,
        DaoProposalStatus::Cancelled => 7,
        DaoProposalStatus::Failed => 8,
    }
}

/// The `DaoProposalStatus` that a wire number denotes; unknown numbers give `Unspecified`.
pub open spec fn dao_proposal_status_of(n: i32) -> DaoProposalStatus {
    if n == 1 {
        DaoProposalStatus::Draft
    } else if n == 2 {
        DaoProposalStatus::Signing
    } else if n == 3 {
        DaoProposalStatus::Voting
    } else if n == 4 {
        DaoProposalStatus::Succeeded
    } else if n == 5 {
        DaoProposalStatus::Defeated
    } else if n == 6 {
        DaoProposalStatus::Executed
    } else if n == 7 {
        DaoProposalStatus::Cancelled
    } else if n == 8 {
        DaoProposalStatus::Failed
    } else {
        DaoProposalStatus::Unspecified
    }
}

impl From<i32> for DaoProposalStatus {
    /// The variant of a wire number; unknown numbers give `Unspecified`.
    fn from(v: i32) -> (r: DaoProposalStatus) {
        match v {
            1 => DaoProposalStatus::Draft,
            2 => DaoProposalStatus::Signing,
            3 => DaoProposalStatus::Voting,
            4 => DaoProposalStatus::Succeeded,
            5 => DaoProposalStatus::Defeated,
            6 => DaoProposalStatus::Executed,
            7 => DaoProposalStatus::Cancelled,
            8 => DaoProposalStatus::Failed,
            _ => DaoProposalStatus::Unspecified,
        }
    }
}

impl FromSpecImpl<i32> for DaoProposalStatus {
    open spec fn obeys_from_spec() -> bool {
        true
    }

    open spec fn from_spec(v: i32) -> DaoProposalStatus {
        dao_proposal_status_of(v)
    }
}

impl From<DaoProposalStatus> for i32 {
    /// The wire number of a variant.
    fn from(t: DaoProposalStatus) -> (r: i32) {
        match t {
            DaoProposalStatus::Unspecified => 0,
            DaoProposalStatus::Draft => 1,
            DaoProposalStatus::Signing => 2,
            DaoProposalStatus::Voting => 3,
            DaoProposalStatus::Succeeded => 4,
            DaoProposalStatus::Defeated => 5,
            DaoProposalStatus::Executed => 6,
            DaoProposalStatus::Cancelled => 7,
            DaoProposalStatus::Failed => 8,
        }
    }
}

impl FromSpecImpl<DaoProposalStatus> for i32 {
    open spec fn obeys_from_spec() -> bool {
        true
    }

    open spec fn from_spec(t: DaoProposalStatus) -> i32 {
        dao_proposal_status_number(t)
    }
}

/// Every `DaoProposalStatus` survives the trip to its wire number and back, and every
/// number in `0..=8` survives the trip to a variant and back; any
/// other number reads as `Unspecified`.
pub proof fn lemma_dao_proposal_status_roundtrip(v: DaoProposalStatus, n: i32)
    ensures
        dao_proposal_status_of(dao_proposal_status_number(v)) == v,
        0 <= n <= 8 ==> dao_proposal_status_number(dao_proposal_status_of(n)) == n,
        !(0 <= n <= 8) ==> dao_proposal_status_of(n) == DaoProposalStatus::Unspecified,
{
}

/// The wire numbers of `DaoProposalStatus`, both ways: `Unspecified` is 0, `Draft` is 1, `Signing` is 2, `Voting` is 3, `Succeeded` is 4, `Defeated` is 5, `Executed` is 6, `Cancelled` is 7, `Failed` is 8; any other number reads
/// as `Unspecified`.
pub proof fn law_dao_proposal_status_wire_numbers(n: i32)
    ensures
        dao_proposal_status_number(DaoProposalStatus::Unspecified) == 0,
        dao_proposal_status_number(DaoProposalStatus::Draft) == 1,
        dao_proposal_status_number(DaoProposalStatus::Signing) == 2,
        dao_proposal_status_number(DaoProposalStatus::Voting) == 3,
        dao_proposal_status_number(DaoProposalStatus::Succeeded) == 4,
        dao_proposal_status_number(DaoProposalStatus::Defeated) == 5,
        dao_proposal_status_number(DaoProposalStatus::Executed) == 6,
        dao_proposal_status_number(DaoProposalStatus::Cancelled) == 7,
        dao_proposal_status_number(DaoProposalStatus::Failed) == 8,
        dao_proposal_status_of(0) == DaoProposalStatus::Unspecified,
        dao_proposal_status_of(1) == DaoProposalStatus::Draft,
        dao_proposal_status_of(2) == DaoProposalStatus::Signing,
        dao_proposal_status_of(3) == DaoProposalStatus::Voting,
        dao_proposal_status_of(4) == DaoProposalStatus::Succeeded,
        dao_proposal_status_of(5) == DaoProposalStatus::Defeated,
        dao_proposal_status_of(6) == DaoProposalStatus::Executed,
        dao_proposal_status_of(7) == DaoProposalStatus::Cancelled,
        dao_proposal_status_of(8) == DaoProposalStatus::Failed,
        !(0 <= n <= 8) ==> dao_proposal_status_of(n) == DaoProposalStatus::Unspecified,
{
}

/// Vote option for DAO proposals.
#[derive(Clone, Copy, Debug, PartialEq, Eq, Hash, Structural)]
pub enum DaoVoteOption {
    Unspecified,
    Yes,
    No,
    Abstain,
}

/// The wire number of each `DaoVoteOption` variant.
pub open spec fn dao_vote_option_number(v: DaoVoteOption) -> i32 {
    match v {
        DaoVoteOption::Unspecified => 0,
        DaoVoteOption::Yes => 1,
        DaoVoteOption::No => 2,
        DaoVoteOption::Abstain => 3,
    }
}

/// The `DaoVoteOption` that a wire number denotes; unknown numbers give `Unspecified`.
pub open spec fn dao_vote_option_of(n: i32) -> DaoVoteOption {
    if n == 1 {
        DaoVoteOption::Yes
    } else if n == 2 {
        DaoVoteOption::No
    } else if n == 3 {
        DaoVoteOption::Abstain
    } else {
        DaoVoteOption::Unspecified
    }
}

impl From<i32> for DaoVoteOption {
    /// The variant of a wire number; unknown numbers give `Unspecified`.
    fn from(v: i32) -> (r: DaoVoteOption) {
        match v {
            1 => DaoVoteOption::Yes,
            2 => DaoVoteOption::No,
            3 => DaoVoteOption::Abstain,
            _ => DaoVoteOption::Unspecified,
        }
    }
}

impl FromSpecImpl<i32> for DaoVoteOption {
    open spec fn obeys_from_spec() -> bool {
        true
    }

    open spec fn from_spec(v: i32) -> DaoVoteOption {
        dao_vote_option_of(v)
    }
}

impl From<DaoVoteOption> for i32 {
    /// The wire number of a variant.
    fn from(t: DaoVoteOption) -> (r: i32) {
        match t {
            DaoVoteOption::Unspecified => 0,
            DaoVoteOption::Yes => 1,
            DaoVoteOption::No => 2,
            DaoVoteOption::Abstain => 3,
        }
    }
}

impl FromSpecImpl<DaoVoteOption> for i32 {
    open spec fn obeys_from_spec() -> bool {
        true
    }

    open spec fn from_spec(t: DaoVoteOption) -> i32 {
        dao_vote_option_number(t)
    }
}

/// Every `DaoVoteOption` survives the trip to its wire number and back, and every
/// number in `0..=3` survives the trip to a variant and back; any
/// other number reads as `Unspecified`.
pub proof fn lemma_dao_vote_option_roundtrip(v: DaoVoteOption, n: i32)
    ensures
        dao_vote_option_of(dao_vote_option_number(v)) == v,
        0 <= n <= 3 ==> dao_vote_option_number(dao_vote_option_of(n)) == n,
        !(0 <= n <= 3) ==> dao_vote_option_of(n) == DaoVoteOption::Unspecified,
{
}

/// The wire numbers of `DaoVoteOption`, both ways: `Unspecified` is 0, `Yes` is 1, `No` is 2, `Abstain` is 3; any other number reads
/// as `Unspecified`.
pub proof fn law_dao_vote_option_wire_numbers(n: i32)
    ensures
        dao_vote_option_number(DaoVoteOption::Unspecified) == 0,
        dao_vote_option_number(DaoVoteOption::Yes) == 1,
        dao_vote_option_number(DaoVoteOption::No) == 2,
        dao_vote_option_number(DaoVoteOption::Abstain) == 3,
        dao_vote_option_of(0) == DaoVoteOption::Unspecified,
        dao_vote_option_of(1) == DaoVoteOption::Yes,
        dao_vote_option_of(2) == DaoVoteOption::No,
        dao_vote_option_of(3) == DaoVoteOption::Abstain,
        !(0 <= n <= 3) ==> dao_vote_option_of(n) == DaoVoteOption::Unspecified,
{
}

/// Weighted vote option for split voting.
#[derive(Clone, Debug, PartialEq, Eq)]
pub struct WeightedDaoVoteOption {
    pub option: DaoVoteOption,
    pub weight: String,
}

impl WeightedDaoVoteOption {
    /// A vote for `option` with the given weight.
    pub fn new(option: DaoVoteOption, weight: &str) -> (r: Self)
        ensures
            r.option == option,
            r.weight@ == weight@,
    {
        WeightedDaoVoteOption { option, weight: own(weight) }
    }
}

/// Tally result for a DAO proposal.
#[derive(Clone, Debug, PartialEq, Eq)]
pub struct DaoTallyResult {
    pub yes: String,
    pub no: String,
    pub abstain: String,
    pub total_voted: String,
    pub quorum_reached: bool,
    pub passed: bool,
}

/// Configuration parameters for a DAO (self-governed via its own proposals).
#[derive(Clone, Debug, PartialEq, Eq)]
pub struct DaoConfig {
    pub voting_period: String,
    pub hold_up_time: String,
    pub min_deposit_for_proposal: String,
    pub quorum: String,
    pub approval_threshold: String,
    pub allow_council_override: bool,
    pub use_conviction_voting: bool,
    pub max_active_proposals: u64,
    pub plugin_configs: StringMap,
}

/// An on-chain resource controlled by a DAO.
#[derive(Clone, Debug, PartialEq, Eq)]
pub struct GovernedAsset {
    pub asset_type: String,
    pub address: String,
    pub authority_type: String,
    pub current_authority: String,
    pub is_active: bool,
    pub added_at: u64,
}

/// A permissionless DAO instance (Realm).
#[derive(Clone, Debug, PartialEq, Eq)]
pub struct Dao {
    pub dao_id: u64,
    pub unique_key: Vec<u8>,
    pub name: String,
    pub description: String,
    pub dao_address: String,
    pub dao_type: DaoType,
    pub community_token_mint: String,
    pub council_token_mint: String,
    pub config: Option<DaoConfig>,
    pub status: DaoStatus,
    pub created_at: u64,
    pub creator: String,
    pub governed_assets: Vec<GovernedAsset>,
    pub metadata: StringMap,
}

impl Dao {
    /// Whether the DAO is active.
    pub fn is_active(&self) -> (r: bool)
        ensures
            r == (self.status == DaoStatus::Active),
    {
        self.status == DaoStatus::Active
    }

    /// Whether the DAO uses hybrid (community + council) governance.
    pub fn is_hybrid(&self) -> (r: bool)
        ensures
            r == (self.dao_type == DaoType::Hybrid),
    {
        self.dao_type == DaoType::Hybrid
    }
}

/// A proposal scoped to one DAO.
#[derive(Clone, Debug, PartialEq)]
pub struct DaoProposal {
    pub dao_id: u64,
    pub proposal_id: u64,
    pub title: String,
    pub description: String,
    pub metadata: String,
    pub status: DaoProposalStatus,
    pub instructions: Vec<ProtoAny>,
    pub created_at: u64,
    pub voting_start_time: u64,
    pub voting_end_time: u64,
    pub enactment_time: u64,
    pub proposer: String,
    pub tally: Option<DaoTallyResult>,
    pub additional_metadata: StringMap,
}

impl DaoProposal {
    /// Whether the proposal is open for voting.
    pub fn is_votable(&self) -> (r: bool)
        ensures
            r == (self.status == DaoProposalStatus::Voting),
    {
        self.status == DaoProposalStatus::Voting
    }

    /// Whether the proposal has succeeded and can be executed.
    pub fn is_executable(&self) -> (r: bool)
        ensures
            r == (self.status == DaoProposalStatus::Succeeded),
    {
        self.status == DaoProposalStatus::Succeeded
    }
}

/// A vote cast on a DAO proposal.
#[derive(Clone, Debug, PartialEq, Eq)]
pub struct DaoVote {
    pub dao_id: u64,
    pub proposal_id: u64,
    pub voter: String,
    pub options: Vec<WeightedDaoVoteOption>,
    pub vote_time: u64,
    pub conviction_multiplier: u64,
    pub locked_until: String,
}

/// Tokens locked for voting power in a DAO.
#[derive(Clone, Debug, PartialEq, Eq)]
pub struct DaoDeposit {
    pub dao_id: u64,
    pub depositor: String,
    pub token_mint: String,
    pub amount: String,
    pub lock_until: u64,
}

/// An installed voter/decision plugin.
#[derive(Clone, Debug, PartialEq, Eq)]
pub struct DaoPlugin {
    pub plugin_type: String,
    pub plugin_address: String,
    pub config_params: StringMap,
}

/// DAO proposal lifecycle event (for streams).
#[derive(Clone, Debug, PartialEq, Eq)]
pub struct DaoProposalUpdate {
    pub dao_id: u64,
    pub proposal_id: u64,
    pub old_status: DaoProposalStatus,
    pub new_status: DaoProposalStatus,
    pub reason: String,
    pub tally: Option<DaoTallyResult>,
    pub timestamp: u64,
}

} // verus!
