//! Domain types of the governance module: proposal classes and statuses,
//! vote options, upgrade plans, proposals, deposits and votes.
use vstd::prelude::*;
use vstd::std_specs::convert::FromSpecImpl;
use crate::common::{own, NameMap, ProtoAny, StringMap};

verus! {

/// Class of a governance proposal, which fixes its deposit, voting period and
/// thresholds.
#[derive(Clone, Copy, Debug, PartialEq, Eq, Hash, Structural)]
pub enum ProposalClass {
    Unspecified,
    Standard,
    Expedited,
    Emergency,
    Root,
    Market,
    Treasury,
    EmergencyMarket,
}

/// The wire number of each `ProposalClass` variant.
pub open spec fn proposal_class_number(v: ProposalClass) -> i32 {
    match v {
        ProposalClass::Unspecified => 0,
        ProposalClass::Standard => 1,
        ProposalClass::Expedited => 2,
        ProposalClass::Emergency => 3,
        ProposalClass::Root => 4,
        ProposalClass::Market => 5,
        ProposalClass::Treasury => 6,
        ProposalClass::EmergencyMarket => 7,
    }
}

/// The `ProposalClass` that a wire number denotes; unknown numbers give `Unspecified`.
pub open spec fn proposal_class_of(n: i32) -> ProposalClass {
    if n == 1 {
        ProposalClass::Standard
    } else if n == 2 {
        ProposalClass::Expedited
    } else if n == 3 {
        ProposalClass::Emergency
    } else if n == 4 {
        ProposalClass::Root
    } else if n == 5 {
        ProposalClass::Market
    } else if n == 6 {
        ProposalClass::Treasury
    } else if n == 7 {
        ProposalClass::EmergencyMarket
    } else {
        ProposalClass::Unspecified
    }
}

impl From<i32> for ProposalClass {
    /// The variant of a wire number; unknown numbers give `Unspecified`.
    fn from(v: i32) -> (r: ProposalClass) {
        match v {
            1 => ProposalClass::Standard,
            2 => ProposalClass::Expedited,
            3 => ProposalClass::Emergency,
            4 => ProposalClass::Root,
            5 => ProposalClass::Market,
            6 => ProposalClass::Treasury,
            7 => ProposalClass::EmergencyMarket,
            _ => ProposalClass::Unspecified,
        }
    }
}

impl FromSpecImpl<i32> for ProposalClass {
    open spec fn obeys_from_spec() -> bool {
        true
    }

    open spec fn from_spec(v: i32) -> ProposalClass {
        proposal_class_of(v)
    }
}

impl From<ProposalClass> for i32 {
    /// The wire number of a variant.
    fn from(t: ProposalClass) -> (r: i32) {
        match t {
            ProposalClass::Unspecified => 0,
            ProposalClass::Standard => 1,
            ProposalClass::Expedited => 2,
            ProposalClass::Emergency => 3,
            ProposalClass::Root => 4,
            ProposalClass::Market => 5,
            ProposalClass::Treasury => 6,
            ProposalClass::EmergencyMarket => 7,
        }
    }
}

impl FromSpecImpl<ProposalClass> for i32 {
    open spec fn obeys_from_spec() -> bool {
        true
    }

    open spec fn from_spec(t: ProposalClass) -> i32 {
        proposal_class_number(t)
    }
}

/// Every `ProposalClass` survives the trip to its wire number and back, and every
/// number in `0..=7` survives the trip to a variant and back; any
/// other number reads as `Unspecified`.
pub proof fn lemma_proposal_class_roundtrip(v: ProposalClass, n: i32)
    ensures
        proposal_class_of(proposal_class_number(v)) == v,
        0 <= n <= 7 ==> proposal_class_number(proposal_class_of(n)) == n,
        !(0 <= n <= 7) ==> proposal_class_of(n) == ProposalClass::Unspecified,
{
}

/// The wire numbers of `ProposalClass`, both ways: `Unspecified` is 0, `Standard` is 1, `Expedited` is 2, `Emergency` is 3, `Root` is 4, `Market` is 5, `Treasury` is 6, `EmergencyMarket` is 7; any other number reads
/// as `Unspecified`.
pub proof fn law_proposal_class_wire_numbers(n: i32)
    ensures
        proposal_class_number(ProposalClass::Unspecified) == 0,
        proposal_class_number(ProposalClass::Standard) == 1,
        proposal_class_number(ProposalClass::Expedited) == 2,
        proposal_class_number(ProposalClass::Emergency) == 3,
        proposal_class_number(ProposalClass::Root) == 4,
        proposal_class_number(ProposalClass::Market) == 5,
        proposal_class_number(ProposalClass::Treasury) == 6,
        proposal_class_number(ProposalClass::EmergencyMarket) == 7,
        proposal_class_of(0) == ProposalClass::Unspecified,
        proposal_class_of(1) == ProposalClass::Standard,
        proposal_class_of(2) == ProposalClass::Expedited,
        proposal_class_of(3) == ProposalClass::Emergency,
        proposal_class_of(4) == ProposalClass::Root,
        proposal_class_of(5) == ProposalClass::Market,
        proposal_class_of(6) == ProposalClass::Treasury,
        proposal_class_of(7) == ProposalClass::EmergencyMarket,
        !(0 <= n <= 7) ==> proposal_class_of(n) == ProposalClass::Unspecified,
{
}

/// Lifecycle status of a governance proposal.
#[derive(Clone, Copy, Debug, PartialEq, Eq, Hash, Structural)]
pub enum ProposalStatus {
    Unspecified,
    DepositPeriod,
    VotingPeriod,
    Passed,
    Rejected,
    Failed,
    Cancelled,
}

/// The wire number of each `ProposalStatus` variant.
pub open spec fn proposal_status_number(v: ProposalStatus) -> i32 {
    match v {
        ProposalStatus::Unspecified => 0,
        ProposalStatus::DepositPeriod => 1,
        ProposalStatus::VotingPeriod => 2,
        ProposalStatus::Passed => 3,
        ProposalStatus::Rejected => 4,
        ProposalStatus::Failed => 5,
        ProposalStatus::Cancelled => 6,
    }
}

/// The `ProposalStatus` that a wire number denotes; unknown numbers give `Unspecified`.
pub open spec fn proposal_status_of(n: i32) -> ProposalStatus {
    if n == 1 {
        ProposalStatus::DepositPeriod
    } else if n == 2 {
        ProposalStatus::VotingPeriod
    } else if n == 3 {
        ProposalStatus::Passed
    } else if n == 4 {
        ProposalStatus::Rejected
    } else if n == 5 {
        ProposalStatus::Failed
    } else if n == 6 {
        ProposalStatus::Cancelled
    } else {
        ProposalStatus::Unspecified
    }
}

impl From<i32> for ProposalStatus {
    /// The variant of a wire number; unknown numbers give `Unspecified`.
    fn from(v: i32) -> (r: ProposalStatus) {
        match v {
            1 => ProposalStatus::DepositPeriod,
            2 => ProposalStatus::VotingPeriod,
            3 => ProposalStatus::Passed,
            4 => ProposalStatus::Rejected,
            5 => ProposalStatus::Failed,
            6 => ProposalStatus::Cancelled,
            _ => ProposalStatus::Unspecified,
        }
    }
}

impl FromSpecImpl<i32> for ProposalStatus {
    open spec fn obeys_from_spec() -> bool {
        true
    }

    open spec fn from_spec(v: i32) -> ProposalStatus {
        proposal_status_of(v)
    }
}

impl From<ProposalStatus> for i32 {
    /// The wire number of a variant.
    fn from(t: ProposalStatus) -> (r: i32) {
        match t {
            ProposalStatus::Unspecified => 0,
            ProposalStatus::DepositPeriod => 1,
            ProposalStatus::VotingPeriod => 2,
            ProposalStatus::Passed => 3,
            ProposalStatus::Rejected => 4,
            ProposalStatus::Failed => 5,
            ProposalStatus::Cancelled => 6,
        }
    }
}

impl FromSpecImpl<ProposalStatus> for i32 {
    open spec fn obeys_from_spec() -> bool {
        true
    }

    open spec fn from_spec(t: ProposalStatus) -> i32 {
        proposal_status_number(t)
    }
}

/// Every `ProposalStatus` survives the trip to its wire number and back, and every
/// number in `0..=6` survives the trip to a variant and back; any
/// other number reads as `Unspecified`.
pub proof fn lemma_proposal_status_roundtrip(v: ProposalStatus, n: i32)
    ensures
        proposal_status_of(proposal_status_number(v)) == v,
        0 <= n <= 6 ==> proposal_status_number(proposal_status_of(n)) == n,
        !(0 <= n <= 6) ==> proposal_status_of(n) == ProposalStatus::Unspecified,
{
}

/// The wire numbers of `ProposalStatus`, both ways: `Unspecified` is 0, `DepositPeriod` is 1, `VotingPeriod` is 2, `Passed` is 3, `Rejected` is 4, `Failed` is 5, `Cancelled` is 6; any other number reads
/// as `Unspecified`.
pub proof fn law_proposal_status_wire_numbers(n: i32)
    ensures
        proposal_status_number(ProposalStatus::Unspecified) == 0,
        proposal_status_number(ProposalStatus::DepositPeriod) == 1,
        proposal_status_number(ProposalStatus::VotingPeriod) == 2,
        proposal_status_number(ProposalStatus::Passed) == 3,
        proposal_status_number(ProposalStatus::Rejected) == 4,
        proposal_status_number(ProposalStatus::Failed) == 5,
        proposal_status_number(ProposalStatus::Cancelled) == 6,
        proposal_status_of(0) == ProposalStatus::Unspecified,
        proposal_status_of(1) == ProposalStatus::DepositPeriod,
        proposal_status_of(2) == ProposalStatus::VotingPeriod,
        proposal_status_of(3) == ProposalStatus::Passed,
        proposal_status_of(4) == ProposalStatus::Rejected,
        proposal_status_of(5) == ProposalStatus::Failed,
        proposal_status_of(6) == ProposalStatus::Cancelled,
        !(0 <= n <= 6) ==> proposal_status_of(n) == ProposalStatus::Unspecified,
{
}

/// Vote option on a governance proposal.
#[derive(Clone, Copy, Debug, PartialEq, Eq, Hash, Structural)]
pub enum VoteOption {
    Unspecified,
    Yes,
    Abstain,
    No,
    NoWithVeto,
}

/// The wire number of each `VoteOption` variant.
pub open spec fn vote_option_number(v: VoteOption) -> i32 {
    match v {
        VoteOption::Unspecified => 0,
        VoteOption::Yes => 1,
        VoteOption::Abstain => 2,
        VoteOption::No => 3,
        VoteOption::NoWithVeto => 4,
    }
}

/// The `VoteOption` that a wire number denotes; unknown numbers give `Unspecified`.
pub open spec fn vote_option_of(n: i32) -> VoteOption {
    if n == 1 {
        VoteOption::Yes
    } else if n == 2 {
        VoteOption::Abstain
    } else if n == 3 {
        VoteOption::No
    } else if n == 4 {
        VoteOption::NoWithVeto
    } else {
        VoteOption::Unspecified
    }
}

impl From<i32> for VoteOption {
    /// The variant of a wire number; unknown numbers give `Unspecified`.
    fn from(v: i32) -> (r: VoteOption) {
        match v {
            1 => VoteOption::Yes,
            2 => VoteOption::Abstain,
            3 => VoteOption::No,
            4 => VoteOption::NoWithVeto,
            _ => VoteOption::Unspecified,
        }
    }
}

impl FromSpecImpl<i32> for VoteOption {
    open spec fn obeys_from_spec() -> bool {
        true
    }

    open spec fn from_spec(v: i32) -> VoteOption {
        vote_option_of(v)
    }
}

impl From<VoteOption> for i32 {
    /// The wire number of a variant.
    fn from(t: VoteOption) -> (r: i32) {
        match t {
            VoteOption::Unspecified => 0,
            VoteOption::Yes => 1,
            VoteOption::Abstain => 2,
            VoteOption::No => 3,
            VoteOption::NoWithVeto => 4,
        }
    }
}

impl FromSpecImpl<VoteOption> for i32 {
    open spec fn obeys_from_spec() -> bool {
        true
    }

    open spec fn from_spec(t: VoteOption) -> i32 {
        vote_option_number(t)
    }
}

/// Every `VoteOption` survives the trip to its wire number and back, and every
/// number in `0..=4` survives the trip to a variant and back; any
/// other number reads as `Unspecified`.
pub proof fn lemma_vote_option_roundtrip(v: VoteOption, n: i32)
    ensures
        vote_option_of(vote_option_number(v)) == v,
        0 <= n <= 4 ==> vote_option_number(vote_option_of(n)) == n,
        !(0 <= n <= 4) ==> vote_option_of(n) == VoteOption::Unspecified,
{
}

/// The wire numbers of `VoteOption`, both ways: `Unspecified` is 0, `Yes` is 1, `Abstain` is 2, `No` is 3, `NoWithVeto` is 4; any other number reads
/// as `Unspecified`.
pub proof fn law_vote_option_wire_numbers(n: i32)
    ensures
        vote_option_number(VoteOption::Unspecified) == 0,
        vote_option_number(VoteOption::Yes) == 1,
        vote_option_number(VoteOption::Abstain) == 2,
        vote_option_number(VoteOption::No) == 3,
        vote_option_number(VoteOption::NoWithVeto) == 4,
        vote_option_of(0) == VoteOption::Unspecified,
        vote_option_of(1) == VoteOption::Yes,
        vote_option_of(2) == VoteOption::Abstain,
        vote_option_of(3) == VoteOption::No,
        vote_option_of(4) == VoteOption::NoWithVeto,
        !(0 <= n <= 4) ==> vote_option_of(n) == VoteOption::Unspecified,
{
}

/// Status of a scheduled software upgrade.
#[derive(Clone, Copy, Debug, PartialEq, Eq, Hash, Structural)]
pub enum UpgradeStatus {
    Unspecified,
    Scheduled,
    ShadowMode,
    Ready,
    Activated,
    Cancelled,
}

/// The wire number of each `UpgradeStatus` variant.
pub open spec fn upgrade_status_number(v: UpgradeStatus) -> i32 {
    match v {
        UpgradeStatus::Unspecified => 0,
        UpgradeStatus::Scheduled => 1,
        UpgradeStatus::ShadowMode => 2,
        UpgradeStatus::Ready => 3,
        UpgradeStatus::Activated => 4,
        UpgradeStatus::Cancelled => 5,
    }
}

/// The `UpgradeStatus` that a wire number denotes; unknown numbers give `Unspecified`.
pub open spec fn upgrade_status_of(n: i32) -> UpgradeStatus {
    if n == 1 {
        UpgradeStatus::Scheduled
    } else if n == 2 {
        UpgradeStatus::ShadowMode
    } else if n == 3 {
        UpgradeStatus::Ready
    } else if n == 4 {
        UpgradeStatus::Activated
    } else if n == 5 {
        UpgradeStatus::Cancelled
    } else {
        UpgradeStatus::Unspecified
    }
}

impl From<i32> for UpgradeStatus {
    /// The variant of a wire number; unknown numbers give `Unspecified`.
    fn from(v: i32) -> (r: UpgradeStatus) {
        match v {
            1 => UpgradeStatus::Scheduled,
            2 => UpgradeStatus::ShadowMode,
            3 => UpgradeStatus::Ready,
            4 => UpgradeStatus::Activated,
            5 => UpgradeStatus::Cancelled,
            _ => UpgradeStatus::Unspecified,
        }
    }
}

impl FromSpecImpl<i32> for UpgradeStatus {
    open spec fn obeys_from_spec() -> bool {
        true
    }

    open spec fn from_spec(v: i32) -> UpgradeStatus {
        upgrade_status_of(v)
    }
}

impl From<UpgradeStatus> for i32 {
    /// The wire number of a variant.
    fn from(t: UpgradeStatus) -> (r: i32) {
        match t {
            UpgradeStatus::Unspecified => 0,
            UpgradeStatus::Scheduled => 1,
            UpgradeStatus::ShadowMode => 2,
            UpgradeStatus::Ready => 3,
            UpgradeStatus::Activated => 4,
            UpgradeStatus::Cancelled => 5,
        }
    }
}

impl FromSpecImpl<UpgradeStatus> for i32 {
    open spec fn obeys_from_spec() -> bool {
        true
    }

    open spec fn from_spec(t: UpgradeStatus) -> i32 {
        upgrade_status_number(t)
    }
}

/// Every `UpgradeStatus` survives the trip to its wire number and back, and every
/// number in `0..=5` survives the trip to a variant and back; any
/// other number reads as `Unspecified`.
pub proof fn lemma_upgrade_status_roundtrip(v: UpgradeStatus, n: i32)
    ensures
        upgrade_status_of(upgrade_status_number(v)) == v,
        0 <= n <= 5 ==> upgrade_status_number(upgrade_status_of(n)) == n,
        !(0 <= n <= 5) ==> upgrade_status_of(n) == UpgradeStatus::Unspecified,
{
}

/// The wire numbers of `UpgradeStatus`, both ways: `Unspecified` is 0, `Scheduled` is 1, `ShadowMode` is 2, `Ready` is 3, `Activated` is 4, `Cancelled` is 5; any other number reads
/// as `Unspecified`.
pub proof fn law_upgrade_status_wire_numbers(n: i32)
    ensures
        upgrade_status_number(UpgradeStatus::Unspecified) == 0,
        upgrade_status_number(UpgradeStatus::Scheduled) == 1,
        upgrade_status_number(UpgradeStatus::ShadowMode) == 2,
        upgrade_status_number(UpgradeStatus::Ready) == 3,
        upgrade_status_number(UpgradeStatus::Activated) == 4,
        upgrade_status_number(UpgradeStatus::Cancelled) == 5,
        upgrade_status_of(0) == UpgradeStatus::Unspecified,
        upgrade_status_of(1) == UpgradeStatus::Scheduled,
        upgrade_status_of(2) == UpgradeStatus::ShadowMode,
        upgrade_status_of(3) == UpgradeStatus::Ready,
        upgrade_status_of(4) == UpgradeStatus::Activated,
        upgrade_status_of(5) == UpgradeStatus::Cancelled,
        !(0 <= n <= 5) ==> upgrade_status_of(n) == UpgradeStatus::Unspecified,
{
}

/// A vote option with its weight, for split votes.
#[derive(Clone, Debug, PartialEq, Eq)]
pub struct WeightedVoteOption {
    pub option: VoteOption,
    pub weight: String,
}

impl WeightedVoteOption {
    /// A vote for `option` with the given weight.
    pub fn new(option: VoteOption, weight: &str) -> (r: Self)
        ensures
            r.weight@ == weight@,
            r == (WeightedVoteOption { option: option, weight: r.weight }),
    {
        WeightedVoteOption { option: option, weight: own(weight) }
    }
}

/// Tally of the votes on a proposal.
#[derive(Clone, Debug, PartialEq, Eq)]
pub struct TallyResult {
    pub yes: String,
    pub abstain: String,
    pub no: String,
    pub no_with_veto: String,
    pub total_voted: String,
}

/// Parameters that apply to one proposal class.
#[derive(Clone, Debug, PartialEq, Eq)]
pub struct ProposalClassParams {
    pub min_deposit: String,
    pub voting_period: String,
    pub threshold: String,
    pub quorum: String,
    pub veto_threshold: String,
    pub enactment_delay: String,
    pub allow_conviction: bool,
}

/// Governance module parameters; `class_params` is keyed by class name.
#[derive(Debug)]
pub struct GovParams {
    pub min_deposit: String,
    pub max_deposit_period: String,
    pub min_initial_deposit_ratio: String,
    pub proposal_cancel_ratio: String,
    pub proposal_cancel_dest: String,
    pub voting_period: String,
    pub expedited_voting_period: String,
    pub emergency_voting_period: String,
    pub quorum: String,
    pub threshold: String,
    pub veto_threshold: String,
    pub burn_vote_quorum: String,
    pub burn_proposal_deposit_prevote: String,
    pub burn_vote_veto: String,
    pub class_params: NameMap<ProposalClassParams>,
    pub constitution: String,
    pub max_proposals_per_block: u64,
    pub min_enactment_delay: String,
    pub max_proposals_per_epoch: u64,
    pub max_market_proposals_per_block: u64,
    pub min_grace_period: String,
}

/// A software upgrade plan.
#[derive(Clone, Debug, PartialEq, Eq)]
pub struct UpgradePlan {
    pub name: String,
    pub info: String,
    pub activation_staple_id: u64,
    pub activation_time: u64,
    pub binary_hash: Vec<u8>,
    pub grace_period_seconds: u64,
    pub additional_metadata: StringMap,
}

/// A governance proposal.
#[derive(Clone, Debug, PartialEq, Eq)]
pub struct Proposal {
    pub proposal_id: u64,
    pub proposal_class: ProposalClass,
    pub messages: Vec<ProtoAny>,
    pub title: String,
    pub description: String,
    pub metadata: String,
    pub submit_time: u64,
    pub deposit_end_time: u64,
    pub voting_start_time: u64,
    pub voting_end_time: u64,
    pub status: ProposalStatus,
    pub final_tally_result: Option<TallyResult>,
    pub total_deposit: String,
    pub proposer: String,
    pub enactment_time: u64,
    pub upgrade_status: UpgradeStatus,
    pub upgrade_plan_id: u64,
    pub additional_metadata: StringMap,
}

impl Proposal {
    /// `true` while the proposal collects deposits.
    pub fn is_deposit_period(&self) -> (b: bool)
        ensures
            b == (self.status is DepositPeriod),
    {
        match self.status {
            ProposalStatus::DepositPeriod => true,
            _ => false,
        }
    }

    /// `true` while the proposal is open for votes.
    pub fn is_voting_period(&self) -> (b: bool)
        ensures
            b == (self.status is VotingPeriod),
    {
        match self.status {
            ProposalStatus::VotingPeriod => true,
            _ => false,
        }
    }

    /// `true` once the proposal has passed.
    pub fn is_passed(&self) -> (b: bool)
        ensures
            b == (self.status is Passed),
    {
        match self.status {
            ProposalStatus::Passed => true,
            _ => false,
        }
    }
}

/// A deposit on a proposal.
#[derive(Clone, Debug, PartialEq, Eq)]
pub struct Deposit {
    pub proposal_id: u64,
    pub depositor: String,
    pub amount: String,
    pub deposit_time: u64,
}

/// A vote cast on a proposal.
#[derive(Clone, Debug, PartialEq, Eq)]
pub struct Vote {
    pub proposal_id: u64,
    pub voter: String,
    pub options: Vec<WeightedVoteOption>,
    pub vote_time: u64,
    pub conviction_multiplier: u64,
    pub locked_until: String,
}

/// A status change of a proposal.
#[derive(Clone, Debug, PartialEq, Eq)]
pub struct ProposalUpdate {
    pub proposal_id: u64,
    pub old_status: ProposalStatus,
    pub new_status: ProposalStatus,
    pub reason: String,
    pub tally: Option<TallyResult>,
    pub timestamp: u64,
}

} // verus!
