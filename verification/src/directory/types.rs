//! Domain types of the agent directory: visibility levels, profiles, query
//! filters and module parameters.
use vstd::prelude::*;
use crate::common::own;

verus! {

/// Visibility level of an agent's directory profile.
#[derive(Clone, Copy, Debug, PartialEq, Eq, Hash, Structural)]
pub enum VisibilityLevel {
    /// Visible to everyone.
    Public,
    /// Visible only to the owner.
    OwnerOnly,
    /// Visible only to evaluators.
    EvaluatorOnly,
}

/// The wire number of each `VisibilityLevel` variant.
pub open spec fn visibility_level_number(v: VisibilityLevel) -> i32 {
    match v {
        VisibilityLevel::Public => 0,
        VisibilityLevel::OwnerOnly => 1,
        VisibilityLevel::EvaluatorOnly => 2,
    }
}

/// The `VisibilityLevel` that a wire number denotes; unknown numbers give `Public`.
pub open spec fn visibility_level_of(n: i32) -> VisibilityLevel {
    if n == 1 {
        VisibilityLevel::OwnerOnly
    } else if n == 2 {
        VisibilityLevel::EvaluatorOnly
    } else {
        VisibilityLevel::Public
    }
}

impl VisibilityLevel {
    /// Converts from the proto `i32` representation; unknown numbers give `Public`.
    pub fn from_proto(value: i32) -> (r: VisibilityLevel)
        ensures
            r == visibility_level_of(value),
    {
            match value {
                1 => VisibilityLevel::OwnerOnly,
                2 => VisibilityLevel::EvaluatorOnly,
                _ => VisibilityLevel::Public,
            }
    }

    /// Converts to the proto `i32` representation.
    pub fn to_proto(self) -> (r: i32)
        ensures
            r == visibility_level_number(self),
    {
            match self {
                VisibilityLevel::Public => 0,
                VisibilityLevel::OwnerOnly => 1,
                VisibilityLevel::EvaluatorOnly => 2,
            }
    }

    /// The canonical upper-case name of the variant.
    pub fn to_string(&self) -> (r: String)
        ensures
            r@ == visibility_level_name(*self),
    {
        match self {
            VisibilityLevel::Public => own("PUBLIC"),
            VisibilityLevel::OwnerOnly => own("OWNER_ONLY"),
            VisibilityLevel::EvaluatorOnly => own("EVALUATOR_ONLY"),
        }
    }
}

/// The display name of each `VisibilityLevel` variant.
pub open spec fn visibility_level_name(v: VisibilityLevel) -> Seq<char> {
    match v {
        VisibilityLevel::Public => "PUBLIC"@,
        VisibilityLevel::OwnerOnly => "OWNER_ONLY"@,
        VisibilityLevel::EvaluatorOnly => "EVALUATOR_ONLY"@,
    }
}

/// The display names of `VisibilityLevel`: `Public` is "PUBLIC", `OwnerOnly` is "OWNER_ONLY", `EvaluatorOnly` is "EVALUATOR_ONLY".
pub proof fn law_visibility_level_names()
    ensures
        visibility_level_name(VisibilityLevel::Public) == "PUBLIC"@,
        visibility_level_name(VisibilityLevel::OwnerOnly) == "OWNER_ONLY"@,
        visibility_level_name(VisibilityLevel::EvaluatorOnly) == "EVALUATOR_ONLY"@,
{
}

impl Default for VisibilityLevel {
    /// `Public`.
    fn default() -> (r: VisibilityLevel)
        ensures
            r == VisibilityLevel::Public,
    {
        VisibilityLevel::Public
    }
}

/// Every `VisibilityLevel` survives the trip to its wire number and back, and every
/// number in `0..=2` survives the trip to a variant and back; any
/// other number reads as `Public`.
pub proof fn lemma_visibility_level_roundtrip(v: VisibilityLevel, n: i32)
    ensures
        visibility_level_of(visibility_level_number(v)) == v,
        0 <= n <= 2 ==> visibility_level_number(visibility_level_of(n)) == n,
        !(0 <= n <= 2) ==> visibility_level_of(n) == VisibilityLevel::Public,
{
}

/// The wire numbers of `VisibilityLevel`, both ways: `Public` is 0, `OwnerOnly` is 1, `EvaluatorOnly` is 2; any other number reads
/// as `Public`.
pub proof fn law_visibility_level_wire_numbers(n: i32)
    ensures
        visibility_level_number(VisibilityLevel::Public) == 0,
        visibility_level_number(VisibilityLevel::OwnerOnly) == 1,
        visibility_level_number(VisibilityLevel::EvaluatorOnly) == 2,
        visibility_level_of(0) == VisibilityLevel::Public,
        visibility_level_of(1) == VisibilityLevel::OwnerOnly,
        visibility_level_of(2) == VisibilityLevel::EvaluatorOnly,
        !(0 <= n <= 2) ==> visibility_level_of(n) == VisibilityLevel::Public,
{
}

impl VisibilityLevel {
    /// `true` only for `Public`.
    pub fn is_public(self) -> (b: bool)
        ensures
            b == (self is Public),
    {
        match self {
            VisibilityLevel::Public => true,
            _ => false,
        }
    }
}

/// Directory profile of an agent: identity, reputation, performance metrics
/// and visibility.
#[derive(Clone, Debug, PartialEq, Eq)]
pub struct AgentDirectoryProfile {
    pub agent_hash: String,
    pub display_name: String,
    pub description: String,
    pub tags: String,
    pub reputation_score: u64,
    pub milestone_level: u32,
    pub is_immortal: bool,
    pub capabilities: u64,
    pub total_volume_usd_30d: u64,
    pub success_rate_bps: u32,
    pub latest_intent_summary: String,
    pub memory_health_score: u32,
    pub visibility: VisibilityLevel,
    pub last_updated: u64,
}

impl Default for AgentDirectoryProfile {
    /// The empty, public profile.
    fn default() -> (r: AgentDirectoryProfile)
        ensures
            r.agent_hash@ == Seq::<char>::empty(),
            r.display_name@ == Seq::<char>::empty(),
            r.description@ == Seq::<char>::empty(),
            r.tags@ == Seq::<char>::empty(),
            r.reputation_score == 0,
            r.milestone_level == 0,
            !r.is_immortal,
            r.capabilities == 0,
            r.total_volume_usd_30d == 0,
            r.success_rate_bps == 0,
            r.latest_intent_summary@ == Seq::<char>::empty(),
            r.memory_health_score == 0,
            r.visibility == VisibilityLevel::Public,
            r.last_updated == 0,
    {
        AgentDirectoryProfile {
            agent_hash: String::new(),
            display_name: String::new(),
            description: String::new(),
            tags: String::new(),
            reputation_score: 0,
            milestone_level: 0,
            is_immortal: false,
            capabilities: 0,
            total_volume_usd_30d: 0,
            success_rate_bps: 0,
            latest_intent_summary: String::new(),
            memory_health_score: 0,
            visibility: VisibilityLevel::Public,
            last_updated: 0,
        }
    }
}

/// Filter criteria for directory queries; zero or empty values mean no filter.
#[derive(Clone, Debug, PartialEq, Eq)]
pub struct DirectoryFilter {
    pub min_reputation: u64,
    pub min_milestone_level: u32,
    pub tags: String,
    pub semantic_query: String,
    pub limit: u32,
    pub offset: u32,
}

/// Module parameters (governance-controlled).
#[derive(Clone, Debug, PartialEq, Eq)]
pub struct Params {
    pub default_query_limit: u32,
    pub profile_cache_ttl_seconds: u64,
    pub enable_semantic_search: bool,
    pub max_subscriptions_per_agent: u32,
    pub public_directory_enabled: bool,
    pub min_reputation_for_public: u64,
}

impl Default for Params {
    /// Fifty results per query, five-minute cache, semantic search and the
    /// public directory on, ten subscriptions per agent, no reputation floor.
    fn default() -> (r: Params)
        ensures
            r.default_query_limit == 50,
            r.profile_cache_ttl_seconds == 300,
            r.enable_semantic_search,
            r.max_subscriptions_per_agent == 10,
            r.public_directory_enabled,
            r.min_reputation_for_public == 0,
    {
        Params {
            default_query_limit: 50,
            profile_cache_ttl_seconds: 300,
            enable_semantic_search: true,
            max_subscriptions_per_agent: 10,
            public_directory_enabled: true,
            min_reputation_for_public: 0,
        }
    }
}

} // verus!
