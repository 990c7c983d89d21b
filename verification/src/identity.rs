//! Identity module: canonical agent identifiers, agent status, capability
//! flags, identity records, metadata cards and module parameters.
use vstd::prelude::*;
use crate::common::own;

pub use crate::common::{SdkError, VERSION};

verus! {

/// Canonical agent identifier: a DID string paired with its deterministic hash.
#[derive(Clone, Debug, PartialEq, Eq, Hash)]
pub struct AgentId {
    /// Full DID string (e.g. `"did:agent:abc123"`).
    pub did: String,
    /// Deterministic hash of the DID (hex-encoded).
    pub hash: String,
}

/// How an agent identifier reads: its DID, or its hash where the DID is empty.
pub open spec fn agent_id_text(did: Seq<char>, hash: Seq<char>) -> Seq<char> {
    if did.len() == 0 {
        hash
    } else {
        did
    }
}

impl AgentId {
    /// Pairs a DID with its hash.
    pub fn new(did: &str, hash: &str) -> (r: Self)
        ensures
            r.did@ == did@,
            r.hash@ == hash@,
    {
        AgentId { did: own(did), hash: own(hash) }
    }

    /// `true` if both the DID and the hash are empty (not set).
    pub fn is_empty(&self) -> (b: bool)
        ensures
            b == (self.did@.len() == 0 && self.hash@.len() == 0),
    {
        self.did.as_str().is_empty() && self.hash.as_str().is_empty()
    }

    /// The DID, or the hash where the DID is empty.
    pub fn to_string(&self) -> (r: String)
        ensures
            r@ == agent_id_text(self.did@, self.hash@),
    {
        if self.did.as_str().is_empty() {
            self.hash.clone()
        } else {
            self.did.clone()
        }
    }
}

impl Default for AgentId {
    /// The identifier that is not set: empty DID and hash.
    fn default() -> (r: AgentId)
        ensures
            r.did@ == Seq::<char>::empty(),
            r.hash@ == Seq::<char>::empty(),
    {
        AgentId { did: String::new(), hash: String::new() }
    }
}

/// Status of an agent on-chain.
#[derive(Clone, Copy, Debug, PartialEq, Eq, Hash, Structural)]
pub enum AgentStatus {
    /// Active and operational.
    Active,
    /// Temporarily suspended.
    Suspended,
    /// Slashed (penalty applied).
    Slashed,
    /// Permanently burned.
    Burned,
}

/// The wire number of each `AgentStatus` variant.
pub open spec fn agent_status_number(v: AgentStatus) -> i32 {
    match v {
        AgentStatus::Active => 0,
        AgentStatus::Suspended => 1,
        AgentStatus::Slashed => 2,
        AgentStatus::Burned => 3,
    }
}

/// The `AgentStatus` that a wire number denotes; unknown numbers give `Active`.
pub open spec fn agent_status_of(n: i32) -> AgentStatus {
    if n == 1 {
        AgentStatus::Suspended
    } else if n == 2 {
        AgentStatus::Slashed
    } else if n == 3 {
        AgentStatus::Burned
    } else {
        AgentStatus::Active
    }
}

impl AgentStatus {
    /// Converts from the proto `i32` representation; unknown numbers give `Active`.
    pub fn from_proto(value: i32) -> (r: AgentStatus)
        ensures
            r == agent_status_of(value),
    {
            match value {
                1 => AgentStatus::Suspended,
                2 => AgentStatus::Slashed,
                3 => AgentStatus::Burned,
                _ => AgentStatus::Active,
            }
    }

    /// Converts to the proto `i32` representation.
    pub fn to_proto(self) -> (r: i32)
        ensures
            r == agent_status_number(self),
    {
            match self {
                AgentStatus::Active => 0,
                AgentStatus::Suspended => 1,
                AgentStatus::Slashed => 2,
                AgentStatus::Burned => 3,
            }
    }

    /// The canonical upper-case name of the variant.
    pub fn to_string(&self) -> (r: String)
        ensures
            r@ == agent_status_name(*self),
    {
        match self {
            AgentStatus::Active => own("ACTIVE"),
            AgentStatus::Suspended => own("SUSPENDED"),
            AgentStatus::Slashed => own("SLASHED"),
            AgentStatus::Burned => own("BURNED"),
        }
    }
}

/// The display name of each `AgentStatus` variant.
pub open spec fn agent_status_name(v: AgentStatus) -> Seq<char> {
    match v {
        AgentStatus::Active => "ACTIVE"@,
        AgentStatus::Suspended => "SUSPENDED"@,
        AgentStatus::Slashed => "SLASHED"@,
        AgentStatus::Burned => "BURNED"@,
    }
}

/// The display names of `AgentStatus`: `Active` is "ACTIVE", `Suspended` is "SUSPENDED", `Slashed` is "SLASHED", `Burned` is "BURNED".
pub proof fn law_agent_status_names()
    ensures
        agent_status_name(AgentStatus::Active) == "ACTIVE"@,
        agent_status_name(AgentStatus::Suspended) == "SUSPENDED"@,
        agent_status_name(AgentStatus::Slashed) == "SLASHED"@,
        agent_status_name(AgentStatus::Burned) == "BURNED"@,
{
}

impl Default for AgentStatus {
    /// `Active`.
    fn default() -> (r: AgentStatus)
        ensures
            r == AgentStatus::Active,
    {
        AgentStatus::Active
    }
}

/// Every `AgentStatus` survives the trip to its wire number and back, and every
/// number in `0..=3` survives the trip to a variant and back; any
/// other number reads as `Active`.
pub proof fn lemma_agent_status_roundtrip(v: AgentStatus, n: i32)
    ensures
        agent_status_of(agent_status_number(v)) == v,
        0 <= n <= 3 ==> agent_status_number(agent_status_of(n)) == n,
        !(0 <= n <= 3) ==> agent_status_of(n) == AgentStatus::Active,
{
}

/// The wire numbers of `AgentStatus`, both ways: `Active` is 0, `Suspended` is 1, `Slashed` is 2, `Burned` is 3; any other number reads
/// as `Active`.
pub proof fn law_agent_status_wire_numbers(n: i32)
    ensures
        agent_status_number(AgentStatus::Active) == 0,
        agent_status_number(AgentStatus::Suspended) == 1,
        agent_status_number(AgentStatus::Slashed) == 2,
        agent_status_number(AgentStatus::Burned) == 3,
        agent_status_of(0) == AgentStatus::Active,
        agent_status_of(1) == AgentStatus::Suspended,
        agent_status_of(2) == AgentStatus::Slashed,
        agent_status_of(3) == AgentStatus::Burned,
        !(0 <= n <= 3) ==> agent_status_of(n) == AgentStatus::Active,
{
}

impl AgentStatus {
    /// `true` only for `Active`: the agent can perform operations.
    pub fn is_active(self) -> (b: bool)
        ensures
            b == (self is Active),
    {
        match self {
            AgentStatus::Active => true,
            _ => false,
        }
    }
}

/// Well-known capability bit flags for agent permissions, combined with `|`.
pub struct Capability;

/// `flags` holds every bit of `capability`.
pub open spec fn has_capability(flags: u64, capability: u64) -> bool {
    flags & capability == capability
}

impl Capability {
    /// Permission to execute trades.
    pub const TRADE: u64 = 1;
    /// Permission to evaluate markets and signals.
    pub const EVALUATE: u64 = 2;
    /// Permission to manage sub-agents.
    pub const MANAGE: u64 = 4;
    /// Permission to access persistent memory.
    pub const MEMORY: u64 = 8;

    /// `true` if `flags` includes all bits of `capability`.
    pub fn has(flags: u64, capability: u64) -> (b: bool)
        ensures
            b == has_capability(flags, capability),
    {
        flags & capability == capability
    }
}

/// A union of flags has each of its parts, every flag set has the empty
/// capability, and the four named capabilities are distinct single bits.
pub proof fn lemma_capability_union(a: u64, b: u64)
    ensures
        has_capability(a | b, a),
        has_capability(a | b, b),
        has_capability(a, 0),
        !has_capability(Capability::TRADE | Capability::EVALUATE, Capability::MANAGE),
        !has_capability(Capability::TRADE | Capability::EVALUATE | Capability::MANAGE, Capability::MEMORY),
{
    assert(((a | b) & a) == a) by (bit_vector);
    assert(((a | b) & b) == b) by (bit_vector);
    assert((a & 0) == 0u64) by (bit_vector);
    assert(((1u64 | 2u64) & 4u64) != 4u64) by (bit_vector);
    assert(((1u64 | 2u64 | 4u64) & 8u64) != 8u64) by (bit_vector);
}

/// Agent identity record stored on-chain.
#[derive(Clone, Debug, PartialEq, Eq)]
pub struct AgentIdentity {
    pub agent_id: AgentId,
    pub owner_did: AgentId,
    pub capabilities: u64,
    pub status: AgentStatus,
    pub metadata_card_hash: String,
    pub memory_root_hash: String,
    pub registered_at: u64,
    pub last_updated: u64,
    pub milestone_level: u32,
    pub is_immortal: bool,
    pub base_account_address: String,
}

/// Rich metadata card of an agent, referenced by hash.
#[derive(Clone, Debug, PartialEq, Eq)]
pub struct AgentMetadataCard {
    pub agent_id: AgentId,
    pub owner_did: AgentId,
    pub display_name: String,
    pub description: String,
    pub tags: String,
    pub version: String,
    pub capabilities: u64,
    pub memory_root_hash: String,
    pub registered_at: u64,
}

/// The user-supplied fields of a metadata card, for registration and updates.
#[derive(Clone, Debug, PartialEq, Eq)]
pub struct AgentMetadataCardInput {
    pub display_name: String,
    pub description: String,
    pub tags: String,
    pub version: String,
    pub capabilities: u64,
}

/// Module parameters (governance-controlled).
#[derive(Clone, Debug, PartialEq, Eq)]
pub struct Params {
    pub default_capabilities: u64,
    pub registration_enabled: bool,
    pub min_reputation_to_register: u64,
    pub allow_ownership_transfer: bool,
}

impl Default for Params {
    /// No default capabilities, open registration with no reputation floor,
    /// free ownership transfer.
    fn default() -> (r: Params)
        ensures
            r.default_capabilities == 0,
            r.registration_enabled,
            r.min_reputation_to_register == 0,
            r.allow_ownership_transfer,
    {
        Params {
            default_capabilities: 0,
            registration_enabled: true,
            min_reputation_to_register: 0,
            allow_ownership_transfer: true,
        }
    }
}

} // verus!
