//! Request and response types of the intent module.
use vstd::prelude::*;
use crate::common::own;
use crate::intent::types::{AgentIntent, Params};

verus! {

/// Request to submit a new agent intent, signed by the agent.
#[derive(Clone, Debug, PartialEq, Eq)]
pub struct SubmitIntentRequest {
    pub intent: AgentIntent,
    pub agent_signature: Vec<u8>,
}

impl SubmitIntentRequest {
    /// Creates a submit request.
    pub fn new(intent: AgentIntent, agent_signature: Vec<u8>) -> (r: Self)
        ensures
            r == (SubmitIntentRequest { intent: intent, agent_signature: agent_signature }),
    {
        SubmitIntentRequest { intent: intent, agent_signature: agent_signature }
    }
}

/// Response from submitting an intent.
#[derive(Clone, Debug, PartialEq, Eq)]
pub struct SubmitIntentResponse {
    pub intent_id: String,
    pub accepted: bool,
    pub decomposition_summary: String,
    pub created_at: u64,
}

/// Request to cancel an active intent.
#[derive(Clone, Debug, PartialEq, Eq)]
pub struct CancelIntentRequest {
    pub intent_id: String,
    pub agent_signature: Vec<u8>,
    pub reason: String,
}

impl CancelIntentRequest {
    /// Creates a cancel request.
    pub fn new(intent_id: &str, agent_signature: Vec<u8>, reason: &str) -> (r: Self)
        ensures
            r.intent_id@ == intent_id@,
            r.reason@ == reason@,
            r == (CancelIntentRequest { intent_id: r.intent_id, agent_signature: agent_signature, reason: r.reason }),
    {
        CancelIntentRequest { intent_id: own(intent_id), agent_signature: agent_signature, reason: own(reason) }
    }
}

/// Response from cancelling an intent.
#[derive(Clone, Debug, PartialEq, Eq)]
pub struct CancelIntentResponse {
    pub success: bool,
    pub cancelled_at: u64,
}

/// Query a specific intent by ID.
#[derive(Clone, Debug, PartialEq, Eq)]
pub struct QueryIntentRequest {
    pub intent_id: String,
}

impl QueryIntentRequest {
    /// The query for one intent.
    pub fn new(intent_id: &str) -> (r: Self)
        ensures
            r.intent_id@ == intent_id@,
            r == (QueryIntentRequest { intent_id: r.intent_id }),
    {
        QueryIntentRequest { intent_id: own(intent_id) }
    }
}

/// Response containing an intent, if found.
#[derive(Clone, Debug, PartialEq, Eq)]
pub struct QueryIntentResponse {
    pub intent: Option<AgentIntent>,
    pub found: bool,
}

/// Query all intents of an agent (paginated).
#[derive(Clone, Debug, PartialEq, Eq)]
pub struct QueryIntentsByAgentRequest {
    pub agent_hash: String,
    pub limit: u32,
    pub offset: u32,
}

impl QueryIntentsByAgentRequest {
    /// One page of an agent's intents.
    pub fn new(agent_hash: &str, limit: u32, offset: u32) -> (r: Self)
        ensures
            r.agent_hash@ == agent_hash@,
            r == (QueryIntentsByAgentRequest { agent_hash: r.agent_hash, limit: limit, offset: offset }),
    {
        QueryIntentsByAgentRequest { agent_hash: own(agent_hash), limit: limit, offset: offset }
    }
}

/// Paginated intents of an agent.
#[derive(Clone, Debug, PartialEq, Eq)]
pub struct QueryIntentsByAgentResponse {
    pub intents: Vec<AgentIntent>,
    pub total_count: u32,
}

/// Query the active intents of an agent.
#[derive(Clone, Debug, PartialEq, Eq)]
pub struct QueryActiveIntentsRequest {
    pub agent_hash: String,
    pub limit: u32,
}

impl QueryActiveIntentsRequest {
    /// Up to `limit` active intents of an agent.
    pub fn new(agent_hash: &str, limit: u32) -> (r: Self)
        ensures
            r.agent_hash@ == agent_hash@,
            r == (QueryActiveIntentsRequest { agent_hash: r.agent_hash, limit: limit }),
    {
        QueryActiveIntentsRequest { agent_hash: own(agent_hash), limit: limit }
    }
}

/// Active intents of an agent.
#[derive(Clone, Debug, PartialEq, Eq)]
pub struct QueryActiveIntentsResponse {
    pub intents: Vec<AgentIntent>,
    pub total_count: u32,
}

/// Query the current module parameters.
#[derive(Clone, Debug, PartialEq, Eq)]
pub struct QueryParamsRequest;

/// The current module parameters.
#[derive(Clone, Debug, PartialEq, Eq)]
pub struct QueryParamsResponse {
    pub params: Option<Params>,
}

} // verus!
