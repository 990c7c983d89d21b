//! Fluent builders for the intent transactions.
use vstd::prelude::*;
use crate::common::{fails_with, opt_view, own, require, text_or_empty, SdkError};
use crate::intent::requests::{CancelIntentRequest, SubmitIntentRequest};
use crate::intent::types::{
    AgentIntent, ConditionalParams, DeclarativeParams, IntentParams, IntentStatus, IntentType,
    MultiLegParams, TwapParams,
};

verus! {


/// The value of an optional number, or zero.
pub open spec fn u64_or_zero(o: Option<u64>) -> u64 {
    match o {
        Some(v) => v,
        None => 0,
    }
}

/// The value of an optional number, or zero.
pub open spec fn u32_or_zero(o: Option<u32>) -> u32 {
    match o {
        Some(v) => v,
        None => 0,
    }
}


/// Builder for an intent submission; one of the parameter setters also fixes
/// the intent type.
pub struct SubmitIntentBuilder {
    pub agent_hash: Option<String>,
    pub intent_type: Option<IntentType>,
    pub params: Option<IntentParams>,
    pub vc_proof_hash: Option<String>,
    pub expiry_timestamp: Option<u64>,
    pub priority_boost: Option<u32>,
    pub agent_signature: Option<Vec<u8>>,
}

impl SubmitIntentBuilder {
    /// A builder with no field set.
    pub fn new() -> (r: Self)
        ensures
            r.agent_hash is None,
            r.intent_type is None,
            r.params is None,
            r.vc_proof_hash is None,
            r.expiry_timestamp is None,
            r.priority_boost is None,
            r.agent_signature is None,
    {
        SubmitIntentBuilder {
            agent_hash: None,
            intent_type: None,
            params: None,
            vc_proof_hash: None,
            expiry_timestamp: None,
            priority_boost: None,
            agent_signature: None,
        }
    }

    /// Sets the agent hash (SHA-256 of the agent's DID).
    pub fn agent_hash(self, hash: &str) -> (r: Self)
        ensures
            opt_view(r.agent_hash) == Some(hash@),
            r == (SubmitIntentBuilder { agent_hash: r.agent_hash, ..self }),
    {
        SubmitIntentBuilder { agent_hash: Some(own(hash)), ..self }
    }

    /// Sets the intent type.
    pub fn intent_type(self, intent_type: IntentType) -> (r: Self)
        ensures
            r == (SubmitIntentBuilder { intent_type: Some(intent_type), ..self }),
    {
        SubmitIntentBuilder { intent_type: Some(intent_type), ..self }
    }

    /// Sets conditional parameters and the matching intent type.
    pub fn conditional(self, params: ConditionalParams) -> (r: Self)
        ensures
            r == (SubmitIntentBuilder { intent_type: Some(IntentType::Conditional), params: Some(IntentParams::Conditional(params)), ..self }),
    {
        SubmitIntentBuilder { intent_type: Some(IntentType::Conditional), params: Some(IntentParams::Conditional(params)), ..self }
    }

    /// Sets twap parameters and the matching intent type.
    pub fn twap(self, params: TwapParams) -> (r: Self)
        ensures
            r == (SubmitIntentBuilder { intent_type: Some(IntentType::Twap), params: Some(IntentParams::Twap(params)), ..self }),
    {
        SubmitIntentBuilder { intent_type: Some(IntentType::Twap), params: Some(IntentParams::Twap(params)), ..self }
    }

    /// Sets multi-leg parameters and the matching intent type.
    pub fn multi_leg(self, params: MultiLegParams) -> (r: Self)
        ensures
            r == (SubmitIntentBuilder { intent_type: Some(IntentType::MultiLeg), params: Some(IntentParams::MultiLeg(params)), ..self }),
    {
        SubmitIntentBuilder { intent_type: Some(IntentType::MultiLeg), params: Some(IntentParams::MultiLeg(params)), ..self }
    }

    /// Sets declarative parameters and the matching intent type.
    pub fn declarative(self, params: DeclarativeParams) -> (r: Self)
        ensures
            r == (SubmitIntentBuilder { intent_type: Some(IntentType::Declarative), params: Some(IntentParams::Declarative(params)), ..self }),
    {
        SubmitIntentBuilder { intent_type: Some(IntentType::Declarative), params: Some(IntentParams::Declarative(params)), ..self }
    }

    /// Sets the VC proof hash (delegation authorisation).
    pub fn vc_proof_hash(self, hash: &str) -> (r: Self)
        ensures
            opt_view(r.vc_proof_hash) == Some(hash@),
            r == (SubmitIntentBuilder { vc_proof_hash: r.vc_proof_hash, ..self }),
    {
        SubmitIntentBuilder { vc_proof_hash: Some(own(hash)), ..self }
    }

    /// Sets the expiry timestamp (0 = no expiry).
    pub fn expiry_timestamp(self, ts: u64) -> (r: Self)
        ensures
            r == (SubmitIntentBuilder { expiry_timestamp: Some(ts), ..self }),
    {
        SubmitIntentBuilder { expiry_timestamp: Some(ts), ..self }
    }

    /// Sets the priority boost.
    pub fn priority_boost(self, boost: u32) -> (r: Self)
        ensures
            r == (SubmitIntentBuilder { priority_boost: Some(boost), ..self }),
    {
        SubmitIntentBuilder { priority_boost: Some(boost), ..self }
    }

    /// Sets the agent signature.
    pub fn agent_signature(self, sig: Vec<u8>) -> (r: Self)
        ensures
            r == (SubmitIntentBuilder { agent_signature: Some(sig), ..self }),
    {
        SubmitIntentBuilder { agent_signature: Some(sig), ..self }
    }

    /// Builds the submit request. The agent hash, intent type, parameters and
    /// signature are required, checked in that order; the intent is pending,
    /// with no id or creation time yet, and absent optional fields read as
    /// empty or zero.
    pub fn build(self) -> (r: Result<SubmitIntentRequest, SdkError>)
        ensures
            self.agent_hash is None ==> fails_with(r, "agent_hash is required for intent submission"@),
            self.agent_hash is Some && self.intent_type is None ==> fails_with(
                r,
                "intent_type is required for intent submission"@,
            ),
            self.agent_hash is Some && self.intent_type is Some && self.params is None ==> fails_with(
                r,
                "params are required for intent submission (use conditional(), twap(), multi_leg(), or declarative())"@,
            ),
            self.agent_hash is Some && self.intent_type is Some && self.params is Some
                && self.agent_signature is None ==> fails_with(
                r,
                "agent_signature is required for intent submission"@,
            ),
            self.agent_hash is Some && self.intent_type is Some && self.params is Some
                && self.agent_signature is Some ==> (r matches Ok(req) && {
                &&& req.agent_signature == self.agent_signature.unwrap()
                &&& req.intent.intent_id@ == Seq::<char>::empty()
                &&& req.intent.agent_hash == self.agent_hash.unwrap()
                &&& req.intent.intent_type == self.intent_type.unwrap()
                &&& req.intent.params == self.params
                &&& req.intent.vc_proof_hash@ == text_or_empty(self.vc_proof_hash)
                &&& req.intent.expiry_timestamp == u64_or_zero(self.expiry_timestamp)
                &&& req.intent.priority_boost == u32_or_zero(self.priority_boost)
                &&& req.intent.status == IntentStatus::Pending
                &&& req.intent.created_at == 0
                &&& req.intent.context_data@.len() == 0
                &&& req.intent.blob_merkle_root@.len() == 0
            }),
    {
        let agent_hash = require(self.agent_hash, "agent_hash is required for intent submission")?;
        let intent_type = require(self.intent_type, "intent_type is required for intent submission")?;
        let params = require(
            self.params,
            "params are required for intent submission (use conditional(), twap(), multi_leg(), or declarative())",
        )?;
        let agent_signature = require(
            self.agent_signature,
            "agent_signature is required for intent submission",
        )?;
        let vc_proof_hash = match self.vc_proof_hash {
            Some(h) => h,
            None => String::new(),
        };
        let expiry_timestamp = match self.expiry_timestamp {
            Some(t) => t,
            None => 0,
        };
        let priority_boost = match self.priority_boost {
            Some(p) => p,
            None => 0,
        };
        let intent = AgentIntent {
            intent_id: String::new(),
            agent_hash,
            intent_type,
            params: Some(params),
            vc_proof_hash,
            expiry_timestamp,
            priority_boost,
            status: IntentStatus::Pending,
            created_at: 0,
            context_data: Vec::new(),
            blob_merkle_root: Vec::new(),
        };
        Ok(SubmitIntentRequest::new(intent, agent_signature))
    }
}

/// Builder for cancelling an active intent.
pub struct CancelIntentBuilder {
    pub intent_id: Option<String>,
    pub agent_signature: Option<Vec<u8>>,
    pub reason: Option<String>,
}

impl CancelIntentBuilder {
    /// A builder with no field set.
    pub fn new() -> (r: Self)
        ensures
            r.intent_id is None,
            r.agent_signature is None,
            r.reason is None,
    {
        CancelIntentBuilder { intent_id: None, agent_signature: None, reason: None }
    }

    /// Sets the intent ID to cancel.
    pub fn intent_id(self, id: &str) -> (r: Self)
        ensures
            opt_view(r.intent_id) == Some(id@),
            r == (CancelIntentBuilder { intent_id: r.intent_id, ..self }),
    {
        CancelIntentBuilder { intent_id: Some(own(id)), ..self }
    }

    /// Sets the agent signature authorising the cancellation.
    pub fn agent_signature(self, sig: Vec<u8>) -> (r: Self)
        ensures
            r == (CancelIntentBuilder { agent_signature: Some(sig), ..self }),
    {
        CancelIntentBuilder { agent_signature: Some(sig), ..self }
    }

    /// Sets the reason for cancellation.
    pub fn reason(self, reason: &str) -> (r: Self)
        ensures
            opt_view(r.reason) == Some(reason@),
            r == (CancelIntentBuilder { reason: r.reason, ..self }),
    {
        CancelIntentBuilder { reason: Some(own(reason)), ..self }
    }

    /// Builds the cancel request; the id, signature and reason are required, in that order.
    pub fn build(self) -> (r: Result<CancelIntentRequest, SdkError>)
        ensures
            self.intent_id is None ==> fails_with(r, "intent_id is required for cancellation"@),
            self.intent_id is Some && self.agent_signature is None ==> fails_with(r, "agent_signature is required for cancellation"@),
            self.intent_id is Some && self.agent_signature is Some && self.reason is None ==> fails_with(r, "reason is required for cancellation"@),
            self.intent_id is Some && self.agent_signature is Some && self.reason is Some ==> r == Ok::<CancelIntentRequest, SdkError>(CancelIntentRequest {
                intent_id: self.intent_id.unwrap(),
                agent_signature: self.agent_signature.unwrap(),
                reason: self.reason.unwrap(),
            }),
    {
        let intent_id = require(self.intent_id, "intent_id is required for cancellation")?;
        let agent_signature = require(self.agent_signature, "agent_signature is required for cancellation")?;
        let reason = require(self.reason, "reason is required for cancellation")?;
        Ok(CancelIntentRequest { intent_id, agent_signature, reason })
    }
}

} // verus!
