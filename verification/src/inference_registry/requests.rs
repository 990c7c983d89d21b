//! Request and response types of the inference registry.
use vstd::prelude::*;
use crate::common::own;
use crate::cosmwasm::builder::{hex_encode, hex_text};
use crate::inference_registry::types::{ModelCommitment, Params, QuantFormat};

verus! {

/// Request to register a new model (governance only).
#[derive(Clone, Debug, PartialEq, Eq)]
pub struct RegisterModelRequest {
    pub authority: String,
    pub display_name: String,
    pub quant_format: QuantFormat,
    pub param_count: u64,
    pub zk_commitment: Vec<u8>,
    pub supported_ops: u64,
    pub version: u32,
    pub weights_payload: Vec<u8>,
}

impl RegisterModelRequest {
    /// A registration with no weights payload.
    pub fn new(authority: &str, display_name: &str, quant_format: QuantFormat, param_count: u64, zk_commitment: Vec<u8>, supported_ops: u64, version: u32) -> (r: Self)
        ensures
            r.authority@ == authority@,
            r.display_name@ == display_name@,
            r.quant_format == quant_format,
            r.param_count == param_count,
            r.zk_commitment == zk_commitment,
            r.supported_ops == supported_ops,
            r.version == version,
            r.weights_payload@.len() == 0,
    {
        RegisterModelRequest { authority: own(authority), display_name: own(display_name), quant_format: quant_format, param_count: param_count, zk_commitment: zk_commitment, supported_ops: supported_ops, version: version, weights_payload: Vec::new() }
    }

    /// Sets the raw model weights payload.
    pub fn with_weights_payload(self, payload: Vec<u8>) -> (r: Self)
        ensures
            r == (RegisterModelRequest { weights_payload: payload, ..self }),
    {
        RegisterModelRequest { weights_payload: payload, ..self }
    }
}

/// Response from registering a model.
#[derive(Clone, Debug, PartialEq, Eq)]
pub struct RegisterModelResponse {
    pub success: bool,
    pub model_id: Vec<u8>,
    pub display_name: String,
}

impl RegisterModelResponse {
    /// The registered model id as lowercase hexadecimal text.
    pub fn model_id_hex(&self) -> (r: String)
        ensures
            r@ == hex_text(self.model_id@),
    {
        hex_encode(self.model_id.as_slice())
    }
}

/// Request to update module parameters (governance only).
#[derive(Clone, Debug, PartialEq, Eq)]
pub struct UpdateParamsRequest {
    pub authority: String,
    pub params: Params,
}

impl UpdateParamsRequest {
    /// Creates a parameter update.
    pub fn new(authority: &str, params: Params) -> (r: Self)
        ensures
            r.authority@ == authority@,
            r == (UpdateParamsRequest { authority: r.authority, params: params }),
    {
        UpdateParamsRequest { authority: own(authority), params: params }
    }
}

/// Response from updating parameters.
#[derive(Clone, Debug, PartialEq, Eq)]
pub struct UpdateParamsResponse {
    pub success: bool,
}

/// Query one model by its id.
#[derive(Clone, Debug, PartialEq, Eq)]
pub struct QueryModelRequest {
    pub model_id: String,
}

impl QueryModelRequest {
    /// The query for one model.
    pub fn new(model_id: &str) -> (r: Self)
        ensures
            r.model_id@ == model_id@,
            r == (QueryModelRequest { model_id: r.model_id }),
    {
        QueryModelRequest { model_id: own(model_id) }
    }
}

/// A model commitment, if found.
#[derive(Clone, Debug, PartialEq, Eq)]
pub struct QueryModelResponse {
    pub model: Option<ModelCommitment>,
}

/// Query the models of one quantization format.
#[derive(Clone, Debug, PartialEq, Eq)]
pub struct QueryModelsByQuantRequest {
    pub quant_format: QuantFormat,
}

impl QueryModelsByQuantRequest {
    /// The query for one format.
    pub fn new(quant_format: QuantFormat) -> (r: Self)
        ensures
            r == (QueryModelsByQuantRequest { quant_format: quant_format }),
    {
        QueryModelsByQuantRequest { quant_format: quant_format }
    }
}

/// The models of the requested format.
#[derive(Clone, Debug, PartialEq, Eq)]
pub struct QueryModelsByQuantResponse {
    pub models: Vec<ModelCommitment>,
}

/// Query every currently active model.
#[derive(Clone, Debug, PartialEq, Eq)]
pub struct QueryActiveModelsRequest;

/// Every active model.
#[derive(Clone, Debug, PartialEq, Eq)]
pub struct QueryActiveModelsResponse {
    pub models: Vec<ModelCommitment>,
}

/// Query the current module parameters.
#[derive(Clone, Debug, PartialEq, Eq)]
pub struct QueryParamsRequest;

/// The current module parameters.
#[derive(Clone, Debug, PartialEq, Eq)]
pub struct QueryParamsResponse {
    pub params: Option<Params>,
}

} // verus!
