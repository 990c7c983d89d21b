//! Fluent builders for the inference registry transactions.
use vstd::prelude::*;
use crate::common::{fails_with, opt_view, own, require, SdkError};
use crate::inference_registry::requests::{RegisterModelRequest, UpdateParamsRequest};
use crate::inference_registry::types::{Params, QuantFormat};

verus! {

/// Builder for a model registration (governance only).
pub struct RegisterModelBuilder {
    pub authority: Option<String>,
    pub display_name: Option<String>,
    pub quant_format: Option<QuantFormat>,
    pub param_count: Option<u64>,
    pub zk_commitment: Option<Vec<u8>>,
    pub supported_ops: Option<u64>,
    pub version: Option<u32>,
    pub weights_payload: Option<Vec<u8>>,
}

impl RegisterModelBuilder {
    /// A builder with no field set.
    pub fn new() -> (r: Self)
        ensures
            r.authority is None,
            r.display_name is None,
            r.quant_format is None,
            r.param_count is None,
            r.zk_commitment is None,
            r.supported_ops is None,
            r.version is None,
            r.weights_payload is None,
    {
        RegisterModelBuilder { authority: None, display_name: None, quant_format: None, param_count: None, zk_commitment: None, supported_ops: None, version: None, weights_payload: None }
    }

    /// Sets the governance authority address.
    pub fn authority(self, v: &str) -> (r: Self)
        ensures
            opt_view(r.authority) == Some(v@),
            r == (RegisterModelBuilder { authority: r.authority, ..self }),
    {
        RegisterModelBuilder { authority: Some(own(v)), ..self }
    }

    /// Sets the human-readable model name.
    pub fn display_name(self, v: &str) -> (r: Self)
        ensures
            opt_view(r.display_name) == Some(v@),
            r == (RegisterModelBuilder { display_name: r.display_name, ..self }),
    {
        RegisterModelBuilder { display_name: Some(own(v)), ..self }
    }

    /// Sets the quantization format.
    pub fn quant_format(self, v: QuantFormat) -> (r: Self)
        ensures
            r == (RegisterModelBuilder { quant_format: Some(v), ..self }),
    {
        RegisterModelBuilder { quant_format: Some(v), ..self }
    }

    /// Sets the parameter count in billions.
    pub fn param_count(self, v: u64) -> (r: Self)
        ensures
            r == (RegisterModelBuilder { param_count: Some(v), ..self }),
    {
        RegisterModelBuilder { param_count: Some(v), ..self }
    }

    /// Sets the zk commitment hash.
    pub fn zk_commitment(self, v: Vec<u8>) -> (r: Self)
        ensures
            r == (RegisterModelBuilder { zk_commitment: Some(v), ..self }),
    {
        RegisterModelBuilder { zk_commitment: Some(v), ..self }
    }

    /// Sets the supported-operation bit flags.
    pub fn supported_ops(self, v: u64) -> (r: Self)
        ensures
            r == (RegisterModelBuilder { supported_ops: Some(v), ..self }),
    {
        RegisterModelBuilder { supported_ops: Some(v), ..self }
    }

    /// Sets the model version.
    pub fn version(self, v: u32) -> (r: Self)
        ensures
            r == (RegisterModelBuilder { version: Some(v), ..self }),
    {
        RegisterModelBuilder { version: Some(v), ..self }
    }

    /// Sets the raw model weights payload.
    pub fn weights_payload(self, v: Vec<u8>) -> (r: Self)
        ensures
            r == (RegisterModelBuilder { weights_payload: Some(v), ..self }),
    {
        RegisterModelBuilder { weights_payload: Some(v), ..self }
    }

    /// Builds the registration. Every field but the weights payload is
    /// required, checked in declaration order; an absent payload is empty.
    pub fn build(self) -> (r: Result<RegisterModelRequest, SdkError>)
        ensures
            self.authority is None ==> fails_with(r, "authority is required for RegisterModel"@),
            self.authority is Some && self.display_name is None ==> fails_with(r, "display_name is required for RegisterModel"@),
            self.authority is Some && self.display_name is Some && self.quant_format is None ==> fails_with(r, "quant_format is required for RegisterModel"@),
            self.authority is Some && self.display_name is Some && self.quant_format is Some && self.param_count is None ==> fails_with(r, "param_count is required for RegisterModel"@),
            self.authority is Some && self.display_name is Some && self.quant_format is Some && self.param_count is Some && self.zk_commitment is None ==> fails_with(r, "zk_commitment is required for RegisterModel"@),
            self.authority is Some && self.display_name is Some && self.quant_format is Some && self.param_count is Some && self.zk_commitment is Some && self.supported_ops is None ==> fails_with(r, "supported_ops is required for RegisterModel"@),
            self.authority is Some && self.display_name is Some && self.quant_format is Some && self.param_count is Some && self.zk_commitment is Some && self.supported_ops is Some && self.version is None ==> fails_with(r, "version is required for RegisterModel"@),
            self.authority is Some && self.display_name is Some && self.quant_format is Some && self.param_count is Some && self.zk_commitment is Some && self.supported_ops is Some && self.version is Some ==> (r matches Ok(req) && {
                &&& req.authority == self.authority.unwrap()
                &&& req.display_name == self.display_name.unwrap()
                &&& req.quant_format == self.quant_format.unwrap()
                &&& req.param_count == self.param_count.unwrap()
                &&& req.zk_commitment == self.zk_commitment.unwrap()
                &&& req.supported_ops == self.supported_ops.unwrap()
                &&& req.version == self.version.unwrap()
                &&& (self.weights_payload matches Some(p) ==> req.weights_payload == p)
                &&& (self.weights_payload is None ==> req.weights_payload@.len() == 0)
            }),
    {
        let authority = require(self.authority, "authority is required for RegisterModel")?;
        let display_name = require(self.display_name, "display_name is required for RegisterModel")?;
        let quant_format = require(self.quant_format, "quant_format is required for RegisterModel")?;
        let param_count = require(self.param_count, "param_count is required for RegisterModel")?;
        let zk_commitment = require(self.zk_commitment, "zk_commitment is required for RegisterModel")?;
        let supported_ops = require(self.supported_ops, "supported_ops is required for RegisterModel")?;
        let version = require(self.version, "version is required for RegisterModel")?;
        let weights_payload = match self.weights_payload {
            Some(p) => p,
            None => Vec::new(),
        };
        Ok(RegisterModelRequest {
            authority,
            display_name,
            quant_format,
            param_count,
            zk_commitment,
            supported_ops,
            version,
            weights_payload,
        })
    }
}

/// Builder for a parameter update (governance only).
pub struct UpdateParamsBuilder {
    pub authority: Option<String>,
    pub params: Option<Params>,
}

impl UpdateParamsBuilder {
    /// A builder with no field set.
    pub fn new() -> (r: Self)
        ensures
            r.authority is None,
            r.params is None,
    {
        UpdateParamsBuilder { authority: None, params: None }
    }

    /// Sets the governance authority address.
    pub fn authority(self, v: &str) -> (r: Self)
        ensures
            opt_view(r.authority) == Some(v@),
            r == (UpdateParamsBuilder { authority: r.authority, ..self }),
    {
        UpdateParamsBuilder { authority: Some(own(v)), ..self }
    }

    /// Sets the new module parameters.
    pub fn params(self, params: Params) -> (r: Self)
        ensures
            r == (UpdateParamsBuilder { params: Some(params), ..self }),
    {
        UpdateParamsBuilder { params: Some(params), ..self }
    }

    /// Builds the update; the authority and the parameters are required, in that order.
    pub fn build(self) -> (r: Result<UpdateParamsRequest, SdkError>)
        ensures
            self.authority is None ==> fails_with(r, "authority is required for UpdateParams"@),
            self.authority is Some && self.params is None ==> fails_with(r, "params are required for UpdateParams"@),
            self.authority is Some && self.params is Some ==> r == Ok::<UpdateParamsRequest, SdkError>(UpdateParamsRequest {
                authority: self.authority.unwrap(),
                params: self.params.unwrap(),
            }),
    {
        let authority = require(self.authority, "authority is required for UpdateParams")?;
        let params = require(self.params, "params are required for UpdateParams")?;
        Ok(UpdateParamsRequest { authority, params })
    }
}

} // verus!
