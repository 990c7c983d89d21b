//! Domain types of the inference registry: quantization formats, model
//! status, model commitments and module parameters.
use vstd::prelude::*;
use crate::common::own;
use crate::cosmwasm::builder::{hex_encode, hex_text};
use crate::inference_registry::ops;

verus! {

/// Quantization format of a registered model.
#[derive(Clone, Copy, Debug, PartialEq, Eq, Hash, Structural)]
pub enum QuantFormat {
    Unspecified,
    Q4KM,
    Q5KM,
    Q80,
    Fp16,
}

/// The wire number of each `QuantFormat` variant.
pub open spec fn quant_format_number(v: QuantFormat) -> i32 {
    match v {
        QuantFormat::Unspecified => 0,
        QuantFormat::Q4KM => 1,
        QuantFormat::Q5KM => 2,
        QuantFormat::Q80 => 3,
        QuantFormat::Fp16 => 4,
    }
}

/// The `QuantFormat` that a wire number denotes; unknown numbers give `Unspecified`.
pub open spec fn quant_format_of(n: i32) -> QuantFormat {
    if n == 1 {
        QuantFormat::Q4KM
    } else if n == 2 {
        QuantFormat::Q5KM
    } else if n == 3 {
        QuantFormat::Q80
    } else if n == 4 {
        QuantFormat::Fp16
    } else {
        QuantFormat::Unspecified
    }
}

impl QuantFormat {
    /// Converts from the proto `i32` representation; unknown numbers give `Unspecified`.
    pub fn from_proto(value: i32) -> (r: QuantFormat)
        ensures
            r == quant_format_of(value),
    {
            match value {
                1 => QuantFormat::Q4KM,
                2 => QuantFormat::Q5KM,
                3 => QuantFormat::Q80,
                4 => QuantFormat::Fp16,
                _ => QuantFormat::Unspecified,
            }
    }

    /// Converts to the proto `i32` representation.
    pub fn to_proto(self) -> (r: i32)
        ensures
            r == quant_format_number(self),
    {
            match self {
                QuantFormat::Unspecified => 0,
                QuantFormat::Q4KM => 1,
                QuantFormat::Q5KM => 2,
                QuantFormat::Q80 => 3,
                QuantFormat::Fp16 => 4,
            }
    }

    /// The canonical upper-case name of the variant.
    pub fn to_string(&self) -> (r: String)
        ensures
            r@ == quant_format_name(*self),
    {
        match self {
            QuantFormat::Unspecified => own("UNSPECIFIED"),
            QuantFormat::Q4KM => own("Q4_K_M"),
            QuantFormat::Q5KM => own("Q5_K_M"),
            QuantFormat::Q80 => own("Q8_0"),
            QuantFormat::Fp16 => own("FP16"),
        }
    }
}

/// The display name of each `QuantFormat` variant.
pub open spec fn quant_format_name(v: QuantFormat) -> Seq<char> {
    match v {
        QuantFormat::Unspecified => "UNSPECIFIED"@,
        QuantFormat::Q4KM => "Q4_K_M"@,
        QuantFormat::Q5KM => "Q5_K_M"@,
        QuantFormat::Q80 => "Q8_0"@,
        QuantFormat::Fp16 => "FP16"@,
    }
}

/// The display names of `QuantFormat`: `Unspecified` is "UNSPECIFIED", `Q4KM` is "Q4_K_M", `Q5KM` is "Q5_K_M", `Q80` is "Q8_0", `Fp16` is "FP16".
pub proof fn law_quant_format_names()
    ensures
        quant_format_name(QuantFormat::Unspecified) == "UNSPECIFIED"@,
        quant_format_name(QuantFormat::Q4KM) == "Q4_K_M"@,
        quant_format_name(QuantFormat::Q5KM) == "Q5_K_M"@,
        quant_format_name(QuantFormat::Q80) == "Q8_0"@,
        quant_format_name(QuantFormat::Fp16) == "FP16"@,
{
}

impl Default for QuantFormat {
    /// `Unspecified`.
    fn default() -> (r: QuantFormat)
        ensures
            r == QuantFormat::Unspecified,
    {
        QuantFormat::Unspecified
    }
}

/// Every `QuantFormat` survives the trip to its wire number and back, and every
/// number in `0..=4` survives the trip to a variant and back; any
/// other number reads as `Unspecified`.
pub proof fn lemma_quant_format_roundtrip(v: QuantFormat, n: i32)
    ensures
        quant_format_of(quant_format_number(v)) == v,
        0 <= n <= 4 ==> quant_format_number(quant_format_of(n)) == n,
        !(0 <= n <= 4) ==> quant_format_of(n) == QuantFormat::Unspecified,
{
}

/// The wire numbers of `QuantFormat`, both ways: `Unspecified` is 0, `Q4KM` is 1, `Q5KM` is 2, `Q80` is 3, `Fp16` is 4; any other number reads
/// as `Unspecified`.
pub proof fn law_quant_format_wire_numbers(n: i32)
    ensures
        quant_format_number(QuantFormat::Unspecified) == 0,
        quant_format_number(QuantFormat::Q4KM) == 1,
        quant_format_number(QuantFormat::Q5KM) == 2,
        quant_format_number(QuantFormat::Q80) == 3,
        quant_format_number(QuantFormat::Fp16) == 4,
        quant_format_of(0) == QuantFormat::Unspecified,
        quant_format_of(1) == QuantFormat::Q4KM,
        quant_format_of(2) == QuantFormat::Q5KM,
        quant_format_of(3) == QuantFormat::Q80,
        quant_format_of(4) == QuantFormat::Fp16,
        !(0 <= n <= 4) ==> quant_format_of(n) == QuantFormat::Unspecified,
{
}

/// Lifecycle status of a registered model.
#[derive(Clone, Copy, Debug, PartialEq, Eq, Hash, Structural)]
pub enum ModelStatus {
    Unspecified,
    Active,
    Deprecated,
    UnderReview,
}

/// The wire number of each `ModelStatus` variant.
pub open spec fn model_status_number(v: ModelStatus) -> i32 {
    match v {
        ModelStatus::Unspecified => 0,
        ModelStatus::Active => 1,
        ModelStatus::Deprecated => 2,
        ModelStatus::UnderReview => 3,
    }
}

/// The `ModelStatus` that a wire number denotes; unknown numbers give `Unspecified`.
pub open spec fn model_status_of(n: i32) -> ModelStatus {
    if n == 1 {
        ModelStatus::Active
    } else if n == 2 {
        ModelStatus::Deprecated
    } else if n == 3 {
        ModelStatus::UnderReview
    } else {
        ModelStatus::Unspecified
    }
}

impl ModelStatus {
    /// Converts from the proto `i32` representation; unknown numbers give `Unspecified`.
    pub fn from_proto(value: i32) -> (r: ModelStatus)
        ensures
            r == model_status_of(value),
    {
            match value {
                1 => ModelStatus::Active,
                2 => ModelStatus::Deprecated,
                3 => ModelStatus::UnderReview,
                _ => ModelStatus::Unspecified,
            }
    }

    /// Converts to the proto `i32` representation.
    pub fn to_proto(self) -> (r: i32)
        ensures
            r == model_status_number(self),
    {
            match self {
                ModelStatus::Unspecified => 0,
                ModelStatus::Active => 1,
                ModelStatus::Deprecated => 2,
                ModelStatus::UnderReview => 3,
            }
    }

    /// The canonical upper-case name of the variant.
    pub fn to_string(&self) -> (r: String)
        ensures
            r@ == model_status_name(*self),
    {
        match self {
            ModelStatus::Unspecified => own("UNSPECIFIED"),
            ModelStatus::Active => own("ACTIVE"),
            ModelStatus::Deprecated => own("DEPRECATED"),
            ModelStatus::UnderReview => own("UNDER_REVIEW"),
        }
    }
}

/// The display name of each `ModelStatus` variant.
pub open spec fn model_status_name(v: ModelStatus) -> Seq<char> {
    match v {
        ModelStatus::Unspecified => "UNSPECIFIED"@,
        ModelStatus::Active => "ACTIVE"@,
        ModelStatus::Deprecated => "DEPRECATED"@,
        ModelStatus::UnderReview => "UNDER_REVIEW"@,
    }
}

/// The display names of `ModelStatus`: `Unspecified` is "UNSPECIFIED", `Active` is "ACTIVE", `Deprecated` is "DEPRECATED", `UnderReview` is "UNDER_REVIEW".
pub proof fn law_model_status_names()
    ensures
        model_status_name(ModelStatus::Unspecified) == "UNSPECIFIED"@,
        model_status_name(ModelStatus::Active) == "ACTIVE"@,
        model_status_name(ModelStatus::Deprecated) == "DEPRECATED"@,
        model_status_name(ModelStatus::UnderReview) == "UNDER_REVIEW"@,
{
}

impl Default for ModelStatus {
    /// `Unspecified`.
    fn default() -> (r: ModelStatus)
        ensures
            r == ModelStatus::Unspecified,
    {
        ModelStatus::Unspecified
    }
}

/// Every `ModelStatus` survives the trip to its wire number and back, and every
/// number in `0..=3` survives the trip to a variant and back; any
/// other number reads as `Unspecified`.
pub proof fn lemma_model_status_roundtrip(v: ModelStatus, n: i32)
    ensures
        model_status_of(model_status_number(v)) == v,
        0 <= n <= 3 ==> model_status_number(model_status_of(n)) == n,
        !(0 <= n <= 3) ==> model_status_of(n) == ModelStatus::Unspecified,
{
}

/// The wire numbers of `ModelStatus`, both ways: `Unspecified` is 0, `Active` is 1, `Deprecated` is 2, `UnderReview` is 3; any other number reads
/// as `Unspecified`.
pub proof fn law_model_status_wire_numbers(n: i32)
    ensures
        model_status_number(ModelStatus::Unspecified) == 0,
        model_status_number(ModelStatus::Active) == 1,
        model_status_number(ModelStatus::Deprecated) == 2,
        model_status_number(ModelStatus::UnderReview) == 3,
        model_status_of(0) == ModelStatus::Unspecified,
        model_status_of(1) == ModelStatus::Active,
        model_status_of(2) == ModelStatus::Deprecated,
        model_status_of(3) == ModelStatus::UnderReview,
        !(0 <= n <= 3) ==> model_status_of(n) == ModelStatus::Unspecified,
{
}

/// Canonical on-chain record of a registered inference model.
#[derive(Clone, Debug, PartialEq, Eq)]
pub struct ModelCommitment {
    /// Primary key of the model.
    pub model_id: Vec<u8>,
    pub display_name: String,
    pub quant_format: QuantFormat,
    /// Parameter count in billions.
    pub param_count: u64,
    pub zk_commitment: Vec<u8>,
    /// Bit flags of the supported operations (see `ops`).
    pub supported_ops: u64,
    pub registered_at: u64,
    pub governance_hash: Vec<u8>,
    pub version: u32,
    pub blob_merkle_root: Vec<u8>,
}

/// `flags` has at least one bit of `op` set.
pub open spec fn supports(flags: u64, op: u64) -> bool {
    flags & op != 0
}

impl ModelCommitment {
    /// The model id as lowercase hexadecimal text.
    pub fn model_id_hex(&self) -> (r: String)
        ensures
            r@ == hex_text(self.model_id@),
    {
        hex_encode(self.model_id.as_slice())
    }

    /// `true` if the model supports plain inference.
    pub fn supports_infer(&self) -> (b: bool)
        ensures
            b == supports(self.supported_ops, ops::INFER),
    {
        self.supported_ops & ops::INFER != 0
    }

    /// `true` if the model supports embeddings.
    pub fn supports_embed(&self) -> (b: bool)
        ensures
            b == supports(self.supported_ops, ops::EMBED),
    {
        self.supported_ops & ops::EMBED != 0
    }

    /// `true` if the model supports vector search.
    pub fn supports_vector_search(&self) -> (b: bool)
        ensures
            b == supports(self.supported_ops, ops::VECTOR_SEARCH),
    {
        self.supported_ops & ops::VECTOR_SEARCH != 0
    }

    /// `true` if any bit of `op` is set among the supported operations.
    pub fn supports_op(&self, op: u64) -> (b: bool)
        ensures
            b == supports(self.supported_ops, op),
    {
        self.supported_ops & op != 0
    }
}

/// A model registered with the union of two op sets supports every
/// operation of either, and no operation is supported with no flags set.
pub proof fn lemma_supports_union(a: u64, b: u64, op: u64)
    ensures
        supports(a, op) ==> supports(a | b, op),
        supports(b, op) ==> supports(a | b, op),
        !supports(0, op),
        supports(ops::INFER | ops::EMBED, ops::INFER) && supports(ops::INFER | ops::EMBED, ops::EMBED),
        !supports(ops::INFER | ops::EMBED | ops::VECTOR_SEARCH, ops::FINE_TUNE),
{
    assert((a & op) != 0 ==> ((a | b) & op) != 0) by (bit_vector);
    assert((b & op) != 0 ==> ((a | b) & op) != 0) by (bit_vector);
    assert((0u64 & op) == 0) by (bit_vector);
    assert(((1u64 | 2u64) & 1u64) != 0 && ((1u64 | 2u64) & 2u64) != 0) by (bit_vector);
    assert(((1u64 | 2u64 | 4u64) & 8u64) == 0) by (bit_vector);
}

impl Default for ModelCommitment {
    /// The empty record.
    fn default() -> (r: ModelCommitment)
        ensures
            r.model_id@.len() == 0,
            r.display_name@ == Seq::<char>::empty(),
            r.quant_format == QuantFormat::Unspecified,
            r.param_count == 0,
            r.zk_commitment@.len() == 0,
            r.supported_ops == 0,
            r.registered_at == 0,
            r.governance_hash@.len() == 0,
            r.version == 0,
            r.blob_merkle_root@.len() == 0,
    {
        ModelCommitment {
            model_id: Vec::new(),
            display_name: String::new(),
            quant_format: QuantFormat::Unspecified,
            param_count: 0,
            zk_commitment: Vec::new(),
            supported_ops: 0,
            registered_at: 0,
            governance_hash: Vec::new(),
            version: 0,
            blob_merkle_root: Vec::new(),
        }
    }
}

/// Module parameters (governance-controlled).
#[derive(Clone, Debug, PartialEq, Eq)]
pub struct Params {
    pub max_models: u64,
    pub max_param_count: u64,
    pub enable_auto_proof_submission: bool,
    pub default_max_tokens: u64,
    pub governance_threshold: u64,
}

impl Default for Params {
    /// At most 1000 models of up to 405 billion parameters, automatic proof
    /// submission on, 4096 tokens per inference, one governance vote.
    fn default() -> (r: Params)
        ensures
            r.max_models == 1000,
            r.max_param_count == 405,
            r.enable_auto_proof_submission,
            r.default_max_tokens == 4096,
            r.governance_threshold == 1,
    {
        Params {
            max_models: 1000,
            max_param_count: 405,
            enable_auto_proof_submission: true,
            default_max_tokens: 4096,
            governance_threshold: 1,
        }
    }
}

} // verus!
