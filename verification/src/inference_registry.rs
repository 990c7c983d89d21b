//! Inference registry module: a governance-controlled registry of quantized
//! open models with zk commitments, supported-operation flags and versions.
pub mod builder;
pub mod ops;
pub mod requests;
pub mod types;

pub use builder::{RegisterModelBuilder, UpdateParamsBuilder};
pub use crate::common::{AccountId, SdkError, VERSION};
pub use requests::{
    QueryActiveModelsRequest, QueryActiveModelsResponse, QueryModelRequest, QueryModelResponse,
    QueryModelsByQuantRequest, QueryModelsByQuantResponse, QueryParamsRequest,
    QueryParamsResponse, RegisterModelRequest, RegisterModelResponse, UpdateParamsRequest,
    UpdateParamsResponse,
};
pub use types::{ModelCommitment, ModelStatus, Params, QuantFormat};
