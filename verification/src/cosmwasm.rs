//! CosmWasm contract interaction: builders for store/instantiate/execute
//! messages and their JSON encodings.
pub mod builder;
pub mod grpc;
pub mod query;
pub mod requests;
pub mod types;
pub mod wire;

pub use builder::{
    ExecuteContractBuilder, InstantiateContractBuilder, StoreCodeBuilder, WarpRouteTransferBuilder,
};
pub use requests::{
    ExecuteContractRequest, InstantiateContractRequest, QueryRawRequest, QuerySmartRequest,
    StoreCodeRequest,
};
pub use types::{ContractInfo, CosmWasmError};
