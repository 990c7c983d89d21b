//! General Message Passing: Hyperlane security parameters, Warp Route
//! configuration and transfers, GMP payments and the Hyperlane relay
//! encodings.
pub mod builder;
pub mod relay;
pub mod requests;
pub mod types;

pub use builder::{
    HyperlaneParamsBuilder, SettleGmpPaymentBuilder, UpdateGmpParamsBuilder,
    WarpRouteConfigBuilder, WarpRouteTransferBuilder,
};

pub use crate::common::VERSION;
pub use requests::{
    ProcessHyperlaneMessageRequest, QueryGmpParamsRequest, QueryHyperlaneDeliveryRequest,
    QueryHyperlaneNonceRequest, SettleGmpPaymentRequest, UpdateGmpParamsRequest,
    WarpRouteTransferRequest,
};
pub use types::{
    GmpParams, HyperlaneParams, ProcessHyperlaneResult, ProtocolInfo, SettleGmpPaymentResult,
    WarpRouteConfig, WarpRouteToken, WarpRouteTransferResult,
};
