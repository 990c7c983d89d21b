//! EVM-side helpers for Morpheum cross-chain operations: event-log
//! decoding, Hyperlane dispatch parsing and the chain configuration registry.
pub mod bridge;
pub mod cctp;
pub mod config;
pub mod payments;
pub mod types;

pub use bridge::{dispatch_id_topic, parse_dispatch_id};
pub use cctp::{cctp_bridge_result, CctpBridgeResult};

pub use payments::{
    dispatch_result, payment_deadline, payment_result, signature_v, DispatchResult, PaymentInfo,
    PaymentResult, X402PayParams,
};
pub use config::{ChainConfig, ChainRegistry, ResolvedChain, ResolvedToken, TokenConfig};
pub use types::{EvmError, EvmLog};
