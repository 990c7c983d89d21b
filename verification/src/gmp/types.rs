//! Domain types of the GMP module: Hyperlane security parameters, Warp Route
//! configuration and the results of GMP transactions.
use std::collections::BTreeMap;
use vstd::prelude::*;

verus! {

/// GMP module parameters (governance-controlled).
#[derive(Clone, Debug)]
pub struct GmpParams {
    pub hyperlane: Option<HyperlaneParams>,
    pub warp_route: Option<WarpRouteConfig>,
}

/// Hyperlane protocol security parameters.
#[derive(Clone, Debug)]
pub struct HyperlaneParams {
    /// Ethereum-style validator addresses (20 bytes each).
    pub validators: Vec<Vec<u8>>,
    /// Minimum number of signatures required (m of n).
    pub threshold: u32,
    /// Hyperlane domain id to CAIP-2 chain identifier.
    pub domain_to_caip2: BTreeMap<u32, String>,
    /// Trusted sender addresses on source chains (32 bytes each, left-padded).
    pub trusted_senders: Vec<Vec<u8>>,
}

/// Warp Route configuration (governance-controlled).
#[derive(Clone, Debug)]
pub struct WarpRouteConfig {
    /// 32-byte address of the Warp Route handler on Morpheum.
    pub recipient_address: Vec<u8>,
    /// Token route of each Hyperlane domain.
    pub routes: BTreeMap<u32, WarpRouteToken>,
}

/// Token configuration of one Warp Route domain.
#[derive(Clone, Debug)]
pub struct WarpRouteToken {
    /// 32-byte collateral contract address on the source chain.
    pub collateral_address: Vec<u8>,
    /// Morpheum bank asset index (e.g. 1 for USDC).
    pub asset_index: u64,
}

/// Whether a GMP protocol is configured.
#[derive(Clone, Debug)]
pub struct ProtocolInfo {
    pub protocol_id: String,
    pub configured: bool,
}

/// Result of a Warp Route transfer.
#[derive(Clone, Debug)]
pub struct WarpRouteTransferResult {
    pub success: bool,
    pub message_id: Vec<u8>,
}

/// Result of processing a Hyperlane message.
#[derive(Clone, Debug)]
pub struct ProcessHyperlaneResult {
    pub success: bool,
    pub message_id: Vec<u8>,
}

/// Result of settling a GMP payment.
#[derive(Clone, Debug)]
pub struct SettleGmpPaymentResult {
    pub success: bool,
}

} // verus!
