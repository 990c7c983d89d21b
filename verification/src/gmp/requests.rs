//! Request types of the GMP module.
use vstd::prelude::*;
use crate::gmp::types::GmpParams;

verus! {

/// Request to start a Warp Route transfer (Morpheum to EVM).
#[derive(Clone, Debug)]
pub struct WarpRouteTransferRequest {
    pub sender: String,
    pub destination_domain: u32,
    pub recipient: Vec<u8>,
    pub asset_index: u64,
    pub amount: String,
}

/// Request to process a Hyperlane message (relayer entry point).
#[derive(Clone, Debug)]
pub struct ProcessHyperlaneMessageRequest {
    pub metadata: Vec<u8>,
    pub message: Vec<u8>,
}

/// Request to settle a generic GMP payment.
#[derive(Clone, Debug)]
pub struct SettleGmpPaymentRequest {
    pub protocol_id: String,
    pub raw_envelope: Vec<u8>,
}

/// Request to update the GMP module parameters through governance.
#[derive(Clone, Debug)]
pub struct UpdateGmpParamsRequest {
    pub authority: String,
    pub params: GmpParams,
}

/// Query the delivery status of a Hyperlane message.
#[derive(Clone, Debug)]
pub struct QueryHyperlaneDeliveryRequest {
    pub message_id: String,
}

/// Query the Hyperlane nonce.
#[derive(Clone, Debug)]
pub struct QueryHyperlaneNonceRequest;

/// Query the GMP parameters.
#[derive(Clone, Debug)]
pub struct QueryGmpParamsRequest;

} // verus!
