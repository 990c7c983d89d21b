//! The computing halves of the EVM payment flows: the x402 payment deadline
//! and signature byte, and the results of an x402 payment and of a Warp
//! Route `transferRemote`, read from the transaction's logs. Amounts are
//! 256-bit integers held as 32 big-endian bytes.
use vstd::prelude::*;
use crate::evm::bridge::{dispatch_id_topic_hash, is_dispatch_id_log, parse_dispatch_id};
use crate::evm::types::{first_log_where, EvmLog};

verus! {

/// Result of a Warp Route `transferRemote` dispatch.
#[derive(Clone, Debug)]
pub struct DispatchResult {
    /// Hyperlane message id (the transaction hash where no `DispatchId` log is found).
    pub message_id: [u8; 32],
    /// Destination Hyperlane domain.
    pub destination: u32,
    /// Recipient on the destination chain (left-padded to 32 bytes).
    pub recipient: [u8; 32],
    /// Amount transferred, in the token's smallest unit.
    pub amount: [u8; 32],
    /// Hash of the `transferRemote` transaction.
    pub tx_hash: [u8; 32],
}

/// Result of an x402 `pay()` call.
#[derive(Clone, Debug)]
pub struct PaymentResult {
    pub payment_id: [u8; 32],
    /// Hyperlane message id, where the payment was dispatched.
    pub message_id: Option<[u8; 32]>,
    pub tx_hash: [u8; 32],
    /// Amount escrowed.
    pub amount: [u8; 32],
}

/// The fields of an on-chain x402 payment record that the SDK reads.
#[derive(Clone, Debug)]
pub struct PaymentInfo {
    pub payer: [u8; 20],
    pub target_agent_id: [u8; 32],
    pub amount: [u8; 32],
    pub asset: [u8; 20],
    pub reply_channel: String,
    pub created_at: u64,
    pub settled: bool,
    pub refunded: bool,
}

/// Parameters of an x402 payment.
#[derive(Clone, Debug)]
pub struct X402PayParams {
    pub payment_id: [u8; 32],
    pub target_agent_id: [u8; 32],
    pub amount: [u8; 32],
    pub memo: String,
    pub reply_channel: String,
    /// Hyperlane dispatch fee, sent as the call's value.
    pub msg_value: [u8; 32],
}

/// The message id that the logs of a dispatching transaction carry: that of
/// the first `DispatchId` log, if any.
pub open spec fn dispatched_id(logs: Seq<EvmLog>) -> Option<[u8; 32]> {
    match first_log_where(logs, |l: EvmLog| is_dispatch_id_log(l, dispatch_id_topic_hash())) {
        Some(i) => Some(logs[i].topics@[1]),
        None => None,
    }
}

/// The deadline of an x402 payment signed at block `block`: a thousand
/// blocks later.
pub fn payment_deadline(block: u64) -> (r: u64)
    requires
        block <= u64::MAX - 1000,
    ensures
        r == block + 1000,
{
    block + 1000
}

/// The `v` byte of a secp256k1 signature as the settlement contract takes
/// it: 28 for an odd y parity, 27 for an even one.
pub fn signature_v(y_parity: bool) -> (r: u8)
    ensures
        r == (if y_parity {
            28u8
        } else {
            27u8
        }),
{
    if y_parity {
        28
    } else {
        27
    }
}

/// The result of a confirmed x402 payment: the parameters' id and amount,
/// the transaction hash, and the message id of its dispatch.
pub fn payment_result(params: &X402PayParams, tx_hash: [u8; 32], logs: &Vec<EvmLog>) -> (r: PaymentResult)
    ensures
        r.payment_id == params.payment_id,
        r.message_id == dispatched_id(logs@),
        r.tx_hash == tx_hash,
        r.amount == params.amount,
{
    PaymentResult {
        payment_id: params.payment_id,
        message_id: parse_dispatch_id(logs),
        tx_hash,
        amount: params.amount,
    }
}

/// The result of a confirmed `transferRemote`: the message id of its
/// dispatch, or the transaction hash where no `DispatchId` log is found.
pub fn dispatch_result(
    destination: u32,
    recipient: [u8; 32],
    amount: [u8; 32],
    tx_hash: [u8; 32],
    logs: &Vec<EvmLog>,
) -> (r: DispatchResult)
    ensures
        r.message_id == (match dispatched_id(logs@) {
            Some(id) => id,
            None => tx_hash,
        }),
        r.destination == destination,
        r.recipient == recipient,
        r.amount == amount,
        r.tx_hash == tx_hash,
{
    let message_id = match parse_dispatch_id(logs) {
        Some(id) => id,
        None => tx_hash,
    };
    DispatchResult { message_id, destination, recipient, amount, tx_hash }
}

} // verus!
