//! Hyperlane Mailbox log helpers.
use vstd::prelude::*;
use crate::evm::types::{first_log_where, lemma_first_log_where, EvmLog};
use crate::gmp::relay::{keccak256, keccak256_digest};

verus! {

/// The text of the Mailbox `DispatchId` event signature.
pub open spec fn dispatch_id_signature() -> Seq<char> {
    "DispatchId(bytes32)"@
}

/// `log` is a `DispatchId` event that carries a message id.
pub open spec fn is_dispatch_id_log(log: EvmLog, topic: Seq<u8>) -> bool {
    log.topics@.len() >= 2 && log.topics@[0]@ == topic
}

/// The topic hash of the `DispatchId(bytes32)` event.
pub open spec fn dispatch_id_topic_hash() -> Seq<u8> {
    keccak256_digest(vstd::utf8::encode_utf8(dispatch_id_signature()))
}

/// The topic hash of the `DispatchId(bytes32)` event: Keccak-256 of its signature.
pub fn dispatch_id_topic() -> (r: [u8; 32])
    ensures
        r@ == dispatch_id_topic_hash(),
{
    let sig = "DispatchId(bytes32)";
    keccak256(sig.as_bytes())
}

/// Extracts the Hyperlane message id from the first `DispatchId(bytes32 indexed messageId)`
/// log that carries one; the Mailbox emits this event on every `dispatch()` call.
pub fn parse_dispatch_id(logs: &Vec<EvmLog>) -> (r: Option<[u8; 32]>)
    ensures
        ({
            match first_log_where(logs@, |l: EvmLog| is_dispatch_id_log(l, dispatch_id_topic_hash())) {
                Some(i) => r == Some(logs@[i].topics@[1]),
                None => r is None,
            }
        }),
{
    let topic = dispatch_id_topic();
    let ghost t = topic@;
    let n = logs.len();
    let mut i: usize = 0;
    while i < n
        invariant
            n == logs@.len(),
            i <= n,
            t == topic@,
            t == dispatch_id_topic_hash(),
            forall|j: int| 0 <= j < i ==> !(|l: EvmLog| is_dispatch_id_log(l, dispatch_id_topic_hash()))(#[trigger] logs@[j]),
        decreases n - i,
    {
        let log = &logs[i];
        if log.topics.len() >= 2 && crate::common::bytes_eq(log.topics[0].as_slice(), topic.as_slice()) {
            proof {
                lemma_first_log_where(logs@, |l: EvmLog| is_dispatch_id_log(l, dispatch_id_topic_hash()), i as int);
            }
            return Some(log.topics[1]);
        }

        i = i + 1;
    }
    proof {
        lemma_first_log_where(logs@, |l: EvmLog| is_dispatch_id_log(l, dispatch_id_topic_hash()), n as int);
    }
    None
}

} // verus!
