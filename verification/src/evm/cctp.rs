//! The computing half of the CCTP bridge flow (`CctpHyperlaneWrapper`): the
//! result of a `bridgeUsdc` transaction, read from its `BridgeInitiated` log.
use vstd::prelude::*;
use vstd::utf8::encode_utf8;
use crate::evm::types::{
    be_nat, first_log_where, lemma_be_nat_bound, lemma_first_log_where, lemma_pow256_mono, pow256, EvmLog,
};
use crate::gmp::relay::{keccak256, keccak256_digest};

verus! {

/// Result of a CCTP bridge operation.
#[derive(Clone, Debug, PartialEq, Eq)]
pub struct CctpBridgeResult {
    /// EVM transaction hash.
    pub tx_hash: [u8; 32],
    /// Hyperlane message id from the `BridgeInitiated` event (the
    /// transaction hash where no such event is read).
    pub message_id: [u8; 32],
    /// CCTP nonce from the `BridgeInitiated` event, if one was read.
    pub cctp_nonce: Option<u64>,
}

/// The signature of the wrapper's `BridgeInitiated` event: `sender` and
/// `recipient` indexed, then `amount`, `cctpNonce` and `hyperlaneMessageId`
/// in the data.
pub open spec fn bridge_initiated_signature() -> Seq<char> {
    "BridgeInitiated(address,bytes32,uint256,uint64,bytes32)"@
}

/// The topic hash of the `BridgeInitiated` event.
pub open spec fn bridge_initiated_topic_hash() -> Seq<u8> {
    keccak256_digest(encode_utf8(bridge_initiated_signature()))
}

/// `log` is a `BridgeInitiated` event whose indexed topics and three data
/// words are all there.
pub open spec fn is_bridge_initiated_log(log: EvmLog, topic: Seq<u8>) -> bool {
    log.topics@.len() >= 3 && log.topics@[0]@ == topic && log.data@.len() >= 96
}

/// The topic hash of the `BridgeInitiated` event: Keccak-256 of its signature.
pub fn bridge_initiated_topic() -> (r: [u8; 32])
    ensures
        r@ == bridge_initiated_topic_hash(),
{
    let sig = "BridgeInitiated(address,bytes32,uint256,uint64,bytes32)";
    keccak256(sig.as_bytes())
}

/// The `uint64` of an ABI word: its low eight bytes, big-endian.
pub open spec fn word_u64(data: Seq<u8>, start: int) -> u64 {
    be_nat(data.subrange(start + 24, start + 32)) as u64
}

/// Reads the low eight bytes of the ABI word at `start`.
fn read_word_u64(data: &[u8], start: usize) -> (r: u64)
    requires
        start + 32 <= data@.len(),
    ensures
        r == word_u64(data@, start as int),
{
    let ghost w = data@.subrange(start + 24, start + 32);
    let mut acc: u64 = 0;
    let mut i: usize = 0;
    while i < 8
        invariant
            i <= 8,
            start + 32 <= data@.len(),
            data@.len() == data.len(),
            w == data@.subrange(start + 24, start + 32),
            acc == be_nat(w.take(i as int)),
        decreases 8 - i,
    {
        proof {
            assert(w.take(i + 1).drop_last() =~= w.take(i as int));
            assert(w[i as int] == data@[start + 24 + i]);
            lemma_be_nat_bound(w.take(i + 1));
            assert(pow256(8) == 0x1_0000_0000_0000_0000nat) by {
                reveal_with_fuel(pow256, 9);
            }
            assert(pow256((i + 1) as nat) <= pow256(8)) by {
                lemma_pow256_mono((i + 1) as nat, 8);
            }
        }
        acc = acc * 256 + data[start + 24 + i] as u64;
        i = i + 1;
    }
    assert(w.take(8) =~= w);
    acc
}

/// The result of a confirmed `bridgeUsdc` transaction: the message id and
/// CCTP nonce of its first `BridgeInitiated` log, or the transaction hash and
/// no nonce where there is none.
pub fn cctp_bridge_result(tx_hash: [u8; 32], logs: &Vec<EvmLog>) -> (r: CctpBridgeResult)
    ensures
        r.tx_hash == tx_hash,
        match first_log_where(logs@, |l: EvmLog| is_bridge_initiated_log(l, bridge_initiated_topic_hash())) {
            Some(i) => r.message_id@ == logs@[i].data@.subrange(64, 96) && r.cctp_nonce == Some(
                word_u64(logs@[i].data@, 32),
            ),
            None => r.message_id == tx_hash && r.cctp_nonce is None,
        },
{
    let topic = bridge_initiated_topic();
    let n = logs.len();
    let mut i: usize = 0;
    while i < n
        invariant
            n == logs@.len(),
            i <= n,
            topic@ == bridge_initiated_topic_hash(),
            forall|j: int|
                0 <= j < i ==> !(|l: EvmLog| is_bridge_initiated_log(l, bridge_initiated_topic_hash()))(
                    #[trigger] logs@[j],
                ),
        decreases n - i,
    {
        let log = &logs[i];
        if log.topics.len() >= 3 && crate::common::bytes_eq(log.topics[0].as_slice(), topic.as_slice())
            && log.data.len() >= 96 {
            proof {
                lemma_first_log_where(
                    logs@,
                    |l: EvmLog| is_bridge_initiated_log(l, bridge_initiated_topic_hash()),
                    i as int,
                );
            }
            let data = log.data.as_slice();
            let nonce = read_word_u64(data, 32);
            let mut id = [0u8; 32];
            let mut k: usize = 0;
            while k < 32
                invariant
                    k <= 32,
                    data@.len() >= 96,
                    forall|j: int| 0 <= j < k ==> id@[j] == data@[64 + j],
                decreases 32 - k,
            {
                id[k] = data[64 + k];
                k = k + 1;
            }
            assert(id@ =~= data@.subrange(64, 96));
            return CctpBridgeResult { tx_hash, message_id: id, cctp_nonce: Some(nonce) };
        }
        i = i + 1;
    }
    proof {
        lemma_first_log_where(logs@, |l: EvmLog| is_bridge_initiated_log(l, bridge_initiated_topic_hash()), n as int);
    }
    CctpBridgeResult { tx_hash, message_id: tx_hash, cctp_nonce: None }
}

} // verus!
