//! Hyperlane message relay: the byte-level pieces of relaying a message
//! between an EVM chain and Morpheum (message encoding, checkpoint digests,
//! validator signatures, ISM metadata, `Mailbox.process` calldata) and the
//! reading of the Morpheum query replies that the relay needs.
use sha3::Digest;
use vstd::prelude::*;
use vstd::utf8::encode_utf8;
use crate::common::{
    append_bytes, be_u32_bytes, be_u64_bytes, bytes_eq, decimal_text, own, prefixed, text_with_number,
    u32_to_be_bytes, u64_to_be_bytes, zero_bytes,
};
use crate::cosmwasm::builder::{hex_digit, hex_encode, hex_text};
use crate::evm::types::{
    abi_word, be_nat, first_log_where, lemma_be_nat_concat, lemma_be_nat_zeros, lemma_first_log_where, pow256,
    read_abi_word, read_abi_word_at_most, EvmLog,
};
use crate::json::{
    first_member, member, member_names,
    json_members, json_object, json_str_member, json_text, json_to_vec, json_u64_member, lookup_str_member,
    lookup_u64_member, new_members, push_member, JsonModel, JsonValue,
};

verus! {

/// The Keccak-256 digest of `data`, as the `sha3` crate computes it.
pub uninterp spec fn keccak256_digest(data: Seq<u8>) -> Seq<u8>;

/// Calls `sha3::Keccak256::digest`; the contract claims that the result is the
/// digest of exactly the given bytes.
#[verifier::external_body]
pub(crate) fn keccak256(data: &[u8]) -> (r: [u8; 32])
    ensures
        r@ == keccak256_digest(data@),
{
    sha3::Keccak256::digest(data).into()
}

} // verus!

verus! {

/// Errors from relay operations.
#[derive(Clone, Debug, PartialEq, Eq)]
pub enum RelayError {
    Evm(String),
    Grpc(String),
    Validation(String),
    Signing(String),
}

impl RelayError {
    /// The message of the error: a prefix naming its kind, then its detail.
    pub open spec fn text(&self) -> Seq<char> {
        match self {
            RelayError::Evm(m) => "EVM error: "@ + m@,
            RelayError::Grpc(m) => "Morpheum gRPC error: "@ + m@,
            RelayError::Validation(m) => "message validation: "@ + m@,
            RelayError::Signing(m) => "signing error: "@ + m@,
        }
    }

    /// The human-readable message of the error.
    pub fn to_string(&self) -> (r: String)
        ensures
            r@ == self.text(),
    {
        match self {
            RelayError::Evm(m) => prefixed("EVM error: ", m.as_str()),
            RelayError::Grpc(m) => prefixed("Morpheum gRPC error: ", m.as_str()),
            RelayError::Validation(m) => prefixed("message validation: ", m.as_str()),
            RelayError::Signing(m) => prefixed("signing error: ", m.as_str()),
        }
    }
}

/// Why an ECDSA signature could not be produced. k256 reports either with
/// an error that carries no source, whose text is "signature error".
#[derive(Clone, Copy, Debug, PartialEq, Eq)]
pub enum SignFailure {
    /// The private key is not a scalar in `1..n` of secp256k1.
    InvalidKey,
    /// Signing the prehash failed.
    SigningFailed,
}

/// The order `n` of the secp256k1 group.
pub open spec fn secp256k1_order() -> nat {
    0xFFFFFFFFFFFFFFFFFFFFFFFFFFFFFFFEBAAEDCE6AF48A03BBFD25E8CD0364141nat
}

/// `key` is a valid secp256k1 secret key: a big-endian scalar in `1..n`.
pub open spec fn is_valid_secret_key(key: Seq<u8>) -> bool {
    0 < be_nat(key) < secp256k1_order()
}

/// The recoverable ECDSA signature (64 bytes `r || s`, recovery id) that k256
/// computes deterministically (RFC 6979) for a prehash under a secret key.
pub uninterp spec fn ecdsa_recoverable_signature(private_key: Seq<u8>, prehash: Seq<u8>) -> Result<(Seq<u8>, u8), SignFailure>;

/// Calls `k256::ecdsa::SigningKey::from_bytes` on the key and then its
/// `sign_prehash_recoverable` on the prehash. The contract claims: the key is
/// refused exactly when it is not a scalar in `1..n` (k256 checks this in
/// `NonZeroScalar::from_repr`); otherwise the result is the deterministic
/// signature named by `ecdsa_recoverable_signature`, with a recovery id
/// below 4. When signing a valid key's prehash fails is not stated.
#[verifier::external_body]
fn ecdsa_sign_prehash(private_key: &[u8; 32], prehash: &[u8; 32]) -> (r: Result<([u8; 64], u8), SignFailure>)
    ensures
        r is Err && r->Err_0 == SignFailure::InvalidKey <==> !is_valid_secret_key(private_key@),
        match r {
            Ok((sig, rid)) => ecdsa_recoverable_signature(private_key@, prehash@) == Ok::<(Seq<u8>, u8), SignFailure>((sig@, rid)) && rid < 4,
            Err(e) => ecdsa_recoverable_signature(private_key@, prehash@) == Err::<(Seq<u8>, u8), SignFailure>(e),
        },
{
    let key = match k256::ecdsa::SigningKey::from_bytes(private_key.into()) {
        Ok(k) => k,
        Err(_) => return Err(SignFailure::InvalidKey),
    };
    match key.sign_prehash_recoverable(prehash) {
        Ok((sig, rid)) => Ok((sig.to_bytes().into(), rid.to_byte())),
        Err(_) => Err(SignFailure::SigningFailed),
    }
}

/// Twelve zero bytes followed by a 20-byte EVM address.
pub open spec fn padded_address(addr: Seq<u8>) -> Seq<u8> {
    Seq::new(12, |i: int| 0u8) + addr
}

/// Pads a 20-byte EVM address to 32 bytes (left-padded with zeros).
pub fn pad_address_to_32(addr: [u8; 20]) -> (r: [u8; 32])
    ensures
        r@ == padded_address(addr@),
{
    let mut padded = [0u8; 32];
    let mut i: usize = 0;
    while i < 20
        invariant
            i <= 20,
            padded@.len() == 32,
            forall|j: int| 0 <= j < 12 ==> padded@[j] == 0u8,
            forall|j: int| 12 <= j < 12 + i ==> padded@[j] == addr@[j - 12],
        decreases 20 - i,
    {
        padded[i + 12] = addr[i];
        i = i + 1;
    }
    assert(padded@ =~= padded_address(addr@));
    padded
}

/// The `MessageIdMultisigIsm` metadata: merkle tree, root, index, signature.
pub open spec fn ism_metadata(origin_merkle_tree: Seq<u8>, merkle_root: Seq<u8>, merkle_index: u32, signature: Seq<u8>) -> Seq<u8> {
    origin_merkle_tree + merkle_root + be_u32_bytes(merkle_index) + signature
}

/// Builds `MessageIdMultisigIsm` metadata from checkpoint components.
pub fn build_ism_metadata(
    origin_merkle_tree: &[u8; 32],
    merkle_root: &[u8; 32],
    merkle_index: u32,
    signature: &[u8; 65],
) -> (r: Vec<u8>)
    ensures
        r@ == ism_metadata(origin_merkle_tree@, merkle_root@, merkle_index, signature@),
{
    let mut metadata: Vec<u8> = Vec::new();
    append_bytes(&mut metadata, origin_merkle_tree.as_slice());
    append_bytes(&mut metadata, merkle_root.as_slice());
    let idx = u32_to_be_bytes(merkle_index);
    append_bytes(&mut metadata, idx.as_slice());
    append_bytes(&mut metadata, signature.as_slice());
    assert(metadata@ =~= ism_metadata(origin_merkle_tree@, merkle_root@, merkle_index, signature@));
    metadata
}

/// `keccak256(origin_domain || origin_merkle_tree || "HYPERLANE")`.
pub open spec fn checkpoint_domain_hash(origin_domain: u32, origin_merkle_tree: Seq<u8>) -> Seq<u8> {
    keccak256_digest(be_u32_bytes(origin_domain) + origin_merkle_tree + encode_utf8("HYPERLANE"@))
}

/// `keccak256(domain_hash || merkle_root || merkle_index || message_id)`.
pub open spec fn checkpoint_signing_hash(
    origin_domain: u32,
    origin_merkle_tree: Seq<u8>,
    merkle_root: Seq<u8>,
    merkle_index: u32,
    message_id: Seq<u8>,
) -> Seq<u8> {
    keccak256_digest(checkpoint_domain_hash(origin_domain, origin_merkle_tree) + merkle_root + be_u32_bytes(merkle_index) + message_id)
}

/// The EIP-191 hash of a 32-byte message: `keccak256("\x19Ethereum Signed Message:\n32" || h)`.
pub open spec fn eth_signed_message_hash(h: Seq<u8>) -> Seq<u8> {
    keccak256_digest(encode_utf8("\x19Ethereum Signed Message:\n32"@) + h)
}

/// The digest that a validator signs for a `MessageIdMultisigIsm` checkpoint.
pub open spec fn checkpoint_digest_of(
    origin_domain: u32,
    origin_merkle_tree: Seq<u8>,
    merkle_root: Seq<u8>,
    merkle_index: u32,
    message_id: Seq<u8>,
) -> Seq<u8> {
    eth_signed_message_hash(checkpoint_signing_hash(origin_domain, origin_merkle_tree, merkle_root, merkle_index, message_id))
}

/// Computes the EIP-191 checkpoint digest of the Hyperlane spec:
/// `domain_hash = keccak256(origin_domain || origin_merkle_tree || "HYPERLANE")`,
/// `signing_hash = keccak256(domain_hash || merkle_root || merkle_index || message_id)`,
/// `digest = keccak256("\x19Ethereum Signed Message:\n32" || signing_hash)`.
pub fn checkpoint_digest(
    origin_domain: u32,
    origin_merkle_tree: &[u8; 32],
    merkle_root: &[u8; 32],
    merkle_index: u32,
    message_id: &[u8; 32],
) -> (r: [u8; 32])
    ensures
        r@ == checkpoint_digest_of(origin_domain, origin_merkle_tree@, merkle_root@, merkle_index, message_id@),
{
    let mut d = u32_to_be_bytes(origin_domain);
    append_bytes(&mut d, origin_merkle_tree.as_slice());
    append_bytes(&mut d, "HYPERLANE".as_bytes());
    let domain_hash = keccak256(d.as_slice());
    let mut s: Vec<u8> = Vec::new();
    append_bytes(&mut s, domain_hash.as_slice());
    append_bytes(&mut s, merkle_root.as_slice());
    let idx = u32_to_be_bytes(merkle_index);
    append_bytes(&mut s, idx.as_slice());
    append_bytes(&mut s, message_id.as_slice());
    assert(s@ =~= checkpoint_domain_hash(origin_domain, origin_merkle_tree@) + merkle_root@ + be_u32_bytes(merkle_index) + message_id@);
    let signing_hash = keccak256(s.as_slice());
    let mut e: Vec<u8> = Vec::new();
    append_bytes(&mut e, "\x19Ethereum Signed Message:\n32".as_bytes());
    append_bytes(&mut e, signing_hash.as_slice());
    keccak256(e.as_slice())
}

/// `r` is the error `Signing(msg)`.
pub open spec fn is_signing_error<T>(r: Result<T, RelayError>, msg: Seq<char>) -> bool {
    r matches Err(RelayError::Signing(m)) && m@ == msg
}

/// Signs a Hyperlane `MessageIdMultisigIsm` checkpoint: the 64-byte ECDSA
/// signature of the checkpoint digest followed by `recovery_id + 27`.
pub fn sign_checkpoint(
    private_key: &[u8; 32],
    origin_domain: u32,
    origin_merkle_tree: &[u8; 32],
    merkle_root: &[u8; 32],
    merkle_index: u32,
    message_id: &[u8; 32],
) -> (r: Result<[u8; 65], RelayError>)
    ensures
        ({
            let digest = checkpoint_digest_of(origin_domain, origin_merkle_tree@, merkle_root@, merkle_index, message_id@);
            match ecdsa_recoverable_signature(private_key@, digest) {
                Ok((sig, rid)) => r matches Ok(s) && s@ == sig + seq![(rid + 27) as u8],
                Err(SignFailure::InvalidKey) => is_signing_error(r, "invalid validator key: signature error"@),
                Err(SignFailure::SigningFailed) => is_signing_error(r, "ECDSA sign: signature error"@),
            }
        }),
        is_signing_error(r, "invalid validator key: signature error"@) <==> !is_valid_secret_key(private_key@),
{
    let digest = checkpoint_digest(origin_domain, origin_merkle_tree, merkle_root, merkle_index, message_id);
    match ecdsa_sign_prehash(private_key, &digest) {
        Ok((sig, rid)) => {
            let mut signature = [0u8; 65];
            let mut i: usize = 0;
            while i < 64
                invariant
                    i <= 64,
                    signature@.len() == 65,
                    forall|j: int| 0 <= j < i ==> signature@[j] == sig@[j],
                decreases 64 - i,
            {
                signature[i] = sig[i];
                i = i + 1;
            }
            signature[64] = rid + 27;
            assert(signature@ =~= sig@ + seq![(rid + 27) as u8]);
            Ok(signature)
        },
        Err(SignFailure::InvalidKey) => Err(RelayError::Signing(own("invalid validator key: signature error"))),
        Err(SignFailure::SigningFailed) => {
            proof {
                reveal_strlit("ECDSA sign: signature error");
                reveal_strlit("invalid validator key: signature error");
                assert("ECDSA sign: signature error"@[0] != "invalid validator key: signature error"@[0]);
                assert(is_valid_secret_key(private_key@));
            }
            Err(RelayError::Signing(own("ECDSA sign: signature error")))
        },
    }
}

} // verus!

verus! {

/// The text of the Mailbox `Dispatch` event signature.
pub open spec fn dispatch_signature() -> Seq<char> {
    "Dispatch(address,uint32,bytes32,bytes)"@
}

/// The topic hash of the Mailbox `Dispatch` event.
pub open spec fn dispatch_topic_hash() -> Seq<u8> {
    keccak256_digest(encode_utf8(dispatch_signature()))
}

/// `log` is a `Dispatch` event whose data can hold an ABI-encoded `bytes` value.
pub open spec fn is_dispatch_log(log: EvmLog) -> bool {
    log.topics@.len() > 0 && log.topics@[0]@ == dispatch_topic_hash() && log.data@.len() >= 64
}

/// The ABI head at `head` of `data` points at a length word and a payload
/// inside `data`.
pub open spec fn abi_arg_in_bounds(data: Seq<u8>, head: int) -> bool {
    let offset = abi_word(data, head);
    &&& offset + 32 <= data.len()
    &&& offset + 32 + abi_word(data, offset as int) <= data.len()
}

/// The dynamic `bytes` value that the ABI head at `head` of `data` points at.
pub open spec fn abi_arg(data: Seq<u8>, head: int) -> Seq<u8> {
    let offset = abi_word(data, head);
    data.subrange(offset + 32 as int, offset + 32 + abi_word(data, offset as int) as int)
}

/// The first ABI head of `data` points at a length word and a payload inside `data`.
pub open spec fn abi_bytes_in_bounds(data: Seq<u8>) -> bool {
    abi_arg_in_bounds(data, 0)
}

/// The dynamic `bytes` value that the first ABI head of `data` points at.
pub open spec fn abi_bytes(data: Seq<u8>) -> Seq<u8> {
    abi_arg(data, 0)
}

/// Extracts the Hyperlane message carried by the first `Dispatch` event of a
/// receipt's logs (the event's non-indexed `bytes message`).
pub fn extract_dispatch_message(logs: &Vec<EvmLog>) -> (r: Option<Vec<u8>>)
    requires
        first_log_where(logs@, |l: EvmLog| is_dispatch_log(l)) matches Some(i) ==> abi_bytes_in_bounds(logs@[i].data@),
    ensures
        match first_log_where(logs@, |l: EvmLog| is_dispatch_log(l)) {
            Some(i) => r matches Some(m) && m@ == abi_bytes(logs@[i].data@),
            None => r is None,
        },
{
    let sig = "Dispatch(address,uint32,bytes32,bytes)";
    let topic = keccak256(sig.as_bytes());
    let n = logs.len();
    let mut i: usize = 0;
    while i < n
        invariant
            n == logs@.len(),
            i <= n,
            topic@ == dispatch_topic_hash(),
            first_log_where(logs@, |l: EvmLog| is_dispatch_log(l)) matches Some(k) ==> abi_bytes_in_bounds(logs@[k].data@),
            forall|j: int| 0 <= j < i ==> !(|l: EvmLog| is_dispatch_log(l))(#[trigger] logs@[j]),
        decreases n - i,
    {
        let log = &logs[i];
        if log.topics.len() > 0 && bytes_eq(log.topics[0].as_slice(), topic.as_slice()) && log.data.len() >= 64 {
            proof {
                lemma_first_log_where(logs@, |l: EvmLog| is_dispatch_log(l), i as int);
            }
            let data = log.data.as_slice();
            let offset = read_abi_word(data, 0);
            let length = read_abi_word(data, offset);
            let start = offset + 32;
            let mut message: Vec<u8> = Vec::new();
            let mut k: usize = 0;
            while k < length
                invariant
                    k <= length,
                    start + length <= data@.len(),
                    data@.len() == data.len(),
                    message@ == data@.subrange(start as int, start + k),
                decreases length - k,
            {
                message.push(data[start + k]);
                k = k + 1;
                assert(message@ =~= data@.subrange(start as int, start + k));
            }
            return Some(message);
        }
        i = i + 1;
    }
    proof {
        lemma_first_log_where(logs@, |l: EvmLog| is_dispatch_log(l), n as int);
    }
    None
}

/// `r` is the error `Evm(msg)`.
pub open spec fn is_evm_error<T>(r: Result<T, RelayError>, msg: Seq<char>) -> bool {
    r matches Err(RelayError::Evm(m)) && m@ == msg
}

/// The index of the first `Dispatch` log.
fn first_dispatch_index(logs: &Vec<EvmLog>) -> (r: Option<usize>)
    ensures
        match r {
            Some(i) => first_log_where(logs@, |l: EvmLog| is_dispatch_log(l)) == Some(i as int) && i
                < logs@.len() && is_dispatch_log(logs@[i as int]),
            None => first_log_where(logs@, |l: EvmLog| is_dispatch_log(l)) is None,
        },
{
    let sig = "Dispatch(address,uint32,bytes32,bytes)";
    let topic = keccak256(sig.as_bytes());
    let n = logs.len();
    let mut i: usize = 0;
    while i < n
        invariant
            n == logs@.len(),
            i <= n,
            topic@ == dispatch_topic_hash(),
            forall|j: int| 0 <= j < i ==> !(|l: EvmLog| is_dispatch_log(l))(#[trigger] logs@[j]),
        decreases n - i,
    {
        let log = &logs[i];
        if log.topics.len() > 0 && bytes_eq(log.topics[0].as_slice(), topic.as_slice()) && log.data.len() >= 64 {
            proof {
                lemma_first_log_where(logs@, |l: EvmLog| is_dispatch_log(l), i as int);
            }
            return Some(i);
        }
        i = i + 1;
    }
    proof {
        lemma_first_log_where(logs@, |l: EvmLog| is_dispatch_log(l), n as int);
    }
    None
}

/// The Hyperlane message of a receipt's first `Dispatch` event, checking
/// that the event's data holds the `bytes` value it points at.
pub fn find_dispatch_message(logs: &Vec<EvmLog>) -> (r: Result<Vec<u8>, RelayError>)
    ensures
        match first_log_where(logs@, |l: EvmLog| is_dispatch_log(l)) {
            Some(i) => if abi_bytes_in_bounds(logs@[i].data@) {
                r matches Ok(m) && m@ == abi_bytes(logs@[i].data@)
            } else {
                is_evm_error(r, "malformed Dispatch event data"@)
            },
            None => is_evm_error(r, "Dispatch event not found in tx receipt"@),
        },
{
    let i = match first_dispatch_index(logs) {
        Some(i) => i,
        None => {
            return Err(RelayError::Evm(own("Dispatch event not found in tx receipt")));
        },
    };
    let data = logs[i].data.as_slice();
    let len = data.len();
    let offset = match read_abi_word_at_most(data, 0, len - 32) {
        Some(o) => o,
        None => {
            return Err(RelayError::Evm(own("malformed Dispatch event data")));
        },
    };
    match read_abi_word_at_most(data, offset, len - 32 - offset) {
        Some(_) => {},
        None => {
            return Err(RelayError::Evm(own("malformed Dispatch event data")));
        },
    }
    match extract_dispatch_message(logs) {
        Some(m) => Ok(m),
        None => Err(RelayError::Evm(own("Dispatch event not found in tx receipt"))),
    }
}

/// `r` is the error `Validation(msg)`.
pub open spec fn is_validation_error<T>(r: Result<T, RelayError>, msg: Seq<char>) -> bool {
    r matches Err(RelayError::Validation(m)) && m@ == msg
}

/// The `{"process": {"metadata": .., "message": ..}}` execute message of the
/// Morpheum Mailbox, both fields in lowercase hexadecimal.
pub open spec fn process_doc(metadata: Seq<u8>, message: Seq<u8>) -> JsonModel {
    JsonModel::Object(seq![
        ("process"@, JsonModel::Object(seq![
            ("metadata"@, JsonModel::String(hex_text(metadata))),
            ("message"@, JsonModel::String(hex_text(message))),
        ])),
    ])
}

/// The JSON `Mailbox.process` execute message for a message and its ISM metadata.
pub fn process_message_json(metadata: &[u8], message: &[u8]) -> (r: Vec<u8>)
    ensures
        r@ == json_text(process_doc(metadata@, message@)),
{
    let mut inner = new_members();
    push_member(&mut inner, "metadata", JsonValue::String(hex_encode(metadata)));
    push_member(&mut inner, "message", JsonValue::String(hex_encode(message)));
    assert(json_members(inner@) =~= seq![
        ("metadata"@, JsonModel::String(hex_text(metadata@))),
        ("message"@, JsonModel::String(hex_text(message@))),
    ]);
    let mut outer = new_members();
    push_member(&mut outer, "process", json_object(inner));
    assert(json_members(outer@) =~= seq![
        ("process"@, JsonModel::Object(seq![
            ("metadata"@, JsonModel::String(hex_text(metadata@))),
            ("message"@, JsonModel::String(hex_text(message@))),
        ])),
    ]);
    json_to_vec(&json_object(outer))
}

/// The smallest Hyperlane message: the 77-byte header with an empty body.
pub open spec fn min_message_len() -> nat {
    77
}

/// Prepares the inbound relay of a Hyperlane message (EVM to Morpheum): checks
/// the message length, signs the checkpoint of its id against the origin
/// MerkleTreeHook state and returns the `Mailbox.process` JSON to submit.
pub fn inbound_process_message(
    message_bytes: &Vec<u8>,
    validator_private_key: &[u8; 32],
    origin_domain: u32,
    merkle_tree_hook: [u8; 20],
    merkle_root: &[u8; 32],
    merkle_index: u32,
) -> (r: Result<Vec<u8>, RelayError>)
    ensures
        message_bytes@.len() < min_message_len() ==> is_validation_error(
            r,
            "Hyperlane message too short: "@ + decimal_text(message_bytes@.len()) + " bytes"@,
        ),
        message_bytes@.len() >= min_message_len() ==> ({
            let tree = padded_address(merkle_tree_hook@);
            let message_id = keccak256_digest(message_bytes@);
            let digest = checkpoint_digest_of(origin_domain, tree, merkle_root@, merkle_index, message_id);
            match ecdsa_recoverable_signature(validator_private_key@, digest) {
                Ok((sig, rid)) => r matches Ok(m) && m@ == json_text(process_doc(
                    ism_metadata(tree, merkle_root@, merkle_index, sig + seq![(rid + 27) as u8]),
                    message_bytes@,
                )),
                Err(SignFailure::InvalidKey) => is_signing_error(r, "invalid validator key: signature error"@),
                Err(SignFailure::SigningFailed) => is_signing_error(r, "ECDSA sign: signature error"@),
            }
        }),
{
    if message_bytes.len() < 77 {
        return Err(RelayError::Validation(text_with_number("Hyperlane message too short: ", message_bytes.len() as u64, " bytes")));
    }
    let message_id = keccak256(message_bytes.as_slice());
    let origin_merkle_tree = pad_address_to_32(merkle_tree_hook);
    let signature = sign_checkpoint(
        validator_private_key,
        origin_domain,
        &origin_merkle_tree,
        merkle_root,
        merkle_index,
        &message_id,
    )?;
    let metadata = build_ism_metadata(&origin_merkle_tree, merkle_root, merkle_index, &signature);
    Ok(process_message_json(metadata.as_slice(), message_bytes.as_slice()))
}

/// The Hyperlane V3 message layout:
/// `version(1) || nonce(4) || origin(4) || sender(32) || destination(4) || recipient(32) || body`.
pub open spec fn hyperlane_message(
    version: u8,
    nonce: u32,
    origin: u32,
    sender: Seq<u8>,
    destination: u32,
    recipient: Seq<u8>,
    body: Seq<u8>,
) -> Seq<u8> {
    seq![version] + be_u32_bytes(nonce) + be_u32_bytes(origin) + sender + be_u32_bytes(destination) + recipient + body
}

/// The Warp Route transfer body: the 32-byte recipient and the amount as a
/// 32-byte big-endian word.
pub open spec fn warp_transfer_body(recipient: Seq<u8>, amount: u64) -> Seq<u8> {
    recipient + Seq::new(24, |i: int| 0u8) + be_u64_bytes(amount)
}

/// Reconstructs the outbound (Morpheum to EVM) Hyperlane V3 Warp Route message
/// that the Morpheum Mailbox dispatched with nonce `msg_nonce`.
pub fn outbound_message(
    msg_nonce: u32,
    morpheum_domain: u32,
    morpheum_warp_route_raw: [u8; 20],
    evm_domain: u32,
    evm_warp_collateral: [u8; 20],
    recipient_bytes: &[u8; 32],
    amount: u64,
) -> (r: Vec<u8>)
    ensures
        r@ == hyperlane_message(
            3,
            msg_nonce,
            morpheum_domain,
            padded_address(morpheum_warp_route_raw@),
            evm_domain,
            padded_address(evm_warp_collateral@),
            warp_transfer_body(recipient_bytes@, amount),
        ),
{
    let sender_padded = pad_address_to_32(morpheum_warp_route_raw);
    let mut body: Vec<u8> = Vec::new();
    append_bytes(&mut body, recipient_bytes.as_slice());
    let zeros = zero_bytes(24);
    append_bytes(&mut body, zeros.as_slice());
    let amt = u64_to_be_bytes(amount);
    append_bytes(&mut body, amt.as_slice());
    assert(body@ =~= warp_transfer_body(recipient_bytes@, amount));
    let mut message: Vec<u8> = Vec::new();
    message.push(3u8);
    let nonce = u32_to_be_bytes(msg_nonce);
    append_bytes(&mut message, nonce.as_slice());
    let origin = u32_to_be_bytes(morpheum_domain);
    append_bytes(&mut message, origin.as_slice());
    append_bytes(&mut message, sender_padded.as_slice());
    let dest = u32_to_be_bytes(evm_domain);
    append_bytes(&mut message, dest.as_slice());
    let evm_recipient = pad_address_to_32(evm_warp_collateral);
    append_bytes(&mut message, evm_recipient.as_slice());
    append_bytes(&mut message, body.as_slice());
    assert(message@ =~= hyperlane_message(
        3,
        msg_nonce,
        morpheum_domain,
        padded_address(morpheum_warp_route_raw@),
        evm_domain,
        padded_address(evm_warp_collateral@),
        warp_transfer_body(recipient_bytes@, amount),
    ));
    message
}

/// One less than `x`, and zero for zero (`u32::saturating_sub(x, 1)`).
pub open spec fn pred_sat(x: u32) -> u32 {
    if x == 0 {
        0
    } else {
        (x - 1) as u32
    }
}

/// The index of the latest leaf of a MerkleTreeHook holding `count` leaves
/// (zero for an empty tree).
pub fn merkle_leaf_index(count: u32) -> (r: u32)
    ensures
        r == pred_sat(count),
{
    if count == 0 {
        0
    } else {
        count - 1
    }
}

/// Prepares the outbound relay of a Warp Route transfer (Morpheum to EVM) from
/// what was read on Morpheum: the Mailbox nonce and the MerkleTreeHook root
/// and leaf count (each truncated to 32 bits, as the relay reads them), and the
/// raw 20-byte hook address. Returns the ISM metadata and the message to pass
/// to `Mailbox.process` on the EVM chain.
pub fn outbound_process_call(
    mailbox_nonce: u64,
    hook_count: u64,
    merkle_root: &[u8; 32],
    hook_raw: [u8; 20],
    morpheum_warp_route_raw: [u8; 20],
    evm_warp_collateral: [u8; 20],
    morpheum_domain: u32,
    evm_domain: u32,
    recipient_bytes: &[u8; 32],
    amount: u64,
    validator_private_key: &[u8; 32],
) -> (r: Result<(Vec<u8>, Vec<u8>), RelayError>)
    ensures
        ({
            let message = hyperlane_message(
                3,
                pred_sat(mailbox_nonce as u32),
                morpheum_domain,
                padded_address(morpheum_warp_route_raw@),
                evm_domain,
                padded_address(evm_warp_collateral@),
                warp_transfer_body(recipient_bytes@, amount),
            );
            let tree = padded_address(hook_raw@);
            let index = pred_sat(hook_count as u32);
            let digest = checkpoint_digest_of(morpheum_domain, tree, merkle_root@, index, keccak256_digest(message));
            match ecdsa_recoverable_signature(validator_private_key@, digest) {
                Ok((sig, rid)) => r matches Ok((md, m)) && m@ == message && md@ == ism_metadata(
                    tree,
                    merkle_root@,
                    index,
                    sig + seq![(rid + 27) as u8],
                ),
                Err(SignFailure::InvalidKey) => is_signing_error(r, "invalid validator key: signature error"@),
                Err(SignFailure::SigningFailed) => is_signing_error(r, "ECDSA sign: signature error"@),
            }
        }),
{
    #[verifier::truncate]
    let nonce = mailbox_nonce as u32;
    let msg_nonce = if nonce == 0 { 0 } else { nonce - 1 };
    let message = outbound_message(
        msg_nonce,
        morpheum_domain,
        morpheum_warp_route_raw,
        evm_domain,
        evm_warp_collateral,
        recipient_bytes,
        amount,
    );
    let message_id = keccak256(message.as_slice());
    #[verifier::truncate]
    let count = hook_count as u32;
    let merkle_index = if count == 0 { 0 } else { count - 1 };
    let origin_merkle_tree = pad_address_to_32(hook_raw);
    let signature = sign_checkpoint(
        validator_private_key,
        morpheum_domain,
        &origin_merkle_tree,
        merkle_root,
        merkle_index,
        &message_id,
    )?;
    let metadata = build_ism_metadata(&origin_merkle_tree, merkle_root, merkle_index, &signature);
    Ok((metadata, message))
}

/// `r` is the error `Grpc(msg)`.
pub open spec fn is_grpc_error<T>(r: Result<T, RelayError>, msg: Seq<char>) -> bool {
    r matches Err(RelayError::Grpc(m)) && m@ == msg
}

/// The Morpheum Mailbox nonce, from the `nonce` member looked up in the
/// response to `{"mailbox":{"nonce":{}}}`.
pub fn mailbox_nonce_from(lookup: Result<Option<u64>, String>) -> (r: Result<u64, RelayError>)
    ensures
        match lookup {
            Err(e) => is_grpc_error(r, "parse nonce response: "@ + e@),
            Ok(None) => is_grpc_error(r, "nonce not found in response"@),
            Ok(Some(n)) => r == Ok::<u64, RelayError>(n),
        },
{
    match lookup {
        Err(e) => {
            Err(RelayError::Grpc(prefixed("parse nonce response: ", e.as_str())))
        },
        Ok(None) => Err(RelayError::Grpc(own("nonce not found in response"))),
        Ok(Some(n)) => Ok(n),
    }
}

/// Reads the Morpheum Mailbox nonce from the JSON response of its nonce query.
pub fn read_mailbox_nonce(response: &[u8]) -> (r: Result<u64, RelayError>)
    ensures
        match json_u64_member(response@, "nonce"@) {
            Err(e) => is_grpc_error(r, "parse nonce response: "@ + e),
            Ok(None) => is_grpc_error(r, "nonce not found in response"@),
            Ok(Some(n)) => r == Ok::<u64, RelayError>(n),
        },
{
    mailbox_nonce_from(lookup_u64_member(response, "nonce"))
}

/// `c` is an ASCII hexadecimal digit, of either case.
pub open spec fn is_hex_char(c: char) -> bool {
    ('0' <= c <= '9') || ('a' <= c <= 'f') || ('A' <= c <= 'F')
}

/// The value of an ASCII hexadecimal digit.
pub open spec fn hex_char_value(c: char) -> nat {
    if '0' <= c <= '9' {
        (c as nat - '0' as nat) as nat
    } else if 'a' <= c <= 'f' {
        (c as nat - 'a' as nat + 10) as nat
    } else {
        (c as nat - 'A' as nat + 10) as nat
    }
}

/// `text` is hexadecimal text of exactly `n` bytes.
pub open spec fn is_hex_of_len(text: Seq<char>, n: nat) -> bool {
    text.len() == 2 * n && forall|i: int| 0 <= i < text.len() ==> is_hex_char(#[trigger] text[i])
}

/// `b` is the decoding of the hexadecimal text `text`, two digits per byte.
pub open spec fn hex_decodes_to(text: Seq<char>, b: Seq<u8>) -> bool {
    text.len() == 2 * b.len() && forall|i: int|
        0 <= i < b.len() ==> #[trigger] b[i] == hex_char_value(text[2 * i]) * 16 + hex_char_value(text[2 * i + 1])
}

/// The text of the error that `hex::decode_to_slice` gives for `text` and a
/// 32-byte output.
pub uninterp spec fn hex_decode_error(text: Seq<char>) -> Seq<char>;

/// Calls `hex::decode_to_slice` into 32 bytes. The contract claims what the
/// crate's source shows: it succeeds exactly on 64 hexadecimal digits of either
/// case, and then holds their decoding; otherwise the error's text is the one
/// named `hex_decode_error`.
#[verifier::external_body]
fn hex_decode_32(text: &str) -> (r: Result<[u8; 32], String>)
    ensures
        r is Ok <==> is_hex_of_len(text@, 32),
        match r {
            Ok(b) => hex_decodes_to(text@, b@),
            Err(e) => e@ == hex_decode_error(text@),
        },
{
    let mut out = [0u8; 32];
    match hex::decode_to_slice(text, &mut out) {
        Ok(()) => Ok(out),
        Err(e) => Err(e.to_string()),
    }
}

/// The MerkleTreeHook state as the relay reads it: the hexadecimal root and
/// the leaf count, from the members looked up in the responses to the
/// `root` and `count` queries, checked in the relay's order.
pub fn hook_state_from(
    root: Result<Option<String>, String>,
    count: Result<Option<u64>, String>,
) -> (r: Result<(String, u64), RelayError>)
    ensures
        match (root, count) {
            (Err(e), _) => is_grpc_error(r, "parse root: "@ + e@),
            (Ok(_), Err(e)) => is_grpc_error(r, "parse count: "@ + e@),
            (Ok(None), Ok(_)) => is_grpc_error(r, "root not found"@),
            (Ok(Some(_)), Ok(None)) => is_grpc_error(r, "count not found"@),
            (Ok(Some(t)), Ok(Some(n))) => r matches Ok((h, c)) && h@ == t@ && c == n,
        },
{
    let root_text = match root {
        Err(e) => {
            return Err(RelayError::Grpc(prefixed("parse root: ", e.as_str())));
        },
        Ok(t) => t,
    };
    let n = match count {
        Err(e) => {
            return Err(RelayError::Grpc(prefixed("parse count: ", e.as_str())));
        },
        Ok(n) => n,
    };
    match (root_text, n) {
        (None, _) => Err(RelayError::Grpc(own("root not found"))),
        (Some(_), None) => Err(RelayError::Grpc(own("count not found"))),
        (Some(t), Some(c)) => Ok((t, c)),
    }
}

/// Decodes the hexadecimal MerkleTreeHook root.
pub fn decode_root_hex(text: &str) -> (r: Result<[u8; 32], RelayError>)
    ensures
        r is Ok <==> is_hex_of_len(text@, 32),
        match r {
            Ok(b) => hex_decodes_to(text@, b@),
            Err(_) => is_grpc_error(r, "decode root hex: "@ + hex_decode_error(text@)),
        },
{
    match hex_decode_32(text) {
        Ok(b) => Ok(b),
        Err(e) => {
            Err(RelayError::Grpc(prefixed("decode root hex: ", e.as_str())))
        },
    }
}

/// Reads the Morpheum MerkleTreeHook root and leaf count from the JSON
/// responses of its `root` and `count` queries.
pub fn read_hook_state(root_response: &[u8], count_response: &[u8]) -> (r: Result<([u8; 32], u64), RelayError>)
    ensures
        match (json_str_member(root_response@, "root"@), json_u64_member(count_response@, "count"@)) {
            (Err(e), _) => is_grpc_error(r, "parse root: "@ + e),
            (Ok(_), Err(e)) => is_grpc_error(r, "parse count: "@ + e),
            (Ok(None), Ok(_)) => is_grpc_error(r, "root not found"@),
            (Ok(Some(_)), Ok(None)) => is_grpc_error(r, "count not found"@),
            (Ok(Some(t)), Ok(Some(n))) => if is_hex_of_len(t, 32) {
                r matches Ok((b, c)) && hex_decodes_to(t, b@) && c == n
            } else {
                is_grpc_error(r, "decode root hex: "@ + hex_decode_error(t))
            },
        },
{
    let root = lookup_str_member(root_response, "root");
    let count = lookup_u64_member(count_response, "count");
    let (text, n) = hook_state_from(root, count)?;
    let b = decode_root_hex(text.as_str())?;
    Ok((b, n))
}

/// A length rounded up to a whole number of 32-byte ABI words.
pub open spec fn abi_padded_len(n: nat) -> nat {
    ((n + 31) / 32 * 32) as nat
}

/// The 32-byte ABI word of an unsigned integer.
pub open spec fn abi_u64_word(n: u64) -> Seq<u8> {
    Seq::new(24, |i: int| 0u8) + be_u64_bytes(n)
}

/// The ABI tail of a `bytes` value: its length word, the bytes, and zeros up
/// to a whole number of words.
pub open spec fn abi_bytes_tail(b: Seq<u8>) -> Seq<u8> {
    abi_u64_word(b.len() as u64) + b + Seq::new((abi_padded_len(b.len()) - b.len()) as nat, |i: int| 0u8)
}

/// The selector of `process(bytes,bytes)`: the first four bytes of the
/// Keccak-256 digest of that signature.
pub open spec fn process_selector() -> Seq<u8> {
    seq![0x7cu8, 0x39u8, 0xd1u8, 0x30u8]
}

/// The calldata of `Mailbox.process(metadata, message)`: the selector, the two
/// head offsets, and the two `bytes` tails.
pub open spec fn process_calldata_of(metadata: Seq<u8>, message: Seq<u8>) -> Seq<u8> {
    process_selector() + abi_u64_word(64) + abi_u64_word((96 + abi_padded_len(metadata.len())) as u64)
        + abi_bytes_tail(metadata) + abi_bytes_tail(message)
}

proof fn lemma_abi_padded_len(n: nat)
    ensures
        n <= abi_padded_len(n) <= n + 31,
{
    assert(n <= (n + 31) / 32 * 32 <= n + 31) by (nonlinear_arith);
}

/// Appends the ABI word of `n`.
fn push_abi_u64(v: &mut Vec<u8>, n: u64)
    ensures
        final(v)@ == old(v)@ + abi_u64_word(n),
{
    let z = zero_bytes(24);
    append_bytes(v, z.as_slice());
    let b = u64_to_be_bytes(n);
    append_bytes(v, b.as_slice());
    assert(v@ =~= old(v)@ + abi_u64_word(n));
}

/// Appends the ABI tail of the `bytes` value `b`.
fn push_abi_bytes(v: &mut Vec<u8>, b: &[u8])
    requires
        b@.len() + 31 <= usize::MAX,
    ensures
        final(v)@ == old(v)@ + abi_bytes_tail(b@),
{
    let n = b.len();
    push_abi_u64(v, n as u64);
    append_bytes(v, b);
    proof {
        lemma_abi_padded_len(n as nat);
    }
    let padded = (n + 31) / 32 * 32;
    let z = zero_bytes(padded - n);
    append_bytes(v, z.as_slice());
    assert(v@ =~= old(v)@ + abi_bytes_tail(b@));
}

/// ABI-encodes the call `Mailbox.process(metadata, message)`.
pub fn process_calldata(metadata: &[u8], message: &[u8]) -> (r: Vec<u8>)
    requires
        metadata@.len() + 127 <= usize::MAX,
        message@.len() + 31 <= usize::MAX,
    ensures
        r@ == process_calldata_of(metadata@, message@),
{
    let mut r: Vec<u8> = Vec::new();
    r.push(0x7c);
    r.push(0x39);
    r.push(0xd1);
    r.push(0x30);
    push_abi_u64(&mut r, 64);
    proof {
        lemma_abi_padded_len(metadata@.len());
    }
    let padded = (metadata.len() + 31) / 32 * 32;
    push_abi_u64(&mut r, (96 + padded) as u64);
    push_abi_bytes(&mut r, metadata);
    push_abi_bytes(&mut r, message);
    assert(r@ =~= process_calldata_of(metadata@, message@));
    r
}

/// The four big-endian bytes of `x` denote `x`.
proof fn lemma_be_nat_u32(x: u32)
    ensures
        be_nat(be_u32_bytes(x)) == x,
{
    let s = be_u32_bytes(x);
    reveal_with_fuel(be_nat, 5);
    assert(s.drop_last() =~= seq![s[0], s[1], s[2]]);
    assert(s.drop_last().drop_last() =~= seq![s[0], s[1]]);
    assert(s.drop_last().drop_last().drop_last() =~= seq![s[0]]);
    assert(seq![s[0]].drop_last() =~= Seq::<u8>::empty());
    let b0: u32 = x / 0x100_0000;
    let b1: u32 = (x / 0x1_0000) % 0x100;
    let b2: u32 = (x / 0x100) % 0x100;
    let b3: u32 = x % 0x100;
    assert(((b0 * 256 + b1) * 256 + b2) * 256 + b3 == x) by (bit_vector)
        requires
            b0 == x / 0x100_0000,
            b1 == (x / 0x1_0000) % 0x100,
            b2 == (x / 0x100) % 0x100,
            b3 == x % 0x100,
    ;
    assert(b0 < 256 && b1 < 256 && b2 < 256 && b3 < 256);
    assert(s[0] == b0 && s[1] == b1 && s[2] == b2 && s[3] == b3);
}

/// The eight big-endian bytes of `n` denote `n`.
proof fn lemma_be_nat_u64(n: u64)
    ensures
        be_nat(be_u64_bytes(n)) == n,
{
    let hi = (n / 0x1_0000_0000) as u32;
    let lo = (n % 0x1_0000_0000) as u32;
    lemma_be_nat_u32(hi);
    lemma_be_nat_u32(lo);
    lemma_be_nat_concat(be_u32_bytes(hi), be_u32_bytes(lo));
    assert(pow256(4) == 0x1_0000_0000) by {
        reveal_with_fuel(pow256, 5);
    }
    assert(hi as int * 0x1_0000_0000 + lo as int == n as int) by (nonlinear_arith)
        requires
            hi == n / 0x1_0000_0000,
            lo == n % 0x1_0000_0000,
    ;
}

/// An ABI word written from `n` reads back as `n`, whatever follows it.
pub proof fn lemma_abi_u64_word(n: u64, rest: Seq<u8>)
    ensures
        abi_word(abi_u64_word(n) + rest, 0) == n,
        abi_u64_word(n).len() == 32,
{
    let w = abi_u64_word(n);
    assert((w + rest).subrange(0, 32) =~= w);
    lemma_be_nat_u64(n);
    lemma_be_nat_zeros(24);
    lemma_be_nat_concat(Seq::new(24, |i: int| 0u8), be_u64_bytes(n));
}

/// The ABI word at `k` of `data` reads as `n` where `data` holds, from `k`
/// on, the word written from `n`.
proof fn lemma_word_at(data: Seq<u8>, k: int, n: u64, rest: Seq<u8>)
    requires
        0 <= k <= data.len(),
        data.skip(k) == abi_u64_word(n) + rest,
    ensures
        abi_word(data, k) == n,
{
    lemma_abi_u64_word(n, rest);
    let w = abi_u64_word(n) + rest;
    assert(data.skip(k).len() == w.len());
    assert forall|i: int| 0 <= i < 32 implies #[trigger] data.subrange(k, k + 32)[i] == w.subrange(0, 32)[i] by {
        assert(data.skip(k)[i] == w[i]);
    }
    assert(data.subrange(k, k + 32) =~= w.subrange(0, 32));
}

/// Where `data` holds, from `k` on, the ABI tail of `b`, the length word at
/// `k` reads as the length of `b` and the bytes after it are `b`.
proof fn lemma_tail_at(data: Seq<u8>, k: int, b: Seq<u8>, rest: Seq<u8>)
    requires
        0 <= k <= data.len(),
        b.len() <= u64::MAX,
        data.skip(k) == abi_bytes_tail(b) + rest,
    ensures
        abi_word(data, k) == b.len(),
        k + 32 + b.len() <= data.len(),
        data.subrange(k + 32, k + 32 + b.len() as int) == b,
        abi_bytes_tail(b).len() == 32 + abi_padded_len(b.len()),
{
    lemma_abi_padded_len(b.len());
    let pad = Seq::new((abi_padded_len(b.len()) - b.len()) as nat, |i: int| 0u8);
    let w = abi_u64_word(b.len() as u64);
    lemma_abi_u64_word(b.len() as u64, seq![]);
    assert(abi_bytes_tail(b) + rest =~= w + (b + pad + rest));
    lemma_word_at(data, k, b.len() as u64, b + pad + rest);
    assert(data.skip(k).len() == 32 + b.len() + pad.len() + rest.len());
    assert forall|i: int| 0 <= i < b.len() implies #[trigger] data.subrange(k + 32, k + 32 + b.len() as int)[i] == b[i] by {
        assert(data.skip(k)[32 + i] == (w + (b + pad + rest))[32 + i]);
    }
    assert(data.subrange(k + 32, k + 32 + b.len() as int) =~= b);
}

/// The data of an event whose one non-indexed field is the `bytes` value
/// `b` (its head pointing just past itself) reads back as `b`: what
/// `find_dispatch_message` returns of a `Dispatch` log is the message that
/// the Mailbox encoded in it.
pub proof fn law_event_bytes_read_back(b: Seq<u8>)
    requires
        b.len() <= u64::MAX,
    ensures
        abi_bytes_in_bounds(abi_u64_word(32) + abi_bytes_tail(b)),
        abi_bytes(abi_u64_word(32) + abi_bytes_tail(b)) == b,
{
    let tail = abi_bytes_tail(b);
    let data = abi_u64_word(32) + tail;
    assert(data.skip(0) =~= abi_u64_word(32) + tail);
    lemma_word_at(data, 0, 32, tail);
    lemma_abi_u64_word(32, seq![]);
    assert(data.skip(32) =~= tail + seq![]);
    lemma_tail_at(data, 32, b, seq![]);
}

/// The two arguments of `Mailbox.process` calldata read back: after the
/// selector, the first head points at the metadata and the second at the
/// message.
pub proof fn law_process_calldata_reads_back(metadata: Seq<u8>, message: Seq<u8>)
    requires
        metadata.len() + 127 <= u64::MAX,
        message.len() <= u64::MAX,
    ensures
        process_calldata_of(metadata, message).take(4) == process_selector(),
        abi_arg_in_bounds(process_calldata_of(metadata, message).skip(4), 0),
        abi_arg(process_calldata_of(metadata, message).skip(4), 0) == metadata,
        abi_arg_in_bounds(process_calldata_of(metadata, message).skip(4), 32),
        abi_arg(process_calldata_of(metadata, message).skip(4), 32) == message,
{
    let c = process_calldata_of(metadata, message);
    let pm: int = abi_padded_len(metadata.len()) as int;
    lemma_abi_padded_len(metadata.len());
    let w0 = abi_u64_word(64);
    let w1 = abi_u64_word((96 + pm) as u64);
    let tm = abi_bytes_tail(metadata);
    let tg = abi_bytes_tail(message);
    lemma_abi_u64_word(64, seq![]);
    lemma_abi_u64_word((96 + pm) as u64, seq![]);
    let body = w0 + w1 + tm + tg;
    assert(c =~= process_selector() + body);
    assert(c.take(4) =~= process_selector());
    assert(c.skip(4) =~= body);
    assert(body.skip(0) =~= w0 + (w1 + tm + tg));
    lemma_word_at(body, 0, 64, w1 + tm + tg);
    assert(body.skip(32) =~= w1 + (tm + tg));
    lemma_word_at(body, 32, (96 + pm) as u64, tm + tg);
    assert(body.skip(64) =~= tm + tg);
    lemma_tail_at(body, 64, metadata, tg);
    assert(body.skip(96 + pm) =~= tg + seq![]);
    lemma_tail_at(body, 96 + pm, message, seq![]);
}

/// The value of a lowercase hexadecimal digit is its nibble.
proof fn lemma_hex_digit_value(n: nat)
    requires
        n < 16,
    ensures
        is_hex_char(hex_digit(n)),
        hex_char_value(hex_digit(n)) == n,
{
}

/// The digits of the hexadecimal text of `b`: two per byte, the high
/// nibble first.
proof fn lemma_hex_text_digits(b: Seq<u8>)
    ensures
        hex_text(b).len() == 2 * b.len(),
        forall|i: int| 0 <= i < b.len() ==> hex_text(b)[2 * i] == hex_digit(#[trigger] b[i] as nat / 16)
            && hex_text(b)[2 * i + 1] == hex_digit(b[i] as nat % 16),
    decreases b.len(),
{
    if b.len() > 0 {
        lemma_hex_text_digits(b.drop_last());
        assert forall|i: int| 0 <= i < b.len() implies hex_text(b)[2 * i] == hex_digit(#[trigger] b[i] as nat / 16)
            && hex_text(b)[2 * i + 1] == hex_digit(b[i] as nat % 16) by {
            if i < b.len() - 1 {
                assert(b.drop_last()[i] == b[i]);
            }
        }
    }
}

/// Hexadecimal text that `hex_encode` writes decodes back to its bytes:
/// what the relay encodes in hexadecimal, `decode_root_hex` reads back.
pub proof fn law_hex_text_decodes(b: Seq<u8>)
    ensures
        is_hex_of_len(hex_text(b), b.len()),
        hex_decodes_to(hex_text(b), b),
{
    lemma_hex_text_digits(b);
    let t = hex_text(b);
    assert forall|k: int| 0 <= k < t.len() implies is_hex_char(#[trigger] t[k]) by {
        let i = k / 2;
        assert(0 <= i < b.len());
        lemma_hex_digit_value(b[i] as nat / 16);
        lemma_hex_digit_value(b[i] as nat % 16);
        if k % 2 == 0 {
            assert(k == 2 * i);
        } else {
            assert(k == 2 * i + 1);
        }
    }
    assert forall|i: int| 0 <= i < b.len() implies #[trigger] b[i] == hex_char_value(t[2 * i]) * 16 + hex_char_value(t[2 * i + 1]) by {
        lemma_hex_digit_value(b[i] as nat / 16);
        lemma_hex_digit_value(b[i] as nat % 16);
    }
}

/// A hexadecimal digit that `hex_digit` gives is lowercase.
proof fn lemma_hex_digit_lower(n: nat)
    requires
        n < 16,
    ensures
        ('0' <= hex_digit(n) <= '9') || ('a' <= hex_digit(n) <= 'f'),
{
}

/// `t` is made of lowercase hexadecimal digits only.
pub open spec fn is_lower_hex_text(t: Seq<char>) -> bool {
    forall|i: int| 0 <= i < t.len() ==> ('0' <= #[trigger] t[i] <= '9') || ('a' <= t[i] <= 'f')
}

/// The hexadecimal text that `hex_encode` writes is lowercase, two digits
/// per byte, and decodes back to the bytes.
pub proof fn law_hex_text_lowercase(b: Seq<u8>)
    ensures
        hex_text(b).len() == 2 * b.len(),
        is_lower_hex_text(hex_text(b)),
        hex_decodes_to(hex_text(b), b),
{
    lemma_hex_text_digits(b);
    law_hex_text_decodes(b);
    let t = hex_text(b);
    assert forall|k: int| 0 <= k < t.len() implies ('0' <= #[trigger] t[k] <= '9') || ('a' <= t[k] <= 'f') by {
        let i = k / 2;
        assert(0 <= i < b.len());
        lemma_hex_digit_lower(b[i] as nat / 16);
        lemma_hex_digit_lower(b[i] as nat % 16);
        if k % 2 == 0 {
            assert(k == 2 * i);
        } else {
            assert(k == 2 * i + 1);
        }
    }
}

/// The `Mailbox.process` execute message is an object with the one member
/// `process`, an object with exactly the members `metadata` and `message`,
/// each the lowercase hexadecimal text of those bytes.
pub proof fn law_process_doc(metadata: Seq<u8>, message: Seq<u8>)
    ensures
        member_names(process_doc(metadata, message)) == seq!["process"@],
        member(process_doc(metadata, message), "process"@) matches Some(inner) && {
            &&& member_names(inner) == seq!["metadata"@, "message"@]
            &&& member(inner, "metadata"@) matches Some(JsonModel::String(t)) && is_lower_hex_text(t)
                && hex_decodes_to(t, metadata)
            &&& member(inner, "message"@) matches Some(JsonModel::String(t)) && is_lower_hex_text(t)
                && hex_decodes_to(t, message)
        },
{
    reveal_strlit("metadata");
    reveal_strlit("message");
    assert("metadata"@ != "message"@) by {
        assert("metadata"@[2] != "message"@[2]);
    }
    law_hex_text_lowercase(metadata);
    law_hex_text_lowercase(message);
    let d = process_doc(metadata, message);
    assert(member_names(d) =~= seq!["process"@]);
    let inner = JsonModel::Object(seq![
        ("metadata"@, JsonModel::String(hex_text(metadata))),
        ("message"@, JsonModel::String(hex_text(message))),
    ]);
    assert(member_names(inner) =~= seq!["metadata"@, "message"@]);
    reveal_with_fuel(first_member, 3);
    let ms = seq![
        ("metadata"@, JsonModel::String(hex_text(metadata))),
        ("message"@, JsonModel::String(hex_text(message))),
    ];
    assert(ms.skip(1) =~= seq![("message"@, JsonModel::String(hex_text(message)))]);
}

/// The four bytes of `m` from `k` denote `x` where `m` holds, from `k` on,
/// the big-endian bytes of `x`.
proof fn lemma_u32_at(m: Seq<u8>, k: int, x: u32, rest: Seq<u8>)
    requires
        0 <= k <= m.len(),
        m.skip(k) == be_u32_bytes(x) + rest,
    ensures
        k + 4 <= m.len(),
        be_nat(m.subrange(k, k + 4)) == x,
{
    lemma_be_nat_u32(x);
    assert(m.skip(k).len() == 4 + rest.len());
    assert(m.subrange(k, k + 4) =~= be_u32_bytes(x)) by {
        assert forall|i: int| 0 <= i < 4 implies #[trigger] m.subrange(k, k + 4)[i] == be_u32_bytes(x)[i] by {
            assert(m.skip(k)[i] == (be_u32_bytes(x) + rest)[i]);
        }
    }
}

/// A Hyperlane V3 message reads back field by field: the version at byte 0,
/// the nonce at 1..5, the origin domain at 5..9, the sender at 9..41, the
/// destination domain at 41..45, the recipient at 45..77 and the body after.
pub proof fn law_hyperlane_message_layout(
    version: u8,
    nonce: u32,
    origin: u32,
    sender: Seq<u8>,
    destination: u32,
    recipient: Seq<u8>,
    body: Seq<u8>,
)
    requires
        sender.len() == 32,
        recipient.len() == 32,
    ensures
        ({
            let m = hyperlane_message(version, nonce, origin, sender, destination, recipient, body);
            &&& m.len() == 77 + body.len()
            &&& m[0] == version
            &&& be_nat(m.subrange(1, 5)) == nonce
            &&& be_nat(m.subrange(5, 9)) == origin
            &&& m.subrange(9, 41) == sender
            &&& be_nat(m.subrange(41, 45)) == destination
            &&& m.subrange(45, 77) == recipient
            &&& m.subrange(77, m.len() as int) == body
        }),
{
    let m = hyperlane_message(version, nonce, origin, sender, destination, recipient, body);
    let n4 = be_u32_bytes(nonce);
    let o4 = be_u32_bytes(origin);
    let d4 = be_u32_bytes(destination);
    assert(m.skip(1) =~= n4 + (o4 + sender + d4 + recipient + body));
    lemma_u32_at(m, 1, nonce, o4 + sender + d4 + recipient + body);
    assert(m.skip(5) =~= o4 + (sender + d4 + recipient + body));
    lemma_u32_at(m, 5, origin, sender + d4 + recipient + body);
    assert(m.skip(41) =~= d4 + (recipient + body));
    lemma_u32_at(m, 41, destination, recipient + body);
    assert(m.subrange(9, 41) =~= sender);
    assert(m.subrange(45, 77) =~= recipient);
    assert(m.subrange(77, m.len() as int) =~= body);
}

/// The Warp Route transfer body reads back as the 32-byte recipient followed
/// by the amount as one 32-byte big-endian word.
pub proof fn law_warp_transfer_body(recipient: Seq<u8>, amount: u64)
    requires
        recipient.len() == 32,
    ensures
        warp_transfer_body(recipient, amount).len() == 64,
        warp_transfer_body(recipient, amount).subrange(0, 32) == recipient,
        abi_word(warp_transfer_body(recipient, amount), 32) == amount,
{
    let b = warp_transfer_body(recipient, amount);
    assert(b.subrange(0, 32) =~= recipient);
    lemma_abi_u64_word(amount, seq![]);
    assert(b.skip(32) =~= abi_u64_word(amount) + seq![]);
    lemma_word_at(b, 32, amount, seq![]);
}

/// ISM metadata reads back field by field: the origin Merkle tree at 0..32,
/// the root at 32..64, the leaf index at 64..68 and the signature after.
pub proof fn law_ism_metadata_layout(tree: Seq<u8>, root: Seq<u8>, index: u32, signature: Seq<u8>)
    requires
        tree.len() == 32,
        root.len() == 32,
    ensures
        ({
            let m = ism_metadata(tree, root, index, signature);
            &&& m.len() == 68 + signature.len()
            &&& m.subrange(0, 32) == tree
            &&& m.subrange(32, 64) == root
            &&& be_nat(m.subrange(64, 68)) == index
            &&& m.subrange(68, m.len() as int) == signature
        }),
{
    let m = ism_metadata(tree, root, index, signature);
    assert(m.skip(64) =~= be_u32_bytes(index) + signature);
    lemma_u32_at(m, 64, index, signature);
    assert(m.subrange(0, 32) =~= tree);
    assert(m.subrange(32, 64) =~= root);
    assert(m.subrange(68, m.len() as int) =~= signature);
}

/// The checkpoint digest is the Keccak-256 of the Ethereum signed-message
/// prefix followed by the signing hash; the signing hash is the Keccak-256 of
/// the domain hash followed by the root (32 bytes), the leaf index (4 bytes)
/// and the message id (32 bytes); the domain hash is the Keccak-256 of the
/// origin domain (bytes 0..4), the origin Merkle tree (4..36) and then the
/// text `HYPERLANE`.
pub proof fn law_checkpoint_preimages(domain: u32, tree: Seq<u8>, root: Seq<u8>, index: u32, id: Seq<u8>)
    requires
        tree.len() == 32,
        root.len() == 32,
        id.len() == 32,
    ensures
        exists|p: Seq<u8>|
            {
                &&& p.len() == 36 + encode_utf8("HYPERLANE"@).len()
                &&& be_nat(p.subrange(0, 4)) == domain
                &&& p.subrange(4, 36) == tree
                &&& p.subrange(36, p.len() as int) == encode_utf8("HYPERLANE"@)
                &&& checkpoint_domain_hash(domain, tree) == #[trigger] keccak256_digest(p)
            },
        exists|q: Seq<u8>|
            {
                &&& q.len() == 68
                &&& q.subrange(0, 32) == root
                &&& be_nat(q.subrange(32, 36)) == index
                &&& q.subrange(36, 68) == id
                &&& checkpoint_signing_hash(domain, tree, root, index, id) == #[trigger] keccak256_digest(
                    checkpoint_domain_hash(domain, tree) + q,
                )
            },
        checkpoint_digest_of(domain, tree, root, index, id) == keccak256_digest(
            encode_utf8("\x19Ethereum Signed Message:\n32"@) + checkpoint_signing_hash(domain, tree, root, index, id),
        ),
{
    let h = encode_utf8("HYPERLANE"@);
    let p = be_u32_bytes(domain) + tree + h;
    assert(p.skip(0) =~= be_u32_bytes(domain) + (tree + h));
    lemma_u32_at(p, 0, domain, tree + h);
    assert(p.subrange(4, 36) =~= tree);
    assert(p.subrange(36, p.len() as int) =~= h);
    assert(checkpoint_domain_hash(domain, tree) == keccak256_digest(p));
    let dh = checkpoint_domain_hash(domain, tree);
    let q = root + be_u32_bytes(index) + id;
    assert(q.skip(32) =~= be_u32_bytes(index) + id);
    lemma_u32_at(q, 32, index, id);
    assert(q.subrange(0, 32) =~= root);
    assert(q.subrange(36, 68) =~= id);
    assert(dh + root + be_u32_bytes(index) + id =~= dh + q);
    assert(checkpoint_signing_hash(domain, tree, root, index, id) == keccak256_digest(dh + q));
}

/// The big-endian bytes of a `u32` and of a `u64` are four and eight bytes
/// long and denote the number.
pub proof fn law_big_endian_bytes(x: u32, n: u64)
    ensures
        be_u32_bytes(x).len() == 4,
        be_nat(be_u32_bytes(x)) == x,
        be_u64_bytes(n).len() == 8,
        be_nat(be_u64_bytes(n)) == n,
{
    lemma_be_nat_u32(x);
    lemma_be_nat_u64(n);
}

/// A padded address is twelve zero bytes followed by the 20-byte address.
pub proof fn law_padded_address(addr: Seq<u8>)
    requires
        addr.len() == 20,
    ensures
        padded_address(addr).len() == 32,
        forall|i: int| 0 <= i < 12 ==> #[trigger] padded_address(addr)[i] == 0,
        padded_address(addr).subrange(12, 32) == addr,
{
    assert(padded_address(addr).subrange(12, 32) =~= addr);
}

} // verus!
