//! The decisions around a CosmWasm transaction broadcast over gRPC: the
//! development message that carries a contract execution, and the reading of
//! the node's reply.
use vstd::prelude::*;
use vstd::utf8::{decode_utf8, encode_utf8, valid_utf8};
use crate::common::{append_bytes, copy_bytes, decimal_text, own, text_with_number, ProtoAny, SdkError};
use crate::cosmwasm::query::{
    decode_failure, decode_smart_response, is_decode_failure, length_delimited, lemma_length_delimited_fields,
    push_length_delimited,
    string_from_utf8,
};
use crate::cosmwasm::wire::{
    bytes_field_one, bytes_start, copy_range, field_key, field_value, fields_of, last_bytes_of, last_varint_of,
    lemma_varint_roundtrip, push_varint, read_field, read_varint, skip_len, tag_has_wire_type, varint_encoding,
    FieldValue, RECURSION_LIMIT,
};
use crate::cosmwasm::requests::{execute_doc, funds_doc, CoinProto, ExecuteContractRequest};
use crate::cosmwasm::types::CosmWasmError;
use crate::json::{json_byte_array, json_text, lemma_first_member_at, member, member_names, JsonModel};

verus! {

/// The outcome of a broadcast transaction, as the node reports it.
#[derive(Clone, Debug)]
pub struct TxResponse {
    pub txhash: String,
    pub code: u32,
    pub data: Vec<u8>,
    pub raw_log: String,
}

/// The JSON document of a contract execution.
pub open spec fn execution_doc(sender: Seq<char>, contract: Seq<char>, msg: Seq<u8>, funds: Seq<CoinProto>) -> JsonModel {
    JsonModel::Object(seq![
        ("sender"@, JsonModel::String(sender)),
        ("contract"@, JsonModel::String(contract)),
        ("msg"@, json_byte_array(msg)),
        ("funds"@, funds_doc(funds)),
    ])
}

/// The development message that executes `contract` with the JSON message
/// `msg_json` and the attached `funds`, sent by `sender`.
pub fn execute_dev_message(sender: &str, contract: &str, msg_json: &[u8], funds: Vec<CoinProto>) -> (r: ProtoAny)
    ensures
        r.type_url@ == "/cosmwasm.wasm.v1.MsgExecuteContract"@,
        r.value@ == json_text(execution_doc(sender@, contract@, msg_json@, funds@)),
{
    let req = ExecuteContractRequest {
        sender: own(sender),
        contract: own(contract),
        msg: copy_bytes(msg_json),
        funds,
    };
    assert(execute_doc(req) == execution_doc(sender@, contract@, msg_json@, req.funds@));
    req.to_any()
}

/// The message of a failed transaction: its code and log.
pub open spec fn failure_text(code: u32, raw_log: Seq<char>) -> Seq<char> {
    "code="@ + decimal_text(code as nat) + ", log="@ + raw_log
}

/// Reads the node's reply to a broadcast: a missing response and a non-zero
/// code are execution failures; otherwise the response is the result.
pub fn check_broadcast(resp: Option<TxResponse>) -> (r: Result<TxResponse, CosmWasmError>)
    ensures
        resp is None ==> (r matches Err(CosmWasmError::ExecutionFailed(m)) && m@ == "empty tx_response"@),
        resp is Some && resp.unwrap().code != 0 ==> (r matches Err(CosmWasmError::ExecutionFailed(m)) && m@
            == failure_text(resp.unwrap().code, resp.unwrap().raw_log@)),
        resp is Some && resp.unwrap().code == 0 ==> r == Ok::<TxResponse, CosmWasmError>(resp.unwrap()),
{
    match resp {
        None => Err(CosmWasmError::ExecutionFailed(own("empty tx_response"))),
        Some(t) => {
            if t.code != 0 {
                let mut m = text_with_number("code=", t.code as u64, ", log=");
                m.append(t.raw_log.as_str());
                Err(CosmWasmError::ExecutionFailed(m))
            } else {
                Ok(t)
            }
        },
    }
}

/// A protobuf `Any` as a broadcast request carries it.
#[derive(Clone, Debug, PartialEq, Eq)]
pub struct WireAny {
    pub type_url: String,
    pub value: Vec<u8>,
}

/// The `BroadcastTx` request: signed transaction bytes, the broadcast mode
/// and the development messages (field 99).
#[derive(Clone, Debug)]
pub struct BroadcastTxRequest {
    pub tx_bytes: Vec<u8>,
    pub mode: i32,
    pub dev_messages: Vec<WireAny>,
}

/// The `BroadcastTx` reply.
#[derive(Clone, Debug)]
pub struct BroadcastTxResponse {
    pub tx_response: Option<TxResponse>,
}

/// The `SmartContractState` request.
#[derive(Clone, Debug)]
pub struct SmartContractStateRequest {
    pub address: String,
    pub query_data: Vec<u8>,
}

/// The `SmartContractState` reply.
#[derive(Clone, Debug)]
pub struct SmartContractStateResponse {
    pub data: Vec<u8>,
}

/// A length-delimited field that proto3 leaves out when its payload is empty.
pub open spec fn optional_field(tag: nat, payload: Seq<u8>) -> Seq<u8> {
    if payload.len() == 0 {
        seq![]
    } else {
        length_delimited(tag, payload)
    }
}

/// The encoding of an `Any`: the type URL (field 1) and the value (field 2).
pub open spec fn wire_any_bytes(a: WireAny) -> Seq<u8> {
    optional_field(1, encode_utf8(a.type_url@)) + optional_field(2, a.value@)
}

/// The 64-bit two's-complement value with which protobuf encodes an `int32`.
pub open spec fn int32_wire_value(x: i32) -> nat {
    if x >= 0 {
        x as nat
    } else {
        (x + 0x1_0000_0000_0000_0000int) as nat
    }
}

/// The development messages, each a length-delimited field 99.
pub open spec fn dev_messages_bytes(ms: Seq<WireAny>) -> Seq<u8>
    decreases ms.len(),
{
    if ms.len() == 0 {
        seq![]
    } else {
        dev_messages_bytes(ms.drop_last()) + length_delimited(99, wire_any_bytes(ms.last()))
    }
}

/// The encoding of a `BroadcastTx` request, default fields left out.
pub open spec fn broadcast_request_bytes(r: BroadcastTxRequest) -> Seq<u8> {
    optional_field(1, r.tx_bytes@) + (if r.mode == 0 {
        seq![]
    } else {
        varint_encoding(16) + varint_encoding(int32_wire_value(r.mode))
    }) + dev_messages_bytes(r.dev_messages@)
}

/// Appends a length-delimited field unless its payload is empty.
fn push_optional_field(out: &mut Vec<u8>, tag: u64, payload: &[u8])
    requires
        tag < 0x1000_0000,
    ensures
        final(out)@ == old(out)@ + optional_field(tag as nat, payload@),
{
    if payload.len() == 0 {
        assert(out@ =~= old(out)@ + optional_field(tag as nat, payload@));
    } else {
        push_length_delimited(out, tag, payload);
    }
}

impl WireAny {
    /// The protobuf encoding of the message.
    pub fn encode(&self) -> (r: Vec<u8>)
        ensures
            r@ == wire_any_bytes(*self),
    {
        let mut out: Vec<u8> = Vec::new();
        push_optional_field(&mut out, 1, self.type_url.as_str().as_bytes());
        push_optional_field(&mut out, 2, self.value.as_slice());
        assert(out@ =~= wire_any_bytes(*self));
        out
    }
}

impl BroadcastTxRequest {
    /// The protobuf encoding of the request.
    pub fn encode(&self) -> (r: Vec<u8>)
        ensures
            r@ == broadcast_request_bytes(*self),
    {
        let mut out: Vec<u8> = Vec::new();
        push_optional_field(&mut out, 1, self.tx_bytes.as_slice());
        if self.mode != 0 {
            push_varint(&mut out, 16);
            let v: u64 = if self.mode >= 0 {
                self.mode as u64
            } else {
                (0xffff_ffff_ffff_ffffu64 - ((-1 - self.mode) as u64))
            };
            push_varint(&mut out, v);
        }
        let ghost head = out@;
        let n = self.dev_messages.len();
        let mut i: usize = 0;
        while i < n
            invariant
                n == self.dev_messages@.len(),
                i <= n,
                out@ == head + dev_messages_bytes(self.dev_messages@.take(i as int)),
            decreases n - i,
        {
            let e = self.dev_messages[i].encode();
            push_length_delimited(&mut out, 99, e.as_slice());
            proof {
                assert(self.dev_messages@.take(i + 1).drop_last() =~= self.dev_messages@.take(i as int));
            }
            assert(out@ =~= head + dev_messages_bytes(self.dev_messages@.take(i + 1)));
            i = i + 1;
        }
        assert(self.dev_messages@.take(n as int) =~= self.dev_messages@);
        assert(out@ =~= broadcast_request_bytes(*self));
        out
    }
}

impl SmartContractStateRequest {
    /// The protobuf encoding of the request, default fields left out.
    pub fn encode(&self) -> (r: Vec<u8>)
        ensures
            r@ == optional_field(1, encode_utf8(self.address@)) + optional_field(2, self.query_data@),
    {
        let mut out: Vec<u8> = Vec::new();
        push_optional_field(&mut out, 1, self.address.as_str().as_bytes());
        push_optional_field(&mut out, 2, self.query_data.as_slice());
        out
    }
}

impl SmartContractStateResponse {
    /// Reads a reply: the data is field 1, whose last occurrence wins.
    pub fn decode(data: &[u8]) -> (r: Result<SmartContractStateResponse, SdkError>)
        ensures
            match bytes_field_one(data@) {
                Some(d) => r matches Ok(m) && m.data@ == d,
                None => is_decode_failure(r),
            },
    {
        match decode_smart_response(data) {
            Ok(d) => Ok(SmartContractStateResponse { data: d }),
            Err(e) => Err(e),
        }
    }
}

/// The fields of a `TxResponse` are well typed: the hash (2), the data (5)
/// and the log (6) are length-delimited, the hash and the log UTF-8, and the
/// code (4) is a varint.
pub open spec fn tx_fields_ok(fs: Seq<(nat, nat, FieldValue)>) -> bool {
    &&& tag_has_wire_type(fs, 2, 2)
    &&& tag_has_wire_type(fs, 4, 0)
    &&& tag_has_wire_type(fs, 5, 2)
    &&& tag_has_wire_type(fs, 6, 2)
    &&& forall|i: int|
        0 <= i < fs.len() && ((#[trigger] fs[i]).0 == 2 || fs[i].0 == 6) && fs[i].2 is Bytes ==> valid_utf8(
            fs[i].2->Bytes_0,
        )
}

/// The `TxResponse` fields that one field of the reply contributes: none for
/// a field other than 1, the fields of the nested message for field 1;
/// `None` where field 1 is not a well-formed, well-typed message.
pub open spec fn tx_part(f: (nat, nat, FieldValue)) -> Option<Seq<(nat, nat, FieldValue)>> {
    if f.0 != 1 {
        Some(seq![])
    } else if f.1 != 2 {
        None
    } else {
        match f.2 {
            FieldValue::Bytes(p) => match fields_of(p) {
                Some(inner) => if tx_fields_ok(inner) {
                    Some(inner)
                } else {
                    None
                },
                None => None,
            },
            _ => None,
        }
    }
}

/// All `TxResponse` fields of a reply, in order.
pub open spec fn tx_fields(fs: Seq<(nat, nat, FieldValue)>) -> Option<Seq<(nat, nat, FieldValue)>>
    decreases fs.len(),
{
    if fs.len() == 0 {
        Some(seq![])
    } else {
        match (tx_fields(fs.drop_last()), tx_part(fs.last())) {
            (Some(a), Some(p)) => Some(a + p),
            _ => None,
        }
    }
}

/// The `TxResponse` fields of two runs of fields are those of each, in
/// order; a failure in either is a failure of both.
pub proof fn lemma_tx_fields_concat(s: Seq<(nat, nat, FieldValue)>, t: Seq<(nat, nat, FieldValue)>)
    ensures
        tx_fields(s + t) == match (tx_fields(s), tx_fields(t)) {
            (Some(a), Some(b)) => Some(a + b),
            _ => None::<Seq<(nat, nat, FieldValue)>>,
        },
    decreases t.len(),
{
    if t.len() == 0 {
        assert(s + t =~= s);
        if let Some(a) = tx_fields(s) {
            assert(a + seq![] =~= a);
        }
    } else {
        lemma_tx_fields_concat(s, t.drop_last());
        assert((s + t).drop_last() =~= s + t.drop_last());
        assert((s + t).last() == t.last());
        if let (Some(a), Some(b)) = (tx_fields(s), tx_fields(t.drop_last())) {
            if let Some(p) = tx_part(t.last()) {
                assert(a + b + p =~= a + (b + p));
            }
        }
    }
}

/// Some field of `fs` is numbered `tag`.
pub open spec fn has_tag(fs: Seq<(nat, nat, FieldValue)>, tag: nat) -> bool {
    exists|i: int| 0 <= i < fs.len() && (#[trigger] fs[i]).0 == tag
}

/// A `BroadcastTx` reply `b`, read: whether it carries a `TxResponse`
/// (field 1) and the fields of all its occurrences; `None` where it is
/// malformed or ill-typed.
pub open spec fn broadcast_reply(b: Seq<u8>) -> Option<(bool, Seq<(nat, nat, FieldValue)>)> {
    match fields_of(b) {
        Some(fs) => match tx_fields(fs) {
            Some(entries) => Some((has_tag(fs, 1), entries)),
            None => None,
        },
        None => None,
    }
}

/// The transaction outcome that the `TxResponse` fields `entries` describe:
/// the last occurrence of each field wins, an absent field reads as empty
/// or zero, and the code is the low 32 bits of its varint.
pub open spec fn tx_matches(t: TxResponse, entries: Seq<(nat, nat, FieldValue)>) -> bool {
    &&& t.txhash@ == decode_utf8(last_bytes_of(entries, 2))
    &&& t.code == (last_varint_of(entries, 4) % 0x1_0000_0000) as u32
    &&& t.data@ == last_bytes_of(entries, 5)
    &&& t.raw_log@ == decode_utf8(last_bytes_of(entries, 6))
}

/// The values read so far from the entries `seen`.
pub open spec fn tx_state(seen: Seq<(nat, nat, FieldValue)>, txhash: Seq<char>, code: u64, data: Seq<u8>, raw_log: Seq<char>) -> bool {
    &&& txhash == decode_utf8(last_bytes_of(seen, 2))
    &&& code == last_varint_of(seen, 4)
    &&& data == last_bytes_of(seen, 5)
    &&& raw_log == decode_utf8(last_bytes_of(seen, 6))
}

/// Reads the fields of one nested `TxResponse` into the values read so far;
/// `false` where the message is malformed or ill-typed.
fn merge_tx_fields(
    inner: &[u8],
    txhash: &mut String,
    code: &mut u64,
    data: &mut Vec<u8>,
    raw_log: &mut String,
    Ghost(seen): Ghost<Seq<(nat, nat, FieldValue)>>,
) -> (ok: bool)
    requires
        tx_state(seen, old(txhash)@, *old(code), old(data)@, old(raw_log)@),
    ensures
        ok <==> (fields_of(inner@) matches Some(fs) && tx_fields_ok(fs)),
        ok ==> tx_state(seen + fields_of(inner@).unwrap(), final(txhash)@, *final(code), final(data)@, final(raw_log)@),
{
    let mut pos: usize = 0;
    let ghost mut prefix: Seq<(nat, nat, FieldValue)> = seq![];
    assert(inner@.skip(0) =~= inner@);
    assert(seen + prefix =~= seen);
    while pos < inner.len()
        invariant
            pos <= inner@.len(),
            forall|rest: Seq<(nat, nat, FieldValue)>| fields_of(inner@.skip(pos as int)) == Some(rest)
                ==> fields_of(inner@) == Some(prefix + rest),
            fields_of(inner@.skip(pos as int)) is None ==> fields_of(inner@) is None,
            tx_fields_ok(prefix),
            tx_state(seen + prefix, txhash@, *code, data@, raw_log@),
        decreases inner@.len() - pos,
    {
        let (tag, wt, p, q) = match read_field(inner, pos) {
            Some(f) => f,
            None => {
                return false;
            },
        };
        let ghost f = (tag as nat, wt as nat, field_value(inner@.skip(p as int), wt as nat));
        proof {
            assert forall|rest: Seq<(nat, nat, FieldValue)>| fields_of(inner@.skip(q as int)) == Some(rest)
                implies fields_of(inner@) == Some(prefix.push(f) + rest) by {
                assert(prefix + (seq![f] + rest) =~= prefix.push(f) + rest);
            }
        }
        if (tag == 4 && wt != 0) || ((tag == 2 || tag == 5 || tag == 6) && wt != 2) {
            proof {
                if let Some(all) = fields_of(inner@) {
                    if let Some(rest) = fields_of(inner@.skip(q as int)) {
                        assert(all == prefix.push(f) + rest);
                        assert(all[prefix.len() as int] == f);
                    }
                }
            }
            return false;
        }
        if tag == 4 {
            match read_varint(inner, p) {
                Some((v, _)) => {
                    *code = v;
                },
                None => {
                    return false;
                },
            }
        } else if tag == 5 {
            let start = bytes_start(inner, p, q);
            *data = copy_range(inner, start, q);
        } else if tag == 2 || tag == 6 {
            let start = bytes_start(inner, p, q);
            let bytes = copy_range(inner, start, q);
            match string_from_utf8(bytes) {
                Some(text) => {
                    if tag == 2 {
                        *txhash = text;
                    } else {
                        *raw_log = text;
                    }
                },
                None => {
                    proof {
                        if let Some(all) = fields_of(inner@) {
                            if let Some(rest) = fields_of(inner@.skip(q as int)) {
                                assert(all == prefix.push(f) + rest);
                                assert(all[prefix.len() as int] == f);
                            }
                        }
                    }
                    return false;
                },
            }
        }
        proof {
            assert((seen + prefix).push(f) =~= seen + prefix.push(f));
            assert((seen + prefix).push(f).drop_last() =~= seen + prefix);
            assert(prefix.push(f).drop_last() =~= prefix);
            prefix = prefix.push(f);
        }
        pos = q;
    }
    proof {
        assert(inner@.skip(pos as int) =~= Seq::<u8>::empty());
        assert(prefix + seq![] =~= prefix);
    }
    true
}

impl BroadcastTxResponse {
    /// Reads a `BroadcastTx` reply. Occurrences of field 1 merge, the last
    /// value of each of their fields winning; other fields are skipped.
    pub fn decode(bytes: &[u8]) -> (r: Result<BroadcastTxResponse, SdkError>)
        ensures
            match broadcast_reply(bytes@) {
                Some((present, entries)) => r matches Ok(m) && (if present {
                    m.tx_response matches Some(t) && tx_matches(t, entries)
                } else {
                    m.tx_response is None
                }),
                None => is_decode_failure(r),
            },
    {
        let mut present = false;
        let mut txhash = String::new();
        let mut code: u64 = 0;
        let mut data: Vec<u8> = Vec::new();
        let mut raw_log = String::new();
        let mut pos: usize = 0;
        let ghost mut prefix: Seq<(nat, nat, FieldValue)> = seq![];
        let ghost mut seen: Seq<(nat, nat, FieldValue)> = seq![];
        proof {
            reveal_with_fuel(decode_utf8, 1);
        }
        assert(bytes@.skip(0) =~= bytes@);
        while pos < bytes.len()
            invariant
                pos <= bytes@.len(),
                forall|rest: Seq<(nat, nat, FieldValue)>| fields_of(bytes@.skip(pos as int)) == Some(rest)
                    ==> fields_of(bytes@) == Some(prefix + rest),
                fields_of(bytes@.skip(pos as int)) is None ==> fields_of(bytes@) is None,
                tx_fields(prefix) == Some(seen),
                tx_state(seen, txhash@, code, data@, raw_log@),
                present == has_tag(prefix, 1),
            decreases bytes@.len() - pos,
        {
            let (tag, wt, p, q) = match read_field(bytes, pos) {
                Some(f) => f,
                None => {
                    return decode_failure();
                },
            };
            let ghost f = (tag as nat, wt as nat, field_value(bytes@.skip(p as int), wt as nat));
            proof {
                assert forall|rest: Seq<(nat, nat, FieldValue)>| fields_of(bytes@.skip(q as int)) == Some(rest)
                    implies fields_of(bytes@) == Some(prefix.push(f) + rest) by {
                    assert(prefix + (seq![f] + rest) =~= prefix.push(f) + rest);
                }
                assert(prefix.push(f).drop_last() =~= prefix);
                assert(has_tag(prefix.push(f), 1) == (has_tag(prefix, 1) || tag == 1)) by {
                    if tag == 1 {
                        assert(prefix.push(f)[prefix.len() as int].0 == 1);
                    }
                    if has_tag(prefix, 1) {
                        let i = choose|i: int| 0 <= i < prefix.len() && (#[trigger] prefix[i]).0 == 1;
                        assert(prefix.push(f)[i] == prefix[i]);
                    }
                    if has_tag(prefix.push(f), 1) {
                        let i = choose|i: int| 0 <= i < prefix.push(f).len() && (#[trigger] prefix.push(f)[i]).0 == 1;
                        if i < prefix.len() {
                            assert(prefix[i] == prefix.push(f)[i]);
                        }
                    }
                }
            }
            if tag == 1 {
                if wt != 2 {
                    proof {
                        assert(tx_fields(prefix.push(f)) is None);
                        if let Some(all) = fields_of(bytes@) {
                            if let Some(rest) = fields_of(bytes@.skip(q as int)) {
                                assert(all == prefix.push(f) + rest);
                                lemma_tx_fields_concat(prefix.push(f), rest);
                            }
                        }
                    }
                    return decode_failure();
                }
                let start = bytes_start(bytes, p, q);
                let inner = copy_range(bytes, start, q);
                let ok = merge_tx_fields(inner.as_slice(), &mut txhash, &mut code, &mut data, &mut raw_log, Ghost(seen));
                if !ok {
                    proof {
                        assert(tx_part(f) is None);
                        assert(tx_fields(prefix.push(f)) is None);
                        if let Some(all) = fields_of(bytes@) {
                            if let Some(rest) = fields_of(bytes@.skip(q as int)) {
                                assert(all == prefix.push(f) + rest);
                                lemma_tx_fields_concat(prefix.push(f), rest);
                            }
                        }
                    }
                    return decode_failure();
                }
                present = true;
                proof {
                    seen = seen + fields_of(inner@).unwrap();
                }
            }
            proof {
                prefix = prefix.push(f);
            }
            pos = q;
        }
        proof {
            assert(bytes@.skip(pos as int) =~= Seq::<u8>::empty());
            assert(prefix + seq![] =~= prefix);
        }
        if present {
            let t = TxResponse { txhash, code: (code % 0x1_0000_0000) as u32, data, raw_log };
            Ok(BroadcastTxResponse { tx_response: Some(t) })
        } else {
            Ok(BroadcastTxResponse { tx_response: None })
        }
    }
}

/// Putting one message in front of a list puts its field-99 record in front
/// of the list's records.
proof fn lemma_dev_messages_prepend(m: WireAny, ms: Seq<WireAny>)
    ensures
        dev_messages_bytes(seq![m] + ms) == length_delimited(99, wire_any_bytes(m)) + dev_messages_bytes(ms),
    decreases ms.len(),
{
    let l = seq![m] + ms;
    if ms.len() == 0 {
        assert(l.drop_last() =~= Seq::<WireAny>::empty());
        assert(l.last() == m);
        assert(dev_messages_bytes(Seq::<WireAny>::empty()) =~= Seq::<u8>::empty());
        assert(Seq::<u8>::empty() + length_delimited(99, wire_any_bytes(m)) =~= length_delimited(99, wire_any_bytes(m)) + Seq::<u8>::empty());
    } else {
        lemma_dev_messages_prepend(m, ms.drop_last());
        assert(l.drop_last() =~= seq![m] + ms.drop_last());
        assert(l.last() == ms.last());
        let h = length_delimited(99, wire_any_bytes(m));
        assert(h + dev_messages_bytes(ms.drop_last()) + length_delimited(99, wire_any_bytes(ms.last())) =~= h + (
        dev_messages_bytes(ms.drop_last()) + length_delimited(99, wire_any_bytes(ms.last()))));
    }
}

/// The protobuf records of a list of development messages: one
/// length-delimited field 99 per message, holding that message's encoding, in
/// the order of the list.
pub open spec fn dev_message_records(ms: Seq<WireAny>) -> Seq<(nat, nat, FieldValue)> {
    Seq::new(ms.len(), |i: int| (99nat, 2nat, FieldValue::Bytes(wire_any_bytes(ms[i]))))
}

/// Reading the encoded development messages back gives one field-99 record
/// per message, each holding that message's encoding, in the order of the
/// list: the node receives the messages in the order they were given.
pub proof fn law_dev_messages_read_back(ms: Seq<WireAny>)
    requires
        forall|i: int| 0 <= i < ms.len() ==> (#[trigger] wire_any_bytes(ms[i])).len() <= 0xffff_ffff_ffff_ffffnat,
    ensures
        fields_of(dev_messages_bytes(ms)) == Some(dev_message_records(ms)),
    decreases ms.len(),
{
    if ms.len() == 0 {
        assert(dev_messages_bytes(ms) =~= Seq::<u8>::empty());
        assert(dev_message_records(ms) =~= Seq::<(nat, nat, FieldValue)>::empty());
    } else {
        let rest = ms.skip(1);
        assert(ms =~= seq![ms[0]] + rest);
        assert forall|i: int| 0 <= i < rest.len() implies (#[trigger] wire_any_bytes(rest[i])).len() <= 0xffff_ffff_ffff_ffffnat by {
            assert(rest[i] == ms[i + 1]);
        }
        lemma_dev_messages_prepend(ms[0], rest);
        law_dev_messages_read_back(rest);
        assert(wire_any_bytes(ms[0]).len() <= 0xffff_ffff_ffff_ffffnat);
        lemma_length_delimited_fields(99, wire_any_bytes(ms[0]), dev_messages_bytes(rest));
        assert(seq![(99nat, 2nat, FieldValue::Bytes(wire_any_bytes(ms[0])))] + dev_message_records(rest)
            =~= dev_message_records(ms));
    }
}

/// A varint field (wire type 0) numbered `tag` reads back as its value.
proof fn lemma_varint_field(tag: nat, v: nat, rest: Seq<u8>)
    requires
        1 <= tag < 0x1000_0000,
        v <= 0xffff_ffff_ffff_ffffnat,
    ensures
        fields_of(varint_encoding(tag * 8) + varint_encoding(v) + rest) == match fields_of(rest) {
            Some(r) => Some(seq![(tag, 0nat, FieldValue::Varint(v))] + r),
            None => None::<Seq<(nat, nat, FieldValue)>>,
        },
{
    let k = tag * 8;
    let b = varint_encoding(k) + varint_encoding(v) + rest;
    let after_key = varint_encoding(v) + rest;
    assert(b =~= varint_encoding(k) + after_key);
    lemma_varint_roundtrip(k, after_key);
    let n1 = varint_encoding(k).len();
    assert(field_key(b) == Some((tag, 0nat, n1)));
    assert(b.skip(n1 as int) =~= after_key);
    lemma_varint_roundtrip(v, rest);
    let n2 = varint_encoding(v).len();
    assert(skip_len(after_key, tag, 0, RECURSION_LIMIT as nat) == Some(n2));
    assert(b.skip((n1 + n2) as int) =~= rest);
}

/// The record of the mode of a `BroadcastTx` request: none for the default
/// mode 0, else a varint field 2 holding the mode as a 64-bit two's
/// complement number.
pub open spec fn mode_record(mode: i32) -> Seq<(nat, nat, FieldValue)> {
    if mode == 0 {
        seq![]
    } else if mode > 0 {
        seq![(2nat, 0nat, FieldValue::Varint(mode as nat))]
    } else {
        seq![(2nat, 0nat, FieldValue::Varint((mode + 0x1_0000_0000_0000_0000int) as nat))]
    }
}

/// An encoded `BroadcastTx` request reads back as its transaction bytes
/// (field 1, left out where empty), its mode (field 2, left out where 0) and
/// then exactly its development messages, one field-99 record each, in order.
pub proof fn law_broadcast_request_read_back(r: BroadcastTxRequest)
    requires
        r.tx_bytes@.len() <= 0xffff_ffff_ffff_ffffnat,
        forall|i: int| 0 <= i < r.dev_messages@.len() ==> (#[trigger] wire_any_bytes(r.dev_messages@[i])).len()
            <= 0xffff_ffff_ffff_ffffnat,
    ensures
        fields_of(broadcast_request_bytes(r)) == Some(
            optional_record(1, r.tx_bytes@) + mode_record(r.mode) + dev_message_records(r.dev_messages@),
        ),
{
    let d = dev_messages_bytes(r.dev_messages@);
    let recs = dev_message_records(r.dev_messages@);
    law_dev_messages_read_back(r.dev_messages@);
    let mb = if r.mode == 0 {
        Seq::<u8>::empty()
    } else {
        varint_encoding(16) + varint_encoding(int32_wire_value(r.mode))
    };
    if r.mode == 0 {
        assert(mb + d =~= d);
        assert(mode_record(r.mode) + recs =~= recs);
    } else {
        assert(varint_encoding(2 * 8) + varint_encoding(int32_wire_value(r.mode)) + d =~= mb + d);
        lemma_varint_field(2, int32_wire_value(r.mode), d);
    }
    assert(fields_of(mb + d) == Some(mode_record(r.mode) + recs));
    let t = r.tx_bytes@;
    if t.len() == 0 {
        assert(broadcast_request_bytes(r) =~= mb + d);
        assert(optional_record(1, t) + mode_record(r.mode) + recs =~= mode_record(r.mode) + recs);
    } else {
        assert(broadcast_request_bytes(r) =~= length_delimited(1, t) + (mb + d));
        lemma_length_delimited_fields(1, t, mb + d);
        assert(optional_record(1, t) + mode_record(r.mode) + recs =~= seq![(1nat, 2nat, FieldValue::Bytes(t))] + (
        mode_record(r.mode) + recs));
    }
}

/// The record of a length-delimited field that proto3 leaves out when empty.
pub open spec fn optional_record(tag: nat, payload: Seq<u8>) -> Seq<(nat, nat, FieldValue)> {
    if payload.len() == 0 {
        seq![]
    } else {
        seq![(tag, 2nat, FieldValue::Bytes(payload))]
    }
}

/// An encoded `Any` reads back as its type URL (field 1) and then its value
/// (field 2), each left out where empty.
pub proof fn law_wire_any_read_back(a: WireAny)
    requires
        encode_utf8(a.type_url@).len() <= 0xffff_ffff_ffff_ffffnat,
        a.value@.len() <= 0xffff_ffff_ffff_ffffnat,
    ensures
        fields_of(wire_any_bytes(a)) == Some(optional_record(1, encode_utf8(a.type_url@)) + optional_record(2, a.value@)),
{
    let u = encode_utf8(a.type_url@);
    let v = a.value@;
    assert(fields_of(Seq::<u8>::empty()) == Some(Seq::<(nat, nat, FieldValue)>::empty()));
    if v.len() > 0 {
        lemma_length_delimited_fields(2, v, seq![]);
        assert(length_delimited(2, v) + seq![] =~= length_delimited(2, v));
    }
    assert(fields_of(optional_field(2, v)) == Some(optional_record(2, v) + Seq::<(nat, nat, FieldValue)>::empty()));
    if u.len() > 0 {
        lemma_length_delimited_fields(1, u, optional_field(2, v));
    } else {
        assert(optional_field(1, u) + optional_field(2, v) =~= optional_field(2, v));
    }
    assert(optional_record(1, u) + (optional_record(2, v) + Seq::<(nat, nat, FieldValue)>::empty())
        =~= optional_record(1, u) + optional_record(2, v));
    assert(optional_record(1, u) + optional_record(2, v) + Seq::<(nat, nat, FieldValue)>::empty()
        =~= optional_record(1, u) + optional_record(2, v));
}

/// The document of a contract execution has exactly the members `sender`,
/// `contract`, `msg` (the JSON message as an array of byte numbers) and
/// `funds`.
pub proof fn law_execution_doc(sender: Seq<char>, contract: Seq<char>, msg: Seq<u8>, funds: Seq<CoinProto>)
    ensures
        member_names(execution_doc(sender, contract, msg, funds)) == seq!["sender"@, "contract"@, "msg"@, "funds"@],
        member(execution_doc(sender, contract, msg, funds), "sender"@) == Some(JsonModel::String(sender)),
        member(execution_doc(sender, contract, msg, funds), "contract"@) == Some(JsonModel::String(contract)),
        member(execution_doc(sender, contract, msg, funds), "msg"@) == Some(json_byte_array(msg)),
        member(execution_doc(sender, contract, msg, funds), "funds"@) == Some(funds_doc(funds)),
{
    reveal_strlit("sender");
    reveal_strlit("contract");
    reveal_strlit("msg");
    reveal_strlit("funds");
    let ms = seq![
        ("sender"@, JsonModel::String(sender)),
        ("contract"@, JsonModel::String(contract)),
        ("msg"@, json_byte_array(msg)),
        ("funds"@, funds_doc(funds)),
    ];
    assert(member_names(execution_doc(sender, contract, msg, funds)) =~= seq!["sender"@, "contract"@, "msg"@, "funds"@]);
    assert("sender"@.len() != "contract"@.len() && "sender"@.len() != "msg"@.len() && "sender"@.len() != "funds"@.len());
    assert("contract"@.len() != "msg"@.len() && "contract"@.len() != "funds"@.len() && "msg"@.len() != "funds"@.len());
    lemma_first_member_at(ms, 0);
    lemma_first_member_at(ms, 1);
    lemma_first_member_at(ms, 2);
    lemma_first_member_at(ms, 3);
}

} // verus!
