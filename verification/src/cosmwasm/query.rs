//! The byte-level halves of the CosmWasm queries: the protobuf request of a
//! smart, raw or contract-info query, and the reading of its response.
use vstd::prelude::*;
use vstd::utf8::{decode_utf8, encode_utf8, valid_utf8};
use crate::common::{own, SdkError};
use crate::cosmwasm::types::ContractInfo;
use crate::cosmwasm::wire::{
    bytes_field_one, bytes_start, copy_range, field_value, fields_of, last_bytes_of,
    last_varint_of, push_varint, read_field, read_varint, tag_has_wire_type, varint_encoding,
    FieldValue, RECURSION_LIMIT, field_key, lemma_varint_roundtrip, skip_len, varint,
};
use crate::common::append_bytes;

verus! {

/// The message of every decoding failure.
pub open spec fn decode_failure_text() -> Seq<char> {
    "failed to decode Protobuf message"@
}

/// `r` failed with the decoding failure.
pub open spec fn is_decode_failure<T>(r: Result<T, SdkError>) -> bool {
    r matches Err(SdkError::Other(m)) && m@ == decode_failure_text()
}

pub(crate) fn decode_failure<T>() -> (r: Result<T, SdkError>)
    ensures
        is_decode_failure(r),
{
    Err(SdkError::Other(own("failed to decode Protobuf message")))
}

/// Reads the data of a smart (or raw) contract-state response: field 1, a
/// bytes field whose last occurrence wins; other fields are skipped.
pub fn decode_smart_response(data: &[u8]) -> (r: Result<Vec<u8>, SdkError>)
    ensures
        match bytes_field_one(data@) {
            Some(d) => r matches Ok(v) && v@ == d,
            None => is_decode_failure(r),
        },
{
    let mut pos: usize = 0;
    let mut result: Vec<u8> = Vec::new();
    let ghost mut prefix: Seq<(nat, nat, FieldValue)> = seq![];
    assert(data@.skip(0) =~= data@);
    while pos < data.len()
        invariant
            pos <= data@.len(),
            forall|rest: Seq<(nat, nat, FieldValue)>| fields_of(data@.skip(pos as int)) == Some(rest)
                ==> fields_of(data@) == Some(prefix + rest),
            fields_of(data@.skip(pos as int)) is None ==> fields_of(data@) is None,
            tag_has_wire_type(prefix, 1, 2),
            result@ == last_bytes_of(prefix, 1),
        decreases data@.len() - pos,
    {
        let (tag, wt, p, q) = match read_field(data, pos) {
            Some(f) => f,
            None => {
                return decode_failure();
            },
        };
        let ghost f = (tag as nat, wt as nat, field_value(data@.skip(p as int), wt as nat));
        proof {
            assert forall|rest: Seq<(nat, nat, FieldValue)>| fields_of(data@.skip(q as int)) == Some(rest)
                implies fields_of(data@) == Some(prefix.push(f) + rest) by {
                assert(prefix + (seq![f] + rest) =~= prefix.push(f) + rest);
            }
        }
        if tag == 1 {
            if wt != 2 {
                proof {
                    if let Some(all) = fields_of(data@) {
                        if let Some(rest) = fields_of(data@.skip(q as int)) {
                            assert(all == prefix.push(f) + rest);
                            assert(all[prefix.len() as int] == f);
                        }
                    }
                }
                return decode_failure();
            }
            let start = bytes_start(data, p, q);
            result = copy_range(data, start, q);
        }
        proof {
            assert(prefix.push(f).drop_last() =~= prefix);
            prefix = prefix.push(f);
        }
        pos = q;
    }
    proof {
        assert(data@.skip(pos as int) =~= Seq::<u8>::empty());
        assert(prefix + seq![] =~= prefix);
    }
    Ok(result)
}

/// Calls `String::from_utf8`; the contract claims, as its documentation
/// says, that it accepts exactly the valid UTF-8 byte sequences and yields
/// the characters they encode.
#[verifier::external_body]
pub(crate) fn string_from_utf8(bytes: Vec<u8>) -> (r: Option<String>)
    ensures
        r is Some <==> valid_utf8(bytes@),
        r matches Some(s) ==> s@ == decode_utf8(bytes@),
{
    String::from_utf8(bytes).ok()
}

/// The fields of a `ContractInfo` message are well typed: the code id is a
/// varint, and the creator, admin and label are UTF-8 strings.
pub open spec fn info_fields_ok(fs: Seq<(nat, nat, FieldValue)>) -> bool {
    &&& tag_has_wire_type(fs, 1, 0)
    &&& tag_has_wire_type(fs, 3, 2)
    &&& tag_has_wire_type(fs, 4, 2)
    &&& forall|i: int|
        0 <= i < fs.len() && ((#[trigger] fs[i]).0 == 3 || fs[i].0 == 4) && fs[i].2 is Bytes ==> valid_utf8(
            fs[i].2->Bytes_0,
        )
}

/// The contract-info fields that one field of the response contributes:
/// none for a field other than 3, the fields of the nested message for
/// field 3; `None` where field 3 is not a well-formed, well-typed message.
pub open spec fn info_part(f: (nat, nat, FieldValue)) -> Option<Seq<(nat, nat, FieldValue)>> {
    if f.0 != 3 {
        Some(seq![])
    } else if f.1 != 2 {
        None
    } else {
        match f.2 {
            FieldValue::Bytes(p) => match fields_of(p) {
                Some(inner) => if info_fields_ok(inner) {
                    Some(inner)
                } else {
                    None
                },
                None => None,
            },
            _ => None,
        }
    }
}

/// All contract-info fields of a response, in order.
pub open spec fn info_fields(fs: Seq<(nat, nat, FieldValue)>) -> Option<Seq<(nat, nat, FieldValue)>>
    decreases fs.len(),
{
    if fs.len() == 0 {
        Some(seq![])
    } else {
        match (info_fields(fs.drop_last()), info_part(fs.last())) {
            (Some(a), Some(p)) => Some(a + p),
            _ => None,
        }
    }
}

/// The contract-info fields of the response `b`.
pub open spec fn contract_info_entries(b: Seq<u8>) -> Option<Seq<(nat, nat, FieldValue)>> {
    match fields_of(b) {
        Some(fs) => info_fields(fs),
        None => None,
    }
}

/// The contract-info fields of two runs of fields are those of each, in
/// order; a failure in either is a failure of both.
pub proof fn lemma_info_fields_concat(s: Seq<(nat, nat, FieldValue)>, t: Seq<(nat, nat, FieldValue)>)
    ensures
        info_fields(s + t) == match (info_fields(s), info_fields(t)) {
            (Some(a), Some(b)) => Some(a + b),
            _ => None::<Seq<(nat, nat, FieldValue)>>,
        },
    decreases t.len(),
{
    if t.len() == 0 {
        assert(s + t =~= s);
        if let Some(a) = info_fields(s) {
            assert(a + seq![] =~= a);
        }
    } else {
        lemma_info_fields_concat(s, t.drop_last());
        assert((s + t).drop_last() =~= s + t.drop_last());
        assert((s + t).last() == t.last());
        if let (Some(a), Some(b)) = (info_fields(s), info_fields(t.drop_last())) {
            if let Some(p) = info_part(t.last()) {
                assert(a + b + p =~= a + (b + p));
            }
        }
    }
}

/// The metadata of the contract at `address` that a contract-info response
/// describes (field 3, a `ContractInfo`): its code id (field 1), its admin
/// (field 3, absent where empty) and its label (field 4); the last occurrence
/// of each wins across all occurrences of field 3.
pub open spec fn info_matches(info: ContractInfo, address: Seq<char>, entries: Seq<(nat, nat, FieldValue)>) -> bool {
    &&& info.address@ == address
    &&& info.code_id == last_varint_of(entries, 1)
    &&& info.label@ == decode_utf8(last_bytes_of(entries, 4))
    &&& (if decode_utf8(last_bytes_of(entries, 3)).len() == 0 {
        info.admin is None
    } else {
        info.admin matches Some(a) && a@ == decode_utf8(last_bytes_of(entries, 3))
    })
}

/// The values read so far: the code id, admin and label that the entries
/// `seen` leave.
pub open spec fn info_state(seen: Seq<(nat, nat, FieldValue)>, code_id: u64, admin: Seq<char>, label: Seq<char>) -> bool {
    &&& code_id == last_varint_of(seen, 1)
    &&& admin == decode_utf8(last_bytes_of(seen, 3))
    &&& label == decode_utf8(last_bytes_of(seen, 4))
}

/// Reads the fields of one nested `ContractInfo` message into the values
/// read so far; `false` where the message is malformed or ill-typed.
fn merge_info_fields(
    inner: &[u8],
    code_id: &mut u64,
    admin: &mut String,
    label: &mut String,
    Ghost(seen): Ghost<Seq<(nat, nat, FieldValue)>>,
) -> (ok: bool)
    requires
        info_state(seen, *old(code_id), old(admin)@, old(label)@),
    ensures
        ok <==> (fields_of(inner@) matches Some(fs) && info_fields_ok(fs)),
        ok ==> info_state(seen + fields_of(inner@).unwrap(), *final(code_id), final(admin)@, final(label)@),
{
    let mut pos: usize = 0;
    let ghost mut prefix: Seq<(nat, nat, FieldValue)> = seq![];
    assert(inner@.skip(0) =~= inner@);
    assert(seen + prefix =~= seen);
    while pos < inner.len()
        invariant
            pos <= inner@.len(),
            forall|rest: Seq<(nat, nat, FieldValue)>| fields_of(inner@.skip(pos as int)) == Some(rest)
                ==> fields_of(inner@) == Some(prefix + rest),
            fields_of(inner@.skip(pos as int)) is None ==> fields_of(inner@) is None,
            info_fields_ok(prefix),
            info_state(seen + prefix, *code_id, admin@, label@),
        decreases inner@.len() - pos,
    {
        let (tag, wt, p, q) = match read_field(inner, pos) {
            Some(f) => f,
            None => {
                return false;
            },
        };
        let ghost f = (tag as nat, wt as nat, field_value(inner@.skip(p as int), wt as nat));
        proof {
            assert forall|rest: Seq<(nat, nat, FieldValue)>| fields_of(inner@.skip(q as int)) == Some(rest)
                implies fields_of(inner@) == Some(prefix.push(f) + rest) by {
                assert(prefix + (seq![f] + rest) =~= prefix.push(f) + rest);
            }
        }
        let ghost bad = (tag == 1 && wt != 0) || ((tag == 3 || tag == 4) && wt != 2);
        if (tag == 1 && wt != 0) || ((tag == 3 || tag == 4) && wt != 2) {
            proof {
                if let Some(all) = fields_of(inner@) {
                    if let Some(rest) = fields_of(inner@.skip(q as int)) {
                        assert(all == prefix.push(f) + rest);
                        assert(all[prefix.len() as int] == f);
                    }
                }
            }
            return false;
        }
        if tag == 1 {
            match read_varint(inner, p) {
                Some((v, _)) => {
                    *code_id = v;
                },
                None => {
                    return false;
                },
            }
        } else if tag == 3 || tag == 4 {
            let start = bytes_start(inner, p, q);
            let bytes = copy_range(inner, start, q);
            match string_from_utf8(bytes) {
                Some(text) => {
                    if tag == 3 {
                        *admin = text;
                    } else {
                        *label = text;
                    }
                },
                None => {
                    proof {
                        if let Some(all) = fields_of(inner@) {
                            if let Some(rest) = fields_of(inner@.skip(q as int)) {
                                assert(all == prefix.push(f) + rest);
                                assert(all[prefix.len() as int] == f);
                            }
                        }
                    }
                    return false;
                },
            }
        }
        proof {
            assert((seen + prefix).push(f) =~= seen + prefix.push(f));
            assert((seen + prefix).push(f).drop_last() =~= seen + prefix);
            assert(prefix.push(f).drop_last() =~= prefix);
            prefix = prefix.push(f);
        }
        pos = q;
    }
    proof {
        assert(inner@.skip(pos as int) =~= Seq::<u8>::empty());
        assert(prefix + seq![] =~= prefix);
    }
    true
}

/// Reads a contract-info query response into the metadata of the contract
/// at `address`.
pub fn decode_contract_info(data: &[u8], address: &str) -> (r: Result<ContractInfo, SdkError>)
    ensures
        match contract_info_entries(data@) {
            Some(entries) => r matches Ok(info) && info_matches(info, address@, entries),
            None => is_decode_failure(r),
        },
{
    let mut code_id: u64 = 0;
    let mut admin = String::new();
    let mut label = String::new();
    let mut pos: usize = 0;
    let ghost mut prefix: Seq<(nat, nat, FieldValue)> = seq![];
    let ghost mut seen: Seq<(nat, nat, FieldValue)> = seq![];
    proof {
        reveal_with_fuel(decode_utf8, 1);
    }
    assert(data@.skip(0) =~= data@);
    while pos < data.len()
        invariant
            pos <= data@.len(),
            forall|rest: Seq<(nat, nat, FieldValue)>| fields_of(data@.skip(pos as int)) == Some(rest)
                ==> fields_of(data@) == Some(prefix + rest),
            fields_of(data@.skip(pos as int)) is None ==> fields_of(data@) is None,
            info_fields(prefix) == Some(seen),
            info_state(seen, code_id, admin@, label@),
        decreases data@.len() - pos,
    {
        let (tag, wt, p, q) = match read_field(data, pos) {
            Some(f) => f,
            None => {
                return decode_failure();
            },
        };
        let ghost f = (tag as nat, wt as nat, field_value(data@.skip(p as int), wt as nat));
        proof {
            assert forall|rest: Seq<(nat, nat, FieldValue)>| fields_of(data@.skip(q as int)) == Some(rest)
                implies fields_of(data@) == Some(prefix.push(f) + rest) by {
                assert(prefix + (seq![f] + rest) =~= prefix.push(f) + rest);
            }
            assert(prefix.push(f).drop_last() =~= prefix);
        }
        if tag == 3 {
            let ghost failed = !(info_part(f) is Some);
            if wt != 2 {
                proof {
                    assert(info_fields(prefix.push(f)) is None);
                    if let Some(all) = fields_of(data@) {
                        if let Some(rest) = fields_of(data@.skip(q as int)) {
                            assert(all == prefix.push(f) + rest);
                            lemma_info_fields_concat(prefix.push(f), rest);
                        }
                    }
                }
                return decode_failure();
            }
            let start = bytes_start(data, p, q);
            let inner = copy_range(data, start, q);
            let ok = merge_info_fields(inner.as_slice(), &mut code_id, &mut admin, &mut label, Ghost(seen));
            if !ok {
                proof {
                    assert(info_part(f) is None);
                    assert(info_fields(prefix.push(f)) is None);
                    if let Some(all) = fields_of(data@) {
                        if let Some(rest) = fields_of(data@.skip(q as int)) {
                            assert(all == prefix.push(f) + rest);
                            lemma_info_fields_concat(prefix.push(f), rest);
                        }
                    }
                }
                return decode_failure();
            }
            proof {
                seen = seen + fields_of(inner@).unwrap();
            }
        }
        proof {
            prefix = prefix.push(f);
        }
        pos = q;
    }
    proof {
        assert(data@.skip(pos as int) =~= Seq::<u8>::empty());
        assert(prefix + seq![] =~= prefix);
    }
    let admin = if admin.as_str().is_empty() {
        None
    } else {
        Some(admin)
    };
    Ok(ContractInfo { address: own(address), code_id, admin, label })
}

/// A length-delimited field: its key, the payload's length, the payload.
pub open spec fn length_delimited(tag: nat, payload: Seq<u8>) -> Seq<u8> {
    varint_encoding(tag * 8 + 2) + varint_encoding(payload.len()) + payload
}

/// Appends the length-delimited field `tag` carrying `payload`.
pub(crate) fn push_length_delimited(out: &mut Vec<u8>, tag: u64, payload: &[u8])
    requires
        tag < 0x1000_0000,
    ensures
        final(out)@ == old(out)@ + length_delimited(tag as nat, payload@),
{
    push_varint(out, tag * 8 + 2);
    push_varint(out, payload.len() as u64);
    append_bytes(out, payload);
    assert(final(out)@ =~= old(out)@ + length_delimited(tag as nat, payload@));
}

/// The request of a smart query: the contract address (field 1) and the
/// JSON query (field 2).
pub fn encode_smart_query(contract: &str, query_data: &[u8]) -> (r: Vec<u8>)
    ensures
        r@ == length_delimited(1, encode_utf8(contract@)) + length_delimited(2, query_data@),
{
    let mut out: Vec<u8> = Vec::new();
    push_length_delimited(&mut out, 1, contract.as_bytes());
    push_length_delimited(&mut out, 2, query_data);
    assert(out@ =~= length_delimited(1, encode_utf8(contract@)) + length_delimited(2, query_data@));
    out
}

/// The request of a raw query: the contract address (field 1) and the
/// storage key (field 2).
pub fn encode_raw_query(contract: &str, key: &[u8]) -> (r: Vec<u8>)
    ensures
        r@ == length_delimited(1, encode_utf8(contract@)) + length_delimited(2, key@),
{
    encode_smart_query(contract, key)
}

/// The request of a contract-info query: the contract address (field 1).
pub fn encode_contract_info_query(contract: &str) -> (r: Vec<u8>)
    ensures
        r@ == length_delimited(1, encode_utf8(contract@)),
{
    let mut out: Vec<u8> = Vec::new();
    push_length_delimited(&mut out, 1, contract.as_bytes());
    assert(out@ =~= length_delimited(1, encode_utf8(contract@)));
    out
}

/// Reads the data of a raw contract-state response (the same layout as a
/// smart query's).
pub fn decode_raw_response(data: &[u8]) -> (r: Result<Vec<u8>, SdkError>)
    ensures
        match bytes_field_one(data@) {
            Some(d) => r matches Ok(v) && v@ == d,
            None => is_decode_failure(r),
        },
{
    decode_smart_response(data)
}

/// Reading a length-delimited field back gives its number and payload, and
/// then the fields of whatever follows it.
pub proof fn lemma_length_delimited_fields(tag: nat, payload: Seq<u8>, rest: Seq<u8>)
    requires
        1 <= tag < 0x1000_0000,
        payload.len() <= 0xffff_ffff_ffff_ffffnat,
    ensures
        fields_of(length_delimited(tag, payload) + rest) == match fields_of(rest) {
            Some(r) => Some(seq![(tag, 2nat, FieldValue::Bytes(payload))] + r),
            None => None::<Seq<(nat, nat, FieldValue)>>,
        },
{
    let k = tag * 8 + 2;
    let b = length_delimited(tag, payload) + rest;
    let after_key = varint_encoding(payload.len()) + payload + rest;
    assert(b =~= varint_encoding(k) + after_key);
    lemma_varint_roundtrip(k, after_key);
    let n1 = varint_encoding(k).len();
    assert(field_key(b) == Some((tag, 2nat, n1)));
    assert(b.skip(n1 as int) =~= after_key);
    lemma_varint_roundtrip(payload.len(), payload + rest);
    assert(after_key =~= varint_encoding(payload.len()) + (payload + rest));
    let n2 = varint_encoding(payload.len()).len();
    assert(skip_len(after_key, tag, 2, RECURSION_LIMIT as nat) == Some(n2 + payload.len()));
    assert(b.skip((n1 + n2 + payload.len()) as int) =~= rest);
    assert(after_key.subrange(n2 as int, (n2 + payload.len()) as int) =~= payload);
}

/// The request of a smart query reads back as the contract address in field
/// 1 and the query in field 2.
pub proof fn law_smart_query_reads_back(contract: Seq<char>, query_data: Seq<u8>)
    requires
        encode_utf8(contract).len() <= 0xffff_ffff_ffff_ffffnat,
        query_data.len() <= 0xffff_ffff_ffff_ffffnat,
    ensures
        fields_of(length_delimited(1, encode_utf8(contract)) + length_delimited(2, query_data)) == Some(
            seq![
                (1nat, 2nat, FieldValue::Bytes(encode_utf8(contract))),
                (2nat, 2nat, FieldValue::Bytes(query_data)),
            ],
        ),
{
    let second = length_delimited(2, query_data);
    assert(second + seq![] =~= second);
    assert(fields_of(Seq::<u8>::empty()) == Some(Seq::<(nat, nat, FieldValue)>::empty()));
    lemma_length_delimited_fields(2, query_data, seq![]);
    lemma_length_delimited_fields(1, encode_utf8(contract), second);
    assert(seq![(1nat, 2nat, FieldValue::Bytes(encode_utf8(contract)))] + (seq![
        (2nat, 2nat, FieldValue::Bytes(query_data)),
    ] + Seq::<(nat, nat, FieldValue)>::empty()) =~= seq![
        (1nat, 2nat, FieldValue::Bytes(encode_utf8(contract))),
        (2nat, 2nat, FieldValue::Bytes(query_data)),
    ]);
}

/// A response that carries `data` in field 1 reads back as exactly `data`.
pub proof fn law_response_reads_back(data: Seq<u8>)
    requires
        data.len() <= 0xffff_ffff_ffff_ffffnat,
    ensures
        bytes_field_one(length_delimited(1, data)) == Some(data),
{
    let b = length_delimited(1, data);
    assert(b + seq![] =~= b);
    assert(fields_of(Seq::<u8>::empty()) == Some(Seq::<(nat, nat, FieldValue)>::empty()));
    lemma_length_delimited_fields(1, data, seq![]);
    let fs = seq![(1nat, 2nat, FieldValue::Bytes(data))] + Seq::<(nat, nat, FieldValue)>::empty();
    assert(fs =~= seq![(1nat, 2nat, FieldValue::Bytes(data))]);
    assert(fs.drop_last() =~= Seq::<(nat, nat, FieldValue)>::empty());
}

} // verus!
