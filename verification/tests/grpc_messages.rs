use morpheum_sdk::cosmwasm::grpc::{
    BroadcastTxRequest, BroadcastTxResponse, SmartContractStateRequest, SmartContractStateResponse,
    WireAny,
};
use morpheum_sdk::cosmwasm::types::CosmWasmError;
use morpheum_sdk::evm::types::EvmError;
use morpheum_sdk::gmp::relay::RelayError;

#[test]
fn wire_any_leaves_out_empty_fields() {
    let a = WireAny { type_url: "/x".into(), value: vec![7, 8] };
    assert_eq!(a.encode(), vec![0x0a, 2, b'/', b'x', 0x12, 2, 7, 8]);
    let empty = WireAny { type_url: String::new(), value: vec![] };
    assert!(empty.encode().is_empty());
}

#[test]
fn broadcast_request_encoding() {
    let req = BroadcastTxRequest {
        tx_bytes: vec![],
        mode: 0,
        dev_messages: vec![WireAny { type_url: "/a".into(), value: vec![1] }],
    };
    // field 99, wire type 2: key 794 = 0x9a 0x06
    assert_eq!(req.encode(), vec![0x9a, 0x06, 7, 0x0a, 2, b'/', b'a', 0x12, 1, 1]);

    let with_mode = BroadcastTxRequest { tx_bytes: vec![5], mode: 2, dev_messages: vec![] };
    assert_eq!(with_mode.encode(), vec![0x0a, 1, 5, 0x10, 2]);

    let negative = BroadcastTxRequest { tx_bytes: vec![], mode: -1, dev_messages: vec![] };
    let mut expected = vec![0x10];
    expected.extend_from_slice(&[0xff; 9]);
    expected.push(0x01);
    assert_eq!(negative.encode(), expected);

    let empty_any = BroadcastTxRequest {
        tx_bytes: vec![],
        mode: 0,
        dev_messages: vec![WireAny { type_url: String::new(), value: vec![] }],
    };
    assert_eq!(empty_any.encode(), vec![0x9a, 0x06, 0]);
}

#[test]
fn broadcast_response_decoding() {
    // tx_response { txhash: "AB", code: 3, data: [9], raw_log: "oops" }
    let inner = vec![0x12, 2, b'A', b'B', 0x20, 3, 0x2a, 1, 9, 0x32, 4, b'o', b'o', b'p', b's'];
    let mut reply = vec![0x0a, inner.len() as u8];
    reply.extend_from_slice(&inner);
    let t = BroadcastTxResponse::decode(&reply).unwrap().tx_response.unwrap();
    assert_eq!(t.txhash, "AB");
    assert_eq!(t.code, 3);
    assert_eq!(t.data, vec![9]);
    assert_eq!(t.raw_log, "oops");

    // A second occurrence of field 1 overrides the code only.
    let mut merged = reply.clone();
    merged.extend_from_slice(&[0x0a, 2, 0x20, 0]);
    let t = BroadcastTxResponse::decode(&merged).unwrap().tx_response.unwrap();
    assert_eq!(t.code, 0);
    assert_eq!(t.txhash, "AB");

    // An empty nested message is present; no field 1 is absent.
    assert!(BroadcastTxResponse::decode(&[0x0a, 0]).unwrap().tx_response.is_some());
    assert!(BroadcastTxResponse::decode(&[]).unwrap().tx_response.is_none());
    assert!(BroadcastTxResponse::decode(&[0x10, 5]).unwrap().tx_response.is_none());

    // The code keeps the low 32 bits of its varint.
    let big = [0x0a, 6, 0x20, 0x81, 0x80, 0x80, 0x80, 0x10];
    assert_eq!(BroadcastTxResponse::decode(&big).unwrap().tx_response.unwrap().code, 1);

    // Wrong wire type, invalid UTF-8 and truncation fail.
    assert!(BroadcastTxResponse::decode(&[0x08, 1]).is_err());
    assert!(BroadcastTxResponse::decode(&[0x0a, 3, 0x12, 1, 0xff]).is_err());
    assert!(BroadcastTxResponse::decode(&[0x0a, 5, 0x12]).is_err());
}

#[test]
fn smart_state_messages() {
    let req = SmartContractStateRequest { address: "c".into(), query_data: b"{}".to_vec() };
    assert_eq!(req.encode(), vec![0x0a, 1, b'c', 0x12, 2, b'{', b'}']);
    let empty = SmartContractStateRequest { address: String::new(), query_data: vec![] };
    assert!(empty.encode().is_empty());
    let resp = SmartContractStateResponse::decode(&[0x0a, 2, 1, 2, 0x0a, 1, 3]).unwrap();
    assert_eq!(resp.data, vec![3]);
    assert!(SmartContractStateResponse::decode(&[0x08, 1]).is_err());
}

#[test]
fn error_messages_name_their_kind() {
    assert_eq!(
        CosmWasmError::QueryFailed("x".into()).to_string(),
        "contract query failed: x"
    );
    assert_eq!(CosmWasmError::Transport("t".into()).to_string(), "transport error: t");
    assert_eq!(EvmError::Config("c".into()).to_string(), "configuration error: c");
    assert_eq!(EvmError::AddressParse("a".into()).to_string(), "address parse error: a");
    assert_eq!(RelayError::Grpc("g".into()).to_string(), "Morpheum gRPC error: g");
    assert_eq!(RelayError::Validation("v".into()).to_string(), "message validation: v");
}
