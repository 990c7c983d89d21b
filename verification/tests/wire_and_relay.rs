use morpheum_sdk::cosmwasm::grpc::{check_broadcast, execute_dev_message, TxResponse};
use morpheum_sdk::cosmwasm::query::{
    decode_contract_info, decode_raw_response, decode_smart_response, encode_contract_info_query,
    encode_raw_query, encode_smart_query,
};
use morpheum_sdk::cosmwasm::requests::CoinProto;
use morpheum_sdk::cosmwasm::types::CosmWasmError;
use morpheum_sdk::cosmwasm::wire::{push_varint, read_varint};
use morpheum_sdk::evm::bridge::{dispatch_id_topic, parse_dispatch_id};
use morpheum_sdk::evm::payments::{
    dispatch_result, payment_deadline, payment_result, signature_v, X402PayParams,
};
use morpheum_sdk::evm::types::EvmLog;
use morpheum_sdk::gmp::relay::{
    checkpoint_digest, find_dispatch_message, merkle_leaf_index, pad_address_to_32,
    sign_checkpoint, RelayError,
};
use morpheum_sdk::gmp::{
    HyperlaneParamsBuilder, SettleGmpPaymentBuilder, UpdateGmpParamsBuilder,
    WarpRouteConfigBuilder, WarpRouteTransferBuilder,
};
use morpheum_sdk::common::SdkError;
use k256::ecdsa::SigningKey;
use sha3::{Digest, Keccak256};

fn keccak(data: &[u8]) -> [u8; 32] {
    Keccak256::digest(data).into()
}

#[test]
fn varint_encodes_and_reads_back() {
    for v in [0u64, 1, 127, 128, 300, 16_384, u32::MAX as u64, u64::MAX] {
        let mut out = Vec::new();
        push_varint(&mut out, v);
        out.push(0xff);
        assert_eq!(read_varint(&out, 0), Some((v, out.len() - 1)));
    }
    let mut out = Vec::new();
    push_varint(&mut out, 300);
    assert_eq!(out, vec![0xac, 0x02]);
}

#[test]
fn varint_rejects_overlong_and_truncated() {
    assert_eq!(read_varint(&[0x80, 0x80], 0), None);
    let eleven = [0xffu8; 11];
    assert_eq!(read_varint(&eleven, 0), None);
    let mut ten = vec![0xffu8; 9];
    ten.push(0x02);
    assert_eq!(read_varint(&ten, 0), None);
}

#[test]
fn smart_query_request_layout() {
    let req = encode_smart_query("c", b"{}");
    assert_eq!(req, vec![0x0a, 0x01, b'c', 0x12, 0x02, b'{', b'}']);
    assert_eq!(encode_raw_query("c", b"k"), vec![0x0a, 0x01, b'c', 0x12, 0x01, b'k']);
    assert_eq!(encode_contract_info_query("ab"), vec![0x0a, 0x02, b'a', b'b']);
}

#[test]
fn smart_response_reads_field_one() {
    assert_eq!(decode_smart_response(&[0x0a, 0x03, b'a', b'b', b'c']).unwrap(), b"abc".to_vec());
    assert_eq!(decode_smart_response(&[]).unwrap(), Vec::<u8>::new());
    // An unknown varint field and a group are skipped; the last field 1 wins.
    let data = [0x0a, 0x01, b'x', 0x10, 0x05, 0x1b, 0x08, 0x01, 0x1c, 0x0a, 0x01, b'z'];
    assert_eq!(decode_raw_response(&data).unwrap(), b"z".to_vec());
}

#[test]
fn smart_response_rejects_malformed_input() {
    let failure = SdkError::Other("failed to decode Protobuf message".to_string());
    // truncated payload
    assert_eq!(decode_smart_response(&[0x0a, 0x05, b'a']), Err(failure.clone()));
    // field 1 as a varint
    assert_eq!(decode_smart_response(&[0x08, 0x01]), Err(failure.clone()));
    // field number zero
    assert_eq!(decode_smart_response(&[0x02, 0x00]), Err(failure.clone()));
    // wire type 7
    assert_eq!(decode_smart_response(&[0x0f]), Err(failure.clone()));
    // unmatched end group
    assert_eq!(decode_smart_response(&[0x0c]), Err(failure));
}

fn contract_info_response(code_id: u8, admin: &str, label: &str) -> Vec<u8> {
    let mut inner = vec![0x08, code_id];
    inner.push(0x1a);
    inner.push(admin.len() as u8);
    inner.extend_from_slice(admin.as_bytes());
    inner.push(0x22);
    inner.push(label.len() as u8);
    inner.extend_from_slice(label.as_bytes());
    let mut out = vec![0x0a, 0x04, b'a', b'd', b'd', b'r', 0x1a, inner.len() as u8];
    out.extend_from_slice(&inner);
    out
}

#[test]
fn contract_info_reads_nested_message() {
    let info = decode_contract_info(&contract_info_response(42, "admin", "counter"), "morm1xyz").unwrap();
    assert_eq!(info.address, "morm1xyz");
    assert_eq!(info.code_id, 42);
    assert_eq!(info.admin, Some("admin".to_string()));
    assert_eq!(info.label, "counter");

    let info = decode_contract_info(&contract_info_response(7, "", "x"), "morm1abc").unwrap();
    assert_eq!(info.admin, None);
    assert_eq!(info.code_id, 7);
}

#[test]
fn contract_info_rejects_invalid_utf8_label() {
    let mut data = contract_info_response(1, "a", "b");
    let last = data.len() - 1;
    data[last] = 0xff;
    assert!(decode_contract_info(&data, "morm1").is_err());
    assert!(decode_contract_info(&[0x1a, 0x02, 0x08], "morm1").is_err());
}

#[test]
fn execute_dev_message_is_json() {
    let funds = vec![CoinProto { denom: "umorm".into(), amount: "5".into() }];
    let any = execute_dev_message("morm1sender", "morm1contract", b"{}", funds);
    assert_eq!(any.type_url, "/cosmwasm.wasm.v1.MsgExecuteContract");
    let v: serde_json::Value = serde_json::from_slice(&any.value).unwrap();
    assert_eq!(v["sender"], "morm1sender");
    assert_eq!(v["contract"], "morm1contract");
    assert_eq!(v["msg"], serde_json::Value::Array(vec![123.into(), 125.into()]));
    assert_eq!(v["funds"][0]["denom"], "umorm");
    assert_eq!(v["funds"][0]["amount"], "5");
}

#[test]
fn broadcast_replies_are_checked() {
    assert_eq!(
        check_broadcast(None).unwrap_err(),
        CosmWasmError::ExecutionFailed("empty tx_response".into())
    );
    let failed = TxResponse { txhash: "AB".into(), code: 5, data: vec![], raw_log: "out of gas".into() };
    assert_eq!(
        check_broadcast(Some(failed)).unwrap_err(),
        CosmWasmError::ExecutionFailed("code=5, log=out of gas".into())
    );
    let ok = TxResponse { txhash: "CD".into(), code: 0, data: vec![1], raw_log: String::new() };
    assert_eq!(check_broadcast(Some(ok)).unwrap().txhash, "CD");
}

#[test]
fn dispatch_id_topic_is_keccak_of_signature() {
    assert_eq!(dispatch_id_topic(), keccak(b"DispatchId(bytes32)"));
}

#[test]
fn dispatch_id_found_in_logs() {
    let topic = dispatch_id_topic();
    let logs = vec![
        EvmLog { topics: vec![[9u8; 32]], data: vec![] },
        EvmLog { topics: vec![topic], data: vec![] },
        EvmLog { topics: vec![topic, [7u8; 32]], data: vec![] },
        EvmLog { topics: vec![topic, [8u8; 32]], data: vec![] },
    ];
    assert_eq!(parse_dispatch_id(&logs), Some([7u8; 32]));
    assert_eq!(parse_dispatch_id(&logs[..2].to_vec()), None);
}

#[test]
fn payment_pieces() {
    assert_eq!(payment_deadline(5), 1005);
    assert_eq!(signature_v(true), 28);
    assert_eq!(signature_v(false), 27);
    let params = X402PayParams {
        payment_id: [1u8; 32],
        target_agent_id: [2u8; 32],
        amount: [3u8; 32],
        memo: "m".into(),
        reply_channel: "r".into(),
        msg_value: [0u8; 32],
    };
    let topic = dispatch_id_topic();
    let logs = vec![EvmLog { topics: vec![topic, [6u8; 32]], data: vec![] }];
    let result = payment_result(&params, [4u8; 32], &logs);
    assert_eq!(result.payment_id, [1u8; 32]);
    assert_eq!(result.message_id, Some([6u8; 32]));
    assert_eq!(result.amount, [3u8; 32]);
    let fallback = dispatch_result(42, [5u8; 32], [3u8; 32], [4u8; 32], &vec![]);
    assert_eq!(fallback.message_id, [4u8; 32]);
    assert_eq!(fallback.destination, 42);
}

#[test]
fn checkpoint_digest_matches_hyperlane_layout() {
    let tree = pad_address_to_32([0x11u8; 20]);
    let root = [0x22u8; 32];
    let id = [0x33u8; 32];
    let mut d = 7u32.to_be_bytes().to_vec();
    d.extend_from_slice(&tree);
    d.extend_from_slice(b"HYPERLANE");
    let domain_hash = keccak(&d);
    let mut s = domain_hash.to_vec();
    s.extend_from_slice(&root);
    s.extend_from_slice(&9u32.to_be_bytes());
    s.extend_from_slice(&id);
    let signing_hash = keccak(&s);
    let mut e = b"\x19Ethereum Signed Message:\n32".to_vec();
    e.extend_from_slice(&signing_hash);
    assert_eq!(checkpoint_digest(7, &tree, &root, 9, &id), keccak(&e));
    assert_eq!(&tree[..12], &[0u8; 12]);
    assert_eq!(&tree[12..], &[0x11u8; 20]);
}

#[test]
fn checkpoint_signature_shape_and_invalid_key() {
    let tree = [0u8; 32];
    let sig = sign_checkpoint(&[1u8; 32], 1, &tree, &[2u8; 32], 3, &[4u8; 32]).unwrap();
    assert!(sig[64] == 27 || sig[64] == 28);
    assert_eq!(
        sign_checkpoint(&[0u8; 32], 1, &tree, &[2u8; 32], 3, &[4u8; 32]).unwrap_err(),
        RelayError::Signing("invalid validator key: signature error".into())
    );
}

#[test]
fn dispatch_message_found_and_checked() {
    let topic = keccak(b"Dispatch(address,uint32,bytes32,bytes)");
    let mut data = vec![0u8; 64];
    data[31] = 32;
    data[63] = 3;
    data.extend_from_slice(&[0xaa, 0xbb, 0xcc]);
    let logs = vec![EvmLog { topics: vec![topic], data }];
    assert_eq!(find_dispatch_message(&logs).unwrap(), vec![0xaa, 0xbb, 0xcc]);

    let mut bad = vec![0u8; 64];
    bad[31] = 32;
    bad[63] = 200;
    let logs = vec![EvmLog { topics: vec![topic], data: bad }];
    assert_eq!(
        find_dispatch_message(&logs).unwrap_err(),
        RelayError::Evm("malformed Dispatch event data".into())
    );
    assert_eq!(
        find_dispatch_message(&vec![]).unwrap_err(),
        RelayError::Evm("Dispatch event not found in tx receipt".into())
    );
    assert_eq!(merkle_leaf_index(0), 0);
    assert_eq!(merkle_leaf_index(10), 9);
}

#[test]
fn hyperlane_params_validation_messages() {
    let err = HyperlaneParamsBuilder::new().build().unwrap_err();
    assert_eq!(err, SdkError::InvalidInput("at least one validator is required".into()));

    let err = HyperlaneParamsBuilder::new()
        .add_validator(vec![1; 20])
        .add_validator(vec![1; 19])
        .build()
        .unwrap_err();
    assert_eq!(err, SdkError::InvalidInput("validator[1] must be exactly 20 bytes, got 19".into()));

    let err = HyperlaneParamsBuilder::new().add_validator(vec![1; 20]).threshold(2).build().unwrap_err();
    assert_eq!(err, SdkError::InvalidInput("threshold must be in 1..=1, got 2".into()));

    let err = HyperlaneParamsBuilder::new()
        .add_validator(vec![1; 20])
        .add_trusted_sender(vec![2; 31])
        .build()
        .unwrap_err();
    assert_eq!(err, SdkError::InvalidInput("trusted_sender[0] must be exactly 32 bytes, got 31".into()));

    let params = HyperlaneParamsBuilder::new()
        .add_validator(vec![1; 20])
        .add_validator(vec![2; 20])
        .add_domain(1, "eip155:1")
        .add_trusted_sender(vec![3; 32])
        .build()
        .unwrap();
    assert_eq!(params.threshold, 1);
    assert_eq!(params.domain_to_caip2.get(&1).unwrap(), "eip155:1");
}

#[test]
fn warp_route_config_reports_smallest_bad_domain() {
    let err = WarpRouteConfigBuilder::new().build().unwrap_err();
    assert_eq!(err, SdkError::InvalidInput("recipient_address is required".into()));

    let err = WarpRouteConfigBuilder::new().recipient_address(vec![0; 20]).build().unwrap_err();
    assert_eq!(err, SdkError::InvalidInput("recipient_address must be exactly 32 bytes, got 20".into()));

    let err = WarpRouteConfigBuilder::new()
        .recipient_address(vec![0; 32])
        .add_route(7, vec![0; 3], 1)
        .add_route(3, vec![0; 5], 1)
        .add_route(1, vec![0; 32], 1)
        .build()
        .unwrap_err();
    assert_eq!(
        err,
        SdkError::InvalidInput("route[3].collateral_address must be exactly 32 bytes, got 5".into())
    );

    let config = WarpRouteConfigBuilder::new()
        .recipient_address(vec![0; 32])
        .add_route(1, vec![9; 32], 4)
        .build()
        .unwrap();
    assert_eq!(config.routes.get(&1).unwrap().asset_index, 4);
}

#[test]
fn gmp_transfer_and_settlement_builders() {
    let err = WarpRouteTransferBuilder::new()
        .sender("morm1s")
        .destination_domain(1)
        .recipient(vec![0; 20])
        .build()
        .unwrap_err();
    assert_eq!(err, SdkError::InvalidInput("recipient must be exactly 32 bytes".into()));
    let req = WarpRouteTransferBuilder::new()
        .sender("morm1s")
        .destination_domain(1)
        .recipient(vec![0; 32])
        .asset_index(1)
        .amount("100")
        .build()
        .unwrap();
    assert_eq!(req.amount, "100");

    assert!(SettleGmpPaymentBuilder::new().protocol_id("hyperlane").build().is_err());
    let settle = SettleGmpPaymentBuilder::new().protocol_id("hyperlane").raw_envelope(vec![1]).build().unwrap();
    assert_eq!(settle.raw_envelope, vec![1]);

    let err = UpdateGmpParamsBuilder::new().build("morm1gov").unwrap_err();
    assert_eq!(err, SdkError::InvalidInput("at least one of hyperlane or warp_route must be set".into()));
    let config = WarpRouteConfigBuilder::new().recipient_address(vec![0; 32]).build().unwrap();
    let update = UpdateGmpParamsBuilder::new().warp_route(config).build("morm1gov").unwrap();
    assert_eq!(update.authority, "morm1gov");
    assert!(update.params.hyperlane.is_none());
}

#[test]
fn checkpoint_signature_matches_k256() {
    let key = [7u8; 32];
    let tree = pad_address_to_32([0x11u8; 20]);
    let digest = checkpoint_digest(5, &tree, &[2u8; 32], 3, &[4u8; 32]);
    let signing = SigningKey::from_bytes((&key).into()).unwrap();
    let (sig, rid) = signing.sign_prehash_recoverable(&digest).unwrap();
    let ours = sign_checkpoint(&key, 5, &tree, &[2u8; 32], 3, &[4u8; 32]).unwrap();
    assert_eq!(&ours[..64], &sig.to_bytes()[..]);
    assert_eq!(ours[64], rid.to_byte() + 27);
}
