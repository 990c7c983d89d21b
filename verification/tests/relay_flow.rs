use morpheum_sdk::gmp::relay::{
    decode_root_hex, hook_state_from, inbound_process_message, mailbox_nonce_from,
    outbound_message, outbound_process_call, process_calldata, read_hook_state,
    read_mailbox_nonce, RelayError,
};
use morpheum_sdk::evm::cctp::{bridge_initiated_topic, cctp_bridge_result};
use morpheum_sdk::evm::types::EvmLog;
use sha3::{Digest, Keccak256};

fn keccak(data: &[u8]) -> [u8; 32] {
    Keccak256::digest(data).into()
}

#[test]
fn mailbox_nonce_is_read_from_response() {
    assert_eq!(read_mailbox_nonce(br#"{"nonce":5}"#).unwrap(), 5);
    assert_eq!(
        read_mailbox_nonce(br#"{"other":5}"#).unwrap_err(),
        RelayError::Grpc("nonce not found in response".into())
    );
    assert_eq!(
        read_mailbox_nonce(br#"{"nonce":"5"}"#).unwrap_err(),
        RelayError::Grpc("nonce not found in response".into())
    );
    match read_mailbox_nonce(b"not json").unwrap_err() {
        RelayError::Grpc(m) => assert!(m.starts_with("parse nonce response: ")),
        other => panic!("unexpected error {other:?}"),
    }
    assert_eq!(mailbox_nonce_from(Ok(Some(7))).unwrap(), 7);
    assert_eq!(
        mailbox_nonce_from(Err("eof".into())).unwrap_err(),
        RelayError::Grpc("parse nonce response: eof".into())
    );
}

#[test]
fn hook_state_is_read_in_order() {
    let root_hex = "ab".repeat(32);
    let root_resp = format!(r#"{{"root":"{root_hex}"}}"#);
    let (root, count) = read_hook_state(root_resp.as_bytes(), br#"{"count":12}"#).unwrap();
    assert_eq!(root, [0xabu8; 32]);
    assert_eq!(count, 12);

    assert_eq!(
        read_hook_state(br#"{"x":1}"#, br#"{"count":12}"#).unwrap_err(),
        RelayError::Grpc("root not found".into())
    );
    assert_eq!(
        read_hook_state(root_resp.as_bytes(), br#"{}"#).unwrap_err(),
        RelayError::Grpc("count not found".into())
    );
    assert_eq!(
        hook_state_from(Err("a".into()), Err("b".into())).unwrap_err(),
        RelayError::Grpc("parse root: a".into())
    );
    assert_eq!(
        hook_state_from(Ok(None), Err("b".into())).unwrap_err(),
        RelayError::Grpc("parse count: b".into())
    );
    assert_eq!(
        read_hook_state(br#"{"root":"zz"}"#, br#"{"count":1}"#).unwrap_err(),
        RelayError::Grpc("decode root hex: Invalid string length".into())
    );
}

#[test]
fn root_hex_decoding_accepts_both_cases() {
    let mixed = format!("{}{}", "AbCd".repeat(8), "0123456789abcdef".repeat(2));
    let b = decode_root_hex(&mixed).unwrap();
    assert_eq!(b[0], 0xab);
    assert_eq!(b[1], 0xcd);
    assert_eq!(b[16], 0x01);
    assert_eq!(b[31], 0xef);
    assert_eq!(
        decode_root_hex("abc").unwrap_err(),
        RelayError::Grpc("decode root hex: Odd number of digits".into())
    );
    assert_eq!(
        decode_root_hex(&"g".repeat(64)).unwrap_err(),
        RelayError::Grpc("decode root hex: Invalid character 'g' at position 0".into())
    );
}

#[test]
fn outbound_message_layout() {
    let recipient = [0x44u8; 32];
    let m = outbound_message(9, 1000, [0x11; 20], 1, [0x22; 20], &recipient, 1_000_000);
    assert_eq!(m.len(), 77 + 64);
    assert_eq!(m[0], 3);
    assert_eq!(&m[1..5], &9u32.to_be_bytes());
    assert_eq!(&m[5..9], &1000u32.to_be_bytes());
    assert_eq!(&m[9..21], &[0u8; 12]);
    assert_eq!(&m[21..41], &[0x11u8; 20]);
    assert_eq!(&m[41..45], &1u32.to_be_bytes());
    assert_eq!(&m[57..77], &[0x22u8; 20]);
    assert_eq!(&m[77..109], &recipient);
    assert_eq!(&m[133..141], &1_000_000u64.to_be_bytes());
}

#[test]
fn outbound_process_call_uses_previous_nonce_and_leaf() {
    let recipient = [0x44u8; 32];
    let root = [0x55u8; 32];
    let (metadata, message) = outbound_process_call(
        10, 4, &root, [0x66; 20], [0x11; 20], [0x22; 20], 1000, 1, &recipient, 7, &[1u8; 32],
    )
    .unwrap();
    assert_eq!(&message[1..5], &9u32.to_be_bytes());
    assert_eq!(metadata.len(), 32 + 32 + 4 + 65);
    assert_eq!(&metadata[12..32], &[0x66u8; 20]);
    assert_eq!(&metadata[32..64], &root);
    assert_eq!(&metadata[64..68], &3u32.to_be_bytes());
    assert!(metadata[132] == 27 || metadata[132] == 28);

    let (_, first) = outbound_process_call(
        0, 0, &root, [0x66; 20], [0x11; 20], [0x22; 20], 1000, 1, &recipient, 7, &[1u8; 32],
    )
    .unwrap();
    assert_eq!(&first[1..5], &0u32.to_be_bytes());
    assert_eq!(
        outbound_process_call(
            1, 1, &root, [0x66; 20], [0x11; 20], [0x22; 20], 1000, 1, &recipient, 7, &[0u8; 32],
        )
        .unwrap_err(),
        RelayError::Signing("invalid validator key: signature error".into())
    );
}

#[test]
fn inbound_process_message_checks_length_and_builds_json() {
    let short = vec![0u8; 76];
    assert_eq!(
        inbound_process_message(&short, &[1u8; 32], 1, [0x11; 20], &[0x22; 32], 0).unwrap_err(),
        RelayError::Validation("Hyperlane message too short: 76 bytes".into())
    );
    let msg = vec![0xabu8; 77];
    let json = inbound_process_message(&msg, &[1u8; 32], 1, [0x11; 20], &[0x22; 32], 0).unwrap();
    let text = String::from_utf8(json).unwrap();
    assert!(text.starts_with(r#"{"process":{"#));
    assert!(text.contains(r#""metadata":""#));
    assert!(text.contains(&format!(r#""message":"{}""#, "ab".repeat(77))));
}

#[test]
fn process_calldata_is_abi_encoded() {
    let metadata = vec![0x01u8; 133];
    let message = vec![0x02u8; 141];
    let data = process_calldata(&metadata, &message);
    assert_eq!(&data[0..4], &keccak(b"process(bytes,bytes)")[0..4]);
    assert_eq!(data[35], 64);
    let second = u64::from_be_bytes(data[60..68].try_into().unwrap());
    assert_eq!(second, 64 + 32 + 160);
    assert_eq!(data[4 + 64 + 31], 133);
    assert_eq!(&data[4 + 96..4 + 96 + 133], &metadata[..]);
    assert_eq!(&data[4 + 96 + 133..4 + 96 + 160], &[0u8; 27]);
    assert_eq!(data.len(), 4 + 64 + 32 + 160 + 32 + 160);
    assert_eq!(data[4 + 256 + 31], 141);
}

#[test]
fn cctp_bridge_result_reads_bridge_initiated() {
    let topic = keccak(b"BridgeInitiated(address,bytes32,uint256,uint64,bytes32)");
    assert_eq!(bridge_initiated_topic(), topic);
    let mut data = vec![0u8; 96];
    data[31] = 100;
    data[63] = 42;
    data[62] = 1;
    data[64..96].copy_from_slice(&[9u8; 32]);
    let short = EvmLog { topics: vec![topic, [1; 32]], data: data.clone() };
    let full = EvmLog { topics: vec![topic, [1; 32], [2; 32]], data };
    let r = cctp_bridge_result([7u8; 32], &vec![short.clone(), full]);
    assert_eq!(r.tx_hash, [7u8; 32]);
    assert_eq!(r.message_id, [9u8; 32]);
    assert_eq!(r.cctp_nonce, Some(298));
    let none = cctp_bridge_result([7u8; 32], &vec![short]);
    assert_eq!(none.message_id, [7u8; 32]);
    assert_eq!(none.cctp_nonce, None);
}

#[test]
fn hex_encoded_root_decodes_back() {
    use_hex_roundtrip([0x00, 0x7f, 0x80, 0xff]);
}

fn use_hex_roundtrip(prefix: [u8; 4]) {
    let mut b = [0x5au8; 32];
    b[..4].copy_from_slice(&prefix);
    let text = morpheum_sdk::cosmwasm::builder::hex_encode(&b);
    assert_eq!(decode_root_hex(&text).unwrap(), b);
}
