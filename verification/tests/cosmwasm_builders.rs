use morpheum_sdk::common::SdkError;
use morpheum_sdk::cosmwasm::{
    ExecuteContractBuilder, InstantiateContractBuilder, StoreCodeBuilder,
};
use morpheum_sdk::json::JsonValue;

#[test]
fn instantiate_builder_requires_each_field_in_order() {
    let err = InstantiateContractBuilder::new().build().unwrap_err();
    assert_eq!(err, SdkError::InvalidInput("sender is required".into()));
    let err = InstantiateContractBuilder::new().sender("s").build().unwrap_err();
    assert_eq!(err, SdkError::InvalidInput("code_id is required".into()));
    let err = InstantiateContractBuilder::new().sender("s").code_id(1).build().unwrap_err();
    assert_eq!(err, SdkError::InvalidInput("label is required".into()));
    let err = InstantiateContractBuilder::new().sender("s").code_id(1).label("l").build().unwrap_err();
    assert_eq!(err, SdkError::InvalidInput("msg is required".into()));
}

#[test]
fn instantiate_builder_msg_json_serialises() {
    let doc = JsonValue::Object(vec![("count".into(), JsonValue::Number(0))]);
    let req = InstantiateContractBuilder::new()
        .sender("morpheum1s")
        .code_id(7)
        .label("counter")
        .admin("morpheum1a")
        .msg_json(&doc)
        .unwrap()
        .add_funds("umorm", "10")
        .build()
        .unwrap();
    assert_eq!(req.msg, br#"{"count":0}"#.to_vec());
    assert_eq!(req.code_id, 7);
    assert_eq!(req.admin.as_deref(), Some("morpheum1a"));
    assert_eq!(req.funds.len(), 1);
    assert_eq!(req.funds[0].denom, "umorm");
}

#[test]
fn execute_builder_requires_fields_and_serialises() {
    let err = ExecuteContractBuilder::new().sender("s").build().unwrap_err();
    assert_eq!(err, SdkError::InvalidInput("contract is required".into()));
    let err = ExecuteContractBuilder::new().sender("s").contract("c").build().unwrap_err();
    assert_eq!(err, SdkError::InvalidInput("msg is required".into()));
    let doc = JsonValue::Object(vec![(
        "increment".into(),
        JsonValue::Object(vec![]),
    )]);
    let req = ExecuteContractBuilder::new()
        .sender("s")
        .contract("c")
        .msg_json(&doc)
        .unwrap()
        .build()
        .unwrap();
    assert_eq!(req.msg, br#"{"increment":{}}"#.to_vec());
    assert_eq!(req.contract, "c");
}

#[test]
fn store_code_builder_requires_fields() {
    assert!(StoreCodeBuilder::new().build().is_err());
    let req = StoreCodeBuilder::new().sender("s").wasm_byte_code(vec![0, 0x61, 0x73, 0x6d]).build().unwrap();
    assert_eq!(req.wasm_byte_code, vec![0, 0x61, 0x73, 0x6d]);
}
