//! CosmWasm SDK request types, encoded as the JSON documents that the
//! Morpheum CosmWasm actor reads.
use vstd::prelude::*;
use crate::common::{own, ProtoAny};
use crate::json::{
    json_array, json_byte_array, json_bytes, json_members, json_models, json_object, json_opt_str,
    json_str, json_text, json_to_vec, lemma_first_member_at, member, member_names, push_element, push_member, new_members, new_elements, JsonModel, JsonValue,
};

verus! {

/// Request to store a new WASM code blob on Morpheum.
#[derive(Clone, Debug)]
pub struct StoreCodeRequest {
    pub sender: String,
    pub wasm_byte_code: Vec<u8>,
}

/// A Cosmos SDK coin for the funds field.
#[derive(Clone, Debug)]
pub struct CoinProto {
    pub denom: String,
    pub amount: String,
}

/// Request to instantiate a CosmWasm contract from stored code.
#[derive(Clone, Debug)]
pub struct InstantiateContractRequest {
    pub sender: String,
    pub admin: Option<String>,
    pub code_id: u64,
    pub label: String,
    pub msg: Vec<u8>,
    pub funds: Vec<CoinProto>,
}

/// Request to execute a CosmWasm contract.
#[derive(Clone, Debug)]
pub struct ExecuteContractRequest {
    pub sender: String,
    pub contract: String,
    pub msg: Vec<u8>,
    pub funds: Vec<CoinProto>,
}

/// Request to query smart contract state (JSON query, JSON response).
#[derive(Clone, Debug)]
pub struct QuerySmartRequest {
    pub contract: String,
    pub query_data: Vec<u8>,
}

/// Request to query raw contract state by key.
#[derive(Clone, Debug)]
pub struct QueryRawRequest {
    pub contract: String,
    pub key: Vec<u8>,
}

/// The JSON object `{"denom": .., "amount": ..}` of one coin.
pub open spec fn coin_doc(c: CoinProto) -> JsonModel {
    JsonModel::Object(seq![("denom"@, JsonModel::String(c.denom@)), ("amount"@, JsonModel::String(c.amount@))])
}

/// The JSON array of the coins of `funds`.
pub open spec fn funds_doc(funds: Seq<CoinProto>) -> JsonModel {
    JsonModel::Array(Seq::new(funds.len(), |i: int| coin_doc(funds[i])))
}

/// The JSON document of a `MsgStoreCode`.
pub open spec fn store_code_doc(r: StoreCodeRequest) -> JsonModel {
    JsonModel::Object(seq![
        ("sender"@, JsonModel::String(r.sender@)),
        ("wasm_byte_code"@, json_byte_array(r.wasm_byte_code@)),
    ])
}

/// The JSON document of a `MsgInstantiateContract`.
pub open spec fn instantiate_doc(r: InstantiateContractRequest) -> JsonModel {
    JsonModel::Object(seq![
        ("sender"@, JsonModel::String(r.sender@)),
        ("admin"@, match r.admin {
            Some(a) => JsonModel::String(a@),
            None => JsonModel::Null,
        }),
        ("code_id"@, JsonModel::Number(r.code_id)),
        ("label"@, JsonModel::String(r.label@)),
        ("msg"@, json_byte_array(r.msg@)),
        ("funds"@, funds_doc(r.funds@)),
    ])
}

/// The JSON document of a `MsgExecuteContract`.
pub open spec fn execute_doc(r: ExecuteContractRequest) -> JsonModel {
    JsonModel::Object(seq![
        ("sender"@, JsonModel::String(r.sender@)),
        ("contract"@, JsonModel::String(r.contract@)),
        ("msg"@, json_byte_array(r.msg@)),
        ("funds"@, funds_doc(r.funds@)),
    ])
}

/// The JSON array of `funds`, each coin an object with its denom and amount.
pub fn funds_json(funds: &Vec<CoinProto>) -> (r: JsonValue)
    ensures
        r@ == funds_doc(funds@),
{
    let mut elems = new_elements();
    let n = funds.len();
    let mut i: usize = 0;
    while i < n
        invariant
            n == funds@.len(),
            i <= n,
            json_models(elems@) =~= Seq::new(i as nat, |j: int| coin_doc(funds@[j])),
        decreases n - i,
    {
        let mut members = new_members();
        push_member(&mut members, "denom", JsonValue::String(funds[i].denom.clone()));
        push_member(&mut members, "amount", JsonValue::String(funds[i].amount.clone()));
        assert(json_members(members@) =~= seq![("denom"@, JsonModel::String(funds@[i as int].denom@)), ("amount"@, JsonModel::String(funds@[i as int].amount@))]);
        push_element(&mut elems, json_object(members));
        i = i + 1;
        assert(json_models(elems@) =~= Seq::new(i as nat, |j: int| coin_doc(funds@[j])));
    }
    json_array(elems)
}

impl StoreCodeRequest {
    /// Encodes as `/cosmwasm.wasm.v1.MsgStoreCode` in the JSON wire format that
    /// the Morpheum CosmWasm actor deserialises.
    pub fn to_any(&self) -> (r: ProtoAny)
        ensures
            r.type_url@ == "/cosmwasm.wasm.v1.MsgStoreCode"@,
            r.value@ == json_text(store_code_doc(*self)),
    {
        let mut m = new_members();
        push_member(&mut m, "sender", JsonValue::String(self.sender.clone()));
        push_member(&mut m, "wasm_byte_code", json_bytes(self.wasm_byte_code.as_slice()));
        assert(json_members(m@) =~= seq![
            ("sender"@, JsonModel::String(self.sender@)),
            ("wasm_byte_code"@, json_byte_array(self.wasm_byte_code@)),
        ]);
        let doc = json_object(m);
        ProtoAny { type_url: own("/cosmwasm.wasm.v1.MsgStoreCode"), value: json_to_vec(&doc) }
    }
}

impl InstantiateContractRequest {
    /// Encodes as `/cosmwasm.wasm.v1.MsgInstantiateContract` (JSON wire format).
    pub fn to_any(&self) -> (r: ProtoAny)
        ensures
            r.type_url@ == "/cosmwasm.wasm.v1.MsgInstantiateContract"@,
            r.value@ == json_text(instantiate_doc(*self)),
    {
        let mut m = new_members();
        push_member(&mut m, "sender", JsonValue::String(self.sender.clone()));
        push_member(&mut m, "admin", json_opt_str(&self.admin));
        push_member(&mut m, "code_id", JsonValue::Number(self.code_id));
        push_member(&mut m, "label", JsonValue::String(self.label.clone()));
        push_member(&mut m, "msg", json_bytes(self.msg.as_slice()));
        push_member(&mut m, "funds", funds_json(&self.funds));
        assert(json_members(m@) =~= seq![
            ("sender"@, JsonModel::String(self.sender@)),
            ("admin"@, match self.admin {
                Some(a) => JsonModel::String(a@),
                None => JsonModel::Null,
            }),
            ("code_id"@, JsonModel::Number(self.code_id)),
            ("label"@, JsonModel::String(self.label@)),
            ("msg"@, json_byte_array(self.msg@)),
            ("funds"@, funds_doc(self.funds@)),
        ]);
        let doc = json_object(m);
        ProtoAny { type_url: own("/cosmwasm.wasm.v1.MsgInstantiateContract"), value: json_to_vec(&doc) }
    }
}

impl ExecuteContractRequest {
    /// Encodes as `/cosmwasm.wasm.v1.MsgExecuteContract` (JSON wire format).
    pub fn to_any(&self) -> (r: ProtoAny)
        ensures
            r.type_url@ == "/cosmwasm.wasm.v1.MsgExecuteContract"@,
            r.value@ == json_text(execute_doc(*self)),
    {
        let mut m = new_members();
        push_member(&mut m, "sender", JsonValue::String(self.sender.clone()));
        push_member(&mut m, "contract", JsonValue::String(self.contract.clone()));
        push_member(&mut m, "msg", json_bytes(self.msg.as_slice()));
        push_member(&mut m, "funds", funds_json(&self.funds));
        assert(json_members(m@) =~= seq![
            ("sender"@, JsonModel::String(self.sender@)),
            ("contract"@, JsonModel::String(self.contract@)),
            ("msg"@, json_byte_array(self.msg@)),
            ("funds"@, funds_doc(self.funds@)),
        ]);
        let doc = json_object(m);
        ProtoAny { type_url: own("/cosmwasm.wasm.v1.MsgExecuteContract"), value: json_to_vec(&doc) }
    }
}

/// A coin is an object with exactly the members `denom` and `amount`, its two texts.
pub proof fn law_coin_doc(c: CoinProto)
    ensures
        member_names(coin_doc(c)) == seq!["denom"@, "amount"@],
        member(coin_doc(c), "denom"@) == Some(JsonModel::String(c.denom@)),
        member(coin_doc(c), "amount"@) == Some(JsonModel::String(c.amount@)),
{
    reveal_strlit("denom");
    reveal_strlit("amount");
    let ms = match coin_doc(c) {
        JsonModel::Object(ms) => ms,
        _ => seq![],
    };
    assert(member_names(coin_doc(c)) =~= seq!["denom"@, "amount"@]);
    lemma_first_member_at(ms, 0);
    assert(ms[0].0 != ms[1].0) by {
        assert(ms[0].0 == "denom"@ && ms[1].0 == "amount"@);
        assert("denom"@.len() != "amount"@.len());
    }
    lemma_first_member_at(ms, 1);
}

/// A `MsgStoreCode` document has exactly the members `sender` and `wasm_byte_code` (the code as an array of byte numbers).
pub proof fn law_store_code_doc(r: StoreCodeRequest)
    ensures
        member_names(store_code_doc(r)) == seq!["sender"@, "wasm_byte_code"@],
        member(store_code_doc(r), "sender"@) == Some(JsonModel::String(r.sender@)),
        member(store_code_doc(r), "wasm_byte_code"@) == Some(json_byte_array(r.wasm_byte_code@)),
{
    reveal_strlit("sender");
    reveal_strlit("wasm_byte_code");
    let ms = match store_code_doc(r) {
        JsonModel::Object(ms) => ms,
        _ => seq![],
    };
    assert(member_names(store_code_doc(r)) =~= seq!["sender"@, "wasm_byte_code"@]);
    lemma_first_member_at(ms, 0);
    assert(ms[0].0 != ms[1].0) by {
        assert(ms[0].0 == "sender"@ && ms[1].0 == "wasm_byte_code"@);
        assert("sender"@.len() != "wasm_byte_code"@.len());
    }
    lemma_first_member_at(ms, 1);
}

/// A `MsgInstantiateContract` document has exactly the members `sender`, `admin` (`null` where unset), `code_id`, `label`, `msg` (an array of byte numbers) and `funds`.
pub proof fn law_instantiate_doc(r: InstantiateContractRequest)
    ensures
        member_names(instantiate_doc(r)) == seq!["sender"@, "admin"@, "code_id"@, "label"@, "msg"@, "funds"@],
        member(instantiate_doc(r), "sender"@) == Some(JsonModel::String(r.sender@)),
        member(instantiate_doc(r), "admin"@) == Some((match r.admin { Some(a) => JsonModel::String(a@), None => JsonModel::Null })),
        member(instantiate_doc(r), "code_id"@) == Some(JsonModel::Number(r.code_id)),
        member(instantiate_doc(r), "label"@) == Some(JsonModel::String(r.label@)),
        member(instantiate_doc(r), "msg"@) == Some(json_byte_array(r.msg@)),
        member(instantiate_doc(r), "funds"@) == Some(funds_doc(r.funds@)),
{
    reveal_strlit("sender");
    reveal_strlit("admin");
    reveal_strlit("code_id");
    reveal_strlit("label");
    reveal_strlit("msg");
    reveal_strlit("funds");
    let ms = match instantiate_doc(r) {
        JsonModel::Object(ms) => ms,
        _ => seq![],
    };
    assert(member_names(instantiate_doc(r)) =~= seq!["sender"@, "admin"@, "code_id"@, "label"@, "msg"@, "funds"@]);
    lemma_first_member_at(ms, 0);
    assert(ms[0].0 != ms[1].0) by {
        assert(ms[0].0 == "sender"@ && ms[1].0 == "admin"@);
        assert("sender"@.len() != "admin"@.len());
    }
    lemma_first_member_at(ms, 1);
    assert(ms[0].0 != ms[2].0) by {
        assert(ms[0].0 == "sender"@ && ms[2].0 == "code_id"@);
        assert("sender"@.len() != "code_id"@.len());
    }
    assert(ms[1].0 != ms[2].0) by {
        assert(ms[1].0 == "admin"@ && ms[2].0 == "code_id"@);
        assert("admin"@.len() != "code_id"@.len());
    }
    lemma_first_member_at(ms, 2);
    assert(ms[0].0 != ms[3].0) by {
        assert(ms[0].0 == "sender"@ && ms[3].0 == "label"@);
        assert("sender"@.len() != "label"@.len());
    }
    assert(ms[1].0 != ms[3].0) by {
        assert(ms[1].0 == "admin"@ && ms[3].0 == "label"@);
        assert("admin"@[0] != "label"@[0]);
    }
    assert(ms[2].0 != ms[3].0) by {
        assert(ms[2].0 == "code_id"@ && ms[3].0 == "label"@);
        assert("code_id"@.len() != "label"@.len());
    }
    lemma_first_member_at(ms, 3);
    assert(ms[0].0 != ms[4].0) by {
        assert(ms[0].0 == "sender"@ && ms[4].0 == "msg"@);
        assert("sender"@.len() != "msg"@.len());
    }
    assert(ms[1].0 != ms[4].0) by {
        assert(ms[1].0 == "admin"@ && ms[4].0 == "msg"@);
        assert("admin"@.len() != "msg"@.len());
    }
    assert(ms[2].0 != ms[4].0) by {
        assert(ms[2].0 == "code_id"@ && ms[4].0 == "msg"@);
        assert("code_id"@.len() != "msg"@.len());
    }
    assert(ms[3].0 != ms[4].0) by {
        assert(ms[3].0 == "label"@ && ms[4].0 == "msg"@);
        assert("label"@.len() != "msg"@.len());
    }
    lemma_first_member_at(ms, 4);
    assert(ms[0].0 != ms[5].0) by {
        assert(ms[0].0 == "sender"@ && ms[5].0 == "funds"@);
        assert("sender"@.len() != "funds"@.len());
    }
    assert(ms[1].0 != ms[5].0) by {
        assert(ms[1].0 == "admin"@ && ms[5].0 == "funds"@);
        assert("admin"@[0] != "funds"@[0]);
    }
    assert(ms[2].0 != ms[5].0) by {
        assert(ms[2].0 == "code_id"@ && ms[5].0 == "funds"@);
        assert("code_id"@.len() != "funds"@.len());
    }
    assert(ms[3].0 != ms[5].0) by {
        assert(ms[3].0 == "label"@ && ms[5].0 == "funds"@);
        assert("label"@[0] != "funds"@[0]);
    }
    assert(ms[4].0 != ms[5].0) by {
        assert(ms[4].0 == "msg"@ && ms[5].0 == "funds"@);
        assert("msg"@.len() != "funds"@.len());
    }
    lemma_first_member_at(ms, 5);
}

/// A `MsgExecuteContract` document has exactly the members `sender`, `contract`, `msg` (an array of byte numbers) and `funds`.
pub proof fn law_execute_doc(r: ExecuteContractRequest)
    ensures
        member_names(execute_doc(r)) == seq!["sender"@, "contract"@, "msg"@, "funds"@],
        member(execute_doc(r), "sender"@) == Some(JsonModel::String(r.sender@)),
        member(execute_doc(r), "contract"@) == Some(JsonModel::String(r.contract@)),
        member(execute_doc(r), "msg"@) == Some(json_byte_array(r.msg@)),
        member(execute_doc(r), "funds"@) == Some(funds_doc(r.funds@)),
{
    reveal_strlit("sender");
    reveal_strlit("contract");
    reveal_strlit("msg");
    reveal_strlit("funds");
    let ms = match execute_doc(r) {
        JsonModel::Object(ms) => ms,
        _ => seq![],
    };
    assert(member_names(execute_doc(r)) =~= seq!["sender"@, "contract"@, "msg"@, "funds"@]);
    lemma_first_member_at(ms, 0);
    assert(ms[0].0 != ms[1].0) by {
        assert(ms[0].0 == "sender"@ && ms[1].0 == "contract"@);
        assert("sender"@.len() != "contract"@.len());
    }
    lemma_first_member_at(ms, 1);
    assert(ms[0].0 != ms[2].0) by {
        assert(ms[0].0 == "sender"@ && ms[2].0 == "msg"@);
        assert("sender"@.len() != "msg"@.len());
    }
    assert(ms[1].0 != ms[2].0) by {
        assert(ms[1].0 == "contract"@ && ms[2].0 == "msg"@);
        assert("contract"@.len() != "msg"@.len());
    }
    lemma_first_member_at(ms, 2);
    assert(ms[0].0 != ms[3].0) by {
        assert(ms[0].0 == "sender"@ && ms[3].0 == "funds"@);
        assert("sender"@.len() != "funds"@.len());
    }
    assert(ms[1].0 != ms[3].0) by {
        assert(ms[1].0 == "contract"@ && ms[3].0 == "funds"@);
        assert("contract"@.len() != "funds"@.len());
    }
    assert(ms[2].0 != ms[3].0) by {
        assert(ms[2].0 == "msg"@ && ms[3].0 == "funds"@);
        assert("msg"@.len() != "funds"@.len());
    }
    lemma_first_member_at(ms, 3);
}

/// The funds are an array with one coin document per coin, in order.
pub proof fn law_funds_doc(funds: Seq<CoinProto>)
    ensures
        funds_doc(funds) matches JsonModel::Array(a) && a.len() == funds.len() && forall|i: int|
            0 <= i < funds.len() ==> #[trigger] a[i] == coin_doc(funds[i]),
{
}

} // verus!
