//! Fluent builders for CosmWasm request types.
use vstd::prelude::*;
use crate::common::{fails_with, opt_view, own, require, SdkError};
use crate::cosmwasm::requests::{
    CoinProto, ExecuteContractRequest, InstantiateContractRequest, StoreCodeRequest,
};
use crate::json::{
    first_member, member, member_names,
    json_members, json_object, json_str, json_text, json_to_vec, new_members, push_member,
    JsonModel, JsonValue,
};

use crate::gmp::relay::{hex_decodes_to, is_lower_hex_text, law_hex_text_lowercase};

verus! {

/// Builder for `MsgStoreCode`.
pub struct StoreCodeBuilder {
    pub sender: Option<String>,
    pub wasm_byte_code: Option<Vec<u8>>,
}

impl StoreCodeBuilder {
    /// A builder with no field set.
    pub fn new() -> (r: Self)
        ensures
            r.sender is None,
            r.wasm_byte_code is None,
    {
        StoreCodeBuilder { sender: None, wasm_byte_code: None }
    }

    pub fn sender(self, sender: &str) -> (r: Self)
        ensures
            opt_view(r.sender) == Some(sender@),
            r.wasm_byte_code == self.wasm_byte_code,
    {
        StoreCodeBuilder { sender: Some(own(sender)), ..self }
    }

    pub fn wasm_byte_code(self, code: Vec<u8>) -> (r: Self)
        ensures
            r.sender == self.sender,
            r.wasm_byte_code == Some(code),
    {
        StoreCodeBuilder { wasm_byte_code: Some(code), ..self }
    }

    /// Builds the request; both fields are required.
    pub fn build(self) -> (r: Result<StoreCodeRequest, SdkError>)
        ensures
            self.sender is None ==> fails_with(r, "sender is required"@),
            self.sender is Some && self.wasm_byte_code is None ==> fails_with(r, "wasm_byte_code is required"@),
            self.sender is Some && self.wasm_byte_code is Some ==> r == Ok::<StoreCodeRequest, SdkError>(StoreCodeRequest {
                sender: self.sender.unwrap(),
                wasm_byte_code: self.wasm_byte_code.unwrap(),
            }),
    {
        let sender = require(self.sender, "sender is required")?;
        let wasm_byte_code = require(self.wasm_byte_code, "wasm_byte_code is required")?;
        Ok(StoreCodeRequest { sender, wasm_byte_code })
    }
}

/// Builder for `MsgInstantiateContract`.
pub struct InstantiateContractBuilder {
    pub sender: Option<String>,
    pub admin: Option<String>,
    pub code_id: Option<u64>,
    pub label: Option<String>,
    pub msg: Option<Vec<u8>>,
    pub funds: Vec<CoinProto>,
}

impl InstantiateContractBuilder {
    /// A builder with no field set and no funds.
    pub fn new() -> (r: Self)
        ensures
            r.sender is None,
            r.admin is None,
            r.code_id is None,
            r.label is None,
            r.msg is None,
            r.funds@.len() == 0,
    {
        InstantiateContractBuilder {
            sender: None,
            admin: None,
            code_id: None,
            label: None,
            msg: None,
            funds: Vec::new(),
        }
    }

    pub fn sender(self, sender: &str) -> (r: Self)
        ensures
            opt_view(r.sender) == Some(sender@),
            r == (InstantiateContractBuilder { sender: r.sender, ..self }),
    {
        InstantiateContractBuilder { sender: Some(own(sender)), ..self }
    }

    pub fn admin(self, admin: &str) -> (r: Self)
        ensures
            opt_view(r.admin) == Some(admin@),
            r == (InstantiateContractBuilder { admin: r.admin, ..self }),
    {
        InstantiateContractBuilder { admin: Some(own(admin)), ..self }
    }

    pub fn code_id(self, id: u64) -> (r: Self)
        ensures
            r == (InstantiateContractBuilder { code_id: Some(id), ..self }),
    {
        InstantiateContractBuilder { code_id: Some(id), ..self }
    }

    pub fn label(self, label: &str) -> (r: Self)
        ensures
            opt_view(r.label) == Some(label@),
            r == (InstantiateContractBuilder { label: r.label, ..self }),
    {
        InstantiateContractBuilder { label: Some(own(label)), ..self }
    }

    /// Sets the init message as raw JSON bytes.
    pub fn msg(self, msg: Vec<u8>) -> (r: Self)
        ensures
            r == (InstantiateContractBuilder { msg: Some(msg), ..self }),
    {
        InstantiateContractBuilder { msg: Some(msg), ..self }
    }

    /// Sets the message as the JSON serialisation of `value`.
    pub fn msg_json(self, value: &JsonValue) -> (r: Result<Self, SdkError>)
        ensures
            r matches Ok(b) && b.msg matches Some(m) && m@ == json_text(value@) && b == (InstantiateContractBuilder { msg: b.msg, ..self }),
    {
        let bytes = json_to_vec(value);
        Ok(InstantiateContractBuilder { msg: Some(bytes), ..self })
    }

    /// Attaches `amount` of `denom` to the instantiation.
    pub fn add_funds(self, denom: &str, amount: &str) -> (r: Self)
        ensures
            r.funds@.len() == self.funds@.len() + 1,
            r.funds@.drop_last() == self.funds@,
            r.funds@.last().denom@ == denom@,
            r.funds@.last().amount@ == amount@,
            r == (InstantiateContractBuilder { funds: r.funds, ..self }),
    {
        let mut b = self;
        b.funds.push(CoinProto { denom: own(denom), amount: own(amount) });
        assert(b.funds@.drop_last() =~= self.funds@);
        b
    }

    /// Builds the request; sender, code id, label and message are required.
    pub fn build(self) -> (r: Result<InstantiateContractRequest, SdkError>)
        ensures
            self.sender is None ==> fails_with(r, "sender is required"@),
            self.sender is Some && self.code_id is None ==> fails_with(r, "code_id is required"@),
            self.sender is Some && self.code_id is Some && self.label is None ==> fails_with(r, "label is required"@),
            self.sender is Some && self.code_id is Some && self.label is Some && self.msg is None ==> fails_with(r, "msg is required"@),
            self.sender is Some && self.code_id is Some && self.label is Some && self.msg is Some ==> r == Ok::<InstantiateContractRequest, SdkError>(InstantiateContractRequest {
                sender: self.sender.unwrap(),
                admin: self.admin,
                code_id: self.code_id.unwrap(),
                label: self.label.unwrap(),
                msg: self.msg.unwrap(),
                funds: self.funds,
            }),
    {
        let sender = require(self.sender, "sender is required")?;
        let code_id = require(self.code_id, "code_id is required")?;
        let label = require(self.label, "label is required")?;
        let msg = require(self.msg, "msg is required")?;
        Ok(InstantiateContractRequest { sender, admin: self.admin, code_id, label, msg, funds: self.funds })
    }
}

/// Builder for `MsgExecuteContract`.
pub struct ExecuteContractBuilder {
    pub sender: Option<String>,
    pub contract: Option<String>,
    pub msg: Option<Vec<u8>>,
    pub funds: Vec<CoinProto>,
}

impl ExecuteContractBuilder {
    /// A builder with no field set and no funds.
    pub fn new() -> (r: Self)
        ensures
            r.sender is None,
            r.contract is None,
            r.msg is None,
            r.funds@.len() == 0,
    {
        ExecuteContractBuilder { sender: None, contract: None, msg: None, funds: Vec::new() }
    }

    pub fn sender(self, sender: &str) -> (r: Self)
        ensures
            opt_view(r.sender) == Some(sender@),
            r == (ExecuteContractBuilder { sender: r.sender, ..self }),
    {
        ExecuteContractBuilder { sender: Some(own(sender)), ..self }
    }

    pub fn contract(self, contract: &str) -> (r: Self)
        ensures
            opt_view(r.contract) == Some(contract@),
            r == (ExecuteContractBuilder { contract: r.contract, ..self }),
    {
        ExecuteContractBuilder { contract: Some(own(contract)), ..self }
    }

    /// Sets the execute message as raw JSON bytes.
    pub fn msg(self, msg: Vec<u8>) -> (r: Self)
        ensures
            r == (ExecuteContractBuilder { msg: Some(msg), ..self }),
    {
        ExecuteContractBuilder { msg: Some(msg), ..self }
    }

    /// Sets the message as the JSON serialisation of `value`.
    pub fn msg_json(self, value: &JsonValue) -> (r: Result<Self, SdkError>)
        ensures
            r matches Ok(b) && b.msg matches Some(m) && m@ == json_text(value@) && b == (ExecuteContractBuilder { msg: b.msg, ..self }),
    {
        let bytes = json_to_vec(value);
        Ok(ExecuteContractBuilder { msg: Some(bytes), ..self })
    }

    /// Attaches `amount` of `denom` to the execution.
    pub fn add_funds(self, denom: &str, amount: &str) -> (r: Self)
        ensures
            r.funds@.len() == self.funds@.len() + 1,
            r.funds@.drop_last() == self.funds@,
            r.funds@.last().denom@ == denom@,
            r.funds@.last().amount@ == amount@,
            r == (ExecuteContractBuilder { funds: r.funds, ..self }),
    {
        let mut b = self;
        b.funds.push(CoinProto { denom: own(denom), amount: own(amount) });
        assert(b.funds@.drop_last() =~= self.funds@);
        b
    }

    /// Builds the request; sender, contract and message are required.
    pub fn build(self) -> (r: Result<ExecuteContractRequest, SdkError>)
        ensures
            self.sender is None ==> fails_with(r, "sender is required"@),
            self.sender is Some && self.contract is None ==> fails_with(r, "contract is required"@),
            self.sender is Some && self.contract is Some && self.msg is None ==> fails_with(r, "msg is required"@),
            self.sender is Some && self.contract is Some && self.msg is Some ==> r == Ok::<ExecuteContractRequest, SdkError>(ExecuteContractRequest {
                sender: self.sender.unwrap(),
                contract: self.contract.unwrap(),
                msg: self.msg.unwrap(),
                funds: self.funds,
            }),
    {
        let sender = require(self.sender, "sender is required")?;
        let contract = require(self.contract, "contract is required")?;
        let msg = require(self.msg, "msg is required")?;
        Ok(ExecuteContractRequest { sender, contract, msg, funds: self.funds })
    }
}

/// Builder for a Warp Route `transfer_remote` execute message.
///
/// Constructs a `MsgExecuteContract` targeting the CosmWasm Warp Route
/// contract with a `{"transfer_remote":{...}}` JSON payload.
pub struct WarpRouteTransferBuilder {
    pub sender: Option<String>,
    pub warp_route_contract: Option<String>,
    pub destination_domain: Option<u32>,
    pub recipient: Option<Vec<u8>>,
    pub amount: Option<String>,
}

/// The `{"transfer_remote": {"dest_domain", "recipient", "amount"}}` document.
pub open spec fn transfer_remote_doc(dest_domain: u32, recipient: Seq<u8>, amount: Seq<char>) -> JsonModel {
    JsonModel::Object(seq![
        ("transfer_remote"@, JsonModel::Object(seq![
            ("dest_domain"@, JsonModel::Number(dest_domain as u64)),
            ("recipient"@, JsonModel::String(hex_text(recipient))),
            ("amount"@, JsonModel::String(amount)),
        ])),
    ])
}

impl WarpRouteTransferBuilder {
    /// A builder with no field set.
    pub fn new() -> (r: Self)
        ensures
            r.sender is None,
            r.warp_route_contract is None,
            r.destination_domain is None,
            r.recipient is None,
            r.amount is None,
    {
        WarpRouteTransferBuilder {
            sender: None,
            warp_route_contract: None,
            destination_domain: None,
            recipient: None,
            amount: None,
        }
    }

    pub fn sender(self, sender: &str) -> (r: Self)
        ensures
            opt_view(r.sender) == Some(sender@),
            r == (WarpRouteTransferBuilder { sender: r.sender, ..self }),
    {
        WarpRouteTransferBuilder { sender: Some(own(sender)), ..self }
    }

    pub fn warp_route_contract(self, contract: &str) -> (r: Self)
        ensures
            opt_view(r.warp_route_contract) == Some(contract@),
            r == (WarpRouteTransferBuilder { warp_route_contract: r.warp_route_contract, ..self }),
    {
        WarpRouteTransferBuilder { warp_route_contract: Some(own(contract)), ..self }
    }

    pub fn destination_domain(self, domain: u32) -> (r: Self)
        ensures
            r == (WarpRouteTransferBuilder { destination_domain: Some(domain), ..self }),
    {
        WarpRouteTransferBuilder { destination_domain: Some(domain), ..self }
    }

    /// 32-byte canonical recipient address on the destination chain.
    pub fn recipient(self, recipient: Vec<u8>) -> (r: Self)
        ensures
            r == (WarpRouteTransferBuilder { recipient: Some(recipient), ..self }),
    {
        WarpRouteTransferBuilder { recipient: Some(recipient), ..self }
    }

    pub fn amount(self, amount: &str) -> (r: Self)
        ensures
            opt_view(r.amount) == Some(amount@),
            r == (WarpRouteTransferBuilder { amount: r.amount, ..self }),
    {
        WarpRouteTransferBuilder { amount: Some(own(amount)), ..self }
    }

    /// Builds the execute request; every field is required and the recipient
    /// must be exactly 32 bytes.
    pub fn build(self) -> (r: Result<ExecuteContractRequest, SdkError>)
        ensures
            self.sender is None ==> fails_with(r, "sender is required"@),
            self.sender is Some && self.warp_route_contract is None ==> fails_with(r, "warp_route_contract is required"@),
            self.sender is Some && self.warp_route_contract is Some && self.destination_domain is None ==> fails_with(r, "destination_domain is required"@),
            self.sender is Some && self.warp_route_contract is Some && self.destination_domain is Some && self.recipient is None ==> fails_with(r, "recipient is required"@),
            self.sender is Some && self.warp_route_contract is Some && self.destination_domain is Some && self.recipient is Some && self.recipient.unwrap()@.len() != 32 ==> fails_with(r, "recipient must be exactly 32 bytes"@),
            self.sender is Some && self.warp_route_contract is Some && self.destination_domain is Some && self.recipient is Some && self.recipient.unwrap()@.len() == 32 && self.amount is None ==> fails_with(r, "amount is required"@),
            self.sender is Some && self.warp_route_contract is Some && self.destination_domain is Some && self.recipient is Some && self.recipient.unwrap()@.len() == 32 && self.amount is Some ==> (r matches Ok(req) && {
                &&& req.sender == self.sender.unwrap()
                &&& req.contract == self.warp_route_contract.unwrap()
                &&& req.msg@ == json_text(transfer_remote_doc(self.destination_domain.unwrap(), self.recipient.unwrap()@, self.amount.unwrap()@))
                &&& req.funds@.len() == 0
            }),
    {
        let sender = require(self.sender, "sender is required")?;
        let contract = require(self.warp_route_contract, "warp_route_contract is required")?;
        let destination_domain = require(self.destination_domain, "destination_domain is required")?;
        let recipient = require(self.recipient, "recipient is required")?;
        if recipient.len() != 32 {
            return Err(SdkError::invalid_input("recipient must be exactly 32 bytes"));
        }
        let amount = require(self.amount, "amount is required")?;
        let recipient_hex = hex_encode(recipient.as_slice());
        let mut inner = new_members();
        push_member(&mut inner, "dest_domain", JsonValue::Number(destination_domain as u64));
        push_member(&mut inner, "recipient", JsonValue::String(recipient_hex));
        push_member(&mut inner, "amount", JsonValue::String(amount));
        assert(json_members(inner@) =~= seq![
            ("dest_domain"@, JsonModel::Number(destination_domain as u64)),
            ("recipient"@, JsonModel::String(hex_text(recipient@))),
            ("amount"@, JsonModel::String(self.amount.unwrap()@)),
        ]);
        let mut outer = new_members();
        push_member(&mut outer, "transfer_remote", json_object(inner));
        assert(json_members(outer@) =~= seq![
            ("transfer_remote"@, JsonModel::Object(seq![
                ("dest_domain"@, JsonModel::Number(destination_domain as u64)),
                ("recipient"@, JsonModel::String(hex_text(recipient@))),
                ("amount"@, JsonModel::String(self.amount.unwrap()@)),
            ])),
        ]);
        let msg = json_to_vec(&json_object(outer));
        Ok(ExecuteContractRequest { sender, contract, msg, funds: Vec::new() })
    }
}

/// The lowercase hexadecimal digit of a nibble.
pub open spec fn hex_digit(n: nat) -> char {
        if n == 0 {
            '0'
        } else if n == 1 {
            '1'
        } else if n == 2 {
            '2'
        } else if n == 3 {
            '3'
        } else if n == 4 {
            '4'
        } else if n == 5 {
            '5'
        } else if n == 6 {
            '6'
        } else if n == 7 {
            '7'
        } else if n == 8 {
            '8'
        } else if n == 9 {
            '9'
        } else if n == 10 {
            'a'
        } else if n == 11 {
            'b'
        } else if n == 12 {
            'c'
        } else if n == 13 {
            'd'
        } else if n == 14 {
            'e'
        } else {
            'f'
        }
}

/// The lowercase hexadecimal digit of a nibble, as a one-character string.
fn hex_digit_str(n: u8) -> (r: &'static str)
    requires
        n < 16,
    ensures
        r@ == seq![hex_digit(n as nat)],
{
    match n {
        0 => {
            proof {
                reveal_strlit("0");
            }
            "0"
        },
        1 => {
            proof {
                reveal_strlit("1");
            }
            "1"
        },
        2 => {
            proof {
                reveal_strlit("2");
            }
            "2"
        },
        3 => {
            proof {
                reveal_strlit("3");
            }
            "3"
        },
        4 => {
            proof {
                reveal_strlit("4");
            }
            "4"
        },
        5 => {
            proof {
                reveal_strlit("5");
            }
            "5"
        },
        6 => {
            proof {
                reveal_strlit("6");
            }
            "6"
        },
        7 => {
            proof {
                reveal_strlit("7");
            }
            "7"
        },
        8 => {
            proof {
                reveal_strlit("8");
            }
            "8"
        },
        9 => {
            proof {
                reveal_strlit("9");
            }
            "9"
        },
        10 => {
            proof {
                reveal_strlit("a");
            }
            "a"
        },
        11 => {
            proof {
                reveal_strlit("b");
            }
            "b"
        },
        12 => {
            proof {
                reveal_strlit("c");
            }
            "c"
        },
        13 => {
            proof {
                reveal_strlit("d");
            }
            "d"
        },
        14 => {
            proof {
                reveal_strlit("e");
            }
            "e"
        },
        _ => {
            proof {
                reveal_strlit("f");
            }
            "f"
        },
    }
}

/// The lowercase hexadecimal text of `b`, two digits per byte.
pub open spec fn hex_text(b: Seq<u8>) -> Seq<char>
    decreases b.len(),
{
    if b.len() == 0 {
        seq![]
    } else {
        hex_text(b.drop_last()) + seq![hex_digit(b.last() as nat / 16), hex_digit(b.last() as nat % 16)]
    }
}

/// Lowercase hexadecimal encoding of `bytes`, two digits per byte.
pub fn hex_encode(bytes: &[u8]) -> (r: String)
    ensures
        r@ == hex_text(bytes@),
        r@.len() == 2 * bytes@.len(),
{
    let mut s = String::new();
    let n = bytes.len();
    let mut i: usize = 0;
    while i < n
        invariant
            n == bytes@.len(),
            i <= n,
            s@ == hex_text(bytes@.take(i as int)),
            s@.len() == 2 * i,
        decreases n - i,
    {
        let b = bytes[i];
        s.append(hex_digit_str(b / 16));
        s.append(hex_digit_str(b % 16));
        assert(bytes@.take(i + 1).drop_last() =~= bytes@.take(i as int));
        i = i + 1;
    }
    assert(bytes@.take(n as int) =~= bytes@);
    s
}

/// The Warp Route transfer message is an object with the one member
/// `transfer_remote`, an object with exactly the members `dest_domain` (the
/// domain as a number), `recipient` (the lowercase hexadecimal text of the
/// recipient bytes) and `amount` (the amount text).
pub proof fn law_transfer_remote_doc(dest_domain: u32, recipient: Seq<u8>, amount: Seq<char>)
    ensures
        member_names(transfer_remote_doc(dest_domain, recipient, amount)) == seq!["transfer_remote"@],
        member(transfer_remote_doc(dest_domain, recipient, amount), "transfer_remote"@) matches Some(inner) && {
            &&& member_names(inner) == seq!["dest_domain"@, "recipient"@, "amount"@]
            &&& member(inner, "dest_domain"@) == Some(JsonModel::Number(dest_domain as u64))
            &&& member(inner, "recipient"@) matches Some(JsonModel::String(t)) && is_lower_hex_text(t)
                && hex_decodes_to(t, recipient)
            &&& member(inner, "amount"@) == Some(JsonModel::String(amount))
        },
{
    reveal_strlit("dest_domain");
    reveal_strlit("recipient");
    reveal_strlit("amount");
    assert("dest_domain"@[0] != "recipient"@[0] && "dest_domain"@[0] != "amount"@[0] && "recipient"@[0] != "amount"@[0]);
    law_hex_text_lowercase(recipient);
    let d = transfer_remote_doc(dest_domain, recipient, amount);
    assert(member_names(d) =~= seq!["transfer_remote"@]);
    let ms = seq![
        ("dest_domain"@, JsonModel::Number(dest_domain as u64)),
        ("recipient"@, JsonModel::String(hex_text(recipient))),
        ("amount"@, JsonModel::String(amount)),
    ];
    assert(member_names(JsonModel::Object(ms)) =~= seq!["dest_domain"@, "recipient"@, "amount"@]);
    reveal_with_fuel(first_member, 4);
    assert(ms.skip(1) =~= seq![ms[1], ms[2]]);
    assert(ms.skip(1).skip(1) =~= seq![ms[2]]);
}

} // verus!
