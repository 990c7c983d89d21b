//! Fluent builders for the GMP requests and governance parameters, with the
//! address-length and threshold checks the chain enforces.
use std::collections::BTreeMap;
use vstd::prelude::*;
use vstd::laws_cmp::obeys_cmp;
use vstd::std_specs::btree::{increasing_seq, key_obeys_cmp_spec};
use vstd::std_specs::cmp::OrdSpec;
use vstd::std_specs::iter::IteratorSpec;
use crate::common::{decimal_text, fails_with, opt_view, own, require, text_or_empty, text_with_number, text_with_two_numbers, SdkError};
use crate::gmp::requests::{SettleGmpPaymentRequest, UpdateGmpParamsRequest, WarpRouteTransferRequest};
use crate::gmp::types::{GmpParams, HyperlaneParams, WarpRouteConfig, WarpRouteToken};

verus! {

/// Length of an EVM-style address.
pub const EVM_ADDRESS_LEN: usize = 20;

/// Length of a Hyperlane universal address.
pub const UNIVERSAL_ADDRESS_LEN: usize = 32;

/// `d` is the smallest domain of `routes` whose collateral address does not
/// have the universal length.
pub open spec fn is_first_bad_route(routes: Map<u32, WarpRouteToken>, d: u32) -> bool {
    &&& routes.contains_key(d)
    &&& routes[d].collateral_address@.len() != UNIVERSAL_ADDRESS_LEN
    &&& forall|e: u32| #[trigger] routes.contains_key(e) && e < d ==> routes[e].collateral_address@.len()
        == UNIVERSAL_ADDRESS_LEN
}

/// Every route's collateral address has the universal length.
pub open spec fn routes_valid(routes: Map<u32, WarpRouteToken>) -> bool {
    forall|d: u32| #[trigger] routes.contains_key(d) ==> routes[d].collateral_address@.len()
        == UNIVERSAL_ADDRESS_LEN
}

/// The smallest domain whose collateral address is malformed, with the length
/// that address has; `None` when every route is well formed.
fn first_bad_route(routes: &BTreeMap<u32, WarpRouteToken>) -> (r: Option<(u32, usize)>)
    ensures
        match r {
            Some((d, n)) => is_first_bad_route(routes@, d) && n == routes@[d].collateral_address@.len(),
            None => routes_valid(routes@),
        },
{
    let ghost m = routes@;
    proof {
        assert(obeys_cmp::<u32>());
        assert(key_obeys_cmp_spec::<u32>());
    }
    let it = routes.iter();
    let ghost s = it.remaining();
    let ghost ks = s.map_values(|kv: (&u32, &WarpRouteToken)| *kv.0);
    assert(increasing_seq(ks));
    assert(forall|i: int, j: int| 0 <= i < j < s.len() ==> *(#[trigger] s[i]).0 < *(#[trigger] s[j]).0) by {
        assert forall|i: int, j: int| 0 <= i < j < s.len() implies *(#[trigger] s[i]).0 < *(#[trigger] s[j]).0 by {
            assert(ks[i] == *s[i].0);
            assert(ks[j] == *s[j].0);
            assert(ks[i].cmp_spec(&ks[j]) is Less);
        }
    }
    assert(forall|k: u32| #[trigger] m.contains_key(k) ==> s.contains((&k, &m[k])));
    assert(forall|i: int| 0 <= i < s.len() ==> m.contains_key(*(#[trigger] s[i]).0) && m[*s[i].0] == *s[i].1);
    for (d, tok) in iter: it
        invariant
            s == iter.seq(),
            m == routes@,
            forall|i: int, j: int| 0 <= i < j < s.len() ==> *(#[trigger] s[i]).0 < *(#[trigger] s[j]).0,
            forall|k: u32| #[trigger] m.contains_key(k) ==> s.contains((&k, &m[k])),
            forall|i: int| 0 <= i < s.len() ==> m.contains_key(*(#[trigger] s[i]).0) && m[*s[i].0] == *s[i].1,
            forall|j: int| 0 <= j < iter.index() ==> (*(#[trigger] s[j]).1).collateral_address@.len() == UNIVERSAL_ADDRESS_LEN,
    {
        if tok.collateral_address.len() != UNIVERSAL_ADDRESS_LEN {
            proof {
                let i = iter.index();
                assert(s[i] == (d, tok));
                assert forall|e: u32| #[trigger] m.contains_key(e) && e < *d implies m[e].collateral_address@.len() == UNIVERSAL_ADDRESS_LEN by {
                    assert(s.contains((&e, &m[e])));
                    let j = choose|j: int| 0 <= j < s.len() && s[j] == (&e, &m[e]);
                    assert(*s[j].0 == e);
                    if j >= i {
                        if j > i {
                            assert(*s[i].0 < *s[j].0);
                        }
                    }
                }
            }
            return Some((*d, tok.collateral_address.len()));
        }
    }
    proof {
        assert forall|k: u32| #[trigger] m.contains_key(k) implies m[k].collateral_address@.len() == UNIVERSAL_ADDRESS_LEN by {
            assert(s.contains((&k, &m[k])));
            let j = choose|j: int| 0 <= j < s.len() && s[j] == (&k, &m[k]);
        }
    }
    None
}

/// The message for a malformed route: its domain and collateral length.
pub open spec fn route_error_text(domain: u32, len: nat) -> Seq<char> {
    "route["@ + decimal_text(domain as nat) + "].collateral_address must be exactly 32 bytes, got "@
        + decimal_text(len)
}

/// The message for a recipient address of the wrong length.
pub open spec fn recipient_error_text(len: nat) -> Seq<char> {
    "recipient_address must be exactly 32 bytes, got "@ + decimal_text(len)
}

/// Builder for a Warp Route configuration.
pub struct WarpRouteConfigBuilder {
    pub recipient_address: Option<Vec<u8>>,
    pub routes: BTreeMap<u32, WarpRouteToken>,
}

impl WarpRouteConfigBuilder {
    /// A builder with no recipient and no routes.
    pub fn new() -> (r: Self)
        ensures
            r.recipient_address is None,
            r.routes@ == Map::<u32, WarpRouteToken>::empty(),
    {
        WarpRouteConfigBuilder { recipient_address: None, routes: BTreeMap::new() }
    }

    /// Sets the 32-byte address of the Warp Route handler.
    pub fn recipient_address(self, addr: Vec<u8>) -> (r: Self)
        ensures
            r.recipient_address == Some(addr),
            r.routes@ == self.routes@,
    {
        WarpRouteConfigBuilder { recipient_address: Some(addr), routes: self.routes }
    }

    /// Adds (or replaces) the route of `domain`.
    pub fn add_route(self, domain: u32, collateral_address: Vec<u8>, asset_index: u64) -> (r: Self)
        ensures
            r.recipient_address == self.recipient_address,
            r.routes@ == self.routes@.insert(
                domain,
                WarpRouteToken { collateral_address, asset_index },
            ),
    {
        let mut s = self;
        s.routes.insert(domain, WarpRouteToken { collateral_address, asset_index });
        s
    }

    /// Builds the configuration. The recipient is required and must be 32
    /// bytes long; then every route's collateral address must be 32 bytes
    /// long, and the first malformed route in domain order is reported.
    pub fn build(self) -> (r: Result<WarpRouteConfig, SdkError>)
        ensures
            self.recipient_address is None ==> fails_with(r, "recipient_address is required"@),
            self.recipient_address is Some && self.recipient_address.unwrap()@.len() != UNIVERSAL_ADDRESS_LEN
                ==> fails_with(r, recipient_error_text(self.recipient_address.unwrap()@.len())),
            self.recipient_address is Some && self.recipient_address.unwrap()@.len() == UNIVERSAL_ADDRESS_LEN ==> {
                &&& forall|d: u32| is_first_bad_route(self.routes@, d) ==> fails_with(
                    r,
                    route_error_text(d, self.routes@[d].collateral_address@.len()),
                )
                &&& routes_valid(self.routes@) ==> (r matches Ok(c) && c.recipient_address
                    == self.recipient_address.unwrap() && c.routes@ == self.routes@)
            },
    {
        let recipient_address = require(self.recipient_address, "recipient_address is required")?;
        if recipient_address.len() != UNIVERSAL_ADDRESS_LEN {
            proof {
                reveal_strlit("");
                assert(""@ == Seq::<char>::empty());
            }
            return Err(SdkError::InvalidInput(text_with_number(
                "recipient_address must be exactly 32 bytes, got ",
                recipient_address.len() as u64,
                "",
            )));
        }
        match first_bad_route(&self.routes) {
            Some((domain, len)) => {
                proof {
                    assert forall|d: u32| is_first_bad_route(self.routes@, d) implies d == domain by {
                        if d < domain {
                        } else if domain < d {
                        }
                    }
                }
                Err(SdkError::InvalidInput(text_with_two_numbers(
                    "route[",
                    domain as u64,
                    "].collateral_address must be exactly 32 bytes, got ",
                    len as u64,
                )))
            },
            None => Ok(WarpRouteConfig { recipient_address, routes: self.routes }),
        }
    }
}

/// Every address of `s` is `n` bytes long.
pub open spec fn all_of_len(s: Seq<Vec<u8>>, n: nat) -> bool {
    forall|i: int| 0 <= i < s.len() ==> (#[trigger] s[i])@.len() == n
}

/// `i` is the first index of `s` whose address is not `n` bytes long.
pub open spec fn is_first_of_wrong_len(s: Seq<Vec<u8>>, n: nat, i: int) -> bool {
    &&& 0 <= i < s.len()
    &&& s[i]@.len() != n
    &&& forall|j: int| 0 <= j < i ==> (#[trigger] s[j])@.len() == n
}

/// The first index of `s` whose address is not `n` bytes long, with its length.
fn first_of_wrong_len(s: &Vec<Vec<u8>>, n: usize) -> (r: Option<(usize, usize)>)
    ensures
        match r {
            Some((i, len)) => is_first_of_wrong_len(s@, n as nat, i as int) && len == s@[i as int]@.len(),
            None => all_of_len(s@, n as nat),
        },
{
    let mut i: usize = 0;
    while i < s.len()
        invariant
            i <= s@.len(),
            forall|j: int| 0 <= j < i ==> (#[trigger] s@[j])@.len() == n,
        decreases s@.len() - i,
    {
        if s[i].len() != n {
            return Some((i, s[i].len()));
        }
        i = i + 1;
    }
    None
}

/// The threshold a Hyperlane builder uses: the one set, else one.
pub open spec fn threshold_or_one(t: Option<u32>) -> u32 {
    match t {
        Some(t) => t,
        None => 1,
    }
}

/// The message for a validator address of the wrong length.
pub open spec fn validator_error_text(i: nat, len: nat) -> Seq<char> {
    "validator["@ + decimal_text(i) + "] must be exactly 20 bytes, got "@ + decimal_text(len)
}

/// The message for a threshold outside `1..=n`.
pub open spec fn threshold_error_text(n: nat, t: nat) -> Seq<char> {
    "threshold must be in 1..="@ + decimal_text(n) + ", got "@ + decimal_text(t)
}

/// The message for a trusted sender of the wrong length.
pub open spec fn trusted_sender_error_text(i: nat, len: nat) -> Seq<char> {
    "trusted_sender["@ + decimal_text(i) + "] must be exactly 32 bytes, got "@ + decimal_text(len)
}

/// Builder for Hyperlane security parameters.
pub struct HyperlaneParamsBuilder {
    pub validators: Vec<Vec<u8>>,
    pub threshold: Option<u32>,
    pub domain_to_caip2: BTreeMap<u32, String>,
    pub trusted_senders: Vec<Vec<u8>>,
}

impl HyperlaneParamsBuilder {
    /// A builder with no validator, domain or trusted sender, and no threshold.
    pub fn new() -> (r: Self)
        ensures
            r.validators@.len() == 0,
            r.threshold is None,
            r.domain_to_caip2@ == Map::<u32, String>::empty(),
            r.trusted_senders@.len() == 0,
    {
        HyperlaneParamsBuilder {
            validators: Vec::new(),
            threshold: None,
            domain_to_caip2: BTreeMap::new(),
            trusted_senders: Vec::new(),
        }
    }

    /// Appends one validator address.
    pub fn add_validator(self, address: Vec<u8>) -> (r: Self)
        ensures
            r.validators@ == self.validators@.push(address),
            r.threshold == self.threshold,
            r.domain_to_caip2@ == self.domain_to_caip2@,
            r.trusted_senders == self.trusted_senders,
    {
        let mut s = self;
        s.validators.push(address);
        s
    }

    /// Replaces the validator addresses.
    pub fn validators(self, addrs: Vec<Vec<u8>>) -> (r: Self)
        ensures
            r.validators == addrs,
            r.threshold == self.threshold,
            r.domain_to_caip2@ == self.domain_to_caip2@,
            r.trusted_senders == self.trusted_senders,
    {
        let mut s = self;
        s.validators = addrs;
        s
    }

    /// Sets the signature threshold.
    pub fn threshold(self, threshold: u32) -> (r: Self)
        ensures
            r.validators == self.validators,
            r.threshold == Some(threshold),
            r.domain_to_caip2@ == self.domain_to_caip2@,
            r.trusted_senders == self.trusted_senders,
    {
        let mut s = self;
        s.threshold = Some(threshold);
        s
    }

    /// Maps a Hyperlane domain to its CAIP-2 chain identifier.
    pub fn add_domain(self, domain: u32, caip2: &str) -> (r: Self)
        ensures
            r.validators == self.validators,
            r.threshold == self.threshold,
            r.domain_to_caip2@ == self.domain_to_caip2@.insert(domain, r.domain_to_caip2@[domain]),
            r.domain_to_caip2@[domain]@ == caip2@,
            r.trusted_senders == self.trusted_senders,
    {
        let mut s = self;
        s.domain_to_caip2.insert(domain, own(caip2));
        s
    }

    /// Replaces the domain map.
    pub fn domain_to_caip2(self, map: BTreeMap<u32, String>) -> (r: Self)
        ensures
            r.validators == self.validators,
            r.threshold == self.threshold,
            r.domain_to_caip2@ == map@,
            r.trusted_senders == self.trusted_senders,
    {
        let mut s = self;
        s.domain_to_caip2 = map;
        s
    }

    /// Appends one trusted sender.
    pub fn add_trusted_sender(self, sender: Vec<u8>) -> (r: Self)
        ensures
            r.validators == self.validators,
            r.threshold == self.threshold,
            r.domain_to_caip2@ == self.domain_to_caip2@,
            r.trusted_senders@ == self.trusted_senders@.push(sender),
    {
        let mut s = self;
        s.trusted_senders.push(sender);
        s
    }

    /// Replaces the trusted senders.
    pub fn trusted_senders(self, senders: Vec<Vec<u8>>) -> (r: Self)
        ensures
            r.validators == self.validators,
            r.threshold == self.threshold,
            r.domain_to_caip2@ == self.domain_to_caip2@,
            r.trusted_senders == senders,
    {
        let mut s = self;
        s.trusted_senders = senders;
        s
    }

    /// Builds the parameters. There must be a validator; every validator
    /// address must be 20 bytes long; the threshold (one where unset) must lie
    /// in `1..=` the number of validators; every trusted sender must be 32
    /// bytes long. The first failing check is reported, with the first
    /// offending index.
    pub fn build(self) -> (r: Result<HyperlaneParams, SdkError>)
        ensures
            self.validators@.len() == 0 ==> fails_with(r, "at least one validator is required"@),
            self.validators@.len() > 0 ==> forall|i: int| #[trigger] is_first_of_wrong_len(self.validators@, 20, i) ==> fails_with(
                r,
                validator_error_text(i as nat, self.validators@[i]@.len()),
            ),
            self.validators@.len() > 0 && all_of_len(self.validators@, 20) && (threshold_or_one(self.threshold) == 0
                || threshold_or_one(self.threshold) > self.validators@.len()) ==> fails_with(
                r,
                threshold_error_text(self.validators@.len(), threshold_or_one(self.threshold) as nat),
            ),
            self.validators@.len() > 0 && all_of_len(self.validators@, 20) && 1 <= threshold_or_one(self.threshold)
                <= self.validators@.len() ==> {
                &&& forall|i: int| #[trigger] is_first_of_wrong_len(self.trusted_senders@, 32, i) ==> fails_with(
                    r,
                    trusted_sender_error_text(i as nat, self.trusted_senders@[i]@.len()),
                )
                &&& all_of_len(self.trusted_senders@, 32) ==> (r matches Ok(p) && {
                    &&& p.validators == self.validators
                    &&& p.threshold == threshold_or_one(self.threshold)
                    &&& p.domain_to_caip2@ == self.domain_to_caip2@
                    &&& p.trusted_senders == self.trusted_senders
                })
            },
    {
        if self.validators.len() == 0 {
            return Err(SdkError::invalid_input("at least one validator is required"));
        }
        match first_of_wrong_len(&self.validators, EVM_ADDRESS_LEN) {
            Some((i, len)) => {
                return Err(SdkError::InvalidInput(text_with_two_numbers(
                    "validator[",
                    i as u64,
                    "] must be exactly 20 bytes, got ",
                    len as u64,
                )));
            },
            None => {},
        }
        let threshold = match self.threshold {
            Some(t) => t,
            None => 1,
        };
        if threshold == 0 || threshold as usize > self.validators.len() {
            return Err(SdkError::InvalidInput(text_with_two_numbers(
                "threshold must be in 1..=",
                self.validators.len() as u64,
                ", got ",
                threshold as u64,
            )));
        }
        match first_of_wrong_len(&self.trusted_senders, UNIVERSAL_ADDRESS_LEN) {
            Some((i, len)) => {
                return Err(SdkError::InvalidInput(text_with_two_numbers(
                    "trusted_sender[",
                    i as u64,
                    "] must be exactly 32 bytes, got ",
                    len as u64,
                )));
            },
            None => {},
        }
        Ok(HyperlaneParams {
            validators: self.validators,
            threshold,
            domain_to_caip2: self.domain_to_caip2,
            trusted_senders: self.trusted_senders,
        })
    }
}

/// Builder for a Warp Route transfer.
pub struct WarpRouteTransferBuilder {
    pub sender: Option<String>,
    pub destination_domain: Option<u32>,
    pub recipient: Option<Vec<u8>>,
    pub asset_index: Option<u64>,
    pub amount: Option<String>,
}

impl WarpRouteTransferBuilder {
    /// A builder with no field set.
    pub fn new() -> (r: Self)
        ensures
            r.sender is None,
            r.destination_domain is None,
            r.recipient is None,
            r.asset_index is None,
            r.amount is None,
    {
        WarpRouteTransferBuilder {
            sender: None,
            destination_domain: None,
            recipient: None,
            asset_index: None,
            amount: None,
        }
    }

    /// Sets the sender.
    pub fn sender(self, sender: &str) -> (r: Self)
        ensures
            opt_view(r.sender) == Some(sender@),
            r == (WarpRouteTransferBuilder { sender: r.sender, ..self }),
    {
        WarpRouteTransferBuilder { sender: Some(own(sender)), ..self }
    }

    /// Sets the destination Hyperlane domain.
    pub fn destination_domain(self, domain: u32) -> (r: Self)
        ensures
            r == (WarpRouteTransferBuilder { destination_domain: Some(domain), ..self }),
    {
        WarpRouteTransferBuilder { destination_domain: Some(domain), ..self }
    }

    /// Sets the 32-byte recipient address.
    pub fn recipient(self, recipient: Vec<u8>) -> (r: Self)
        ensures
            r == (WarpRouteTransferBuilder { recipient: Some(recipient), ..self }),
    {
        WarpRouteTransferBuilder { recipient: Some(recipient), ..self }
    }

    /// Sets the asset index.
    pub fn asset_index(self, index: u64) -> (r: Self)
        ensures
            r == (WarpRouteTransferBuilder { asset_index: Some(index), ..self }),
    {
        WarpRouteTransferBuilder { asset_index: Some(index), ..self }
    }

    /// Sets the amount.
    pub fn amount(self, amount: &str) -> (r: Self)
        ensures
            opt_view(r.amount) == Some(amount@),
            r == (WarpRouteTransferBuilder { amount: r.amount, ..self }),
    {
        WarpRouteTransferBuilder { amount: Some(own(amount)), ..self }
    }

    /// Builds the transfer. The sender, domain and recipient are required, in
    /// that order; the recipient must be 32 bytes long; then the asset index
    /// and amount are required.
    pub fn build(self) -> (r: Result<WarpRouteTransferRequest, SdkError>)
        ensures
            self.sender is None ==> fails_with(r, "sender is required"@),
            self.sender is Some && self.destination_domain is None ==> fails_with(r, "destination_domain is required"@),
            self.sender is Some && self.destination_domain is Some && self.recipient is None ==> fails_with(
                r,
                "recipient is required"@,
            ),
            self.sender is Some && self.destination_domain is Some && self.recipient is Some
                && self.recipient.unwrap()@.len() != UNIVERSAL_ADDRESS_LEN ==> fails_with(
                r,
                "recipient must be exactly 32 bytes"@,
            ),
            self.sender is Some && self.destination_domain is Some && self.recipient is Some
                && self.recipient.unwrap()@.len() == UNIVERSAL_ADDRESS_LEN && self.asset_index is None ==> fails_with(
                r,
                "asset_index is required"@,
            ),
            self.sender is Some && self.destination_domain is Some && self.recipient is Some
                && self.recipient.unwrap()@.len() == UNIVERSAL_ADDRESS_LEN && self.asset_index is Some
                && self.amount is None ==> fails_with(r, "amount is required"@),
            self.sender is Some && self.destination_domain is Some && self.recipient is Some
                && self.recipient.unwrap()@.len() == UNIVERSAL_ADDRESS_LEN && self.asset_index is Some
                && self.amount is Some ==> r == Ok::<WarpRouteTransferRequest, SdkError>(
                WarpRouteTransferRequest {
                    sender: self.sender.unwrap(),
                    destination_domain: self.destination_domain.unwrap(),
                    recipient: self.recipient.unwrap(),
                    asset_index: self.asset_index.unwrap(),
                    amount: self.amount.unwrap(),
                },
            ),
    {
        let sender = require(self.sender, "sender is required")?;
        let destination_domain = require(self.destination_domain, "destination_domain is required")?;
        let recipient = require(self.recipient, "recipient is required")?;
        if recipient.len() != UNIVERSAL_ADDRESS_LEN {
            return Err(SdkError::invalid_input("recipient must be exactly 32 bytes"));
        }
        let asset_index = require(self.asset_index, "asset_index is required")?;
        let amount = require(self.amount, "amount is required")?;
        Ok(WarpRouteTransferRequest { sender, destination_domain, recipient, asset_index, amount })
    }
}

/// Builder for a GMP payment settlement.
pub struct SettleGmpPaymentBuilder {
    pub protocol_id: Option<String>,
    pub raw_envelope: Option<Vec<u8>>,
}

impl SettleGmpPaymentBuilder {
    /// A builder with no field set.
    pub fn new() -> (r: Self)
        ensures
            r.protocol_id is None,
            r.raw_envelope is None,
    {
        SettleGmpPaymentBuilder { protocol_id: None, raw_envelope: None }
    }

    /// Sets the protocol id.
    pub fn protocol_id(self, id: &str) -> (r: Self)
        ensures
            opt_view(r.protocol_id) == Some(id@),
            r.raw_envelope == self.raw_envelope,
    {
        SettleGmpPaymentBuilder { protocol_id: Some(own(id)), ..self }
    }

    /// Sets the raw payment envelope.
    pub fn raw_envelope(self, envelope: Vec<u8>) -> (r: Self)
        ensures
            r.protocol_id == self.protocol_id,
            r.raw_envelope == Some(envelope),
    {
        SettleGmpPaymentBuilder { raw_envelope: Some(envelope), ..self }
    }

    /// Builds the settlement; the protocol id and envelope are required, in
    /// that order.
    pub fn build(self) -> (r: Result<SettleGmpPaymentRequest, SdkError>)
        ensures
            self.protocol_id is None ==> fails_with(r, "protocol_id is required"@),
            self.protocol_id is Some && self.raw_envelope is None ==> fails_with(r, "raw_envelope is required"@),
            self.protocol_id is Some && self.raw_envelope is Some ==> r == Ok::<SettleGmpPaymentRequest, SdkError>(
                SettleGmpPaymentRequest {
                    protocol_id: self.protocol_id.unwrap(),
                    raw_envelope: self.raw_envelope.unwrap(),
                },
            ),
    {
        let protocol_id = require(self.protocol_id, "protocol_id is required")?;
        let raw_envelope = require(self.raw_envelope, "raw_envelope is required")?;
        Ok(SettleGmpPaymentRequest { protocol_id, raw_envelope })
    }
}

/// Builder for a governance update of the GMP parameters.
pub struct UpdateGmpParamsBuilder {
    pub authority: Option<String>,
    pub hyperlane: Option<HyperlaneParams>,
    pub warp_route: Option<WarpRouteConfig>,
}

impl UpdateGmpParamsBuilder {
    /// A builder with no field set.
    pub fn new() -> (r: Self)
        ensures
            r.authority is None,
            r.hyperlane is None,
            r.warp_route is None,
    {
        UpdateGmpParamsBuilder { authority: None, hyperlane: None, warp_route: None }
    }

    /// Sets the governance authority address.
    pub fn authority(self, authority: &str) -> (r: Self)
        ensures
            opt_view(r.authority) == Some(authority@),
            r.hyperlane == self.hyperlane,
            r.warp_route == self.warp_route,
    {
        UpdateGmpParamsBuilder { authority: Some(own(authority)), ..self }
    }

    /// Sets the Hyperlane parameters.
    pub fn hyperlane(self, params: HyperlaneParams) -> (r: Self)
        ensures
            r.authority == self.authority,
            r.hyperlane == Some(params),
            r.warp_route == self.warp_route,
    {
        UpdateGmpParamsBuilder { hyperlane: Some(params), ..self }
    }

    /// Sets the Warp Route configuration.
    pub fn warp_route(self, config: WarpRouteConfig) -> (r: Self)
        ensures
            r.authority == self.authority,
            r.hyperlane == self.hyperlane,
            r.warp_route == Some(config),
    {
        UpdateGmpParamsBuilder { warp_route: Some(config), ..self }
    }

    /// Builds the update. At least one of the Hyperlane parameters and the
    /// Warp Route configuration must be set; without an authority the
    /// governance module address `default_authority` is used.
    pub fn build(self, default_authority: &str) -> (r: Result<UpdateGmpParamsRequest, SdkError>)
        ensures
            self.hyperlane is None && self.warp_route is None ==> fails_with(
                r,
                "at least one of hyperlane or warp_route must be set"@,
            ),
            !(self.hyperlane is None && self.warp_route is None) ==> (r matches Ok(req) && {
                &&& req.authority@ == (if self.authority is Some {
                    self.authority.unwrap()@
                } else {
                    default_authority@
                })
                &&& req.params.hyperlane == self.hyperlane
                &&& req.params.warp_route == self.warp_route
            }),
    {
        if self.hyperlane.is_none() && self.warp_route.is_none() {
            return Err(SdkError::invalid_input("at least one of hyperlane or warp_route must be set"));
        }
        let authority = match self.authority {
            Some(a) => a,
            None => own(default_authority),
        };
        Ok(UpdateGmpParamsRequest {
            authority,
            params: GmpParams { hyperlane: self.hyperlane, warp_route: self.warp_route },
        })
    }
}

} // verus!
