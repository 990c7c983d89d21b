//! Chain configuration registry: per-chain RPC URLs, Hyperlane domains and
//! token metadata, resolved from human-friendly names.
use vstd::prelude::*;
use vstd::utf8::encode_utf8;
use crate::common::{named_map, names_distinct, own, NameMap};
use crate::evm::types::EvmError;

verus! {

/// Configuration for a single token on a chain.
#[derive(Clone, Debug)]
pub struct TokenConfig {
    pub address: String,
    pub decimals: u8,
    pub collateral_contract: Option<String>,
    pub settlement_contract: Option<String>,
    pub morpheum_asset_index: u64,
}

/// Configuration for a single EVM chain; tokens are keyed by symbol.
#[derive(Debug)]
pub struct ChainConfig {
    pub chain_id: u64,
    pub rpc_url: String,
    pub hyperlane_domain: u32,
    pub explorer: Option<String>,
    pub tokens: NameMap<TokenConfig>,
}

/// Top-level chain configuration registry; chains are keyed by lowercase name.
#[derive(Debug)]
pub struct ChainRegistry {
    pub chains: NameMap<ChainConfig>,
}

/// Resolved chain configuration.
#[derive(Clone, Debug)]
pub struct ResolvedChain {
    pub name: String,
    pub chain_id: u64,
    pub rpc_url: String,
    pub hyperlane_domain: u32,
    pub explorer: Option<String>,
}

/// Resolved token configuration with parsed 20-byte addresses.
#[derive(Clone, Debug)]
pub struct ResolvedToken {
    pub symbol: String,
    pub address: [u8; 20],
    pub decimals: u8,
    pub collateral_contract: Option<[u8; 20]>,
    pub settlement_contract: Option<[u8; 20]>,
    pub morpheum_asset_index: u64,
}

/// ASCII lower case of a character; every other character is unchanged.
pub open spec fn ascii_lower(c: char) -> char {
    if 'A' <= c <= 'Z' {
        ((c as int) + 32) as char
    } else {
        c
    }
}

/// ASCII upper case of a character; every other character is unchanged.
pub open spec fn ascii_upper(c: char) -> char {
    if 'a' <= c <= 'z' {
        ((c as int) - 32) as char
    } else {
        c
    }
}

/// Calls `str::to_ascii_lowercase`, which maps `'A'..='Z'` to `'a'..='z'` and
/// leaves every other character unchanged.
#[verifier::external_body]
fn to_ascii_lowercase(s: &str) -> (r: String)
    ensures
        r@ == s@.map_values(|c: char| ascii_lower(c)),
{
    s.to_ascii_lowercase()
}

/// Calls `str::to_ascii_uppercase`, which maps `'a'..='z'` to `'A'..='Z'` and
/// leaves every other character unchanged.
#[verifier::external_body]
fn to_ascii_uppercase(s: &str) -> (r: String)
    ensures
        r@ == s@.map_values(|c: char| ascii_upper(c)),
{
    s.to_ascii_uppercase()
}

/// The canonical chain name that a short alias stands for.
pub open spec fn chain_alias(lower: Seq<char>) -> Option<Seq<char>> {
    if lower == "eth"@ {
        Some("ethereum"@)
    } else if lower == "arb"@ {
        Some("arbitrum"@)
    } else if lower == "op"@ {
        Some("optimism"@)
    } else if lower == "avax"@ {
        Some("avalanche"@)
    } else if lower == "matic"@ {
        Some("polygon"@)
    } else if lower == "bsc"@ || lower == "binance"@ {
        Some("bsc"@)
    } else if lower == "local"@ {
        Some("anvil"@)
    } else {
        None
    }
}

/// The chain that `name` resolves to: the chain of its ASCII-lowercase form,
/// else the chain of that form's alias.
pub open spec fn lookup_chain(chains: Map<Seq<char>, ChainConfig>, name: Seq<char>) -> Option<ChainConfig> {
    let lower = name.map_values(|c: char| ascii_lower(c));
    if chains.contains_key(lower) {
        Some(chains[lower])
    } else {
        match chain_alias(lower) {
            Some(a) => if chains.contains_key(a) {
                Some(chains[a])
            } else {
                None
            },
            None => None,
        }
    }
}

/// How a name finds a chain: the chain stored under the name's ASCII
/// lowercase form; where there is none, the alias `eth` finds `ethereum`,
/// `arb` finds `arbitrum`, `op` finds `optimism`, `avax` finds `avalanche`,
/// `matic` finds `polygon`, `bsc` and `binance` find `bsc`, and `local` finds
/// `anvil`; any other name finds nothing. Case does not matter.
pub proof fn law_chain_lookup(chains: Map<Seq<char>, ChainConfig>, name: Seq<char>)
    ensures
        chains.contains_key(name.map_values(|c: char| ascii_lower(c))) ==> lookup_chain(chains, name) == Some(
            chains[name.map_values(|c: char| ascii_lower(c))],
        ),
        !chains.contains_key(name.map_values(|c: char| ascii_lower(c))) && name.map_values(|c: char| ascii_lower(c)) == "eth"@
            ==> lookup_chain(chains, name) == (if chains.contains_key("ethereum"@) { Some(chains["ethereum"@]) } else { None }),
        !chains.contains_key(name.map_values(|c: char| ascii_lower(c))) && name.map_values(|c: char| ascii_lower(c)) == "arb"@
            ==> lookup_chain(chains, name) == (if chains.contains_key("arbitrum"@) { Some(chains["arbitrum"@]) } else { None }),
        !chains.contains_key(name.map_values(|c: char| ascii_lower(c))) && name.map_values(|c: char| ascii_lower(c)) == "op"@
            ==> lookup_chain(chains, name) == (if chains.contains_key("optimism"@) { Some(chains["optimism"@]) } else { None }),
        !chains.contains_key(name.map_values(|c: char| ascii_lower(c))) && name.map_values(|c: char| ascii_lower(c)) == "avax"@
            ==> lookup_chain(chains, name) == (if chains.contains_key("avalanche"@) { Some(chains["avalanche"@]) } else { None }),
        !chains.contains_key(name.map_values(|c: char| ascii_lower(c))) && name.map_values(|c: char| ascii_lower(c)) == "matic"@
            ==> lookup_chain(chains, name) == (if chains.contains_key("polygon"@) { Some(chains["polygon"@]) } else { None }),
        !chains.contains_key(name.map_values(|c: char| ascii_lower(c))) && name.map_values(|c: char| ascii_lower(c)) == "bsc"@
            ==> lookup_chain(chains, name) == (if chains.contains_key("bsc"@) { Some(chains["bsc"@]) } else { None }),
        !chains.contains_key(name.map_values(|c: char| ascii_lower(c))) && name.map_values(|c: char| ascii_lower(c)) == "binance"@
            ==> lookup_chain(chains, name) == (if chains.contains_key("bsc"@) { Some(chains["bsc"@]) } else { None }),
        !chains.contains_key(name.map_values(|c: char| ascii_lower(c))) && name.map_values(|c: char| ascii_lower(c)) == "local"@
            ==> lookup_chain(chains, name) == (if chains.contains_key("anvil"@) { Some(chains["anvil"@]) } else { None }),
        !chains.contains_key(name.map_values(|c: char| ascii_lower(c))) && name.map_values(|c: char| ascii_lower(c)) != "eth"@ && name.map_values(|c: char| ascii_lower(c)) != "arb"@ && name.map_values(|c: char| ascii_lower(c)) != "op"@ && name.map_values(|c: char| ascii_lower(c)) != "avax"@ && name.map_values(|c: char| ascii_lower(c)) != "matic"@ && name.map_values(|c: char| ascii_lower(c)) != "bsc"@ && name.map_values(|c: char| ascii_lower(c)) != "binance"@ && name.map_values(|c: char| ascii_lower(c)) != "local"@
            ==> lookup_chain(chains, name) is None,
        lookup_chain(chains, name) == lookup_chain(chains, name.map_values(|c: char| ascii_lower(c))),
{
    reveal_strlit("anvil");
    reveal_strlit("arb");
    reveal_strlit("arbitrum");
    reveal_strlit("avalanche");
    reveal_strlit("avax");
    reveal_strlit("binance");
    reveal_strlit("bsc");
    reveal_strlit("eth");
    reveal_strlit("ethereum");
    reveal_strlit("local");
    reveal_strlit("matic");
    reveal_strlit("op");
    reveal_strlit("optimism");
    reveal_strlit("polygon");
    assert("arb"@[0] != "eth"@[0] && "bsc"@[0] != "eth"@[0] && "bsc"@[0] != "arb"@[0]);
    assert("local"@[0] != "matic"@[0]);
    let lower = name.map_values(|c: char| ascii_lower(c));
    assert(lower.map_values(|c: char| ascii_lower(c)) =~= lower);
}

/// The value of a hexadecimal digit byte, in either case.
pub open spec fn hex_nibble(c: u8) -> Option<u8> {
    if 48 <= c <= 57 {
        Some((c - 48) as u8)
    } else if 97 <= c <= 102 {
        Some((c - 87) as u8)
    } else if 65 <= c <= 70 {
        Some((c - 55) as u8)
    } else {
        None
    }
}

/// `b` without a leading `0x` or `0X`.
pub open spec fn strip_hex_prefix(b: Seq<u8>) -> Seq<u8> {
    if b.len() >= 2 && b[0] == 48 && (b[1] == 120 || b[1] == 88) {
        b.subrange(2, b.len() as int)
    } else {
        b
    }
}

/// The 20-byte address that `s` spells: 40 hex digits, optionally after `0x`.
pub open spec fn evm_address_of(s: Seq<char>) -> Option<Seq<u8>> {
    let h = strip_hex_prefix(encode_utf8(s));
    if h.len() == 40 && forall|i: int| 0 <= i < 40 ==> (#[trigger] hex_nibble(h[i])) is Some {
        Some(Seq::new(20, |i: int| (16 * hex_nibble(h[2 * i])->0 + hex_nibble(h[2 * i + 1])->0) as u8))
    } else {
        None
    }
}

/// The message of the error that alloy reports for an unparsable address text.
pub uninterp spec fn address_error_text(s: Seq<char>) -> Seq<char>;

/// Calls `str::parse::<alloy_primitives::Address>`, which hex-decodes exactly 20
/// bytes after an optional `0x`/`0X` prefix. The contract claims that it
/// succeeds exactly on such texts with the decoded bytes, and otherwise gives
/// the error's message, named by `address_error_text`.
#[verifier::external_body]
fn parse_evm_address(s: &str) -> (r: Result<[u8; 20], String>)
    ensures
        match r {
            Ok(a) => evm_address_of(s@) == Some(a@),
            Err(e) => evm_address_of(s@) is None && e@ == address_error_text(s@),
        },
{
    match s.parse::<alloy_primitives::Address>() {
        Ok(a) => Ok(a.0 .0),
        Err(e) => Err(e.to_string()),
    }
}

/// `r` failed with a configuration error reading `msg`.
pub open spec fn is_config_error<T>(r: Result<T, EvmError>, msg: Seq<char>) -> bool {
    r matches Err(EvmError::Config(m)) && m@ == msg
}

/// `r` failed with an address-parse error reading `msg`.
pub open spec fn is_address_error<T>(r: Result<T, EvmError>, msg: Seq<char>) -> bool {
    r matches Err(EvmError::AddressParse(m)) && m@ == msg
}

/// The address-parse error message for the text `s`.
pub open spec fn address_parse_message(s: Seq<char>) -> Seq<char> {
    "'"@ + s + "': "@ + address_error_text(s)
}

/// Parses a 20-byte EVM address, reporting the text in the error.
fn parse_address(s: &String) -> (r: Result<[u8; 20], EvmError>)
    ensures
        match evm_address_of(s@) {
            Some(a) => r matches Ok(x) && x@ == a,
            None => is_address_error(r, address_parse_message(s@)),
        },
{
    match parse_evm_address(s.as_str()) {
        Ok(a) => Ok(a),
        Err(e) => {
            let mut m = own("'");
            m.append(s.as_str());
            m.append("': ");
            m.append(e.as_str());
            Err(EvmError::AddressParse(m))
        },
    }
}

/// Parses an optional address.
fn parse_opt_address(s: &Option<String>) -> (r: Result<Option<[u8; 20]>, EvmError>)
    ensures
        match s {
            None => r == Ok::<Option<[u8; 20]>, EvmError>(None),
            Some(t) => match evm_address_of(t@) {
                Some(a) => r matches Ok(Some(x)) && x@ == a,
                None => is_address_error(r, address_parse_message(t@)),
            },
        },
{
    match s {
        None => Ok(None),
        Some(t) => {
            let a = parse_address(t)?;
            Ok(Some(a))
        },
    }
}

/// The address that a text known to be valid spells.
pub open spec fn addr_of(s: Seq<char>) -> Seq<u8> {
    evm_address_of(s)->0
}

/// An optional address text is absent or valid.
pub open spec fn opt_addr_ok(o: Option<String>) -> bool {
    match o {
        None => true,
        Some(s) => evm_address_of(s@) is Some,
    }
}

/// An optional parsed address is what the optional text spells.
pub open spec fn opt_addr_parsed(o: Option<String>, x: Option<[u8; 20]>) -> bool {
    match o {
        None => x is None,
        Some(s) => x is Some && x->0@ == addr_of(s@),
    }
}

/// The text of an optional string.
pub open spec fn opt_text(o: Option<String>) -> Option<Seq<char>> {
    match o {
        Some(s) => Some(s@),
        None => None,
    }
}

/// The ASCII upper case of a token symbol.
pub open spec fn upper_symbol(s: Seq<char>) -> Seq<char> {
    s.map_values(|c: char| ascii_upper(c))
}

/// What `ChainRegistry::resolve` gives for a chain name and token symbol.
pub open spec fn resolve_ok(
    chains: Map<Seq<char>, ChainConfig>,
    chain_name: Seq<char>,
    token_symbol: Seq<char>,
    rc: ResolvedChain,
    rt: ResolvedToken,
) -> bool {
    let c = lookup_chain(chains, chain_name)->0;
    let t = c.tokens@[upper_symbol(token_symbol)];
    &&& rc.name@ == chain_name
    &&& rc.chain_id == c.chain_id
    &&& rc.rpc_url@ == c.rpc_url@
    &&& rc.hyperlane_domain == c.hyperlane_domain
    &&& opt_text(rc.explorer) == opt_text(c.explorer)
    &&& rt.symbol@ == upper_symbol(token_symbol)
    &&& rt.address@ == addr_of(t.address@)
    &&& rt.decimals == t.decimals
    &&& opt_addr_parsed(t.collateral_contract, rt.collateral_contract)
    &&& opt_addr_parsed(t.settlement_contract, rt.settlement_contract)
    &&& rt.morpheum_asset_index == t.morpheum_asset_index
}

/// A copy of an optional string.
fn clone_opt(o: &Option<String>) -> (r: Option<String>)
    ensures
        opt_text(r) == opt_text(*o),
{
    match o {
        Some(s) => Some(s.clone()),
        None => None,
    }
}

impl ChainRegistry {
    /// An empty registry.
    pub fn new() -> (r: ChainRegistry)
        ensures
            r.chains@ == Map::<Seq<char>, ChainConfig>::empty(),
    {
        ChainRegistry { chains: NameMap::new() }
    }

    /// Resolves a chain by its human-friendly name (case-insensitive), trying
    /// the short aliases `eth`, `arb`, `op`, `avax`, `matic`, `bsc`/`binance`
    /// and `local` when the name itself is not configured.
    pub fn get_chain(&self, name: &str) -> (r: Option<&ChainConfig>)
        ensures
            match r {
                Some(c) => lookup_chain(self.chains@, name@) == Some(*c),
                None => lookup_chain(self.chains@, name@) is None,
            },
    {
        let lower = to_ascii_lowercase(name);
        match self.chains.get(lower.as_str()) {
            Some(c) => Some(c),
            None => {
                let alias = if lower == own("eth") {
                    "ethereum"
                } else if lower == own("arb") {
                    "arbitrum"
                } else if lower == own("op") {
                    "optimism"
                } else if lower == own("avax") {
                    "avalanche"
                } else if lower == own("matic") {
                    "polygon"
                } else if lower == own("bsc") || lower == own("binance") {
                    "bsc"
                } else if lower == own("local") {
                    "anvil"
                } else {
                    return None;
                };
                self.chains.get(alias)
            },
        }
    }
}

impl ChainRegistry {
    /// Resolves a chain + token pair into parsed addresses. The token symbol is
    /// matched in ASCII upper case.
    pub fn resolve(&self, chain_name: &str, token_symbol: &str) -> (r: Result<(ResolvedChain, ResolvedToken), EvmError>)
        ensures
            lookup_chain(self.chains@, chain_name@) is None ==> is_config_error(r, "unknown chain: '"@ + chain_name@ + "'"@),
            lookup_chain(self.chains@, chain_name@) matches Some(c) ==> ({
                let upper = upper_symbol(token_symbol@);
                let t = c.tokens@[upper];
                if !c.tokens@.contains_key(upper) {
                    is_config_error(r, "token '"@ + token_symbol@ + "' not configured for chain '"@ + chain_name@ + "'"@)
                } else if evm_address_of(t.address@) is None {
                    is_address_error(r, address_parse_message(t.address@))
                } else if !opt_addr_ok(t.collateral_contract) {
                    is_address_error(r, address_parse_message(t.collateral_contract->0@))
                } else if !opt_addr_ok(t.settlement_contract) {
                    is_address_error(r, address_parse_message(t.settlement_contract->0@))
                } else {
                    r is Ok && resolve_ok(self.chains@, chain_name@, token_symbol@, r->Ok_0.0, r->Ok_0.1)
                }
            }),
    {
        let chain = match self.get_chain(chain_name) {
            Some(c) => c,
            None => {
                let mut m = own("unknown chain: '");
                m.append(chain_name);
                m.append("'");
                return Err(EvmError::Config(m));
            },
        };
        let upper = to_ascii_uppercase(token_symbol);
        let token = match chain.tokens.get(upper.as_str()) {
            Some(t) => t,
            None => {
                let mut m = own("token '");
                m.append(token_symbol);
                m.append("' not configured for chain '");
                m.append(chain_name);
                m.append("'");
                return Err(EvmError::Config(m));
            },
        };
        let token_address = parse_address(&token.address)?;
        let collateral = parse_opt_address(&token.collateral_contract)?;
        let settlement = parse_opt_address(&token.settlement_contract)?;
        Ok((
            ResolvedChain {
                name: own(chain_name),
                chain_id: chain.chain_id,
                rpc_url: chain.rpc_url.clone(),
                hyperlane_domain: chain.hyperlane_domain,
                explorer: clone_opt(&chain.explorer),
            },
            ResolvedToken {
                symbol: upper,
                address: token_address,
                decimals: token.decimals,
                collateral_contract: collateral,
                settlement_contract: settlement,
                morpheum_asset_index: token.morpheum_asset_index,
            },
        ))
    }

    /// Lists all configured chain names, each once.
    pub fn chain_names(&self) -> (r: Vec<&str>)
        ensures
            r@.len() == self.chains@.dom().len(),
            forall|i: int| 0 <= i < r@.len() ==> self.chains@.contains_key((#[trigger] r@[i])@),
            forall|k: Seq<char>| #[trigger] self.chains@.contains_key(k) ==> exists|i: int| 0 <= i < r@.len() && (#[trigger] r@[i])@ == k,
            forall|i: int, j: int| 0 <= i < r@.len() && 0 <= j < r@.len() && i != j ==> (#[trigger] r@[i])@ != (#[trigger] r@[j])@,
    {
        let entries = self.chains.entries();
        proof {
            crate::common::lemma_named_map(entries@);
            crate::common::lemma_named_map_len(entries@);
        }
        let mut names: Vec<&str> = Vec::new();
        let n = entries.len();
        let mut i: usize = 0;
        while i < n
            invariant
                n == entries@.len(),
                i <= n,
                names@.len() == i,
                forall|j: int| 0 <= j < i ==> (#[trigger] names@[j])@ == entries@[j].0@,
            decreases n - i,
        {
            names.push(entries[i].0.as_str());
            i = i + 1;
        }
        proof {
            assert forall|k: Seq<char>| #[trigger] self.chains@.contains_key(k) implies exists|i: int| 0 <= i < names@.len() && (#[trigger] names@[i])@ == k by {
                let j = choose|j: int| 0 <= j < entries@.len() && (#[trigger] entries@[j]).0@ == k;
                assert(names@[j]@ == k);
            }
            assert forall|a: int| 0 <= a < names@.len() implies self.chains@.contains_key((#[trigger] names@[a])@) by {
                assert(entries@[a].0@ == names@[a]@);
            }
            assert forall|a: int, b: int| 0 <= a < names@.len() && 0 <= b < names@.len() && a != b implies (#[trigger] names@[a])@ != (#[trigger] names@[b])@ by {
                assert(entries@[a].0@ == names@[a]@ && entries@[b].0@ == names@[b]@);
            }
        }
        names
    }
}

/// `m` is the chain `e` overridden by `o`: `o`'s id, RPC URL and domain, `o`'s
/// explorer when it has one, and `e`'s tokens with `o`'s added or replacing.
pub open spec fn merged_chain(e: ChainConfig, o: ChainConfig, m: ChainConfig) -> bool {
    &&& m.chain_id == o.chain_id
    &&& m.rpc_url == o.rpc_url
    &&& m.hyperlane_domain == o.hyperlane_domain
    &&& m.explorer == (if o.explorer is Some { o.explorer } else { e.explorer })
    &&& m.tokens@ == e.tokens@.union_prefer_right(o.tokens@)
}

/// `fin` is the registry `old` with the registry `other` merged into it.
pub open spec fn registry_merged(
    old: Map<Seq<char>, ChainConfig>,
    other: Map<Seq<char>, ChainConfig>,
    fin: Map<Seq<char>, ChainConfig>,
) -> bool {
    &&& forall|k: Seq<char>| #[trigger] fin.contains_key(k) <==> old.contains_key(k) || other.contains_key(k)
    &&& forall|k: Seq<char>| other.contains_key(k) && !old.contains_key(k) ==> #[trigger] fin[k] == other[k]
    &&& forall|k: Seq<char>| old.contains_key(k) && !other.contains_key(k) ==> #[trigger] fin[k] == old[k]
    &&& forall|k: Seq<char>| old.contains_key(k) && other.contains_key(k) ==> merged_chain(old[k], other[k], #[trigger] fin[k])
}

/// What merging an override registry `other` into `old` gives for a chain
/// name `k`: a chain of only one registry is kept as it is; for a chain of
/// both, the override's chain id, RPC URL and domain win, its explorer
/// replaces the existing one only where it has one (an override without an
/// explorer keeps the existing explorer), and the tokens of both remain, the
/// override's winning on a shared symbol.
pub proof fn law_merge_override(
    old: Map<Seq<char>, ChainConfig>,
    other: Map<Seq<char>, ChainConfig>,
    fin: Map<Seq<char>, ChainConfig>,
    k: Seq<char>,
    symbol: Seq<char>,
)
    requires
        registry_merged(old, other, fin),
    ensures
        fin.contains_key(k) <==> old.contains_key(k) || other.contains_key(k),
        old.contains_key(k) && !other.contains_key(k) ==> fin[k] == old[k],
        !old.contains_key(k) && other.contains_key(k) ==> fin[k] == other[k],
        old.contains_key(k) && other.contains_key(k) ==> {
            &&& fin[k].chain_id == other[k].chain_id
            &&& fin[k].rpc_url == other[k].rpc_url
            &&& fin[k].hyperlane_domain == other[k].hyperlane_domain
            &&& other[k].explorer is None ==> fin[k].explorer == old[k].explorer
            &&& other[k].explorer is Some ==> fin[k].explorer == other[k].explorer
            &&& fin[k].tokens@.contains_key(symbol) <==> old[k].tokens@.contains_key(symbol) || other[k].tokens@.contains_key(
                symbol,
            )
            &&& other[k].tokens@.contains_key(symbol) ==> fin[k].tokens@[symbol] == other[k].tokens@[symbol]
            &&& old[k].tokens@.contains_key(symbol) && !other[k].tokens@.contains_key(symbol) ==> fin[k].tokens@[symbol]
                == old[k].tokens@[symbol]
        },
{
    if old.contains_key(k) && other.contains_key(k) {
        assert(merged_chain(old[k], other[k], fin[k]));
    }
}

/// Adds every token of `tokens` to `into`, replacing tokens of the same symbol.
fn merge_tokens(into: &mut NameMap<TokenConfig>, tokens: NameMap<TokenConfig>)
    ensures
        final(into)@ == old(into)@.union_prefer_right(tokens@),
{
    let ghost all = tokens@;
    let mut es = tokens.into_entries();
    let ghost full = es@;
    let ghost mut done = Map::<Seq<char>, TokenConfig>::empty();
    proof {
        crate::common::lemma_named_map(full);
        assert(old(into)@.union_prefer_right(done) =~= old(into)@);
    }
    while es.len() > 0
        invariant
            names_distinct(full),
            named_map(full) == all,
            es@ == full.take(es@.len() as int),
            es@.len() <= full.len(),
            forall|j: int| 0 <= j < es@.len() ==> !done.contains_key((#[trigger] full[j]).0@),
            forall|k: Seq<char>| #[trigger] done.contains_key(k) ==> all.contains_key(k) && done[k] == all[k],
            forall|j: int| es@.len() <= j < full.len() ==> done.contains_key((#[trigger] full[j]).0@),
            into@ == old(into)@.union_prefer_right(done),
        decreases es@.len(),
    {
        let ghost k = (es@.len() - 1) as int;
        let (name, tc) = es.pop().unwrap();
        proof {
            crate::common::lemma_named_map(full);
            assert(full[k] == (name, tc));
            assert(all[name@] == tc);
            assert forall|j: int| 0 <= j < es@.len() implies !done.insert(name@, tc).contains_key((#[trigger] full[j]).0@) by {
                assert(full[j].0@ != full[k].0@);
            }
            assert(old(into)@.union_prefer_right(done.insert(name@, tc)) =~= old(into)@.union_prefer_right(done).insert(name@, tc));
            done = done.insert(name@, tc);
            assert(es@ =~= full.take(es@.len() as int));
        }
        into.insert(name, tc);
    }
    proof {
        crate::common::lemma_named_map(full);
        assert forall|k: Seq<char>| #[trigger] all.contains_key(k) implies done.contains_key(k) by {
            let j = choose|j: int| 0 <= j < full.len() && (#[trigger] full[j]).0@ == k;
        }
        assert(done =~= all);
    }
}

impl ChainRegistry {
    /// Merges `other` into this registry: chains of `other` that are new are
    /// added; for a chain present in both, `other`'s chain id, RPC URL and
    /// domain replace this one's, its explorer does too when set, and its
    /// tokens are added, replacing tokens of the same symbol.
    pub fn merge(&mut self, other: ChainRegistry)
        ensures
            registry_merged(old(self).chains@, other.chains@, final(self).chains@),
    {
        let ghost all = other.chains@;
        let ghost start = self.chains@;
        let mut es = other.chains.into_entries();
        let ghost full = es@;
        let ghost mut done = Map::<Seq<char>, ChainConfig>::empty();
        proof {
            crate::common::lemma_named_map(full);
        }
        while es.len() > 0
            invariant
                names_distinct(full),
                named_map(full) == all,
                es@ == full.take(es@.len() as int),
                es@.len() <= full.len(),
                forall|j: int| 0 <= j < es@.len() ==> !done.contains_key((#[trigger] full[j]).0@),
                forall|k: Seq<char>| #[trigger] done.contains_key(k) ==> all.contains_key(k) && done[k] == all[k],
                forall|j: int| es@.len() <= j < full.len() ==> done.contains_key((#[trigger] full[j]).0@),
                registry_merged(start, done, self.chains@),
            decreases es@.len(),
        {
            let ghost k = (es@.len() - 1) as int;
            let (name, oc) = es.pop().unwrap();
            proof {
                crate::common::lemma_named_map(full);
                assert(full[k] == (name, oc));
                assert(all[name@] == oc);
                assert forall|j: int| 0 <= j < es@.len() implies !done.insert(name@, oc).contains_key((#[trigger] full[j]).0@) by {
                    assert(full[j].0@ != full[k].0@);
                }
                assert(es@ =~= full.take(es@.len() as int));
            }
            let ghost before = self.chains@;
            match self.chains.remove(name.as_str()) {
                Some(mut existing) => {
                    let ghost e = existing;
                    existing.rpc_url = oc.rpc_url;
                    existing.chain_id = oc.chain_id;
                    existing.hyperlane_domain = oc.hyperlane_domain;
                    if oc.explorer.is_some() {
                        existing.explorer = oc.explorer;
                    }
                    merge_tokens(&mut existing.tokens, oc.tokens);
                    assert(merged_chain(e, all[name@], existing));
                    let ghost m = existing;
                    self.chains.insert(name, existing);
                    proof {
                        assert(start.contains_key(name@));
                        assert(e == start[name@]);
                        let fin = self.chains@;
                        let d2 = done.insert(name@, oc);
                        assert(fin == before.remove(name@).insert(name@, m));
                        assert forall|kk: Seq<char>| #[trigger] fin.contains_key(kk) <==> start.contains_key(kk) || d2.contains_key(kk) by {}
                        assert forall|kk: Seq<char>| d2.contains_key(kk) && !start.contains_key(kk) implies #[trigger] fin[kk] == d2[kk] by {}
                        assert forall|kk: Seq<char>| start.contains_key(kk) && !d2.contains_key(kk) implies #[trigger] fin[kk] == start[kk] by {}
                        assert forall|kk: Seq<char>| start.contains_key(kk) && d2.contains_key(kk) implies merged_chain(start[kk], d2[kk], #[trigger] fin[kk]) by {
                            if kk != name@ {
                                assert(before[kk] == fin[kk]);
                            }
                        }
                        done = d2;
                    }
                },
                None => {
                    let ghost o = oc;
                    self.chains.insert(name, oc);
                    proof {
                        assert(!start.contains_key(name@));
                        let fin = self.chains@;
                        let d2 = done.insert(name@, o);
                        assert forall|kk: Seq<char>| #[trigger] fin.contains_key(kk) <==> start.contains_key(kk) || d2.contains_key(kk) by {}
                        assert forall|kk: Seq<char>| d2.contains_key(kk) && !start.contains_key(kk) implies #[trigger] fin[kk] == d2[kk] by {}
                        assert forall|kk: Seq<char>| start.contains_key(kk) && !d2.contains_key(kk) implies #[trigger] fin[kk] == start[kk] by {}
                        assert forall|kk: Seq<char>| start.contains_key(kk) && d2.contains_key(kk) implies merged_chain(start[kk], d2[kk], #[trigger] fin[kk]) by {
                            assert(kk != name@);
                            assert(before[kk] == fin[kk]);
                        }
                        done = d2;
                    }
                },
            }
        }
        proof {
            crate::common::lemma_named_map(full);
            assert forall|kk: Seq<char>| #[trigger] all.contains_key(kk) implies done.contains_key(kk) by {
                let j = choose|j: int| 0 <= j < full.len() && (#[trigger] full[j]).0@ == kk;
            }
            assert(done =~= all);
        }
    }
}

} // verus!
