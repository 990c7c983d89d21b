//! Domain types for EVM cross-chain operations.
use vstd::prelude::*;
use crate::common::prefixed;

verus! {

/// Errors from EVM operations.
#[derive(Clone, Debug, PartialEq, Eq)]
pub enum EvmError {
    Provider(String),
    ContractCall(String),
    TransactionFailed(String),
    Signing(String),
    Config(String),
    AddressParse(String),
}

impl EvmError {
    /// The message of the error: a prefix naming its kind, then its detail.
    pub open spec fn text(&self) -> Seq<char> {
        match self {
            EvmError::Provider(m) => "provider error: "@ + m@,
            EvmError::ContractCall(m) => "contract call failed: "@ + m@,
            EvmError::TransactionFailed(m) => "transaction failed: "@ + m@,
            EvmError::Signing(m) => "signing error: "@ + m@,
            EvmError::Config(m) => "configuration error: "@ + m@,
            EvmError::AddressParse(m) => "address parse error: "@ + m@,
        }
    }

    /// The human-readable message of the error.
    pub fn to_string(&self) -> (r: String)
        ensures
            r@ == self.text(),
    {
        match self {
            EvmError::Provider(m) => prefixed("provider error: ", m.as_str()),
            EvmError::ContractCall(m) => prefixed("contract call failed: ", m.as_str()),
            EvmError::TransactionFailed(m) => prefixed("transaction failed: ", m.as_str()),
            EvmError::Signing(m) => prefixed("signing error: ", m.as_str()),
            EvmError::Config(m) => prefixed("configuration error: ", m.as_str()),
            EvmError::AddressParse(m) => prefixed("address parse error: ", m.as_str()),
        }
    }
}

/// One event log of a transaction receipt: its indexed topics and its data.
#[derive(Clone, Debug, PartialEq, Eq)]
pub struct EvmLog {
    pub topics: Vec<[u8; 32]>,
    pub data: Vec<u8>,
}

/// The natural number that the big-endian bytes `s` denote.
pub open spec fn be_nat(s: Seq<u8>) -> nat
    decreases s.len(),
{
    if s.len() == 0 {
        0
    } else {
        be_nat(s.drop_last()) * 256 + s.last() as nat
    }
}

/// A prefix of a big-endian number denotes no more than the whole.
pub proof fn lemma_be_nat_prefix(s: Seq<u8>, i: int)
    requires
        0 <= i <= s.len(),
    ensures
        be_nat(s.take(i)) <= be_nat(s),
    decreases s.len() - i,
{
    if i < s.len() {
        lemma_be_nat_prefix(s, i + 1);
        assert(s.take(i + 1).drop_last() =~= s.take(i));
    } else {
        assert(s.take(i) =~= s);
    }
}

/// `256` to the power `n`.
pub open spec fn pow256(n: nat) -> nat
    decreases n,
{
    if n == 0 {
        1
    } else {
        256 * pow256((n - 1) as nat)
    }
}

/// A big-endian number is below `256` to the power of its length.
pub proof fn lemma_be_nat_bound(s: Seq<u8>)
    ensures
        be_nat(s) < pow256(s.len()),
    decreases s.len(),
{
    if s.len() > 0 {
        lemma_be_nat_bound(s.drop_last());
        let a = be_nat(s.drop_last());
        let p = pow256(s.drop_last().len());
        assert(a * 256 + s.last() < p * 256) by (nonlinear_arith)
            requires
                a < p,
                s.last() < 256,
        ;
    }
}

/// Powers of 256 grow with the exponent.
pub proof fn lemma_pow256_mono(a: nat, b: nat)
    requires
        a <= b,
    ensures
        pow256(a) <= pow256(b),
    decreases b,
{
    if a < b {
        lemma_pow256_mono(a, (b - 1) as nat);
    }
}

/// The big-endian number of a concatenation: the first part shifted past
/// the second, plus the second.
pub proof fn lemma_be_nat_concat(s: Seq<u8>, t: Seq<u8>)
    ensures
        be_nat(s + t) == be_nat(s) * pow256(t.len()) + be_nat(t),
    decreases t.len(),
{
    if t.len() == 0 {
        assert(s + t =~= s);
        assert(pow256(0) == 1);
        assert(be_nat(t) == 0);
    } else {
        lemma_be_nat_concat(s, t.drop_last());
        assert((s + t).drop_last() =~= s + t.drop_last());
        assert((s + t).last() == t.last());
        let a = be_nat(s);
        let p = pow256(t.drop_last().len());
        let c = be_nat(t.drop_last());
        assert(pow256(t.len()) == 256 * p);
        assert(be_nat(t) == c * 256 + t.last());
        assert(be_nat(s + t) == be_nat(s + t.drop_last()) * 256 + t.last());
        assert((a * p + c) * 256 + t.last() == a * (256 * p) + (c * 256 + t.last())) by (nonlinear_arith);
        assert(be_nat(s + t) == a * pow256(t.len()) + be_nat(t));
    }
}

/// Zero bytes denote zero.
pub proof fn lemma_be_nat_zeros(n: nat)
    ensures
        be_nat(Seq::new(n, |i: int| 0u8)) == 0,
    decreases n,
{
    if n > 0 {
        lemma_be_nat_zeros((n - 1) as nat);
        assert(Seq::new(n, |i: int| 0u8).drop_last() =~= Seq::new((n - 1) as nat, |i: int| 0u8));
    }
}

/// The 32-byte big-endian ABI word of `data` at `start`.
pub open spec fn abi_word(data: Seq<u8>, start: int) -> nat {
    be_nat(data.subrange(start, start + 32))
}

/// Reads the ABI word at `start` when it is at most `limit`; `None` when it
/// is larger.
pub fn read_abi_word_at_most(data: &[u8], start: usize, limit: usize) -> (r: Option<usize>)
    requires
        start + 32 <= data@.len(),
    ensures
        match r {
            Some(v) => v == abi_word(data@, start as int) && v <= limit,
            None => abi_word(data@, start as int) > limit,
        },
{
    let ghost w = data@.subrange(start as int, start + 32);
    let mut acc: usize = 0;
    let mut i: usize = 0;
    while i < 32
        invariant
            i <= 32,
            start + 32 <= data@.len(),
            data@.len() == data.len(),
            w == data@.subrange(start as int, start + 32),
            acc == be_nat(w.take(i as int)),
            acc <= limit,
        decreases 32 - i,
    {
        let b = data[start + i];
        proof {
            assert(w.take(i + 1).drop_last() =~= w.take(i as int));
            assert(w[i as int] == b);
            assert(be_nat(w.take(i + 1)) == acc * 256 + b);
            lemma_be_nat_prefix(w, i + 1);
        }
        if acc > limit / 256 {
            assert(acc * 256 > limit) by (nonlinear_arith)
                requires
                    acc > limit / 256,
            ;
            return None;
        }
        assert(acc * 256 <= limit) by (nonlinear_arith)
            requires
                acc <= limit / 256,
        ;
        if b as usize > limit || acc * 256 > limit - b as usize {
            return None;
        }
        acc = acc * 256 + b as usize;
        i = i + 1;
    }
    assert(w.take(32) =~= w);
    Some(acc)
}

/// Reads the 32-byte big-endian ABI word at `start` as a `usize`.
pub fn read_abi_word(data: &[u8], start: usize) -> (r: usize)
    requires
        start + 32 <= data@.len(),
        abi_word(data@, start as int) <= usize::MAX,
    ensures
        r == abi_word(data@, start as int),
{
    let ghost w = data@.subrange(start as int, start + 32);
    let mut acc: usize = 0;
    let mut i: usize = 0;
    while i < 32
        invariant
            i <= 32,
            start + 32 <= data@.len(),
            data@.len() == data.len(),
            w == data@.subrange(start as int, start + 32),
            be_nat(w) <= usize::MAX,
            acc == be_nat(w.take(i as int)),
        decreases 32 - i,
    {
        proof {
            lemma_be_nat_prefix(w, i + 1);
            assert(w.take(i + 1).drop_last() =~= w.take(i as int));
            assert(w[i as int] == data@[start + i]);
        }
        acc = acc * 256 + data[start + i] as usize;
        i = i + 1;
    }
    assert(w.take(32) =~= w);
    acc
}

} // verus!

verus! {

/// The index of the first log that satisfies `p`, if any.
pub open spec fn first_log_where(logs: Seq<EvmLog>, p: spec_fn(EvmLog) -> bool) -> Option<int>
    decreases logs.len(),
{
    if logs.len() == 0 {
        None
    } else {
        match first_log_where(logs.drop_last(), p) {
            Some(i) => Some(i),
            None => if p(logs.last()) {
                Some(logs.len() - 1)
            } else {
                None
            },
        }
    }
}

/// Scanning logs in order: when none of the first `i` satisfies `p` and the
/// `i`-th does, it is the first one; when none of all of them does, there is none.
pub proof fn lemma_first_log_where(logs: Seq<EvmLog>, p: spec_fn(EvmLog) -> bool, i: int)
    requires
        0 <= i <= logs.len(),
        forall|j: int| 0 <= j < i ==> !p(#[trigger] logs[j]),
    ensures
        i == logs.len() ==> first_log_where(logs, p) is None,
        i < logs.len() && p(logs[i]) ==> first_log_where(logs, p) == Some(i),
{
    lemma_first_log_where_prefix(logs, p, i);
    if i < logs.len() {
        assert(logs.take(i + 1).drop_last() =~= logs.take(i));
        if p(logs[i]) {
            lemma_first_log_where_extends(logs, p, i + 1);
        }
    } else {
        assert(logs.take(i) =~= logs);
    }
}

proof fn lemma_first_log_where_prefix(logs: Seq<EvmLog>, p: spec_fn(EvmLog) -> bool, i: int)
    requires
        0 <= i <= logs.len(),
        forall|j: int| 0 <= j < i ==> !p(#[trigger] logs[j]),
    ensures
        first_log_where(logs.take(i), p) is None,
    decreases i,
{
    if i > 0 {
        lemma_first_log_where_prefix(logs, p, i - 1);
        assert(logs.take(i).drop_last() =~= logs.take(i - 1));
    }
}

proof fn lemma_first_log_where_extends(logs: Seq<EvmLog>, p: spec_fn(EvmLog) -> bool, k: int)
    requires
        0 <= k <= logs.len(),
    ensures
        first_log_where(logs.take(k), p) is Some ==> first_log_where(logs, p) == first_log_where(logs.take(k), p),
    decreases logs.len() - k,
{
    if k < logs.len() {
        lemma_first_log_where_extends(logs, p, k + 1);
        assert(logs.take(k + 1).drop_last() =~= logs.take(k));
    } else {
        assert(logs.take(k) =~= logs);
    }
}

} // verus!
