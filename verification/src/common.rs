//! Types shared by every module of the SDK: the error type, account
//! identifiers, the protobuf `Any` envelope and an ordered string map.
use vstd::prelude::*;

verus! {

/// Version of this SDK.
pub const VERSION: &'static str = "0.1.0";

/// Errors returned by the request builders and helpers of this SDK.
#[derive(Clone, Debug, PartialEq, Eq)]
pub enum SdkError {
    /// A required input was missing or malformed.
    InvalidInput(String),
    /// Any other failure, carrying a description.
    Other(String),
}

/// `e` is an `InvalidInput` error whose message reads `msg`.
pub open spec fn is_invalid_input(e: SdkError, msg: Seq<char>) -> bool {
    e matches SdkError::InvalidInput(m) && m@ == msg
}

/// `r` failed with an `InvalidInput` error whose message reads `msg`.
pub open spec fn fails_with<T>(r: Result<T, SdkError>, msg: Seq<char>) -> bool {
    r matches Err(e) && is_invalid_input(e, msg)
}

impl SdkError {
    /// Builds an `InvalidInput` error carrying `msg`.
    pub fn invalid_input(msg: &str) -> (e: SdkError)
        ensures
            is_invalid_input(e, msg@),
    {
        SdkError::InvalidInput(msg.to_owned())
    }
}

/// Takes the value of a required builder field, or reports it missing with `msg`.
pub fn require<T>(field: Option<T>, msg: &str) -> (r: Result<T, SdkError>)
    ensures
        field matches Some(v) ==> r == Ok::<T, SdkError>(v),
        field is None ==> fails_with(r, msg@),
{
    match field {
        Some(v) => Ok(v),
        None => Err(SdkError::invalid_input(msg)),
    }
}

/// The text held by an optional string.
pub open spec fn opt_view(o: Option<String>) -> Option<Seq<char>> {
    match o {
        Some(s) => Some(s@),
        None => None,
    }
}

/// The text of an optional string, or the empty text where it is absent.
pub open spec fn text_or_empty(o: Option<String>) -> Seq<char> {
    match o {
        Some(s) => s@,
        None => Seq::empty(),
    }
}

/// An owned copy of `s`.
pub fn own(s: &str) -> (r: String)
    ensures
        r@ == s@,
{
    s.to_owned()
}

/// A 32-byte on-chain account identifier.
#[derive(Clone, Copy, Debug, PartialEq, Eq, Hash)]
pub struct AccountId {
    pub bytes: [u8; 32],
}

impl AccountId {
    /// Wraps the 32 raw bytes of an account.
    pub fn new(bytes: [u8; 32]) -> (r: AccountId)
        ensures
            r.bytes == bytes,
    {
        AccountId { bytes }
    }
}

/// The protobuf `Any` envelope: a type URL and the encoded message.
#[derive(Clone, Debug, PartialEq, Eq)]
pub struct ProtoAny {
    pub type_url: String,
    pub value: Vec<u8>,
}

impl ProtoAny {
    /// Wraps an encoded message under its type URL.
    pub fn new(type_url: &str, value: Vec<u8>) -> (r: ProtoAny)
        ensures
            r.type_url@ == type_url@,
            r.value == value,
    {
        ProtoAny { type_url: own(type_url), value }
    }
}

/// No two entries of `s` share a key.
pub open spec fn keys_distinct(s: Seq<(String, String)>) -> bool {
    forall|i: int, j: int|
        0 <= i < s.len() && 0 <= j < s.len() && i != j ==> (#[trigger] s[i]).0@ != (#[trigger] s[j]).0@
}

/// The map that a list of entries denotes, later entries taking precedence.
pub open spec fn entries_map(s: Seq<(String, String)>) -> Map<Seq<char>, Seq<char>>
    decreases s.len(),
{
    if s.len() == 0 {
        Map::empty()
    } else {
        entries_map(s.drop_last()).insert(s.last().0@, s.last().1@)
    }
}

/// The keys of `entries_map(s)` are exactly the keys of the entries, and with
/// distinct keys each entry's value is the one mapped.
pub proof fn lemma_entries_map(s: Seq<(String, String)>)
    ensures
        forall|k: Seq<char>|
            #[trigger] entries_map(s).contains_key(k) <==> exists|i: int| 0 <= i < s.len() && (#[trigger] s[i]).0@ == k,
        keys_distinct(s) ==> forall|i: int|
            0 <= i < s.len() ==> #[trigger] entries_map(s)[s[i].0@] == s[i].1@,
    decreases s.len(),
{
    if s.len() > 0 {
        let p = s.drop_last();
        lemma_entries_map(p);
        assert forall|k: Seq<char>| #[trigger] entries_map(s).contains_key(k) implies exists|i: int|
            0 <= i < s.len() && (#[trigger] s[i]).0@ == k by {
            if k == s.last().0@ {
                assert(s[s.len() - 1].0@ == k);
            } else {
                assert(entries_map(p).contains_key(k));
                let i = choose|i: int| 0 <= i < p.len() && (#[trigger] p[i]).0@ == k;
                assert(s[i] == p[i]);
            }
        }
        assert forall|k: Seq<char>| (exists|i: int| 0 <= i < s.len() && (#[trigger] s[i]).0@ == k) implies #[trigger] entries_map(s).contains_key(k) by {
            let i = choose|i: int| 0 <= i < s.len() && (#[trigger] s[i]).0@ == k;
            if i < s.len() - 1 {
                assert(p[i] == s[i]);
                assert(entries_map(p).contains_key(k));
            }
        }
        if keys_distinct(s) {
            assert forall|i: int, j: int|
                0 <= i < p.len() && 0 <= j < p.len() && i != j implies (#[trigger] p[i]).0@ != (#[trigger] p[j]).0@ by {
                assert(p[i] == s[i] && p[j] == s[j]);
            }
            assert forall|i: int| 0 <= i < s.len() implies #[trigger] entries_map(s)[s[i].0@] == s[i].1@ by {
                if i < s.len() - 1 {
                    assert(p[i] == s[i]);
                    assert(s[i].0@ != s[s.len() - 1].0@);
                    assert(entries_map(p)[p[i].0@] == p[i].1@);
                }
            }
        }
    }
}

/// Appending an entry inserts it into the denoted map.
pub proof fn lemma_entries_map_push(s: Seq<(String, String)>, e: (String, String))
    ensures
        entries_map(s.push(e)) == entries_map(s).insert(e.0@, e.1@),
{
    assert(s.push(e).drop_last() =~= s);
}

/// Replacing the entry that holds a key replaces that key's value.
pub proof fn lemma_entries_map_update(s: Seq<(String, String)>, j: int, e: (String, String))
    requires
        keys_distinct(s),
        0 <= j < s.len(),
        s[j].0@ == e.0@,
    ensures
        keys_distinct(s.update(j, e)),
        entries_map(s.update(j, e)) == entries_map(s).insert(e.0@, e.1@),
{
    let t = s.update(j, e);
    assert forall|a: int, b: int|
        0 <= a < t.len() && 0 <= b < t.len() && a != b implies (#[trigger] t[a]).0@ != (#[trigger] t[b]).0@ by {
        assert(t[a].0@ == s[a].0@ && t[b].0@ == s[b].0@);
    }
    lemma_entries_map(s);
    lemma_entries_map(t);
    let m1 = entries_map(t);
    let m2 = entries_map(s).insert(e.0@, e.1@);
    assert forall|k: Seq<char>| #[trigger] m1.contains_key(k) <==> m2.contains_key(k) by {
        if m1.contains_key(k) {
            let i = choose|i: int| 0 <= i < t.len() && (#[trigger] t[i]).0@ == k;
            assert(s[i].0@ == k);
        }
        if m2.contains_key(k) && k != e.0@ {
            let i = choose|i: int| 0 <= i < s.len() && (#[trigger] s[i]).0@ == k;
            assert(t[i].0@ == k);
        }
        if k == e.0@ {
            assert(t[j].0@ == k);
        }
    }
    assert forall|k: Seq<char>| #[trigger] m1.contains_key(k) implies m1[k] == m2[k] by {
        let i = choose|i: int| 0 <= i < t.len() && (#[trigger] t[i]).0@ == k;
        if i == j {
            assert(m1[t[j].0@] == t[j].1@);
        } else {
            assert(t[i] == s[i]);
            assert(m1[t[i].0@] == t[i].1@);
            assert(entries_map(s)[s[i].0@] == s[i].1@);
        }
    }
    assert(m1 =~= m2);
}

/// A map from strings to strings, kept in insertion order with one entry per key.
#[derive(Debug, PartialEq, Eq)]
pub struct StringMap {
    entries: Vec<(String, String)>,
}

impl View for StringMap {
    type V = Map<Seq<char>, Seq<char>>;

    closed spec fn view(&self) -> Map<Seq<char>, Seq<char>> {
        entries_map(self.entries@)
    }
}

impl Clone for StringMap {
    /// A copy holding the same entries.
    fn clone(&self) -> (r: StringMap)
        ensures
            r@ == self@,
    {
        proof {
            use_type_invariant(self);
        }
        let n = self.entries.len();
        let mut entries: Vec<(String, String)> = Vec::new();
        let mut i: usize = 0;
        while i < n
            invariant
                n == self.entries@.len(),
                i <= n,
                entries@ == self.entries@.take(i as int),
            decreases n - i,
        {
            let k = self.entries[i].0.clone();
            let v = self.entries[i].1.clone();
            entries.push((k, v));
            i = i + 1;
            assert(entries@ =~= self.entries@.take(i as int));
        }
        assert(self.entries@.take(n as int) =~= self.entries@);
        StringMap { entries }
    }
}

impl StringMap {
    #[verifier::type_invariant]
    spec fn inv(self) -> bool {
        keys_distinct(self.entries@)
    }

    /// The empty map.
    pub fn new() -> (r: StringMap)
        ensures
            r@ == Map::<Seq<char>, Seq<char>>::empty(),
    {
        StringMap { entries: Vec::new() }
    }

    /// The index of the entry that holds `key`, if any.
    fn position(&self, key: &String) -> (r: Option<usize>)
        ensures
            match r {
                Some(i) => i < self.entries@.len() && self.entries@[i as int].0@ == key@,
                None => forall|j: int| 0 <= j < self.entries@.len() ==> (#[trigger] self.entries@[j]).0@ != key@,
            },
    {
        let n = self.entries.len();
        let mut i: usize = 0;
        while i < n
            invariant
                n == self.entries@.len(),
                i <= n,
                forall|j: int| 0 <= j < i ==> (#[trigger] self.entries@[j]).0@ != key@,
            decreases n - i,
        {
            if self.entries[i].0 == *key {
                return Some(i);
            }
            i = i + 1;
        }
        None
    }

    /// Maps `key` to `value`, replacing any earlier value of `key`.
    pub fn insert(self, key: &str, value: &str) -> (r: StringMap)
        ensures
            r@ == self@.insert(key@, value@),
    {
        proof {
            use_type_invariant(&self);
        }
        let k = own(key);
        let v = own(value);
        let pos = self.position(&k);
        let ghost old_entries = self.entries@;
        let StringMap { mut entries } = self;
        match pos {
            Some(i) => {
                proof {
                    lemma_entries_map_update(old_entries, i as int, (k, v));
                }
                entries.set(i, (k, v));
            },
            None => {
                proof {
                    lemma_entries_map_push(old_entries, (k, v));
                    let t = old_entries.push((k, v));
                    let n = old_entries.len();
                    assert forall|a: int, b: int|
                        0 <= a < t.len() && 0 <= b < t.len() && a != b implies (#[trigger] t[a]).0@ != (#[trigger] t[b]).0@ by {
                        if a < n && b < n {
                            assert(t[a] == old_entries[a] && t[b] == old_entries[b]);
                        } else if a < n {
                            assert(t[a] == old_entries[a]);
                        } else {
                            assert(t[b] == old_entries[b]);
                        }
                    }
                }
                entries.push((k, v));
            },
        }
        StringMap { entries }
    }

    /// Whether the map holds no entry.
    pub fn is_empty(&self) -> (b: bool)
        ensures
            b <==> self@ == Map::<Seq<char>, Seq<char>>::empty(),
    {
        proof {
            lemma_entries_map(self.entries@);
            if self.entries@.len() > 0 {
                assert(self@.contains_key(self.entries@[0].0@));
            } else {
                assert(self@ =~= Map::<Seq<char>, Seq<char>>::empty());
            }
        }
        self.entries.len() == 0
    }

    /// The value mapped to `key`, if any.
    pub fn get(&self, key: &str) -> (r: Option<&String>)
        ensures
            match r {
                Some(v) => self@.contains_key(key@) && self@[key@] == v@,
                None => !self@.contains_key(key@),
            },
    {
        proof {
            use_type_invariant(self);
            lemma_entries_map(self.entries@);
        }
        let k = own(key);
        match self.position(&k) {
            Some(i) => {
                proof {
                    assert(self@[self.entries@[i as int].0@] == self.entries@[i as int].1@);
                }
                Some(&self.entries[i].1)
            },
            None => None,
        }
    }

    /// The number of keys in the map.
    pub fn len(&self) -> (n: usize)
        ensures
            n == self@.dom().len(),
    {
        proof {
            use_type_invariant(self);
            lemma_entries_map_len(self.entries@);
        }
        self.entries.len()
    }
}

/// With distinct keys, the map has as many keys as there are entries.
pub proof fn lemma_entries_map_len(s: Seq<(String, String)>)
    requires
        keys_distinct(s),
    ensures
        entries_map(s).dom().finite(),
        entries_map(s).dom().len() == s.len(),
    decreases s.len(),
{
    if s.len() > 0 {
        let p = s.drop_last();
        assert forall|i: int, j: int|
            0 <= i < p.len() && 0 <= j < p.len() && i != j implies (#[trigger] p[i]).0@ != (#[trigger] p[j]).0@ by {
            assert(p[i] == s[i] && p[j] == s[j]);
        }
        lemma_entries_map_len(p);
        lemma_entries_map(p);
        if entries_map(p).contains_key(s.last().0@) {
            let i = choose|i: int| 0 <= i < p.len() && (#[trigger] p[i]).0@ == s.last().0@;
            assert(s[i].0@ == s[s.len() - 1].0@);
        }
    }
}

} // verus!

verus! {

/// The four big-endian bytes of `x`.
pub open spec fn be_u32_bytes(x: u32) -> Seq<u8> {
    seq![
        (x / 0x100_0000) as u8,
        ((x / 0x1_0000) % 0x100) as u8,
        ((x / 0x100) % 0x100) as u8,
        (x % 0x100) as u8,
    ]
}

/// The eight big-endian bytes of `x`.
pub open spec fn be_u64_bytes(x: u64) -> Seq<u8> {
    be_u32_bytes((x / 0x1_0000_0000) as u32) + be_u32_bytes((x % 0x1_0000_0000) as u32)
}

/// The big-endian encoding of `x`, as `u32::to_be_bytes` gives it.
pub fn u32_to_be_bytes(x: u32) -> (r: Vec<u8>)
    ensures
        r@ == be_u32_bytes(x),
{
    let mut r: Vec<u8> = Vec::new();
    r.push((x / 0x100_0000) as u8);
    r.push(((x / 0x1_0000) % 0x100) as u8);
    r.push(((x / 0x100) % 0x100) as u8);
    r.push((x % 0x100) as u8);
    assert(r@ =~= be_u32_bytes(x));
    r
}

/// The big-endian encoding of `x`, as `u64::to_be_bytes` gives it.
pub fn u64_to_be_bytes(x: u64) -> (r: Vec<u8>)
    ensures
        r@ == be_u64_bytes(x),
{
    let mut r = u32_to_be_bytes((x / 0x1_0000_0000) as u32);
    let lo = u32_to_be_bytes((x % 0x1_0000_0000) as u32);
    append_bytes(&mut r, lo.as_slice());
    r
}

/// The text `prefix` followed by `text`.
pub fn prefixed(prefix: &str, text: &str) -> (r: String)
    ensures
        r@ == prefix@ + text@,
{
    let mut r = own(prefix);
    r.append(text);
    r
}

/// A copy of the bytes `b`.
pub fn copy_bytes(b: &[u8]) -> (r: Vec<u8>)
    ensures
        r@ == b@,
{
    let mut v: Vec<u8> = Vec::new();
    append_bytes(&mut v, b);
    assert(v@ =~= b@);
    v
}

/// Appends a copy of `s` to `v`.
pub fn append_bytes(v: &mut Vec<u8>, s: &[u8])
    ensures
        final(v)@ == old(v)@ + s@,
{
    let n = s.len();
    let mut i: usize = 0;
    while i < n
        invariant
            n == s@.len(),
            i <= n,
            v@ == old(v)@ + s@.take(i as int),
        decreases n - i,
    {
        v.push(s[i]);
        i = i + 1;
        assert(v@ =~= old(v)@ + s@.take(i as int));
    }
    assert(s@.take(n as int) =~= s@);
}

/// `n` zero bytes.
pub fn zero_bytes(n: usize) -> (r: Vec<u8>)
    ensures
        r@ == Seq::new(n as nat, |i: int| 0u8),
{
    let mut r: Vec<u8> = Vec::new();
    let mut i: usize = 0;
    while i < n
        invariant
            i <= n,
            r@ == Seq::new(i as nat, |j: int| 0u8),
        decreases n - i,
    {
        r.push(0u8);
        i = i + 1;
        assert(r@ =~= Seq::new(i as nat, |j: int| 0u8));
    }
    r
}

} // verus!

verus! {

/// Whether two byte strings are equal, compared byte by byte.
pub fn bytes_eq(a: &[u8], b: &[u8]) -> (r: bool)
    ensures
        r == (a@ == b@),
{
    if a.len() != b.len() {
        return false;
    }
    let n = a.len();
    let mut i: usize = 0;
    while i < n
        invariant
            n == a@.len(),
            n == b@.len(),
            i <= n,
            forall|j: int| 0 <= j < i ==> a@[j] == b@[j],
        decreases n - i,
    {
        if a[i] != b[i] {
            return false;
        }
        i = i + 1;
    }
    assert(a@ =~= b@);
    true
}

} // verus!

verus! {

/// The decimal digit `d`.
pub open spec fn decimal_digit(d: nat) -> char {
    if d == 0 {
        '0'
    } else if d == 1 {
        '1'
    } else if d == 2 {
        '2'
    } else if d == 3 {
        '3'
    } else if d == 4 {
        '4'
    } else if d == 5 {
        '5'
    } else if d == 6 {
        '6'
    } else if d == 7 {
        '7'
    } else if d == 8 {
        '8'
    } else {
        '9'
    }
}

/// The decimal text of `n`, without leading zeros.
pub open spec fn decimal_text(n: nat) -> Seq<char>
    decreases n,
{
    if n < 10 {
        seq![decimal_digit(n)]
    } else {
        decimal_text(n / 10) + seq![decimal_digit(n % 10)]
    }
}

/// A decimal digit character is `'0'` plus its value.
proof fn lemma_decimal_digit(d: nat)
    requires
        d < 10,
    ensures
        decimal_digit(d) as nat == '0' as nat + d,
{
}

/// The number that a text of decimal digits denotes.
pub open spec fn decimal_value(t: Seq<char>) -> nat
    decreases t.len(),
{
    if t.len() == 0 {
        0
    } else {
        decimal_value(t.drop_last()) * 10 + (t.last() as nat - '0' as nat) as nat
    }
}

/// The decimal text of a number is made of the digits `0`..`9`, has no
/// leading zero (but for zero itself) and reads back as the number.
pub proof fn law_decimal_text(n: nat)
    ensures
        decimal_text(n).len() >= 1,
        forall|i: int| 0 <= i < decimal_text(n).len() ==> '0' <= #[trigger] decimal_text(n)[i] <= '9',
        n > 0 ==> decimal_text(n)[0] != '0',
        decimal_value(decimal_text(n)) == n,
    decreases n,
{
    if n < 10 {
        lemma_decimal_digit(n);
        assert(decimal_text(n).drop_last() =~= Seq::<char>::empty());
        assert(decimal_value(Seq::<char>::empty()) == 0);
    } else {
        lemma_decimal_digit(n % 10);
        law_decimal_text(n / 10);
        let t = decimal_text(n);
        assert(t.drop_last() =~= decimal_text(n / 10));
        assert forall|i: int| 0 <= i < t.len() implies '0' <= #[trigger] t[i] <= '9' by {
            if i < t.len() - 1 {
                assert(t[i] == decimal_text(n / 10)[i]);
            }
        }
        assert(t[0] == decimal_text(n / 10)[0]);
        assert(t.last() == decimal_digit(n % 10));
        assert(decimal_value(t) == decimal_value(t.drop_last()) * 10 + (t.last() as nat - '0' as nat) as nat);
        assert(decimal_value(t) == (n / 10) * 10 + n % 10);
    }
}

/// The digit `d` as a one-character string.
fn digit_str(d: u64) -> (r: &'static str)
    requires
        d < 10,
    ensures
        r@ == seq![decimal_digit(d as nat)],
{
    match d {
        0 => {
            proof {
                reveal_strlit("0");
            }
            "0"
        },
        1 => {
            proof {
                reveal_strlit("1");
            }
            "1"
        },
        2 => {
            proof {
                reveal_strlit("2");
            }
            "2"
        },
        3 => {
            proof {
                reveal_strlit("3");
            }
            "3"
        },
        4 => {
            proof {
                reveal_strlit("4");
            }
            "4"
        },
        5 => {
            proof {
                reveal_strlit("5");
            }
            "5"
        },
        6 => {
            proof {
                reveal_strlit("6");
            }
            "6"
        },
        7 => {
            proof {
                reveal_strlit("7");
            }
            "7"
        },
        8 => {
            proof {
                reveal_strlit("8");
            }
            "8"
        },
        _ => {
            proof {
                reveal_strlit("9");
            }
            "9"
        },
    }
}

/// The decimal text of `n`, as `format!("{n}")` writes it.
pub fn decimal_string(n: u64) -> (r: String)
    ensures
        r@ == decimal_text(n as nat),
    decreases n,
{
    if n < 10 {
        let mut s = String::new();
        s.append(digit_str(n));
        s
    } else {
        let mut s = decimal_string(n / 10);
        s.append(digit_str(n % 10));
        s
    }
}

/// `a`, the decimal text of `n`, `b`, then the decimal text of `m`.
pub fn text_with_two_numbers(a: &str, n: u64, b: &str, m: u64) -> (r: String)
    ensures
        r@ == a@ + decimal_text(n as nat) + b@ + decimal_text(m as nat),
{
    let mut s = text_with_number(a, n, b);
    let d = decimal_string(m);
    s.append(d.as_str());
    s
}

/// `prefix`, then the decimal text of `n`, then `suffix`.
pub fn text_with_number(prefix: &str, n: u64, suffix: &str) -> (r: String)
    ensures
        r@ == prefix@ + decimal_text(n as nat) + suffix@,
{
    let mut s = own(prefix);
    let d = decimal_string(n);
    s.append(d.as_str());
    s.append(suffix);
    s
}

} // verus!

verus! {

/// No two entries of `s` share a name.
pub open spec fn names_distinct<V>(s: Seq<(String, V)>) -> bool {
    forall|i: int, j: int|
        0 <= i < s.len() && 0 <= j < s.len() && i != j ==> (#[trigger] s[i]).0@ != (#[trigger] s[j]).0@
}

/// The map that a list of named entries denotes, later entries taking precedence.
pub open spec fn named_map<V>(s: Seq<(String, V)>) -> Map<Seq<char>, V>
    decreases s.len(),
{
    if s.len() == 0 {
        Map::empty()
    } else {
        named_map(s.drop_last()).insert(s.last().0@, s.last().1)
    }
}

/// The names of `named_map(s)` are the names of the entries; with distinct
/// names each entry's value is the one mapped.
pub proof fn lemma_named_map<V>(s: Seq<(String, V)>)
    ensures
        forall|k: Seq<char>|
            #[trigger] named_map(s).contains_key(k) <==> exists|i: int| 0 <= i < s.len() && (#[trigger] s[i]).0@ == k,
        names_distinct(s) ==> forall|i: int| 0 <= i < s.len() ==> #[trigger] named_map(s)[s[i].0@] == s[i].1,
    decreases s.len(),
{
    if s.len() > 0 {
        let p = s.drop_last();
        lemma_named_map(p);
        assert forall|k: Seq<char>| #[trigger] named_map(s).contains_key(k) implies exists|i: int|
            0 <= i < s.len() && (#[trigger] s[i]).0@ == k by {
            if k == s.last().0@ {
                assert(s[s.len() - 1].0@ == k);
            } else {
                assert(named_map(p).contains_key(k));
                let i = choose|i: int| 0 <= i < p.len() && (#[trigger] p[i]).0@ == k;
                assert(s[i] == p[i]);
            }
        }
        assert forall|k: Seq<char>| (exists|i: int| 0 <= i < s.len() && (#[trigger] s[i]).0@ == k) implies #[trigger] named_map(s).contains_key(k) by {
            let i = choose|i: int| 0 <= i < s.len() && (#[trigger] s[i]).0@ == k;
            if i < s.len() - 1 {
                assert(p[i] == s[i]);
                assert(named_map(p).contains_key(k));
            }
        }
        if names_distinct(s) {
            assert forall|i: int, j: int|
                0 <= i < p.len() && 0 <= j < p.len() && i != j implies (#[trigger] p[i]).0@ != (#[trigger] p[j]).0@ by {
                assert(p[i] == s[i] && p[j] == s[j]);
            }
            assert forall|i: int| 0 <= i < s.len() implies #[trigger] named_map(s)[s[i].0@] == s[i].1 by {
                if i < s.len() - 1 {
                    assert(p[i] == s[i]);
                    assert(s[i].0@ != s[s.len() - 1].0@);
                    assert(named_map(p)[p[i].0@] == p[i].1);
                }
            }
        }
    }
}

/// With distinct names, the map has as many names as there are entries.
pub proof fn lemma_named_map_len<V>(s: Seq<(String, V)>)
    requires
        names_distinct(s),
    ensures
        named_map(s).dom().finite(),
        named_map(s).dom().len() == s.len(),
    decreases s.len(),
{
    if s.len() > 0 {
        let p = s.drop_last();
        assert forall|i: int, j: int|
            0 <= i < p.len() && 0 <= j < p.len() && i != j implies (#[trigger] p[i]).0@ != (#[trigger] p[j]).0@ by {
            assert(p[i] == s[i] && p[j] == s[j]);
        }
        lemma_named_map_len(p);
        lemma_named_map(p);
        if named_map(p).contains_key(s.last().0@) {
            let i = choose|i: int| 0 <= i < p.len() && (#[trigger] p[i]).0@ == s.last().0@;
            assert(s[i].0@ == s[s.len() - 1].0@);
        }
    }
}

/// Two entry lists with distinct names, the same names and the same value
/// for each name denote the same map.
pub proof fn lemma_named_map_ext<V>(s: Seq<(String, V)>, m: Map<Seq<char>, V>)
    requires
        names_distinct(s),
        forall|k: Seq<char>| #[trigger] m.contains_key(k) <==> exists|i: int| 0 <= i < s.len() && (#[trigger] s[i]).0@ == k,
        forall|i: int| 0 <= i < s.len() ==> #[trigger] m[s[i].0@] == s[i].1,
    ensures
        named_map(s) == m,
{
    lemma_named_map(s);
    assert forall|k: Seq<char>| #[trigger] named_map(s).contains_key(k) implies named_map(s)[k] == m[k] by {
        let i = choose|i: int| 0 <= i < s.len() && (#[trigger] s[i]).0@ == k;
        assert(named_map(s)[s[i].0@] == s[i].1);
    }
    assert(named_map(s) =~= m);
}

/// A map from names to values, with at most one entry per name.
#[derive(Debug)]
pub struct NameMap<V> {
    entries: Vec<(String, V)>,
}

impl<V> View for NameMap<V> {
    type V = Map<Seq<char>, V>;

    closed spec fn view(&self) -> Map<Seq<char>, V> {
        named_map(self.entries@)
    }
}

impl<V> NameMap<V> {
    #[verifier::type_invariant]
    spec fn inv(self) -> bool {
        names_distinct(self.entries@)
    }

    /// The empty map.
    pub fn new() -> (r: NameMap<V>)
        ensures
            r@ == Map::<Seq<char>, V>::empty(),
    {
        NameMap { entries: Vec::new() }
    }

    /// The index of the entry named `key`, if any.
    fn position(&self, key: &String) -> (r: Option<usize>)
        ensures
            match r {
                Some(i) => i < self.entries@.len() && self.entries@[i as int].0@ == key@,
                None => forall|j: int| 0 <= j < self.entries@.len() ==> (#[trigger] self.entries@[j]).0@ != key@,
            },
    {
        let n = self.entries.len();
        let mut i: usize = 0;
        while i < n
            invariant
                n == self.entries@.len(),
                i <= n,
                forall|j: int| 0 <= j < i ==> (#[trigger] self.entries@[j]).0@ != key@,
            decreases n - i,
        {
            if self.entries[i].0 == *key {
                return Some(i);
            }
            i = i + 1;
        }
        None
    }

    /// The value named `key`, if any.
    pub fn get(&self, key: &str) -> (r: Option<&V>)
        ensures
            match r {
                Some(v) => self@.contains_key(key@) && self@[key@] == *v,
                None => !self@.contains_key(key@),
            },
    {
        proof {
            use_type_invariant(self);
            lemma_named_map(self.entries@);
        }
        let k = own(key);
        match self.position(&k) {
            Some(i) => {
                proof {
                    assert(self@[self.entries@[i as int].0@] == self.entries@[i as int].1);
                }
                Some(&self.entries[i].1)
            },
            None => None,
        }
    }

    /// Names `value` by `key`, replacing any earlier value of `key`.
    pub fn insert(&mut self, key: String, value: V)
        ensures
            final(self)@ == old(self)@.insert(key@, value),
    {
        proof {
            use_type_invariant(&*self);
        }
        let ghost s = self.entries@;
        let ghost m = named_map(s).insert(key@, value);
        proof {
            lemma_named_map(s);
        }
        let pos = self.position(&key);
        let mut entries: Vec<(String, V)> = Vec::new();
        std::mem::swap(&mut entries, &mut self.entries);
        match pos {
            Some(i) => {
                entries.set(i, (key, value));
                proof {
                    let t = entries@;
                    assert forall|a: int, b: int|
                        0 <= a < t.len() && 0 <= b < t.len() && a != b implies (#[trigger] t[a]).0@ != (#[trigger] t[b]).0@ by {
                        assert(t[a].0@ == s[a].0@ && t[b].0@ == s[b].0@);
                    }
                    assert forall|k: Seq<char>| #[trigger] m.contains_key(k) <==> exists|j: int| 0 <= j < t.len() && (#[trigger] t[j]).0@ == k by {
                        if m.contains_key(k) && k != t[i as int].0@ {
                            let j = choose|j: int| 0 <= j < s.len() && (#[trigger] s[j]).0@ == k;
                            assert(t[j].0@ == k);
                        }
                        if m.contains_key(k) && k == t[i as int].0@ {
                            assert(t[i as int].0@ == k);
                        }
                        if exists|j: int| 0 <= j < t.len() && (#[trigger] t[j]).0@ == k {
                            let j = choose|j: int| 0 <= j < t.len() && (#[trigger] t[j]).0@ == k;
                            assert(s[j].0@ == k);
                        }
                    }
                    assert forall|j: int| 0 <= j < t.len() implies #[trigger] m[t[j].0@] == t[j].1 by {
                        if j != i {
                            assert(t[j] == s[j]);
                            assert(named_map(s)[s[j].0@] == s[j].1);
                        }
                    }
                    lemma_named_map_ext(t, m);
                }
            },
            None => {
                entries.push((key, value));
                proof {
                    let t = entries@;
                    let n = s.len();
                    assert forall|a: int, b: int|
                        0 <= a < t.len() && 0 <= b < t.len() && a != b implies (#[trigger] t[a]).0@ != (#[trigger] t[b]).0@ by {
                        if a < n {
                            assert(t[a] == s[a]);
                        }
                        if b < n {
                            assert(t[b] == s[b]);
                        }
                    }
                    assert(t.drop_last() =~= s);
                }
            },
        }
        self.entries = entries;
    }

    /// Removes the value named `key`, returning it if there was one.
    pub fn remove(&mut self, key: &str) -> (r: Option<V>)
        ensures
            final(self)@ == old(self)@.remove(key@),
            match r {
                Some(v) => old(self)@.contains_key(key@) && old(self)@[key@] == v,
                None => !old(self)@.contains_key(key@),
            },
    {
        proof {
            use_type_invariant(&*self);
        }
        let ghost s = self.entries@;
        let ghost m = named_map(s).remove(key@);
        proof {
            lemma_named_map(s);
        }
        let k = own(key);
        let pos = self.position(&k);
        let mut entries: Vec<(String, V)> = Vec::new();
        std::mem::swap(&mut entries, &mut self.entries);
        match pos {
            Some(i) => {
                let (_name, v) = entries.remove(i);
                proof {
                    let t = entries@;
                    assert(t =~= s.remove(i as int));
                    assert forall|a: int, b: int|
                        0 <= a < t.len() && 0 <= b < t.len() && a != b implies (#[trigger] t[a]).0@ != (#[trigger] t[b]).0@ by {
                        let a2 = if a < i { a } else { a + 1 };
                        let b2 = if b < i { b } else { b + 1 };
                        assert(t[a] == s[a2] && t[b] == s[b2]);
                    }
                    assert forall|kk: Seq<char>| #[trigger] m.contains_key(kk) <==> exists|j: int| 0 <= j < t.len() && (#[trigger] t[j]).0@ == kk by {
                        if m.contains_key(kk) {
                            let j = choose|j: int| 0 <= j < s.len() && (#[trigger] s[j]).0@ == kk;
                            assert(j != i);
                            let j2 = if j < i { j } else { j - 1 };
                            assert(t[j2] == s[j]);
                        }
                        if exists|j: int| 0 <= j < t.len() && (#[trigger] t[j]).0@ == kk {
                            let j = choose|j: int| 0 <= j < t.len() && (#[trigger] t[j]).0@ == kk;
                            let j2 = if j < i { j } else { j + 1 };
                            assert(t[j] == s[j2]);
                            assert(s[j2].0@ != s[i as int].0@);
                        }
                    }
                    assert forall|j: int| 0 <= j < t.len() implies #[trigger] m[t[j].0@] == t[j].1 by {
                        let j2 = if j < i { j } else { j + 1 };
                        assert(t[j] == s[j2]);
                        assert(named_map(s)[s[j2].0@] == s[j2].1);
                        assert(s[j2].0@ != s[i as int].0@);
                    }
                    lemma_named_map_ext(t, m);
                    assert(named_map(s)[s[i as int].0@] == s[i as int].1);
                }
                self.entries = entries;
                Some(v)
            },
            None => {
                proof {
                    assert(named_map(s).remove(key@) =~= named_map(s));
                }
                self.entries = entries;
                None
            },
        }
    }

    /// The entries, each name once, in the map's order.
    pub fn into_entries(self) -> (r: Vec<(String, V)>)
        ensures
            names_distinct(r@),
            named_map(r@) == self@,
    {
        proof {
            use_type_invariant(&self);
        }
        self.entries
    }

    /// Borrows the entries, each name once, in the map's order.
    pub fn entries(&self) -> (r: &Vec<(String, V)>)
        ensures
            names_distinct(r@),
            named_map(r@) == self@,
    {
        proof {
            use_type_invariant(self);
        }
        &self.entries
    }
}

} // verus!
