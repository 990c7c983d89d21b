//! The protobuf wire format as the Cosmos gRPC queries use it: base-128
//! varints, field keys, skipping unknown fields (groups included), and the
//! length-delimited fields that carry strings, bytes and nested messages.
use vstd::prelude::*;

verus! {

/// How deeply nested groups may be when they are skipped.
pub const RECURSION_LIMIT: u64 = 100;

/// The largest value a varint of at most `budget` bytes can hold when its
/// last byte is at most 1 (the tenth byte of a 64-bit varint).
pub open spec fn varint_max(budget: nat) -> nat
    decreases budget,
{
    if budget <= 1 {
        1
    } else {
        127 + 128 * varint_max((budget - 1) as nat)
    }
}

/// The varint of at most `budget` bytes at the front of `b`: its value and
/// its length, or `None` where the bytes do not hold one. With the budget of
/// ten, the tenth byte may only be 0 or 1, so that the value fits 64 bits.
pub open spec fn varint_within(b: Seq<u8>, budget: nat) -> Option<(nat, nat)>
    decreases budget,
{
    if budget == 0 || b.len() == 0 {
        None
    } else if b[0] < 128 {
        if budget == 1 && b[0] >= 2 {
            None
        } else {
            Some((b[0] as nat, 1nat))
        }
    } else {
        match varint_within(b.drop_first(), (budget - 1) as nat) {
            Some((v, n)) => Some(((b[0] - 128) as nat + 128 * v, n + 1)),
            None => None,
        }
    }
}

/// The 64-bit varint at the front of `b` (at most ten bytes).
pub open spec fn varint(b: Seq<u8>) -> Option<(nat, nat)> {
    varint_within(b, 10)
}

/// A varint read within a budget is at least one byte, no longer than the
/// budget or the input, and its value is bounded by the budget.
pub proof fn lemma_varint_within(b: Seq<u8>, budget: nat)
    ensures
        varint_within(b, budget) matches Some((v, n)) ==> 1 <= n <= budget && n <= b.len() && v
            <= varint_max(budget),
    decreases budget,
{
    if budget > 1 && b.len() > 0 {
        assert(varint_max(budget) == 127 + 128 * varint_max((budget - 1) as nat));
        if b[0] >= 128 {
            lemma_varint_within(b.drop_first(), (budget - 1) as nat);
            if let Some((v1, n1)) = varint_within(b.drop_first(), (budget - 1) as nat) {
                let m = varint_max((budget - 1) as nat);
                assert(128 * v1 <= 128 * m) by (nonlinear_arith)
                    requires
                        v1 <= m,
                ;
            }
        }
    }
}

/// Ten varint bytes hold at most the largest 64-bit value.
pub proof fn lemma_varint_max_ten()
    ensures
        varint_max(10) == 0xffff_ffff_ffff_ffffnat,
        forall|k: nat| k <= 10 ==> #[trigger] varint_max(k) <= varint_max(10),
{
    reveal_with_fuel(varint_max, 11);
    assert forall|k: nat| k <= 10 implies #[trigger] varint_max(k) <= varint_max(10) by {
        reveal_with_fuel(varint_max, 11);
    }
}

/// The varint at position `pos` of `b`, read with the given budget: its value
/// and the position just after it.
fn read_varint_within(b: &[u8], pos: usize, budget: usize) -> (r: Option<(u64, usize)>)
    requires
        pos <= b@.len(),
        budget <= 10,
    ensures
        match r {
            Some((v, p)) => pos < p <= b@.len() && varint_within(b@.skip(pos as int), budget as nat)
                == Some((v as nat, (p - pos) as nat)),
            None => varint_within(b@.skip(pos as int), budget as nat) is None,
        },
    decreases budget,
{
    let ghost s = b@.skip(pos as int);
    if budget == 0 || pos >= b.len() {
        return None;
    }
    let x = b[pos];
    assert(s[0] == x);
    if x < 128 {
        if budget == 1 && x >= 2 {
            None
        } else {
            Some((x as u64, pos + 1))
        }
    } else {
        assert(s.drop_first() =~= b@.skip(pos + 1));
        match read_varint_within(b, pos + 1, budget - 1) {
            Some((v, p)) => {
                proof {
                    lemma_varint_within(s.drop_first(), (budget - 1) as nat);
                    lemma_varint_max_ten();
                    assert(varint_max(budget as nat) == 127 + 128 * varint_max((budget - 1) as nat));
                    assert(varint_max(budget as nat) <= 0xffff_ffff_ffff_ffffnat);
                }
                Some(((x - 128) as u64 + 128 * v, p))
            },
            None => None,
        }
    }
}

/// The 64-bit varint at position `pos` of `b`, and the position after it.
pub fn read_varint(b: &[u8], pos: usize) -> (r: Option<(u64, usize)>)
    requires
        pos <= b@.len(),
    ensures
        match r {
            Some((v, p)) => pos < p <= b@.len() && varint(b@.skip(pos as int)) == Some(
                (v as nat, (p - pos) as nat),
            ),
            None => varint(b@.skip(pos as int)) is None,
        },
{
    read_varint_within(b, pos, 10)
}

/// The bytes of the varint encoding of `v`, least significant group first.
pub open spec fn varint_encoding(v: nat) -> Seq<u8>
    decreases v,
{
    if v < 128 {
        seq![v as u8]
    } else {
        seq![(v % 128 + 128) as u8] + varint_encoding(v / 128)
    }
}

/// Appends the varint encoding of `v` to `out`.
pub fn push_varint(out: &mut Vec<u8>, v: u64)
    ensures
        final(out)@ == old(out)@ + varint_encoding(v as nat),
{
    let mut x = v;
    while x >= 128
        invariant
            out@ + varint_encoding(x as nat) == old(out)@ + varint_encoding(v as nat),
        decreases x,
    {
        let ghost before = out@;
        out.push((x % 128 + 128) as u8);
        proof {
            assert(varint_encoding(x as nat) == seq![(x % 128 + 128) as u8] + varint_encoding((x / 128) as nat));
            assert(out@ + varint_encoding((x / 128) as nat) =~= before + varint_encoding(x as nat));
        }
        x = x / 128;
    }
    out.push(x as u8);
    assert(out@ =~= old(out)@ + varint_encoding(v as nat));
}

/// A varint encoding decodes to the value it encodes, whatever follows it.
pub proof fn lemma_varint_roundtrip(v: nat, rest: Seq<u8>)
    requires
        v <= 0xffff_ffff_ffff_ffffnat,
    ensures
        varint(varint_encoding(v) + rest) == Some((v, varint_encoding(v).len())),
{
    lemma_varint_max_ten();
    lemma_varint_roundtrip_within(v, rest, 10);
}

/// The varint of `v` fits the budget when `v` is at most the budget's bound.
proof fn lemma_varint_roundtrip_within(v: nat, rest: Seq<u8>, budget: nat)
    requires
        1 <= budget <= 10,
        v <= varint_max(budget),
    ensures
        varint_within(varint_encoding(v) + rest, budget) == Some((v, varint_encoding(v).len())),
    decreases budget,
{
    let b = varint_encoding(v) + rest;
    if v < 128 {
        assert(b[0] == v as u8);
        if budget == 1 {
            assert(varint_max(1) == 1);
        }
    } else {
        assert(budget > 1) by {
            if budget == 1 {
                assert(varint_max(1) == 1);
            }
        }
        assert(varint_max(budget) == 127 + 128 * varint_max((budget - 1) as nat));
        assert(v / 128 <= varint_max((budget - 1) as nat)) by (nonlinear_arith)
            requires
                v <= 127 + 128 * varint_max((budget - 1) as nat),
        ;
        lemma_varint_roundtrip_within(v / 128, rest, (budget - 1) as nat);
        assert(b.drop_first() =~= varint_encoding(v / 128) + rest);
        assert(b[0] == (v % 128 + 128) as u8);
    }
}

/// The key at the front of `b`: field number, wire type and key length. A
/// key must fit 32 bits, name a wire type from 0 to 5 and a field number of
/// at least 1.
pub open spec fn field_key(b: Seq<u8>) -> Option<(nat, nat, nat)> {
    match varint(b) {
        Some((k, n)) => if k <= 0xffff_ffffnat && k % 8 <= 5 && k / 8 >= 1 {
            Some((k / 8, k % 8, n))
        } else {
            None
        },
        None => None,
    }
}

/// The length of the payload of a field of wire type `wt` and number `tag`
/// whose payload starts `b`, skipped at nesting `depth`; `None` where the
/// payload is malformed, truncated, an unmatched group end, or nested too
/// deeply.
pub open spec fn skip_len(b: Seq<u8>, tag: nat, wt: nat, depth: nat) -> Option<nat>
    decreases b.len(), 1nat,
{
    if depth == 0 {
        None
    } else if wt == 0 {
        match varint(b) {
            Some((_, n)) => Some(n),
            None => None,
        }
    } else if wt == 1 {
        if b.len() >= 8 {
            Some(8)
        } else {
            None
        }
    } else if wt == 2 {
        match varint(b) {
            Some((len, n)) => if n + len <= b.len() {
                Some(n + len)
            } else {
                None
            },
            None => None,
        }
    } else if wt == 5 {
        if b.len() >= 4 {
            Some(4)
        } else {
            None
        }
    } else if wt == 3 {
        group_len(b, tag, (depth - 1) as nat)
    } else {
        None
    }
}

/// The length of the rest of group `tag` starting `b`, up to and including
/// its end key, with the fields inside skipped at nesting `depth`.
pub open spec fn group_len(b: Seq<u8>, tag: nat, depth: nat) -> Option<nat>
    decreases b.len(), 0nat,
{
    match field_key(b) {
        None => None,
        Some((t, w, n)) => {
            proof {
                lemma_varint_within(b, 10);
            }
            if w == 4 {
                if t == tag {
                    Some(n)
                } else {
                    None
                }
            } else {
                match skip_len(b.skip(n as int), t, w, depth) {
                    None => None,
                    Some(m) => if n + m <= b.len() {
                        match group_len(b.skip((n + m) as int), tag, depth) {
                            Some(k) => Some(n + m + k),
                            None => None,
                        }
                    } else {
                        None
                    },
                }
            }
        },
    }
}

/// The key at position `pos` of `b`: field number, wire type, and the
/// position just after the key.
pub fn read_key(b: &[u8], pos: usize) -> (r: Option<(u32, u8, usize)>)
    requires
        pos <= b@.len(),
    ensures
        match r {
            Some((t, w, p)) => pos < p <= b@.len() && field_key(b@.skip(pos as int)) == Some(
                (t as nat, w as nat, (p - pos) as nat),
            ),
            None => field_key(b@.skip(pos as int)) is None,
        },
{
    match read_varint(b, pos) {
        None => None,
        Some((k, p)) => {
            if k <= 0xffff_ffff && k % 8 <= 5 && k / 8 >= 1 {
                Some(((k / 8) as u32, (k % 8) as u8, p))
            } else {
                None
            }
        },
    }
}

/// Skips the payload of a field of wire type `wt` and number `tag` that
/// starts at `pos`, at nesting `depth`; the position after it.
fn skip_payload(b: &[u8], pos: usize, tag: u32, wt: u8, depth: u64) -> (r: Option<usize>)
    requires
        pos <= b@.len(),
    ensures
        match r {
            Some(p) => pos <= p <= b@.len() && skip_len(b@.skip(pos as int), tag as nat, wt as nat, depth as nat)
                == Some((p - pos) as nat),
            None => skip_len(b@.skip(pos as int), tag as nat, wt as nat, depth as nat) is None,
        },
    decreases b@.len() - pos, 1nat,
{
    let ghost s = b@.skip(pos as int);
    if depth == 0 {
        None
    } else if wt == 0 {
        match read_varint(b, pos) {
            Some((_, p)) => Some(p),
            None => None,
        }
    } else if wt == 1 {
        if b.len() - pos >= 8 {
            Some(pos + 8)
        } else {
            None
        }
    } else if wt == 2 {
        match read_varint(b, pos) {
            Some((len, p)) => {
                if len <= (b.len() - p) as u64 {
                    Some(p + len as usize)
                } else {
                    None
                }
            },
            None => None,
        }
    } else if wt == 5 {
        if b.len() - pos >= 4 {
            Some(pos + 4)
        } else {
            None
        }
    } else if wt == 3 {
        skip_group(b, pos, tag, depth - 1)
    } else {
        None
    }
}

/// Skips the rest of group `tag` starting at `pos`, through its end key.
fn skip_group(b: &[u8], pos: usize, tag: u32, depth: u64) -> (r: Option<usize>)
    requires
        pos <= b@.len(),
    ensures
        match r {
            Some(p) => pos <= p <= b@.len() && group_len(b@.skip(pos as int), tag as nat, depth as nat)
                == Some((p - pos) as nat),
            None => group_len(b@.skip(pos as int), tag as nat, depth as nat) is None,
        },
    decreases b@.len() - pos, 0nat,
{
    let ghost s = b@.skip(pos as int);
    match read_key(b, pos) {
        None => None,
        Some((t, w, p)) => {
            if w == 4 {
                if t == tag {
                    Some(p)
                } else {
                    None
                }
            } else {
                assert(s.skip((p - pos) as int) =~= b@.skip(p as int));
                match skip_payload(b, p, t, w, depth) {
                    None => None,
                    Some(q) => {
                        assert(s.skip((q - pos) as int) =~= b@.skip(q as int));
                        match skip_group(b, q, tag, depth) {
                            Some(e) => Some(e),
                            None => None,
                        }
                    },
                }
            }
        },
    }
}

/// What the reader keeps of a field's payload: a varint's value, the bytes
/// of a length-delimited field, or nothing for the other wire types.
pub enum FieldValue {
    Varint(nat),
    Bytes(Seq<u8>),
    Skipped,
}

/// The value of a field of wire type `wt` whose payload starts `b`.
pub open spec fn field_value(b: Seq<u8>, wt: nat) -> FieldValue {
    match varint(b) {
        Some((v, n)) => if wt == 0 {
            FieldValue::Varint(v)
        } else if wt == 2 {
            FieldValue::Bytes(b.subrange(n as int, (n + v) as int))
        } else {
            FieldValue::Skipped
        },
        None => FieldValue::Skipped,
    }
}

/// The fields of the message `b`, in order, as (number, wire type, value);
/// `None` where the message is malformed.
pub open spec fn fields_of(b: Seq<u8>) -> Option<Seq<(nat, nat, FieldValue)>>
    decreases b.len(),
{
    if b.len() == 0 {
        Some(seq![])
    } else {
        match field_key(b) {
            None => None,
            Some((t, w, n)) => {
                proof {
                    lemma_varint_within(b, 10);
                }
                match skip_len(b.skip(n as int), t, w, RECURSION_LIMIT as nat) {
                    None => None,
                    Some(m) => if n + m <= b.len() {
                        match fields_of(b.skip((n + m) as int)) {
                            Some(rest) => Some(seq![(t, w, field_value(b.skip(n as int), w))] + rest),
                            None => None,
                        }
                    } else {
                        None
                    },
                }
            },
        }
    }
}

/// Every field numbered `tag` has wire type `wt`.
pub open spec fn tag_has_wire_type(fs: Seq<(nat, nat, FieldValue)>, tag: nat, wt: nat) -> bool {
    forall|i: int| 0 <= i < fs.len() && (#[trigger] fs[i]).0 == tag ==> fs[i].1 == wt
}

/// The bytes of the last length-delimited field numbered `tag`, or none.
pub open spec fn last_bytes_of(fs: Seq<(nat, nat, FieldValue)>, tag: nat) -> Seq<u8>
    decreases fs.len(),
{
    if fs.len() == 0 {
        seq![]
    } else if fs.last().0 == tag && fs.last().2 is Bytes {
        fs.last().2->Bytes_0
    } else {
        last_bytes_of(fs.drop_last(), tag)
    }
}

/// The value of the last varint field numbered `tag`, or zero.
pub open spec fn last_varint_of(fs: Seq<(nat, nat, FieldValue)>, tag: nat) -> nat
    decreases fs.len(),
{
    if fs.len() == 0 {
        0
    } else if fs.last().0 == tag && fs.last().2 is Varint {
        fs.last().2->Varint_0
    } else {
        last_varint_of(fs.drop_last(), tag)
    }
}

/// The bytes field numbered 1 of a smart (or raw) query response: the last
/// occurrence wins, and an absent field reads as empty. `None` where the
/// response is malformed or field 1 is not length-delimited.
pub open spec fn bytes_field_one(b: Seq<u8>) -> Option<Seq<u8>> {
    match fields_of(b) {
        Some(fs) => if tag_has_wire_type(fs, 1, 2) {
            Some(last_bytes_of(fs, 1))
        } else {
            None
        },
        None => None,
    }
}

/// A copy of the bytes `b[start..end]`.
pub fn copy_range(b: &[u8], start: usize, end: usize) -> (r: Vec<u8>)
    requires
        start <= end <= b@.len(),
    ensures
        r@ == b@.subrange(start as int, end as int),
{
    let mut out: Vec<u8> = Vec::new();
    let mut i = start;
    while i < end
        invariant
            start <= i <= end <= b@.len(),
            out@ == b@.subrange(start as int, i as int),
        decreases end - i,
    {
        out.push(b[i]);
        i = i + 1;
        assert(out@ =~= b@.subrange(start as int, i as int));
    }
    out
}

/// One field read at `pos`: its number, wire type, value, and the position
/// after it; the exact counterpart of one step of `fields_of`.
pub(crate) fn read_field(b: &[u8], pos: usize) -> (r: Option<(u32, u8, usize, usize)>)
    requires
        pos < b@.len(),
    ensures
        match r {
            Some((t, w, p, q)) => pos < p <= q <= b@.len() && field_key(b@.skip(pos as int)) == Some(
                (t as nat, w as nat, (p - pos) as nat),
            ) && skip_len(b@.skip(p as int), t as nat, w as nat, RECURSION_LIMIT as nat) == Some(
                (q - p) as nat,
            ) && (fields_of(b@.skip(pos as int)) == match fields_of(b@.skip(q as int)) {
                Some(rest) => Some(seq![(t as nat, w as nat, field_value(b@.skip(p as int), w as nat))] + rest),
                None => None,
            }),
            None => fields_of(b@.skip(pos as int)) is None,
        },
{
    let ghost s = b@.skip(pos as int);
    match read_key(b, pos) {
        None => None,
        Some((t, w, p)) => {
            assert(s.skip((p - pos) as int) =~= b@.skip(p as int));
            match skip_payload(b, p, t, w, RECURSION_LIMIT) {
                None => None,
                Some(q) => {
                    assert(s.skip((q - pos) as int) =~= b@.skip(q as int));
                    Some((t, w, p, q))
                },
            }
        },
    }
}

/// The length-delimited payload of the field whose payload starts at `p`
/// and ends at `q`: the position where its bytes begin.
pub(crate) fn bytes_start(b: &[u8], p: usize, q: usize) -> (r: usize)
    requires
        p < q <= b@.len(),
        skip_len(b@.skip(p as int), 1, 2, RECURSION_LIMIT as nat) == Some((q - p) as nat),
    ensures
        p < r <= q,
        field_value(b@.skip(p as int), 2) == FieldValue::Bytes(b@.subrange(r as int, q as int)),
{
    match read_varint(b, p) {
        Some((len, r)) => {
            assert(b@.skip(p as int).subrange((r - p) as int, (r - p + len) as int) =~= b@.subrange(r as int, q as int));
            r
        },
        None => {
            assert(false);
            p + 1
        },
    }
}

} // verus!
