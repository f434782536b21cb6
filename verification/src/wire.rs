//! Protobuf wire format: varints, field keys and field framing.
//!
//! Field boundaries are found here once, for every message type; the message
//! modules then interpret the fields they know and ignore the others.

use vstd::prelude::*;

verus! {

/// Nesting budget that a top-level decode starts with.
pub const RECURSION_LIMIT: u32 = 100;

/// `128^i`.
pub open spec fn p128(i: nat) -> int
    decreases i,
{
    if i == 0 {
        1
    } else {
        128 * p128((i - 1) as nat)
    }
}

/// Reads a base-128 varint starting at index `i`, `acc` holding the value of
/// the bytes before `i` and `mult` the weight of byte `i`.  At most ten bytes
/// are read, and a tenth byte may only carry the top bit of a 64-bit value.
pub open spec fn varint_from(s: Seq<u8>, i: nat, acc: int, mult: int) -> Option<(int, nat)>
    decreases 10 - i,
{
    if i >= 10 || i >= s.len() {
        None
    } else if s[i as int] < 128 {
        if i == 9 && s[i as int] >= 2 {
            None
        } else {
            Some((acc + s[i as int] * mult, i + 1))
        }
    } else {
        varint_from(s, i + 1, acc + (s[i as int] - 128) * mult, mult * 128)
    }
}

/// The varint at the start of `s`: its value and its length in bytes.
pub open spec fn spec_read_varint(s: Seq<u8>) -> Option<(u64, nat)> {
    match varint_from(s, 0, 0, 1) {
        Some((v, n)) => Some((v as u64, n)),
        None => None,
    }
}

/// The field key at the start of `s`: tag, wire type and key length.
pub open spec fn spec_read_key(s: Seq<u8>) -> Option<(u32, u8, nat)> {
    match spec_read_varint(s) {
        None => None,
        Some((k, n)) => {
            if k > 0xffff_ffffu64 {
                None
            } else if k % 8 > 5 {
                None
            } else if k / 8 == 0 {
                None
            } else {
                Some(((k / 8) as u32, (k % 8) as u8, n))
            }
        },
    }
}

/// Length of the value of a field with wire type `wt` and tag `tag` at the
/// start of `s` (the key already read), with `d` levels of nesting left.
pub open spec fn skip_value(s: Seq<u8>, wt: u8, tag: u32, d: nat) -> Option<nat>
    decreases s.len(), 1nat,
{
    if d == 0 {
        None
    } else if wt == 0 {
        match spec_read_varint(s) {
            Some((_, n)) => Some(n),
            None => None,
        }
    } else if wt == 1 {
        if s.len() >= 8 {
            Some(8)
        } else {
            None
        }
    } else if wt == 5 {
        if s.len() >= 4 {
            Some(4)
        } else {
            None
        }
    } else if wt == 2 {
        match spec_read_varint(s) {
            Some((len, n)) => if len <= s.len() - n {
                Some((n + len) as nat)
            } else {
                None
            },
            None => None,
        }
    } else if wt == 3 {
        skip_group_body(s, tag, d)
    } else {
        None
    }
}

/// Length of the fields of a group opened with tag `tag`, through its end key.
pub open spec fn skip_group_body(s: Seq<u8>, tag: u32, d: nat) -> Option<nat>
    decreases s.len(), 0nat,
{
    match spec_read_key(s) {
        None => None,
        Some((t, wt, kn)) => {
            if !(1 <= kn && kn <= s.len()) || d == 0 {
                None
            } else if wt == 4 {
                if t == tag {
                    Some(kn)
                } else {
                    None
                }
            } else {
                match skip_value(s.skip(kn as int), wt, t, (d - 1) as nat) {
                    None => None,
                    Some(n) => if n > s.len() - kn {
                        None
                    } else {
                        match skip_group_body(s.skip((kn + n) as int), tag, d) {
                            Some(m) => Some(kn + n + m),
                            None => None,
                        }
                    },
                }
            }
        },
    }
}

/// A field as read off the wire: its tag and wire type, the varint value
/// (or the length of a length-delimited value), and the bytes of a
/// length-delimited value.
pub struct FieldV {
    pub tag: u32,
    pub wt: u8,
    pub varint: u64,
    pub data: Seq<u8>,
}

/// The field at the start of `s` and its length in bytes.  A field with tag
/// `lt` is read as length-delimited whatever its wire type says (map fields
/// are read that way); `lt == 0` names no tag.
pub open spec fn spec_parse_field(s: Seq<u8>, d: nat, lt: u32) -> Option<(FieldV, nat)> {
    match spec_read_key(s) {
        None => None,
        Some((tag, wt, kn)) => {
            let rest = s.skip(kn as int);
            if !(1 <= kn && kn <= s.len()) {
                None
            } else if wt == 0 && tag != lt {
                match spec_read_varint(rest) {
                    Some((v, vn)) => Some(
                        (FieldV { tag, wt, varint: v, data: Seq::empty() }, kn + vn),
                    ),
                    None => None,
                }
            } else if wt == 2 || tag == lt {
                match spec_read_varint(rest) {
                    Some((len, ln)) => if len <= rest.len() - ln {
                        Some(
                            (
                                FieldV {
                                    tag,
                                    wt,
                                    varint: len,
                                    data: rest.subrange(ln as int, ln + len),
                                },
                                (kn + ln + len) as nat,
                            ),
                        )
                    } else {
                        None
                    },
                    None => None,
                }
            } else {
                match skip_value(rest, wt, tag, d) {
                    Some(n) => Some((FieldV { tag, wt, varint: 0, data: Seq::empty() }, kn + n)),
                    None => None,
                }
            }
        },
    }
}

/// All fields of an encoded message, in wire order.
pub open spec fn spec_parse_fields(s: Seq<u8>, d: nat, lt: u32) -> Option<Seq<FieldV>>
    decreases s.len(),
{
    if s.len() == 0 {
        Some(Seq::empty())
    } else {
        match spec_parse_field(s, d, lt) {
            None => None,
            Some((f, n)) => if !(1 <= n && n <= s.len()) {
                None
            } else {
                match spec_parse_fields(s.skip(n as int), d, lt) {
                    Some(fs) => Some(seq![f] + fs),
                    None => None,
                }
            },
        }
    }
}

proof fn lemma_p128_mono(i: nat, j: nat)
    requires
        i <= j,
    ensures
        1 <= p128(i) <= p128(j),
    decreases j,
{
    if j == 0 {
    } else if i == j {
        lemma_p128_mono(0, (j - 1) as nat);
    } else {
        lemma_p128_mono(i, (j - 1) as nat);
    }
}

proof fn lemma_p128_9()
    ensures
        p128(9) == 0x8000_0000_0000_0000,
{
    reveal_with_fuel(p128, 10);
}

/// The base-128 varint encoding of `v`: seven bits per byte, lowest first,
/// the top bit set on every byte but the last.
pub open spec fn encode_varint(v: nat) -> Seq<u8>
    decreases v,
{
    if v < 128 {
        seq![v as u8]
    } else {
        seq![(v % 128 + 128) as u8] + encode_varint(v / 128)
    }
}

proof fn lemma_varint_from_encoding(s: Seq<u8>, i: nat, acc: int, v: nat)
    requires
        i < 10,
        v * p128(i) <= u64::MAX,
        i + encode_varint(v).len() <= s.len(),
        s.subrange(i as int, (i + encode_varint(v).len()) as int) == encode_varint(v),
    ensures
        varint_from(s, i, acc, p128(i)) == Some((acc + v * p128(i), i + encode_varint(v).len())),
    decreases v,
{
    let e = encode_varint(v);
    assert(s[i as int] == e[0]);
    if v < 128 {
        if i == 9 {
            lemma_p128_9();
            assert(v < 2) by (nonlinear_arith)
                requires
                    v * 0x8000_0000_0000_0000int <= 0xffff_ffff_ffff_ffffint,
            ;
        }
    } else {
        let w = v / 128;
        let p = p128(i);
        lemma_p128_mono(0, i);
        assert(w * p128(i + 1) <= v * p) by (nonlinear_arith)
            requires
                w == v / 128,
                p128(i + 1) == 128 * p,
                p >= 1,
        ;
        if i + 1 >= 10 {
            lemma_p128_mono(10, i + 1);
            lemma_p128_9();
            assert(p128(10) == 128 * p128(9));
            assert(w >= 1);
            assert(w * p128(i + 1) >= p128(i + 1)) by (nonlinear_arith)
                requires
                    w >= 1,
                    p128(i + 1) >= 0,
            ;
            assert(false);
        }
        let rest = encode_varint(w);
        assert(e == seq![(v % 128 + 128) as u8] + rest);
        assert(s.subrange((i + 1) as int, (i + 1 + rest.len()) as int) =~= rest) by {
            assert forall|t: int| 0 <= t < rest.len() implies s[i + 1 + t] == rest[t] by {
                assert(s.subrange(i as int, (i + e.len()) as int)[t + 1] == e[t + 1]);
            }
        }
        lemma_varint_from_encoding(s, i + 1, acc + (v % 128) * p, w);
        assert(acc + (v % 128) * p + w * p128(i + 1) == acc + v * p) by (nonlinear_arith)
            requires
                w == v / 128,
                p128(i + 1) == 128 * p,
        ;
    }
}

/// Reading a varint back from the encoding of any 64-bit value, whatever
/// follows it, gives the value and the encoding's length.
pub proof fn lemma_varint_round_trip(v: u64, rest: Seq<u8>)
    ensures
        spec_read_varint(encode_varint(v as nat) + rest) == Some((v, encode_varint(v as nat).len())),
{
    let s = encode_varint(v as nat) + rest;
    assert(s.subrange(0, encode_varint(v as nat).len() as int) =~= encode_varint(v as nat));
    assert(p128(0) == 1);
    lemma_varint_from_encoding(s, 0, 0, v as nat);
}

proof fn lemma_encode_varint_nonempty(v: nat)
    ensures
        encode_varint(v).len() >= 1,
    decreases v,
{
    if v >= 128 {
        lemma_encode_varint_nonempty(v / 128);
    }
}

/// The key of a field: its tag and wire type as one varint.
pub open spec fn encode_key(tag: u32, wt: u8) -> Seq<u8> {
    encode_varint((tag * 8 + wt) as nat)
}

/// The encoding of a varint field (wire type 0) or of a length-delimited
/// field (wire type 2).
pub open spec fn encode_field(f: FieldV) -> Seq<u8> {
    if f.wt == 0 {
        encode_key(f.tag, 0) + encode_varint(f.varint as nat)
    } else {
        encode_key(f.tag, 2) + encode_varint(f.data.len()) + f.data
    }
}

/// The encodings of `fs`, one after the other.
pub open spec fn encode_fields(fs: Seq<FieldV>) -> Seq<u8>
    decreases fs.len(),
{
    if fs.len() == 0 {
        Seq::empty()
    } else {
        encode_field(fs[0]) + encode_fields(fs.drop_first())
    }
}

/// A field that `encode_field` frames and the reader gives back: a tag
/// that fits a 32-bit key, and either a varint (not under the map tag
/// `lt`, which is read as length-delimited) or a length-delimited value
/// whose length is recorded.
pub open spec fn framable(f: FieldV, lt: u32) -> bool {
    &&& 1 <= f.tag < 0x2000_0000
    &&& ((f.wt == 0 && f.tag != lt && f.data.len() == 0) || (f.wt == 2 && f.varint == f.data.len()))
}

proof fn lemma_parse_encoded_field(f: FieldV, rest: Seq<u8>, d: nat, lt: u32)
    requires
        framable(f, lt),
    ensures
        spec_parse_field(encode_field(f) + rest, d, lt) == Some((f, encode_field(f).len())),
        encode_field(f).len() >= 1,
{
    let s = encode_field(f) + rest;
    let k: u64 = (f.tag * 8 + f.wt) as u64;
    let key = encode_varint(k as nat);
    lemma_encode_varint_nonempty(k as nat);
    let after_key = if f.wt == 0 {
        encode_varint(f.varint as nat)
    } else {
        encode_varint(f.data.len()) + f.data
    };
    assert(encode_field(f) =~= key + after_key);
    assert(s =~= key + (after_key + rest));
    lemma_varint_round_trip(k, after_key + rest);
    assert(k % 8 == f.wt as u64 && k / 8 == f.tag as u64);
    let kn = key.len();
    assert(s.skip(kn as int) =~= after_key + rest);
    if f.wt == 0 {
        lemma_varint_round_trip(f.varint, rest);
        assert(f.data =~= Seq::<u8>::empty());
    } else {
        let len = f.data.len();
        let lenb = encode_varint(len);
        lemma_varint_round_trip(f.varint, f.data + rest);
        assert(after_key + rest =~= lenb + (f.data + rest));
        assert((after_key + rest).subrange(lenb.len() as int, (lenb.len() + len) as int) =~= f.data);
    }
}

/// Framing fields and reading them back gives the same fields: for fields
/// that `encode_field` frames, `spec_parse_fields` of their encodings, one
/// after the other, is the fields in order, at any nesting budget.
pub proof fn lemma_fields_round_trip(fs: Seq<FieldV>, d: nat, lt: u32)
    requires
        forall|i: int| 0 <= i < fs.len() ==> framable(#[trigger] fs[i], lt),
    ensures
        spec_parse_fields(encode_fields(fs), d, lt) == Some(fs),
    decreases fs.len(),
{
    if fs.len() > 0 {
        let tail = fs.drop_first();
        assert forall|i: int| 0 <= i < tail.len() implies framable(#[trigger] tail[i], lt) by {
            assert(tail[i] == fs[i + 1]);
        }
        lemma_fields_round_trip(tail, d, lt);
        lemma_parse_encoded_field(fs[0], encode_fields(tail), d, lt);
        let s = encode_fields(fs);
        let n = encode_field(fs[0]).len();
        assert(s.skip(n as int) =~= encode_fields(tail));
        assert(seq![fs[0]] + tail =~= fs);
    }
}

/// Reads the varint at `pos`.
pub fn read_varint(buf: &[u8], pos: usize) -> (r: Option<(u64, usize)>)
    requires
        pos <= buf@.len(),
    ensures
        match spec_read_varint(buf@.skip(pos as int)) {
            Some((v, n)) => r == Some((v, n as usize)) && 1 <= n <= 10 && pos + n <= buf@.len(),
            None => r is None,
        },
{
    let ghost s = buf@.skip(pos as int);
    let total = buf.len();
    let avail = total - pos;
    let mut i: usize = 0;
    let mut acc: u64 = 0;
    let mut mult: u64 = 1;
    proof {
        lemma_p128_9();
    }
    while i < 10
        invariant
            s == buf@.skip(pos as int),
            avail == buf@.len() - pos,
            total == buf@.len(),
            pos <= buf@.len(),
            i <= 9,
            0 <= acc < mult,
            mult == p128(i as nat),
            p128(9) == 0x8000_0000_0000_0000,
            varint_from(s, 0, 0, 1) == varint_from(s, i as nat, acc as int, mult as int),
        decreases 10 - i,
    {
        proof {
            lemma_p128_mono(i as nat, 9);
        }
        if i >= avail {
            return None;
        }
        assert(pos + i < buf@.len());
        let b = buf[pos + i];
        assert(b == s[i as int]);
        if b < 128 {
            if i == 9 && b >= 2 {
                return None;
            }
            proof {
                if i == 9 {
                    assert((b as int) * (mult as int) <= mult) by (nonlinear_arith)
                        requires
                            b < 2,
                    ;
                } else {
                    lemma_p128_mono((i + 1) as nat, 9);
                    assert((b as int) * (mult as int) <= 127 * mult) by (nonlinear_arith)
                        requires
                            b < 128,
                    ;
                }
            }
            return Some((acc + (b as u64) * mult, i + 1));
        }
        if i == 9 {
            assert(varint_from(s, 10, acc + (b - 128) * mult, mult * 128) is None);
            return None;
        }
        proof {
            lemma_p128_mono((i + 1) as nat, 9);
            assert(((b - 128) as int) * (mult as int) <= 127 * mult) by (nonlinear_arith)
                requires
                    b < 256,
                    b >= 128,
            ;
        }
        acc = acc + ((b - 128) as u64) * mult;
        mult = mult * 128;
        i = i + 1;
    }
    None
}


/// Reads the field key at `pos`.
pub fn read_key(buf: &[u8], pos: usize) -> (r: Option<(u32, u8, usize)>)
    requires
        pos <= buf@.len(),
    ensures
        match spec_read_key(buf@.skip(pos as int)) {
            Some((t, w, n)) => r == Some((t, w, n as usize)) && 1 <= n <= 10 && pos + n
                <= buf@.len(),
            None => r is None,
        },
{
    match read_varint(buf, pos) {
        None => None,
        Some((k, n)) => {
            if k > 0xffff_ffffu64 {
                None
            } else if k % 8 > 5 {
                None
            } else if k / 8 == 0 {
                None
            } else {
                Some(((k / 8) as u32, (k % 8) as u8, n))
            }
        },
    }
}

/// Length of the value of a field whose key has been read, `pos` being the
/// first byte after the key.
pub fn skip_value_at(buf: &[u8], pos: usize, wt: u8, tag: u32, d: u32) -> (r: Option<usize>)
    requires
        pos <= buf@.len(),
    ensures
        match skip_value(buf@.skip(pos as int), wt, tag, d as nat) {
            Some(n) => r == Some(n as usize) && pos + n <= buf@.len(),
            None => r is None,
        },
    decreases buf@.len() - pos, 1nat,
{
    let ghost s = buf@.skip(pos as int);
    let avail = buf.len() - pos;
    if d == 0 {
        None
    } else if wt == 0 {
        match read_varint(buf, pos) {
            Some((_, n)) => Some(n),
            None => None,
        }
    } else if wt == 1 {
        if avail >= 8 {
            Some(8)
        } else {
            None
        }
    } else if wt == 5 {
        if avail >= 4 {
            Some(4)
        } else {
            None
        }
    } else if wt == 2 {
        match read_varint(buf, pos) {
            Some((len, n)) => {
                if len <= (avail - n) as u64 {
                    Some(n + len as usize)
                } else {
                    None
                }
            },
            None => None,
        }
    } else if wt == 3 {
        skip_group_at(buf, pos, tag, d)
    } else {
        None
    }
}

/// Length of the rest of a group opened with `tag`, through its end key.
pub fn skip_group_at(buf: &[u8], pos: usize, tag: u32, d: u32) -> (r: Option<usize>)
    requires
        pos <= buf@.len(),
    ensures
        match skip_group_body(buf@.skip(pos as int), tag, d as nat) {
            Some(n) => r == Some(n as usize) && pos + n <= buf@.len(),
            None => r is None,
        },
    decreases buf@.len() - pos, 0nat,
{
    let ghost s = buf@.skip(pos as int);
    let avail = buf.len() - pos;
    match read_key(buf, pos) {
        None => None,
        Some((t, wt, kn)) => {
            if !(1 <= kn && kn <= avail) || d == 0 {
                None
            } else if wt == 4 {
                if t == tag {
                    Some(kn)
                } else {
                    None
                }
            } else {
                assert(buf@.skip((pos + kn) as int) =~= s.skip(kn as int));
                match skip_value_at(buf, pos + kn, wt, t, d - 1) {
                    None => None,
                    Some(n) => {
                        if n > avail - kn {
                            None
                        } else {
                            assert(buf@.skip((pos + kn + n) as int) =~= s.skip((kn + n) as int));
                            match skip_group_at(buf, pos + kn + n, tag, d) {
                                Some(m) => Some(kn + n + m),
                                None => None,
                            }
                        }
                    },
                }
            }
        },
    }
}


/// A field located in an encoded buffer: the bytes of a length-delimited
/// value lie in `start..end`.
#[derive(Clone, Copy, Debug)]
pub struct RawField {
    pub tag: u32,
    pub wt: u8,
    pub varint: u64,
    pub start: usize,
    pub end: usize,
}

/// `r` locates the field `f` within `buf`.
pub open spec fn locates(buf: Seq<u8>, r: RawField, f: FieldV) -> bool {
    &&& r.tag == f.tag
    &&& r.wt == f.wt
    &&& r.varint == f.varint
    &&& r.start <= r.end <= buf.len()
    &&& buf.subrange(r.start as int, r.end as int) == f.data
}

/// Reads the field at `pos`.
pub fn parse_field_at(buf: &[u8], pos: usize, d: u32, lt: u32) -> (r: Option<(RawField, usize)>)
    requires
        pos <= buf@.len(),
    ensures
        match spec_parse_field(buf@.skip(pos as int), d as nat, lt) {
            Some((f, n)) => r matches Some((rf, m)) && m == n && pos + n <= buf@.len() && locates(
                buf@,
                rf,
                f,
            ),
            None => r is None,
        },
{
    let ghost s = buf@.skip(pos as int);
    let avail = buf.len() - pos;
    match read_key(buf, pos) {
        None => None,
        Some((tag, wt, kn)) => {
            let ghost rest = s.skip(kn as int);
            assert(buf@.skip((pos + kn) as int) =~= rest);
            if !(1 <= kn && kn <= avail) {
                None
            } else if wt == 0 && tag != lt {
                match read_varint(buf, pos + kn) {
                    Some((v, vn)) => {
                        let rf = RawField { tag, wt, varint: v, start: pos, end: pos };
                        assert(buf@.subrange(pos as int, pos as int) =~= Seq::<u8>::empty());
                        Some((rf, kn + vn))
                    },
                    None => None,
                }
            } else if wt == 2 || tag == lt {
                match read_varint(buf, pos + kn) {
                    Some((len, ln)) => {
                        if len <= (avail - kn - ln) as u64 {
                            let start = pos + kn + ln;
                            let end = start + len as usize;
                            let rf = RawField { tag, wt, varint: len, start, end };
                            assert(buf@.subrange(start as int, end as int) =~= rest.subrange(
                                ln as int,
                                ln + len,
                            ));
                            Some((rf, kn + ln + len as usize))
                        } else {
                            None
                        }
                    },
                    None => None,
                }
            } else {
                match skip_value_at(buf, pos + kn, wt, tag, d) {
                    Some(n) => {
                        let rf = RawField { tag, wt, varint: 0, start: pos, end: pos };
                        assert(buf@.subrange(pos as int, pos as int) =~= Seq::<u8>::empty());
                        Some((rf, kn + n))
                    },
                    None => None,
                }
            }
        },
    }
}

/// Splits an encoded message into its fields, in wire order.
pub fn parse_fields(buf: &[u8], d: u32, lt: u32) -> (r: Option<Vec<RawField>>)
    ensures
        match spec_parse_fields(buf@, d as nat, lt) {
            Some(fs) => r matches Some(v) && v@.len() == fs.len() && forall|i: int|
                0 <= i < fs.len() ==> #[trigger] locates(buf@, v@[i], fs[i]),
            None => r is None,
        },
{
    let mut out: Vec<RawField> = Vec::new();
    let mut pos: usize = 0;
    let ghost mut seen: Seq<FieldV> = Seq::empty();
    assert(buf@.skip(0) =~= buf@);
    while pos < buf.len()
        invariant
            pos <= buf@.len(),
            out@.len() == seen.len(),
            forall|i: int| 0 <= i < seen.len() ==> #[trigger] locates(buf@, out@[i], seen[i]),
            spec_parse_fields(buf@, d as nat, lt) == match spec_parse_fields(
                buf@.skip(pos as int),
                d as nat,
                lt,
            ) {
                Some(fs) => Some(seen + fs),
                None => None,
            },
        decreases buf@.len() - pos,
    {
        let ghost s = buf@.skip(pos as int);
        match parse_field_at(buf, pos, d, lt) {
            None => {
                return None;
            },
            Some((rf, n)) => {
                if !(1 <= n && n <= buf.len() - pos) {
                    return None;
                }
                let ghost f = spec_parse_field(s, d as nat, lt).unwrap().0;
                assert(buf@.skip((pos + n) as int) =~= s.skip(n as int));
                proof {
                    match spec_parse_fields(s.skip(n as int), d as nat, lt) {
                        Some(fs) => {
                            assert(seen + (seq![f] + fs) =~= seen.push(f) + fs);
                        },
                        None => {},
                    }
                }
                out.push(rf);
                proof {
                    seen = seen.push(f);
                }
                pos = pos + n;
            },
        }
    }
    assert(buf@.skip(pos as int) =~= Seq::<u8>::empty());
    assert(seen + Seq::<FieldV>::empty() =~= seen);
    Some(out)
}
} // verus!
