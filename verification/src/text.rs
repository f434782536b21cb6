//! Text helpers: UTF-8 validation of wire bytes, and character-level views
//! of strings.

use vstd::prelude::*;
use vstd::std_specs::iter::IteratorSpec;
use vstd::utf8::*;

verus! {

/// `std::str::from_utf8`, copied into an owned `String`.  The standard
/// library documents that it fails exactly when the bytes are not valid
/// UTF-8, and that the string otherwise holds the characters they encode.
#[verifier::external_body]
pub(crate) fn utf8_string(bytes: &[u8]) -> (r: Option<String>)
    ensures
        match r {
            Some(s) => valid_utf8(bytes@) && s@ == decode_utf8(bytes@),
            None => !valid_utf8(bytes@),
        },
{
    std::str::from_utf8(bytes).ok().map(|s| s.to_owned())
}

/// `String`'s `FromIterator<char>`: the string made of `chars`, in order.
#[verifier::external_body]
pub(crate) fn string_from_chars(chars: &[char]) -> (r: String)
    ensures
        r@ == chars@,
{
    chars.iter().collect()
}

/// The characters of `s`, in order.
pub fn chars_of(s: &str) -> (r: Vec<char>)
    ensures
        r@ == s@,
{
    broadcast use vstd::string::group_string_axioms;

    let mut out: Vec<char> = Vec::new();
    let mut it = s.chars();
    loop
        invariant
            out@ + it.remaining() == s@,
            it.decrease() is Some,
        ensures
            out@ == s@,
        decreases it.decrease()->0,
    {
        let ghost before = it.remaining();
        match it.next() {
            Some(c) => {
                out.push(c);
                assert(out@ + it.remaining() =~= s@);
            },
            None => {
                assert(out@ =~= s@);
                break;
            },
        }
    }
    out
}

/// The ASCII digit for `d < 10`.
pub open spec fn digit_char(d: u64) -> char {
    ((d + 48) as u8) as char
}

/// The decimal representation of `n`, without leading zeros.
pub open spec fn dec_digits(n: u64) -> Seq<char>
    decreases n,
{
    if n < 10 {
        seq![digit_char(n)]
    } else {
        dec_digits(n / 10).push(digit_char(n % 10))
    }
}

fn push_decimal(n: u64, out: &mut Vec<char>)
    ensures
        final(out)@ == old(out)@ + dec_digits(n),
    decreases n,
{
    if n >= 10 {
        push_decimal(n / 10, out);
    }
    let d: u8 = (n % 10) as u8;
    let c: char = (d + 48) as char;
    out.push(c);
    proof {
        assert(c == digit_char(n % 10));
        if n < 10 {
            assert(old(out)@ + dec_digits(n) =~= old(out)@.push(c));
        } else {
            assert(old(out)@ + dec_digits(n) =~= (old(out)@ + dec_digits(n / 10)).push(c));
        }
    }
}

/// `n` in decimal.
pub fn decimal(n: u64) -> (r: String)
    ensures
        r@ == dec_digits(n),
{
    let mut v: Vec<char> = Vec::new();
    push_decimal(n, &mut v);
    assert(v@ =~= dec_digits(n));
    string_from_chars(v.as_slice())
}

/// `a` followed by `b`.
pub fn concat(a: &str, b: &str) -> (r: String)
    ensures
        r@ == a@ + b@,
{
    let mut v = chars_of(a);
    let w = chars_of(b);
    let mut i: usize = 0;
    while i < w.len()
        invariant
            i <= w@.len(),
            w@ == b@,
            v@ == a@ + b@.take(i as int),
        decreases w@.len() - i,
    {
        v.push(w[i]);
        assert(a@ + b@.take(i + 1) =~= (a@ + b@.take(i as int)).push(b@[i as int]));
        i = i + 1;
    }
    assert(b@.take(i as int) =~= b@);
    string_from_chars(v.as_slice())
}

/// The Unicode `White_Space` characters, which `char::is_whitespace` and
/// `str::trim` go by.
pub open spec fn is_ws(c: char) -> bool {
    let u = c as u32;
    ||| 0x09 <= u <= 0x0d
    ||| u == 0x20
    ||| u == 0x85
    ||| u == 0xa0
    ||| u == 0x1680
    ||| 0x2000 <= u <= 0x200a
    ||| u == 0x2028
    ||| u == 0x2029
    ||| u == 0x202f
    ||| u == 0x205f
    ||| u == 0x3000
}

pub fn char_is_ws(c: char) -> (r: bool)
    ensures
        r == is_ws(c),
{
    let u = c as u32;
    (0x09 <= u && u <= 0x0d) || u == 0x20 || u == 0x85 || u == 0xa0 || u == 0x1680 || (0x2000
        <= u && u <= 0x200a) || u == 0x2028 || u == 0x2029 || u == 0x202f || u == 0x205f || u
        == 0x3000
}

/// `s` without its leading white space.
pub open spec fn trim_start(s: Seq<char>) -> Seq<char>
    decreases s.len(),
{
    if s.len() > 0 && is_ws(s[0]) {
        trim_start(s.drop_first())
    } else {
        s
    }
}

/// `s` without its trailing white space.
pub open spec fn trim_end(s: Seq<char>) -> Seq<char>
    decreases s.len(),
{
    if s.len() > 0 && is_ws(s.last()) {
        trim_end(s.drop_last())
    } else {
        s
    }
}

/// `s` without leading and trailing white space, as `str::trim` gives it.
pub open spec fn trim(s: Seq<char>) -> Seq<char> {
    trim_end(trim_start(s))
}

proof fn lemma_trim_start_skip(s: Seq<char>, i: int)
    requires
        0 <= i <= s.len(),
        forall|t: int| 0 <= t < i ==> is_ws(s[t]),
    ensures
        trim_start(s) == trim_start(s.skip(i)),
    decreases i,
{
    if i > 0 {
        assert(s.skip(1).skip(i - 1) =~= s.skip(i));
        assert(s.drop_first() =~= s.skip(1));
        lemma_trim_start_skip(s.drop_first(), i - 1);
    } else {
        assert(s.skip(0) =~= s);
    }
}

proof fn lemma_trim_end_take(s: Seq<char>, j: int)
    requires
        0 <= j <= s.len(),
        forall|t: int| j <= t < s.len() ==> is_ws(s[t]),
    ensures
        trim_end(s) == trim_end(s.take(j)),
    decreases s.len() - j,
{
    if j < s.len() {
        assert(s.drop_last().take(j) =~= s.take(j));
        lemma_trim_end_take(s.drop_last(), j);
    } else {
        assert(s.take(j) =~= s);
    }
}

/// The characters of `s` without leading and trailing white space.
pub fn trim_chars(s: &[char]) -> (r: Vec<char>)
    ensures
        r@ == trim(s@),
{
    let mut i: usize = 0;
    while i < s.len() && char_is_ws(s[i])
        invariant
            i <= s@.len(),
            forall|t: int| 0 <= t < i ==> is_ws(s@[t]),
        decreases s@.len() - i,
    {
        i = i + 1;
    }
    proof {
        lemma_trim_start_skip(s@, i as int);
    }
    let ghost rest = s@.skip(i as int);
    assert(trim_start(rest) == rest);
    let mut j: usize = s.len();
    while j > i && char_is_ws(s[j - 1])
        invariant
            i <= j <= s@.len(),
            forall|t: int| j <= t < s@.len() ==> is_ws(s@[t]),
        decreases j,
    {
        j = j - 1;
    }
    proof {
        let k = j - i;
        assert forall|t: int| k <= t < rest.len() implies is_ws(rest[t]) by {
            assert(rest[t] == s@[t + i]);
        }
        lemma_trim_end_take(rest, k as int);
        let core = rest.take(k as int);
        if core.len() > 0 {
            assert(core.last() == s@[j - 1]);
        }
        assert(trim_end(core) == core);
        assert(core =~= s@.subrange(i as int, j as int));
    }
    vstd::slice::slice_to_vec(&s[i..j])
}

/// Whether `p` occurs in `s` at position `i`.
pub open spec fn occurs_at(s: Seq<char>, p: Seq<char>, i: int) -> bool {
    0 <= i && i + p.len() <= s.len() && s.subrange(i, i + p.len()) == p
}

/// Whether `p` occurs anywhere in `s`.
pub open spec fn contains_seq(s: Seq<char>, p: Seq<char>) -> bool {
    exists|i: int| occurs_at(s, p, i)
}

/// Whether `p` occurs in `s` at position `i`.
pub fn occurs_at_exec(s: &[char], p: &[char], i: usize) -> (r: bool)
    ensures
        r == occurs_at(s@, p@, i as int),
{
    if i > s.len() || p.len() > s.len() - i {
        return false;
    }
    let end = i + p.len();
    let mut k: usize = 0;
    while k < p.len()
        invariant
            end == i + p@.len(),
            end <= s@.len(),
            k <= p@.len(),
            forall|t: int| 0 <= t < k ==> s@[i + t] == p@[t],
        decreases p@.len() - k,
    {
        if s[i + k] != p[k] {
            assert(s@.subrange(i as int, i + p@.len())[k as int] != p@[k as int]);
            return false;
        }
        k = k + 1;
    }
    assert(s@.subrange(i as int, i + p@.len()) =~= p@);
    true
}

/// Whether `p` occurs anywhere in `s`.
pub fn contains_chars(s: &[char], p: &[char]) -> (r: bool)
    ensures
        r == contains_seq(s@, p@),
{
    if p.len() == 0 {
        assert(s@.subrange(0, 0) =~= p@);
        assert(occurs_at(s@, p@, 0));
        return true;
    }
    if p.len() > s.len() {
        assert forall|t: int| !occurs_at(s@, p@, t) by {}
        return false;
    }
    let last = s.len() - p.len();
    let mut i: usize = 0;
    while i <= last
        invariant
            last == s@.len() - p@.len(),
            last < usize::MAX,
            p@.len() > 0,
            i <= last + 1,
            forall|t: int| 0 <= t < i ==> !occurs_at(s@, p@, t),
        decreases last + 1 - i,
    {
        if occurs_at_exec(s, p, i) {
            return true;
        }
        i = i + 1;
    }
    assert forall|t: int| !occurs_at(s@, p@, t) by {
        if 0 <= t < i {
        } else {
            assert(!(t + p@.len() <= s@.len()) || t < 0);
        }
    }
    false
}

/// Whether `s` starts with `p`.
pub fn str_starts_with(s: &str, p: &str) -> (r: bool)
    ensures
        r == occurs_at(s@, p@, 0),
{
    let a = chars_of(s);
    let b = chars_of(p);
    occurs_at_exec(a.as_slice(), b.as_slice(), 0)
}

/// Whether `s` ends with `p`.
pub fn str_ends_with(s: &str, p: &str) -> (r: bool)
    ensures
        r == (p@.len() <= s@.len() && occurs_at(s@, p@, s@.len() - p@.len())),
{
    let a = chars_of(s);
    let b = chars_of(p);
    if b.len() > a.len() {
        return false;
    }
    occurs_at_exec(a.as_slice(), b.as_slice(), a.len() - b.len())
}

/// Whether `p` occurs in `s`.
pub fn str_contains(s: &str, p: &str) -> (r: bool)
    ensures
        r == contains_seq(s@, p@),
{
    let a = chars_of(s);
    let b = chars_of(p);
    contains_chars(a.as_slice(), b.as_slice())
}

/// Whether two strings are equal.
pub fn str_eq(a: &str, b: &str) -> (r: bool)
    ensures
        r == (a@ == b@),
{
    a.to_owned() == b.to_owned()
}

/// The characters of each string.
pub open spec fn strings_view(v: Seq<String>) -> Seq<Seq<char>> {
    v.map_values(|s: String| s@)
}

/// Appends a copy of each of `extra` to `out`.
pub fn push_all(out: &mut Vec<String>, extra: &[String])
    ensures
        strings_view(final(out)@) == strings_view(old(out)@) + strings_view(extra@),
{
    let mut i: usize = 0;
    while i < extra.len()
        invariant
            i <= extra@.len(),
            strings_view(out@) == strings_view(old(out)@) + strings_view(extra@.take(i as int)),
        decreases extra@.len() - i,
    {
        let ghost before = out@;
        out.push(extra[i].clone());
        assert(strings_view(out@) =~= strings_view(before).push(extra@[i as int]@));
        assert(strings_view(extra@.take(i + 1)) =~= strings_view(extra@.take(i as int)).push(
            extra@[i as int]@,
        ));
        i = i + 1;
    }
    assert(extra@.take(i as int) =~= extra@);
}

/// `s` with every occurrence of `p` (scanning left to right, without
/// overlaps) replaced by `w`, as `str::replace` does for a non-empty `p`.
pub open spec fn replace_spec(s: Seq<char>, p: Seq<char>, w: Seq<char>) -> Seq<char>
    decreases s.len(),
{
    if p.len() == 0 || s.len() < p.len() {
        s
    } else if s.take(p.len() as int) == p {
        w + replace_spec(s.skip(p.len() as int), p, w)
    } else {
        seq![s[0]] + replace_spec(s.drop_first(), p, w)
    }
}

/// `s` with every occurrence of the non-empty `p` replaced by `w`.
pub fn replace_all(s: &str, p: &str, w: &str) -> (r: String)
    requires
        p@.len() > 0,
    ensures
        r@ == replace_spec(s@, p@, w@),
{
    let sc = chars_of(s);
    let pc = chars_of(p);
    let wc = chars_of(w);
    let mut out: Vec<char> = Vec::new();
    let mut i: usize = 0;
    assert(sc@.skip(0) =~= sc@);
    while i < sc.len()
        invariant
            i <= sc@.len(),
            sc@ == s@,
            pc@ == p@,
            wc@ == w@,
            pc@.len() > 0,
            replace_spec(s@, p@, w@) == out@ + replace_spec(sc@.skip(i as int), p@, w@),
        decreases sc@.len() - i,
    {
        let ghost rest = sc@.skip(i as int);
        if occurs_at_exec(sc.as_slice(), pc.as_slice(), i) {
            proof {
                assert(rest.take(p@.len() as int) =~= sc@.subrange(i as int, i + p@.len()));
                assert(rest.skip(p@.len() as int) =~= sc@.skip(i + p@.len()));
            }
            let ghost before = out@;
            let mut k: usize = 0;
            while k < wc.len()
                invariant
                    k <= wc@.len(),
                    out@ == before + wc@.take(k as int),
                decreases wc@.len() - k,
            {
                out.push(wc[k]);
                assert(before + wc@.take(k + 1) =~= (before + wc@.take(k as int)).push(wc@[k as int]));
                k = k + 1;
            }
            assert(wc@.take(k as int) =~= wc@);
            assert(out@ + replace_spec(sc@.skip(i + p@.len()), p@, w@) =~= before + (w@
                + replace_spec(sc@.skip(i + p@.len()), p@, w@)));
            i = i + pc.len();
        } else {
            proof {
                if rest.len() >= p@.len() {
                    assert(rest.take(p@.len() as int) =~= sc@.subrange(i as int, i + p@.len()));
                    assert(rest.drop_first() =~= sc@.skip(i + 1));
                    assert(rest[0] == sc@[i as int]);
                } else {
                    assert(rest.len() < p@.len());
                }
            }
            let ghost before = out@;
            out.push(sc[i]);
            proof {
                if rest.len() >= p@.len() {
                    assert(out@ + replace_spec(sc@.skip(i + 1), p@, w@) =~= before + (seq![sc@[i as int]]
                        + replace_spec(sc@.skip(i + 1), p@, w@)));
                } else {
                    assert(replace_spec(rest, p@, w@) == rest);
                    assert(sc@.skip(i + 1).len() < p@.len());
                    assert(replace_spec(sc@.skip(i + 1), p@, w@) == sc@.skip(i + 1));
                    assert(rest =~= seq![sc@[i as int]] + sc@.skip(i + 1));
                    assert(out@ + sc@.skip(i + 1) =~= before + rest);
                }
            }
            i = i + 1;
        }
    }
    assert(sc@.skip(i as int) =~= Seq::<char>::empty());
    assert(out@ + Seq::<char>::empty() =~= out@);
    string_from_chars(out.as_slice())
}

/// A copy of `v`.
pub fn copy_strings(v: &[String]) -> (r: Vec<String>)
    ensures
        r@ == v@,
{
    let mut out: Vec<String> = Vec::new();
    let mut i: usize = 0;
    while i < v.len()
        invariant
            i <= v@.len(),
            out@ == v@.take(i as int),
        decreases v@.len() - i,
    {
        out.push(v[i].clone());
        assert(out@ =~= v@.take(i + 1));
        i = i + 1;
    }
    assert(v@.take(i as int) =~= v@);
    out
}

/// A copy of `v`.
pub fn copy_pairs(v: &[(String, String)]) -> (r: Vec<(String, String)>)
    ensures
        r@ == v@,
{
    let mut out: Vec<(String, String)> = Vec::new();
    let mut i: usize = 0;
    while i < v.len()
        invariant
            i <= v@.len(),
            out@ == v@.take(i as int),
        decreases v@.len() - i,
    {
        let (a, b) = &v[i];
        out.push((a.clone(), b.clone()));
        assert(out@ =~= v@.take(i + 1));
        i = i + 1;
    }
    assert(v@.take(i as int) =~= v@);
    out
}

} // verus!
