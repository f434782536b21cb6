//! The room routes of the downstream websocket: `/rooms/<room_id>`.

use vstd::prelude::*;

use crate::text::{chars_of, occurs_at, occurs_at_exec, string_from_chars, trim, trim_chars};
use crate::url_parser::{after_seg, first_seg, strip_slashes};

verus! {

/// The room id of a `/rooms/<room_id>` path: exactly two segments after
/// the leading slashes, the first `rooms`, the second not empty.
pub open spec fn room_path_id(path: Seq<char>) -> Option<Seq<char>> {
    let p = strip_slashes(path);
    match after_seg(p) {
        None => None,
        Some(r1) => if first_seg(p) == "rooms"@ && after_seg(r1) is None && first_seg(r1).len() > 0 {
            Some(first_seg(r1))
        } else {
            None
        },
    }
}

/// The room id of a `/rooms/<room_id>` path.
pub fn parse_room_path(path: &str) -> (r: Option<String>)
    ensures
        match room_path_id(path@) {
            Some(id) => r matches Some(s) && s@ == id,
            None => r is None,
        },
{
    let c = chars_of(path);
    let s = c.as_slice();
    let i = crate::url_parser::skip_slashes(s);
    let k1 = crate::url_parser::segment_end(s, i);
    if k1 == s.len() {
        return None;
    }
    let k2 = crate::url_parser::segment_end(s, k1 + 1);
    if k2 != s.len() {
        return None;
    }
    let rooms = chars_of("rooms");
    let seg1 = vstd::slice::slice_to_vec(&s[i..k1]);
    let ok1 = seg1.len() == rooms.len() && crate::text::occurs_at_exec(
        seg1.as_slice(),
        rooms.as_slice(),
        0,
    );
    proof {
        assert(ok1 ==> seg1@.subrange(0, rooms@.len() as int) =~= seg1@);
        if seg1@ == rooms@ {
            assert(seg1@.subrange(0, rooms@.len() as int) =~= seg1@);
        }
    }
    if ok1 && k2 > k1 + 1 {
        Some(string_from_chars(&s[k1 + 1..k2]))
    } else {
        None
    }
}

/// `s` with every leading copy of `p` taken off, as `str::trim_start_matches`
/// does for a non-empty pattern.
pub open spec fn strip_prefixes(s: Seq<char>, p: Seq<char>) -> Seq<char>
    decreases s.len(),
{
    if p.len() > 0 && occurs_at(s, p, 0) {
        strip_prefixes(s.skip(p.len() as int), p)
    } else {
        s
    }
}

/// The room a downstream client names in its first frame: the text
/// trimmed, without its leading slashes and its leading `rooms/`.
pub open spec fn subscription_room_spec(text: Seq<char>) -> Seq<char> {
    strip_prefixes(strip_slashes(trim(text)), "rooms/"@)
}

/// The room a downstream client names in its first frame, either as
/// `rooms/<id>` or as the bare id.
pub fn subscription_room_id(text: &str) -> (r: String)
    ensures
        r@ == subscription_room_spec(text@),
{
    let c = chars_of(text);
    let t = trim_chars(c.as_slice());
    let s = t.as_slice();
    let i = crate::url_parser::skip_slashes(s);
    let prefix = chars_of("rooms/");
    proof {
        reveal_strlit("rooms/");
    }
    let p = prefix.as_slice();
    let mut j: usize = i;
    assert(p@.len() == 6);
    let n: usize = s.len();
    while occurs_at_exec(s, p, j)
        invariant
            i <= j <= s@.len(),
            p@ == "rooms/"@,
            p@.len() == 6,
            n == s@.len(),
            strip_prefixes(s@.skip(i as int), p@) == strip_prefixes(s@.skip(j as int), p@),
        decreases s@.len() - j,
    {
        proof {
            let rest = s@.skip(j as int);
            assert(rest.subrange(0, p@.len() as int) =~= s@.subrange(j as int, j + p@.len()));
            assert(occurs_at(rest, p@, 0));
            assert(rest.skip(p@.len() as int) =~= s@.skip(j + p@.len()));
        }
        j = j + 6;
    }
    proof {
        let rest = s@.skip(j as int);
        if occurs_at(rest, p@, 0) {
            assert(rest.subrange(0, p@.len() as int) =~= s@.subrange(j as int, j + p@.len()));
        }
    }
    let out = string_from_chars(&s[j..s.len()]);
    proof {
        assert(s@.subrange(j as int, s@.len() as int) =~= s@.skip(j as int));
    }
    out
}

} // verus!
