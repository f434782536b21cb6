//! Room URLs: from a live-room URL as users paste it to the room's web id.
//!
//! Accepted are `live.douyin.com/<web_rid>` and
//! `www.douyin.com/root/live/<web_rid>`, with or without a scheme, with any
//! query or fragment; surrounding white space is ignored.

use vstd::prelude::*;

use crate::signature_error::SignatureError;
use crate::text::{chars_of, concat, contains_chars, contains_seq, string_from_chars, trim, trim_chars};

verus! {

/// A room's web id, the last part of its URL.
pub type WebRid = String;

/// What the `url` crate reads from `s`: `None` where it refuses to parse
/// it, else the host (where there is one) and the path.
pub uninterp spec fn url_host_and_path(s: Seq<char>) -> Option<(Option<Seq<char>>, Seq<char>)>;

pub open spec fn opt_string_view(o: Option<String>) -> Option<Seq<char>> {
    match o {
        Some(s) => Some(s@),
        None => None,
    }
}

/// `url::Url::parse`, then the parsed URL's `host_str` and `path`.  The
/// parse depends on the text alone.
#[verifier::external_body]
fn url_parts(s: &str) -> (r: Option<(Option<String>, String)>)
    ensures
        match url_host_and_path(s@) {
            None => r is None,
            Some((h, p)) => r matches Some((h2, p2)) && opt_string_view(h2) == h && p2@ == p,
        },
{
    match url::Url::parse(s) {
        Ok(u) => {
            let host = match u.host_str() {
                Some(h) => Some(h.to_owned()),
                None => None,
            };
            Some((host, u.path().to_owned()))
        },
        Err(_) => None,
    }
}

/// `s` with `https://` in front unless it already names a scheme.
pub open spec fn with_scheme(s: Seq<char>) -> Seq<char> {
    if contains_seq(s, "://"@) {
        s
    } else {
        "https://"@ + s
    }
}

/// `s` without its leading slashes.
pub open spec fn strip_slashes(s: Seq<char>) -> Seq<char>
    decreases s.len(),
{
    if s.len() > 0 && s[0] == '/' {
        strip_slashes(s.drop_first())
    } else {
        s
    }
}

/// The part of `s` before its first slash (all of it without one).
pub open spec fn first_seg(s: Seq<char>) -> Seq<char>
    decreases s.len(),
{
    if s.len() == 0 {
        Seq::empty()
    } else if s[0] == '/' {
        Seq::empty()
    } else {
        seq![s[0]] + first_seg(s.drop_first())
    }
}

/// The part of `s` after its first slash; `None` without one.
pub open spec fn after_seg(s: Seq<char>) -> Option<Seq<char>>
    decreases s.len(),
{
    if s.len() == 0 {
        None
    } else if s[0] == '/' {
        Some(s.drop_first())
    } else {
        after_seg(s.drop_first())
    }
}

pub open spec fn allowed_host(h: Seq<char>) -> bool {
    h == "live.douyin.com"@ || h == "www.douyin.com"@
}

/// The web id in the first path segment: `/<web_rid>[/...]`.
pub open spec fn first_segment_rid(path: Seq<char>) -> Option<Seq<char>> {
    let p = strip_slashes(path);
    if first_seg(p).len() > 0 {
        Some(first_seg(p))
    } else {
        None
    }
}

/// The web id of a `/root/live/<web_rid>[/...]` path.
pub open spec fn root_live_rid(path: Seq<char>) -> Option<Seq<char>> {
    let p = strip_slashes(path);
    match after_seg(p) {
        None => None,
        Some(r1) => match after_seg(r1) {
            None => None,
            Some(r2) => if first_seg(p) == "root"@ && first_seg(r1) == "live"@ && first_seg(r2).len()
                > 0 {
                Some(first_seg(r2))
            } else {
                None
            },
        },
    }
}

/// The web id that a parsed URL yields, if its host is allowed and its
/// path has the form that the host uses.
pub open spec fn rid_from_parts(parts: Option<(Option<Seq<char>>, Seq<char>)>) -> Option<Seq<char>> {
    match parts {
        Some((Some(h), path)) => if !allowed_host(h) {
            None
        } else if h == "www.douyin.com"@ {
            root_live_rid(path)
        } else {
            first_segment_rid(path)
        },
        _ => None,
    }
}

/// The result of parsing `input`, given what the URL parser made of it.
pub open spec fn parse_outcome(input: Seq<char>, r: Result<WebRid, SignatureError>) -> bool {
    if trim(input).len() == 0 {
        r matches Err(SignatureError::EmptyUrl)
    } else {
        match rid_from_parts(url_host_and_path(with_scheme(trim(input)))) {
            Some(rid) => r matches Ok(s) && s@ == rid,
            None => r matches Err(SignatureError::UrlFormatNotSupported { url }) && url@ == input,
        }
    }
}

proof fn lemma_strip_slashes(s: Seq<char>, i: int)
    requires
        0 <= i <= s.len(),
        forall|t: int| 0 <= t < i ==> s[t] == '/',
    ensures
        strip_slashes(s) == strip_slashes(s.skip(i)),
    decreases i,
{
    if i > 0 {
        assert(s.drop_first().skip(i - 1) =~= s.skip(i));
        lemma_strip_slashes(s.drop_first(), i - 1);
    } else {
        assert(s.skip(0) =~= s);
    }
}

proof fn lemma_segment(s: Seq<char>, from: int, k: int)
    requires
        0 <= from <= k <= s.len(),
        forall|t: int| from <= t < k ==> s[t] != '/',
        k == s.len() || s[k] == '/',
    ensures
        first_seg(s.skip(from)) == s.subrange(from, k),
        after_seg(s.skip(from)) == if k < s.len() {
            Some(s.skip(k + 1))
        } else {
            None::<Seq<char>>
        },
    decreases k - from,
{
    if from == k {
        if k < s.len() {
            assert(s.skip(from)[0] == '/');
            assert(s.skip(from).drop_first() =~= s.skip(k + 1));
        }
        assert(s.subrange(from, k) =~= Seq::<char>::empty());
    } else {
        lemma_segment(s, from + 1, k);
        assert(s.skip(from).drop_first() =~= s.skip(from + 1));
        assert(seq![s[from]] + s.subrange(from + 1, k) =~= s.subrange(from, k));
    }
}

/// The end of the segment that starts at `from`: the index of the next
/// slash, or the length.
pub(crate) fn segment_end(s: &[char], from: usize) -> (k: usize)
    requires
        from <= s@.len(),
    ensures
        from <= k <= s@.len(),
        first_seg(s@.skip(from as int)) == s@.subrange(from as int, k as int),
        after_seg(s@.skip(from as int)) == if k < s@.len() {
            Some(s@.skip(k + 1))
        } else {
            None::<Seq<char>>
        },
{
    let mut k = from;
    while k < s.len() && s[k] != '/'
        invariant
            from <= k <= s@.len(),
            forall|t: int| from <= t < k ==> s@[t] != '/',
        decreases s@.len() - k,
    {
        k = k + 1;
    }
    proof {
        lemma_segment(s@, from as int, k as int);
    }
    k
}

/// The index of the first character after the leading slashes.
pub(crate) fn skip_slashes(s: &[char]) -> (i: usize)
    ensures
        i <= s@.len(),
        strip_slashes(s@) == s@.skip(i as int),
{
    let mut i: usize = 0;
    while i < s.len() && s[i] == '/'
        invariant
            i <= s@.len(),
            forall|t: int| 0 <= t < i ==> s@[t] == '/',
        decreases s@.len() - i,
    {
        i = i + 1;
    }
    proof {
        lemma_strip_slashes(s@, i as int);
    }
    i
}

fn unsupported(input: &str) -> (r: SignatureError)
    ensures
        r matches SignatureError::UrlFormatNotSupported { url } && url@ == input@,
{
    SignatureError::UrlFormatNotSupported { url: input.to_owned() }
}

/// The web id in the first path segment of `path`.
pub fn extract_first_path_segment(path: &str, input: &str) -> (r: Result<String, SignatureError>)
    ensures
        match first_segment_rid(path@) {
            Some(rid) => r matches Ok(s) && s@ == rid,
            None => r matches Err(SignatureError::UrlFormatNotSupported { url }) && url@ == input@,
        },
{
    let p = chars_of(path);
    let i = skip_slashes(p.as_slice());
    let k = segment_end(p.as_slice(), i);
    if k > i {
        Ok(string_from_chars(&p.as_slice()[i..k]))
    } else {
        Err(unsupported(input))
    }
}

/// The web id of a `/root/live/<web_rid>` path.
pub fn extract_www_root_live_web_rid(path: &str, input: &str) -> (r: Result<String, SignatureError>)
    ensures
        match root_live_rid(path@) {
            Some(rid) => r matches Ok(s) && s@ == rid,
            None => r matches Err(SignatureError::UrlFormatNotSupported { url }) && url@ == input@,
        },
{
    let p = chars_of(path);
    let s = p.as_slice();
    let i = skip_slashes(s);
    let k1 = segment_end(s, i);
    if k1 == s.len() {
        return Err(unsupported(input));
    }
    let k2 = segment_end(s, k1 + 1);
    if k2 == s.len() {
        return Err(unsupported(input));
    }
    let k3 = segment_end(s, k2 + 1);
    let root = chars_of("root");
    let live = chars_of("live");
    let seg1 = vstd::slice::slice_to_vec(&s[i..k1]);
    let seg2 = vstd::slice::slice_to_vec(&s[k1 + 1..k2]);
    let ok1 = seg1.len() == root.len() && crate::text::occurs_at_exec(seg1.as_slice(), root.as_slice(), 0);
    let ok2 = seg2.len() == live.len() && crate::text::occurs_at_exec(seg2.as_slice(), live.as_slice(), 0);
    proof {
        assert(ok1 ==> seg1@.subrange(0, root@.len() as int) =~= seg1@);
        assert(ok2 ==> seg2@.subrange(0, live@.len() as int) =~= seg2@);
        assert(seg1@ == root@ ==> ok1) by {
            if seg1@ == root@ {
                assert(seg1@.subrange(0, root@.len() as int) =~= seg1@);
            }
        }
        assert(seg2@ == live@ ==> ok2) by {
            if seg2@ == live@ {
                assert(seg2@.subrange(0, live@.len() as int) =~= seg2@);
            }
        }
    }
    if ok1 && ok2 && k3 > k2 + 1 {
        Ok(string_from_chars(&s[k2 + 1..k3]))
    } else {
        Err(unsupported(input))
    }
}

/// `input` with `https://` in front unless it already names a scheme.
pub fn ensure_scheme(input: &str) -> (r: String)
    ensures
        r@ == with_scheme(input@),
{
    let c = chars_of(input);
    let sep = chars_of("://");
    if contains_chars(c.as_slice(), sep.as_slice()) {
        input.to_owned()
    } else {
        concat("https://", input)
    }
}

/// The web id of a room from what the URL parser read of its URL.
pub fn web_rid_from_parts(input: &str, parts: Option<(Option<String>, String)>) -> (r: Result<
    WebRid,
    SignatureError,
>)
    ensures
        match rid_from_parts(
            match parts {
                Some((h, p)) => Some((opt_string_view(h), p@)),
                None => None,
            },
        ) {
            Some(rid) => r matches Ok(s) && s@ == rid,
            None => r matches Err(SignatureError::UrlFormatNotSupported { url }) && url@ == input@,
        },
{
    match parts {
        None => Err(unsupported(input)),
        Some((None, _)) => Err(unsupported(input)),
        Some((Some(host), path)) => {
            let is_live = host == "live.douyin.com".to_owned();
            let is_www = host == "www.douyin.com".to_owned();
            if !is_live && !is_www {
                Err(unsupported(input))
            } else if is_www {
                extract_www_root_live_web_rid(path.as_str(), input)
            } else {
                extract_first_path_segment(path.as_str(), input)
            }
        },
    }
}

/// The web id of the room at `input`.
pub fn parse(input: &str) -> (r: Result<WebRid, SignatureError>)
    ensures
        parse_outcome(input@, r),
{
    let chars = chars_of(input);
    let t = trim_chars(chars.as_slice());
    if t.len() == 0 {
        return Err(SignatureError::EmptyUrl);
    }
    let trimmed = string_from_chars(t.as_slice());
    let normalized = ensure_scheme(trimmed.as_str());
    let parts = url_parts(normalized.as_str());
    web_rid_from_parts(input, parts)
}

} // verus!
