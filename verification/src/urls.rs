//! API-base normalization and realtime endpoint derivation.
//!
//! A canonical API base has the shape `scheme://host[:port]/api/v1`: leading
//! and trailing whitespace and trailing slashes are removed, a missing
//! `/api/v1` suffix (or a bare `/api`) is completed, and inputs without an
//! `http`/`https` scheme are rejected.

use vstd::prelude::*;
use vstd::string::*;

verus! {

/// Compiled-in default API base, used when neither an environment override
/// nor a persisted value resolves.
pub const DEFAULT_API_BASE: &'static str = "http://localhost:3000/api/v1";

/// Whitespace characters removed from the ends of a candidate API base.
pub open spec fn is_space(c: char) -> bool {
    c == ' ' || c == '\t' || c == '\n' || c == '\r'
}

/// Remove leading whitespace.
pub open spec fn trim_leading(s: Seq<char>) -> Seq<char>
    decreases s.len(),
{
    if s.len() > 0 && is_space(s[0]) {
        trim_leading(s.subrange(1, s.len() as int))
    } else {
        s
    }
}

/// Remove trailing whitespace.
pub open spec fn trim_trailing(s: Seq<char>) -> Seq<char>
    decreases s.len(),
{
    if s.len() > 0 && is_space(s[s.len() - 1]) {
        trim_trailing(s.subrange(0, s.len() - 1))
    } else {
        s
    }
}

/// Remove trailing slashes.
pub open spec fn trim_slashes(s: Seq<char>) -> Seq<char>
    decreases s.len(),
{
    if s.len() > 0 && s[s.len() - 1] == '/' {
        trim_slashes(s.subrange(0, s.len() - 1))
    } else {
        s
    }
}

/// `p` is a prefix of `s`.
pub open spec fn has_prefix(s: Seq<char>, p: Seq<char>) -> bool {
    p.len() <= s.len() && s.subrange(0, p.len() as int) == p
}

/// `p` is a suffix of `s`.
pub open spec fn has_suffix(s: Seq<char>, p: Seq<char>) -> bool {
    p.len() <= s.len() && s.subrange(s.len() - p.len(), s.len() as int) == p
}

/// The candidate with surrounding whitespace and trailing slashes removed.
pub open spec fn trimmed_base(v: Seq<char>) -> Seq<char> {
    trim_slashes(trim_trailing(trim_leading(v)))
}

/// What normalization returns: `None` for an empty or scheme-less candidate,
/// otherwise the trimmed candidate completed to end in `/api/v1`.
pub open spec fn normalize_spec(v: Seq<char>) -> Option<Seq<char>> {
    let base = trimmed_base(v);
    if base.len() == 0 {
        None
    } else if !has_prefix(base, "http://"@) && !has_prefix(base, "https://"@) {
        None
    } else if has_suffix(base, "/api/v1"@) {
        Some(base)
    } else if has_suffix(base, "/api"@) {
        Some(base + "/v1"@)
    } else {
        Some(base + "/api/v1"@)
    }
}

/// Executable counterpart of [`is_space`].
fn space(c: char) -> (r: bool)
    ensures
        r == is_space(c),
{
    c == ' ' || c == '\t' || c == '\n' || c == '\r'
}

/// If everything before `i` is whitespace and `i` is not (or is the end),
/// trimming leading whitespace drops exactly the first `i` characters.
proof fn lemma_trim_leading_at(s: Seq<char>, i: int)
    requires
        0 <= i <= s.len(),
        forall|j: int| 0 <= j < i ==> is_space(s[j]),
        i < s.len() ==> !is_space(s[i]),
    ensures
        trim_leading(s) == s.subrange(i, s.len() as int),
    decreases i,
{
    if i == 0 {
        assert(s.subrange(0, s.len() as int) =~= s);
    } else {
        let t = s.subrange(1, s.len() as int);
        lemma_trim_leading_at(t, i - 1);
        assert(t.subrange(i - 1, t.len() as int) =~= s.subrange(i, s.len() as int));
    }
}

/// If everything from `k` on is whitespace and `k - 1` is not (or `k` is 0),
/// trimming trailing whitespace keeps exactly the first `k` characters.
proof fn lemma_trim_trailing_at(s: Seq<char>, k: int)
    requires
        0 <= k <= s.len(),
        forall|j: int| k <= j < s.len() ==> is_space(s[j]),
        k > 0 ==> !is_space(s[k - 1]),
    ensures
        trim_trailing(s) == s.subrange(0, k),
    decreases s.len(),
{
    if k == s.len() {
        assert(s.subrange(0, k) =~= s);
    } else {
        let t = s.subrange(0, s.len() - 1);
        lemma_trim_trailing_at(t, k);
        assert(t.subrange(0, k) =~= s.subrange(0, k));
    }
}

/// If everything from `k` on is a slash and `k - 1` is not (or `k` is 0),
/// trimming trailing slashes keeps exactly the first `k` characters.
proof fn lemma_trim_slashes_at(s: Seq<char>, k: int)
    requires
        0 <= k <= s.len(),
        forall|j: int| k <= j < s.len() ==> s[j] == '/',
        k > 0 ==> s[k - 1] != '/',
    ensures
        trim_slashes(s) == s.subrange(0, k),
    decreases s.len(),
{
    if k == s.len() {
        assert(s.subrange(0, k) =~= s);
    } else {
        let t = s.subrange(0, s.len() - 1);
        lemma_trim_slashes_at(t, k);
        assert(t.subrange(0, k) =~= s.subrange(0, k));
    }
}

/// Whether `s` starts with `p`, decided character by character.
pub fn starts_with_str(s: &str, p: &str) -> (r: bool)
    ensures
        r == has_prefix(s@, p@),
{
    let n = p.unicode_len();
    if n > s.unicode_len() {
        return false;
    }
    let mut i: usize = 0;
    while i < n
        invariant
            0 <= i <= n,
            n == p@.len(),
            n <= s@.len(),
            forall|j: int| 0 <= j < i ==> s@[j] == p@[j],
        decreases n - i,
    {
        if s.get_char(i) != p.get_char(i) {
            proof {
                assert(s@.subrange(0, p@.len() as int)[i as int] == s@[i as int]);
            }
            return false;
        }
        i += 1;
    }
    proof {
        assert(s@.subrange(0, p@.len() as int) =~= p@);
    }
    true
}

/// Whether `s` ends with `p`, decided character by character.
pub fn ends_with_str(s: &str, p: &str) -> (r: bool)
    ensures
        r == has_suffix(s@, p@),
{
    let n = p.unicode_len();
    let m = s.unicode_len();
    if n > m {
        return false;
    }
    let off = m - n;
    let mut i: usize = 0;
    while i < n
        invariant
            0 <= i <= n,
            n == p@.len(),
            m == s@.len(),
            n <= m,
            off == m - n,
            forall|j: int| 0 <= j < i ==> s@[off + j] == p@[j],
        decreases n - i,
    {
        if s.get_char(off + i) != p.get_char(i) {
            proof {
                assert(s@.subrange(s@.len() - p@.len(), s@.len() as int)[i as int] == s@[off + i]);
            }
            return false;
        }
        i += 1;
    }
    proof {
        assert(s@.subrange(s@.len() - p@.len(), s@.len() as int) =~= p@);
    }
    true
}

/// Normalize a candidate API base to the canonical
/// `scheme://host[:port]/api/v1` shape, or reject it.
pub fn normalize_api_base(value: &str) -> (r: Option<String>)
    ensures
        match r {
            Some(out) => normalize_spec(value@) == Some(out@),
            None => normalize_spec(value@) is None,
        },
{
    let len = value.unicode_len();

    let mut start: usize = 0;
    while start < len && space(value.get_char(start))
        invariant
            0 <= start <= len,
            len == value@.len(),
            forall|j: int| 0 <= j < start ==> is_space(value@[j]),
        decreases len - start,
    {
        start += 1;
    }

    let mut end: usize = len;
    while end > start && space(value.get_char(end - 1))
        invariant
            start <= end <= len,
            len == value@.len(),
            forall|j: int| end <= j < len ==> is_space(value@[j]),
        decreases end,
    {
        end -= 1;
    }

    let ghost mid = end as int;
    let mut stop: usize = end;
    while stop > start && value.get_char(stop - 1) == '/'
        invariant
            start <= stop <= mid <= len,
            len == value@.len(),
            forall|j: int| stop <= j < mid ==> value@[j] == '/',
        decreases stop,
    {
        stop -= 1;
    }

    proof {
        lemma_trim_leading_at(value@, start as int);
        let t = value@.subrange(start as int, len as int);
        lemma_trim_trailing_at(t, mid - start);
        assert(t.subrange(0, mid - start) =~= value@.subrange(start as int, mid));
        let u = value@.subrange(start as int, mid);
        assert(forall|j: int| stop - start <= j < u.len() ==> u[j] == '/');
        lemma_trim_slashes_at(u, stop - start);
        assert(u.subrange(0, stop - start) =~= value@.subrange(start as int, stop as int));
        assert(trimmed_base(value@) == value@.subrange(start as int, stop as int));
    }

    let base = value.substring_char(start, stop);
    if base.unicode_len() == 0 {
        return None;
    }
    if !starts_with_str(base, "http://") && !starts_with_str(base, "https://") {
        return None;
    }
    if ends_with_str(base, "/api/v1") {
        return Some(base.to_owned());
    }
    if ends_with_str(base, "/api") {
        let mut out = base.to_owned();
        out.append("/v1");
        return Some(out);
    }
    let mut out = base.to_owned();
    out.append("/api/v1");
    Some(out)
}

/// Appending on the right keeps a prefix.
proof fn lemma_prefix_concat(a: Seq<char>, b: Seq<char>, p: Seq<char>)
    requires
        has_prefix(a, p),
    ensures
        has_prefix(a + b, p),
{
    assert((a + b).subrange(0, p.len() as int) =~= a.subrange(0, p.len() as int));
}

/// A sequence is a suffix of anything extended with it on the right.
proof fn lemma_suffix_concat(a: Seq<char>, b: Seq<char>)
    ensures
        has_suffix(a + b, b),
{
    assert((a + b).subrange(a.len() as int, (a + b).len() as int) =~= b);
}

/// Extending a sequence and its suffix by the same tail keeps the suffix
/// relation.
proof fn lemma_suffix_extend(a: Seq<char>, p: Seq<char>, b: Seq<char>)
    requires
        has_suffix(a, p),
    ensures
        has_suffix(a + b, p + b),
{
    let n = (a + b).len() as int;
    assert((a + b).subrange(n - (p + b).len(), n) =~= a.subrange(
        a.len() - p.len(),
        a.len() as int,
    ) + b);
}

/// A candidate whose trimmed form lacks an `http`/`https` scheme is rejected.
pub proof fn lemma_normalize_needs_scheme(v: Seq<char>)
    requires
        !has_prefix(trimmed_base(v), "http://"@),
        !has_prefix(trimmed_base(v), "https://"@),
    ensures
        normalize_spec(v) is None,
{
}

/// Normalization is idempotent: normalizing an already accepted base returns
/// it unchanged.
pub proof fn lemma_normalize_idempotent(v: Seq<char>)
    requires
        normalize_spec(v) is Some,
    ensures
        normalize_spec(normalize_spec(v)->0) == normalize_spec(v),
{
    reveal_strlit("http://");
    reveal_strlit("https://");
    reveal_strlit("/api/v1");
    reveal_strlit("/api");
    reveal_strlit("/v1");
    let base = trimmed_base(v);
    let n = normalize_spec(v)->0;

    if has_suffix(base, "/api/v1"@) {
        assert(n == base);
    } else if has_suffix(base, "/api"@) {
        if has_prefix(base, "http://"@) {
            lemma_prefix_concat(base, "/v1"@, "http://"@);
        } else {
            lemma_prefix_concat(base, "/v1"@, "https://"@);
        }
        lemma_suffix_extend(base, "/api"@, "/v1"@);
        assert("/api"@ + "/v1"@ =~= "/api/v1"@);
    } else {
        if has_prefix(base, "http://"@) {
            lemma_prefix_concat(base, "/api/v1"@, "http://"@);
        } else {
            lemma_prefix_concat(base, "/api/v1"@, "https://"@);
        }
        lemma_suffix_concat(base, "/api/v1"@);
    }
    assert(has_suffix(n, "/api/v1"@));
    assert(has_prefix(n, "http://"@) || has_prefix(n, "https://"@));

    assert(n[0] == 'h') by {
        if has_prefix(n, "http://"@) {
            assert(n.subrange(0, 7)[0] == n[0]);
        } else {
            assert(n.subrange(0, 8)[0] == n[0]);
        }
    }
    let last = n.len() - 1;
    assert(n[last] == '1') by {
        assert(n.subrange(n.len() - 7, n.len() as int)[6] == n[last]);
    }

    assert(trim_leading(n) == n);
    assert(trim_trailing(n) == n);
    assert(trim_slashes(n) == n);
    assert(trimmed_base(n) == n);
}

/// The realtime endpoint for an API base: trailing slashes removed, the
/// scheme rewritten (`http` to `ws`, `https` to `wss`, `ws` assumed
/// otherwise), and the fixed `/ws` path appended.
pub open spec fn websocket_url_spec(api: Seq<char>) -> Seq<char> {
    let url = trim_slashes(api);
    if has_prefix(url, "https://"@) {
        "wss://"@ + url.subrange("https://"@.len() as int, url.len() as int) + "/ws"@
    } else if has_prefix(url, "http://"@) {
        "ws://"@ + url.subrange("http://"@.len() as int, url.len() as int) + "/ws"@
    } else {
        "ws://"@ + url + "/ws"@
    }
}

/// Derive the realtime endpoint from an API base.
pub fn websocket_url(api_base: &str) -> (r: String)
    ensures
        r@ == websocket_url_spec(api_base@),
{
    let len = api_base.unicode_len();
    let mut stop: usize = len;
    while stop > 0 && api_base.get_char(stop - 1) == '/'
        invariant
            0 <= stop <= len,
            len == api_base@.len(),
            forall|j: int| stop <= j < len ==> api_base@[j] == '/',
        decreases stop,
    {
        stop -= 1;
    }
    proof {
        lemma_trim_slashes_at(api_base@, stop as int);
    }
    let url = api_base.substring_char(0, stop);

    proof {
        reveal_strlit("https://");
        reveal_strlit("http://");
    }
    if starts_with_str(url, "https://") {
        let rest = url.substring_char(8, url.unicode_len());
        let mut out = String::from_str("wss://");
        out.append(rest);
        out.append("/ws");
        return out;
    }
    if starts_with_str(url, "http://") {
        let rest = url.substring_char(7, url.unicode_len());
        let mut out = String::from_str("ws://");
        out.append(rest);
        out.append("/ws");
        return out;
    }
    let mut out = String::from_str("ws://");
    out.append(url);
    out.append("/ws");
    out
}

/// Resolution of the API base at startup: an environment override wins, then
/// a previously persisted value, then the compiled-in default; override and
/// persisted value count only when they normalize.
pub open spec fn resolve_api_base_spec(env_value: Option<&str>, stored_value: Option<&str>) -> Seq<
    char,
> {
    if env_value is Some && normalize_spec(env_value->0@) is Some {
        normalize_spec(env_value->0@)->0
    } else if stored_value is Some && normalize_spec(stored_value->0@) is Some {
        normalize_spec(stored_value->0@)->0
    } else {
        DEFAULT_API_BASE@
    }
}

/// Pick the API base at startup from the override, the persisted value and
/// the default, in that priority order.
pub fn resolve_api_base(env_value: Option<&str>, stored_value: Option<&str>) -> (r: String)
    ensures
        r@ == resolve_api_base_spec(env_value, stored_value),
{
    if let Some(e) = env_value {
        if let Some(n) = normalize_api_base(e) {
            return n;
        }
    }
    if let Some(s) = stored_value {
        if let Some(n) = normalize_api_base(s) {
            return n;
        }
    }
    String::from_str(DEFAULT_API_BASE)
}

/// Join the API base and a relative path into a full URL.
pub fn endpoint_url(api_base: &str, path: &str) -> (r: String)
    ensures
        r@ == api_base@ + path@,
{
    let mut out = api_base.to_owned();
    out.append(path);
    out
}

} // verus!
