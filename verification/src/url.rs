//! Splitting a request URL into its host part and its path-and-query part, the
//! Epic Games host test, and re-joining a URL onto another host.
use vstd::prelude::*;
use crate::text::{
    before_char, chars_of, ends_with_chars, find, find_in, has_prefix, has_substring,
    has_suffix, is_first_occurrence, lemma_find_first, lemma_find_some, lemma_first_exists,
    lemma_occurs_char, occurs_at, starts_with_chars, substring, suffix_of,
};

verus! {

/// Number of host suffixes that mark an Epic Games service.
pub const EPIC_DOMAIN_COUNT: usize = 6;

/// The host suffixes that mark an Epic Games service, by index.
pub open spec fn epic_domain(i: int) -> Seq<char> {
    if i == 0 {
        "game-social.epicgames.com"@
    } else if i == 1 {
        "ol.epicgames.com"@
    } else if i == 2 {
        "ol.epicgames.net"@
    } else if i == 3 {
        "on.epicgames.com"@
    } else if i == 4 {
        "ak.epicgames.com"@
    } else {
        "epicgames.dev"@
    }
}

/// The Epic Games host suffix with index `i`.
pub fn epic_domain_str(i: usize) -> (d: &'static str)
    requires
        i < EPIC_DOMAIN_COUNT,
    ensures
        d@ == epic_domain(i as int),
{
    if i == 0 {
        "game-social.epicgames.com"
    } else if i == 1 {
        "ol.epicgames.com"
    } else if i == 2 {
        "ol.epicgames.net"
    } else if i == 3 {
        "on.epicgames.com"
    } else if i == 4 {
        "ak.epicgames.com"
    } else {
        "epicgames.dev"
    }
}

/// The separator between a URL's scheme and its authority.
pub open spec fn scheme_separator() -> Seq<char> {
    seq![':', '/', '/']
}

/// Index at which the host begins: just after the first "://", or 0 without one.
pub open spec fn host_start(u: Seq<char>) -> int {
    match find(u, scheme_separator()) {
        Some(p) => p + 3,
        None => 0,
    }
}

/// The `(host, path_and_query)` split of a URL.
///
/// An empty URL splits into two empty parts. Otherwise the host part runs from the
/// start of the URL (scheme included) up to the first '/' after the scheme
/// separator; the path part is the rest, or "/" when there is no such '/'.
pub open spec fn spec_parse_url(u: Seq<char>) -> (Seq<char>, Seq<char>) {
    if u.len() == 0 {
        (Seq::empty(), Seq::empty())
    } else {
        let start = host_start(u);
        match find(u.subrange(start, u.len() as int), seq!['/']) {
            Some(k) => (u.subrange(0, start + k), u.subrange(start + k, u.len() as int)),
            None => (u, seq!['/']),
        }
    }
}

/// A URL has an explicit path when a '/' follows the start of its host.
pub open spec fn has_explicit_path(u: Seq<char>) -> bool {
    find(u.subrange(host_start(u), u.len() as int), seq!['/']) is Some
}

/// `h` without one leading "http://" or, failing that, one leading "https://".
pub open spec fn strip_scheme(h: Seq<char>) -> Seq<char> {
    if has_prefix(h, "http://"@) {
        h.skip("http://"@.len() as int)
    } else if has_prefix(h, "https://"@) {
        h.skip("https://"@.len() as int)
    } else {
        h
    }
}

/// The bare host name that the redirect test looks at: scheme stripped, port cut.
pub open spec fn bare_host(h: Seq<char>) -> Seq<char> {
    before_char(strip_scheme(h), ':')
}

/// `h` ends with one of the Epic Games host suffixes.
pub open spec fn ends_with_epic_domain(h: Seq<char>) -> bool {
    exists|i: int| 0 <= i < EPIC_DOMAIN_COUNT && has_suffix(h, #[trigger] epic_domain(i))
}

/// `h` names one of the Epic Games services anywhere in it.
pub open spec fn mentions_epic_domain(h: Seq<char>) -> bool {
    exists|i: int| 0 <= i < EPIC_DOMAIN_COUNT && has_substring(h, #[trigger] epic_domain(i))
}

/// Whether a host part (as produced by `parse_url`) is to be redirected.
pub open spec fn spec_should_redirect(h: Seq<char>) -> bool {
    ends_with_epic_domain(bare_host(h))
}

/// A URL split into its host part and its path-and-query part.
#[derive(Debug, Clone)]
pub struct Url {
    /// Scheme and authority, e.g. "http://host:port".
    pub host: String,
    /// Path and query, starting with '/'.
    pub path_and_query: String,
}

/// Whether `h` ends with one of the Epic Games host suffixes.
fn ends_with_any_epic_domain(h: &Vec<char>) -> (b: bool)
    ensures
        b == ends_with_epic_domain(h@),
{
    let mut i: usize = 0;
    while i < EPIC_DOMAIN_COUNT
        invariant
            i <= EPIC_DOMAIN_COUNT,
            forall|j: int| 0 <= j < i ==> !has_suffix(h@, #[trigger] epic_domain(j)),
        decreases EPIC_DOMAIN_COUNT - i,
    {
        let d = chars_of(epic_domain_str(i));
        if ends_with_chars(h, &d) {
            return true;
        }
        i = i + 1;
    }
    false
}

impl Url {
    /// Splits `url` into its host part and its path-and-query part.
    pub fn parse_url(url: &str) -> (res: Url)
        ensures
            res.host@ == spec_parse_url(url@).0,
            res.path_and_query@ == spec_parse_url(url@).1,
    {
        let v = chars_of(url);
        if v.len() == 0 {
            return Url { host: String::new(), path_and_query: String::new() };
        }
        let sep: Vec<char> = vec![':', '/', '/'];
        assert(sep@ =~= scheme_separator());
        let start: usize = match find_in(&v, &sep) {
            Some(p) => {
                proof {
                    lemma_find_some(v@, sep@);
                }
                p + 3
            },
            None => 0,
        };
        let rest = suffix_of(&v, start);
        let slash: Vec<char> = vec!['/'];
        assert(slash@ =~= seq!['/']);
        match find_in(&rest, &slash) {
            Some(k) => {
                proof {
                    lemma_find_some(rest@, slash@);
                }
                let host = substring(url, 0, start + k);
                let path_and_query = substring(url, start + k, v.len());
                Url { host, path_and_query }
            },
            None => {
                let host = substring(url, 0, v.len());
                assert(url@.subrange(0, url@.len() as int) =~= url@);
                let mut path_and_query = String::new();
                path_and_query.append("/");
                proof {
                    reveal_strlit("/");
                    assert(path_and_query@ =~= seq!['/']);
                }
                Url { host, path_and_query }
            },
        }
    }

    /// Whether requests to the host part `host` are to be redirected: after
    /// dropping a leading "http://" or "https://" and anything from the first
    /// ':' on, the host ends with one of the Epic Games host suffixes.
    pub fn should_redirect(host: &str) -> (b: bool)
        ensures
            b == spec_should_redirect(host@),
    {
        let v = chars_of(host);
        let http = chars_of("http://");
        let https = chars_of("https://");
        let stripped = if starts_with_chars(&v, &http) {
            suffix_of(&v, http.len())
        } else if starts_with_chars(&v, &https) {
            suffix_of(&v, https.len())
        } else {
            v
        };
        assert(stripped@ =~= strip_scheme(host@));
        let colon: Vec<char> = vec![':'];
        assert(colon@ =~= seq![':']);
        let mut bare = stripped;
        match find_in(&bare, &colon) {
            Some(k) => {
                proof {
                    lemma_find_some(bare@, colon@);
                }
                bare.truncate(k);
            },
            None => {},
        }
        assert(bare@ =~= bare_host(host@));
        ends_with_any_epic_domain(&bare)
    }

    /// Joins a host part and a path-and-query part into one URL.
    pub fn create_url(host: &str, path_and_query: &str) -> (r: String)
        ensures
            r@ == host@ + path_and_query@,
    {
        let mut r = host.to_owned();
        r.append(path_and_query);
        r
    }
}

/// Re-joining the two parts of a parsed URL gives back the URL, with a "/" added
/// when it had no path of its own.
pub proof fn lemma_parse_create_roundtrip(u: Seq<char>)
    ensures
        spec_parse_url(u).0 + spec_parse_url(u).1 == (if u.len() == 0 || has_explicit_path(u) {
            u
        } else {
            u + seq!['/']
        }),
{
    if u.len() > 0 {
        let start = host_start(u);
        lemma_host_start_bounds(u);
        let rest = u.subrange(start, u.len() as int);
        match find(rest, seq!['/']) {
            Some(k) => {
                lemma_find_some(rest, seq!['/']);
                assert(u.subrange(0, start + k) + u.subrange(start + k, u.len() as int) =~= u);
            },
            None => {},
        }
    }
}

/// The host starts within the URL.
pub proof fn lemma_host_start_bounds(u: Seq<char>)
    ensures
        0 <= host_start(u) <= u.len(),
{
    if find(u, scheme_separator()) is Some {
        lemma_find_some(u, scheme_separator());
    }
}

/// The path part of a non-empty URL starts with '/'.
pub proof fn lemma_path_starts_with_slash(u: Seq<char>)
    requires
        u.len() > 0,
    ensures
        spec_parse_url(u).1.len() > 0,
        spec_parse_url(u).1[0] == '/',
{
    let start = host_start(u);
    lemma_host_start_bounds(u);
    let rest = u.subrange(start, u.len() as int);
    match find(rest, seq!['/']) {
        Some(k) => {
            lemma_find_some(rest, seq!['/']);
            lemma_occurs_char(rest, '/', k);
        },
        None => {},
    }
}

/// An origin: a URL that has a scheme separator and no '/' after it,
/// such as "http://host:port".
pub open spec fn is_origin(b: Seq<char>) -> bool {
    &&& has_substring(b, scheme_separator())
    &&& !has_explicit_path(b)
}

/// Joining an origin and a path that starts with '/' gives a URL that splits
/// back into exactly that origin and that path.
pub proof fn lemma_join_then_parse(b: Seq<char>, q: Seq<char>)
    requires
        is_origin(b),
        q.len() > 0,
        q[0] == '/',
    ensures
        spec_parse_url(b + q) == (b, q),
{
    let sep = scheme_separator();
    let u = b + q;
    lemma_find_some(b, sep);
    let p = find(b, sep)->0;
    assert(u.subrange(p, p + 3) =~= b.subrange(p, p + 3));
    assert forall|j: int| 0 <= j < p implies !occurs_at(u, sep, j) by {
        assert(!occurs_at(b, sep, j));
        assert(u.subrange(j, j + 3) =~= b.subrange(j, j + 3));
    }
    lemma_find_first(u, sep, p);
    assert(host_start(u) == p + 3);
    let rest_b = b.subrange(p + 3, b.len() as int);
    let rest = u.subrange(p + 3, u.len() as int);
    assert(rest =~= rest_b + q);
    let m = rest_b.len() as int;
    assert forall|j: int| 0 <= j < m implies !occurs_at(rest, seq!['/'], j) by {
        lemma_occurs_char(rest, '/', j);
        lemma_occurs_char(rest_b, '/', j);
        if occurs_at(rest_b, seq!['/'], j) {
            lemma_first_exists(rest_b, seq!['/'], j);
            let i = choose|i: int| is_first_occurrence(rest_b, seq!['/'], i);
            lemma_find_first(rest_b, seq!['/'], i);
        }
    }
    lemma_occurs_char(rest, '/', m);
    lemma_find_first(rest, seq!['/'], m);
    assert(u.subrange(0, p + 3 + m) =~= b);
    assert(u.subrange(p + 3 + m, u.len() as int) =~= q);
}

/// The redirect test ignores the scheme ("http://" or "https://") and the port:
/// for a host name `h` it gives the same answer with or without them.
pub proof fn lemma_scheme_and_port_ignored(h: Seq<char>, port: Seq<char>)
    requires
        !has_substring(h, seq![':']),
        !has_prefix(h, "http://"@),
        !has_prefix(h, "https://"@),
    ensures
        spec_should_redirect("http://"@ + h) == spec_should_redirect(h),
        spec_should_redirect("https://"@ + h) == spec_should_redirect(h),
        spec_should_redirect("http://"@ + h + seq![':'] + port) == spec_should_redirect(h),
        spec_should_redirect("https://"@ + h + seq![':'] + port) == spec_should_redirect(h),
{
    reveal_strlit("http://");
    reveal_strlit("https://");
    let http = "http://"@;
    let https = "https://"@;
    lemma_no_colon(h);
    assert(strip_scheme(h) == h);
    // "http://" prefixes
    let a = http + h;
    assert(a.subrange(0, 7) =~= http);
    assert(a.skip(7) =~= h);
    let b = http + h + seq![':'] + port;
    assert(b.subrange(0, 7) =~= http);
    assert(b.skip(7) =~= h + seq![':'] + port);
    lemma_colon_after(h, port);
    // "https://" prefixes
    let c = https + h;
    assert(c.subrange(0, 7)[4] != http[4]);
    assert(c.subrange(0, 8) =~= https);
    assert(c.skip(8) =~= h);
    let d = https + h + seq![':'] + port;
    assert(d.subrange(0, 7)[4] != http[4]);
    assert(d.subrange(0, 8) =~= https);
    assert(d.skip(8) =~= h + seq![':'] + port);
}

/// Without a ':' the port cut keeps the whole host.
proof fn lemma_no_colon(h: Seq<char>)
    requires
        !has_substring(h, seq![':']),
    ensures
        before_char(h, ':') == h,
{
    if find(h, seq![':']) is Some {
        lemma_find_some(h, seq![':']);
    }
}

/// The port cut of `h:port` is `h` when `h` has no ':'.
proof fn lemma_colon_after(h: Seq<char>, port: Seq<char>)
    requires
        !has_substring(h, seq![':']),
    ensures
        before_char(h + seq![':'] + port, ':') == h,
{
    let s = h + seq![':'] + port;
    let m = h.len() as int;
    assert forall|j: int| 0 <= j < m implies !occurs_at(s, seq![':'], j) by {
        lemma_occurs_char(s, ':', j);
        lemma_occurs_char(h, ':', j);
    }
    lemma_occurs_char(s, ':', m);
    lemma_find_first(s, seq![':'], m);
    assert(s.take(m) =~= h);
}

/// Every Epic Games host suffix is non-empty.
pub proof fn lemma_epic_domains_nonempty(i: int)
    ensures
        epic_domain(i).len() > 0,
{
    reveal_strlit("game-social.epicgames.com");
    reveal_strlit("ol.epicgames.com");
    reveal_strlit("ol.epicgames.net");
    reveal_strlit("on.epicgames.com");
    reveal_strlit("ak.epicgames.com");
    reveal_strlit("epicgames.dev");
}

/// An empty host part is never redirected.
pub proof fn lemma_empty_host_not_redirected()
    ensures
        !spec_should_redirect(Seq::<char>::empty()),
{
    let e = Seq::<char>::empty();
    reveal_strlit("http://");
    reveal_strlit("https://");
    assert(strip_scheme(e) == e);
    if find(e, seq![':']) is Some {
        lemma_find_some(e, seq![':']);
    }
    assert(bare_host(e) == e);
    if ends_with_epic_domain(e) {
        let i = choose|i: int| 0 <= i < EPIC_DOMAIN_COUNT && has_suffix(e, #[trigger] epic_domain(i));
        lemma_epic_domains_nonempty(i);
    }
}

/// A scheme followed by a host name with no '/' is an origin whose host part
/// starts right after the scheme, provided the scheme ends with "://" and has no
/// ':' before it.
pub proof fn lemma_scheme_then_host_is_origin(scheme: Seq<char>, h: Seq<char>)
    requires
        scheme.len() >= 3,
        scheme.subrange(scheme.len() - 3, scheme.len() as int) == scheme_separator(),
        forall|j: int| 0 <= j < scheme.len() - 3 ==> scheme[j] != ':',
        !has_substring(h, seq!['/']),
    ensures
        is_origin(scheme + h),
        host_start(scheme + h) == scheme.len(),
{
    let sep = scheme_separator();
    let b = scheme + h;
    let k = scheme.len() - 3;
    assert(b.subrange(k, k + 3) =~= scheme.subrange(k, k + 3));
    assert(occurs_at(b, sep, k));
    assert forall|j: int| 0 <= j < k implies !occurs_at(b, sep, j) by {
        if occurs_at(b, sep, j) {
            assert(b.subrange(j, j + 3)[0] == b[j]);
            assert(b[j] == scheme[j]);
        }
    }
    lemma_find_first(b, sep, k);
    assert(b.subrange(k + 3, b.len() as int) =~= h);
    if find(h, seq!['/']) is Some {
        lemma_find_some(h, seq!['/']);
    }
}

/// A host name without ':' carries no scheme, so the redirect test on it asks
/// only whether it ends with one of the Epic Games host suffixes.
pub proof fn lemma_plain_host_test(h: Seq<char>)
    requires
        !has_substring(h, seq![':']),
    ensures
        !has_prefix(h, "http://"@),
        !has_prefix(h, "https://"@),
        spec_should_redirect(h) == ends_with_epic_domain(h),
{
    reveal_strlit("http://");
    reveal_strlit("https://");
    if has_prefix(h, "http://"@) {
        assert(h.subrange(0, 7)[4] == h[4]);
        assert(occurs_at(h, seq![':'], 4)) by {
            lemma_occurs_char(h, ':', 4);
        }
    }
    if has_prefix(h, "https://"@) {
        assert(h.subrange(0, 8)[5] == h[5]);
        assert(occurs_at(h, seq![':'], 5)) by {
            lemma_occurs_char(h, ':', 5);
        }
    }
    lemma_no_colon(h);
}

/// "http://" + host + path and "https://" + host + path split into the scheme
/// with the host, and the path, for any host name without ':' or '/' and any
/// path that starts with '/'.
pub proof fn lemma_split_scheme_host_path(h: Seq<char>, p: Seq<char>)
    requires
        !has_substring(h, seq![':']),
        !has_substring(h, seq!['/']),
        p.len() > 0,
        p[0] == '/',
    ensures
        spec_parse_url("http://"@ + h + p) == ("http://"@ + h, p),
        spec_parse_url("https://"@ + h + p) == ("https://"@ + h, p),
{
    reveal_strlit("http://");
    reveal_strlit("https://");
    let http = "http://"@;
    let https = "https://"@;
    assert(http.subrange(4, 7) =~= scheme_separator());
    assert(https.subrange(5, 8) =~= scheme_separator());
    lemma_scheme_then_host_is_origin(http, h);
    lemma_scheme_then_host_is_origin(https, h);
    lemma_join_then_parse(http + h, p);
    lemma_join_then_parse(https + h, p);
}

/// Any host ending with one of the six Epic Games host suffixes is an Epic Games
/// host, and any host that is one ends with one of them.
pub proof fn lemma_epic_suffixes(h: Seq<char>)
    ensures
        ends_with_epic_domain(h) == (has_suffix(h, "game-social.epicgames.com"@) || has_suffix(
            h,
            "ol.epicgames.com"@,
        ) || has_suffix(h, "ol.epicgames.net"@) || has_suffix(h, "on.epicgames.com"@)
            || has_suffix(h, "ak.epicgames.com"@) || has_suffix(h, "epicgames.dev"@)),
{
    assert(epic_domain(0) == "game-social.epicgames.com"@);
    assert(epic_domain(1) == "ol.epicgames.com"@);
    assert(epic_domain(2) == "ol.epicgames.net"@);
    assert(epic_domain(3) == "on.epicgames.com"@);
    assert(epic_domain(4) == "ak.epicgames.com"@);
    assert(epic_domain(5) == "epicgames.dev"@);
}

/// Any URL that names one of the six Epic Games services anywhere in it mentions
/// an Epic Games domain, and any URL that does names one of them.
pub proof fn lemma_epic_mentions(u: Seq<char>)
    ensures
        mentions_epic_domain(u) == (has_substring(u, "game-social.epicgames.com"@) || has_substring(
            u,
            "ol.epicgames.com"@,
        ) || has_substring(u, "ol.epicgames.net"@) || has_substring(u, "on.epicgames.com"@)
            || has_substring(u, "ak.epicgames.com"@) || has_substring(u, "epicgames.dev"@)),
{
    assert(epic_domain(0) == "game-social.epicgames.com"@);
    assert(epic_domain(1) == "ol.epicgames.com"@);
    assert(epic_domain(2) == "ol.epicgames.net"@);
    assert(epic_domain(3) == "on.epicgames.com"@);
    assert(epic_domain(4) == "ak.epicgames.com"@);
    assert(epic_domain(5) == "epicgames.dev"@);
}

} // verus!
