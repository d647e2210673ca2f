//! Rewriting the GraphQL requests that `NSURLSession` data tasks send.
use vstd::prelude::*;
use crate::text::{chars_of, contains_chars, has_substring};

verus! {

/// The host whose requests the data-task hook rewrites.
pub open spec fn graphql_host() -> Seq<char> {
    "graphql.epicgames.com"@
}

/// The rewritten URL for a request with absolute URL `url`, path `path` and
/// query `query`, if it is rewritten: the backend, the path (if any), and "?"
/// with the query (if any).
pub open spec fn spec_graphql_redirect(
    url: Seq<char>,
    backend: Seq<char>,
    path: Option<Seq<char>>,
    query: Option<Seq<char>>,
) -> Option<Seq<char>> {
    if has_substring(url, graphql_host()) {
        let p = match path {
            Some(p) => p,
            None => Seq::empty(),
        };
        let q = match query {
            Some(q) => seq!['?'] + q,
            None => Seq::empty(),
        };
        Some(backend + p + q)
    } else {
        None
    }
}

/// The view of an optional string.
pub open spec fn opt_view(s: Option<&str>) -> Option<Seq<char>> {
    match s {
        Some(t) => Some(t@),
        None => None,
    }
}

/// The URL that a data-task request is sent to in place of its own, if any.
///
/// `url` is the request's absolute URL; `path` and `query` are its URL's path and
/// query, where it has them (as valid UTF-8).
pub fn graphql_redirect(url: &str, backend: &str, path: Option<&str>, query: Option<&str>) -> (r:
    Option<String>)
    ensures
        match r {
            Some(s) => spec_graphql_redirect(url@, backend@, opt_view(path), opt_view(query))
                == Some(s@),
            None => spec_graphql_redirect(url@, backend@, opt_view(path), opt_view(query))
                is None,
        },
{
    let v = chars_of(url);
    if !contains_chars(&v, &chars_of("graphql.epicgames.com")) {
        return None;
    }
    let mut new_url = backend.to_owned();
    match path {
        Some(p) => {
            new_url.append(p);
        },
        None => {},
    }
    let ghost before_query = new_url@;
    match query {
        Some(q) => {
            new_url.append("?");
            new_url.append(q);
            proof {
                reveal_strlit("?");
                assert(new_url@ =~= before_query + (seq!['?'] + q@));
            }
        },
        None => {
            assert(new_url@ =~= before_query + Seq::<char>::empty());
        },
    }
    Some(new_url)
}

/// A request is rewritten exactly when its URL names the GraphQL host, and the
/// rewritten URL keeps the request's path and query: it is the backend, then the
/// path if there is one, then '?' and the query if there is one. In particular
/// a path with no query gives exactly backend + path, and the rewritten URL
/// always starts with backend + path.
pub proof fn lemma_rewrite_keeps_path_and_query(
    url: Seq<char>,
    backend: Seq<char>,
    path: Seq<char>,
    query: Seq<char>,
)
    ensures
        (spec_graphql_redirect(url, backend, Some(path), None) is Some) == has_substring(url, "graphql.epicgames.com"@),
        has_substring(url, "graphql.epicgames.com"@) ==> {
            &&& spec_graphql_redirect(url, backend, Some(path), None) == Some(backend + path)
            &&& spec_graphql_redirect(url, backend, Some(path), Some(query)) == Some(backend + path + seq!['?'] + query)
            &&& spec_graphql_redirect(url, backend, None, Some(query)) == Some(backend + seq!['?'] + query)
            &&& spec_graphql_redirect(url, backend, None, None) == Some(backend)
            &&& (backend + path).len() <= spec_graphql_redirect(url, backend, Some(path), Some(query))->0.len()
            &&& spec_graphql_redirect(url, backend, Some(path), Some(query))->0.take((backend + path).len() as int) == backend + path
        },
        !has_substring(url, "graphql.epicgames.com"@) ==> spec_graphql_redirect(url, backend, Some(path), Some(query)) is None,
{
    assert(backend + path + Seq::<char>::empty() =~= backend + path);
    assert(backend + path + (seq!['?'] + query) =~= backend + path + seq!['?'] + query);
    assert(backend + Seq::<char>::empty() + (seq!['?'] + query) =~= backend + seq!['?'] + query);
    assert(backend + Seq::<char>::empty() + Seq::<char>::empty() =~= backend);
    assert((backend + path + seq!['?'] + query).take((backend + path).len() as int) =~= backend + path);
}

} // verus!
