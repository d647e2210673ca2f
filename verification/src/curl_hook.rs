//! What the `curl_easy_setopt` hook does with each option that the game sets.
use vstd::prelude::*;
use crate::text::has_substring;
use crate::url::{
    ends_with_epic_domain, is_origin, lemma_plain_host_test, lemma_scheme_and_port_ignored,
    lemma_split_scheme_host_path, lemma_join_then_parse, lemma_path_starts_with_slash, spec_parse_url,
    spec_should_redirect, Url,
};

verus! {

/// libcurl's option number for the request URL.
pub const CURLOPT_URL: i32 = 10002;

/// libcurl's option number for peer certificate verification.
pub const CURLOPT_SSL_VERIFYPEER: i32 = 64;

/// What the hook hands on to the real `curl_easy_setopt`.
pub enum SetoptAction {
    /// Set the URL option to this URL in place of the game's.
    Redirect(String),
    /// Set peer verification to 0 in place of the game's value.
    DisablePeerVerification,
    /// Hand the game's argument on unchanged.
    PassThrough,
}

/// The URL that a request is sent to in place of `url`, if it is redirected:
/// the backend followed by the request's path and query.
pub open spec fn spec_redirect_target(url: Seq<char>, backend: Seq<char>) -> Option<Seq<char>> {
    if spec_should_redirect(spec_parse_url(url).0) {
        Some(backend + spec_parse_url(url).1)
    } else {
        None
    }
}

/// Decides what to hand on for one `curl_easy_setopt(handle, option, arg)` call.
///
/// `url` is the argument read as a UTF-8 string when it is a non-null pointer that
/// holds one, and `None` otherwise. A URL option whose host is an Epic Games
/// service is redirected to `backend`; with `bypass_ssl`, peer verification is
/// switched off; everything else passes through.
pub fn decide_setopt(option: i32, url: Option<&str>, backend: &str, bypass_ssl: bool) -> (r:
    SetoptAction)
    ensures
        option == CURLOPT_URL ==> match url {
            Some(u) => match spec_redirect_target(u@, backend@) {
                Some(t) => r matches SetoptAction::Redirect(s) && s@ == t,
                None => r is PassThrough,
            },
            None => r is PassThrough,
        },
        option == CURLOPT_SSL_VERIFYPEER ==> (if bypass_ssl {
            r is DisablePeerVerification
        } else {
            r is PassThrough
        }),
        option != CURLOPT_URL && option != CURLOPT_SSL_VERIFYPEER ==> r is PassThrough,
{
    if option == CURLOPT_URL {
        match url {
            Some(u) => {
                let parsed = Url::parse_url(u);
                if Url::should_redirect(parsed.host.as_str()) {
                    let target = Url::create_url(backend, parsed.path_and_query.as_str());
                    return SetoptAction::Redirect(target);
                }
                SetoptAction::PassThrough
            },
            None => SetoptAction::PassThrough,
        }
    } else if option == CURLOPT_SSL_VERIFYPEER && bypass_ssl {
        SetoptAction::DisablePeerVerification
    } else {
        SetoptAction::PassThrough
    }
}

/// A redirected request keeps its path and query: when the backend is an origin
/// ("scheme://host:port" with no path), the redirected URL splits into the
/// backend as its host part and the incoming request's path and query. And when
/// the backend is not itself an Epic Games host, the redirected URL is not
/// redirected again.
pub proof fn lemma_redirect_keeps_path(url: Seq<char>, backend: Seq<char>)
    requires
        is_origin(backend),
        spec_redirect_target(url, backend) is Some,
    ensures
        spec_parse_url(spec_redirect_target(url, backend)->0) == (
            backend,
            spec_parse_url(url).1,
        ),
        !spec_should_redirect(backend) ==> spec_redirect_target(
            spec_redirect_target(url, backend)->0,
            backend,
        ) is None,
{
    if url.len() == 0 {
        crate::url::lemma_empty_host_not_redirected();
    }
    lemma_path_starts_with_slash(url);
    lemma_join_then_parse(backend, spec_parse_url(url).1);
}

/// Whether a URL is redirected depends only on the redirect test of its host
/// part, and a redirected URL is the backend followed by its path and query.
pub proof fn lemma_redirected_iff_epic_host(url: Seq<char>, backend: Seq<char>)
    ensures
        (spec_redirect_target(url, backend) is Some) == spec_should_redirect(spec_parse_url(url).0),
        spec_redirect_target(url, backend) is Some ==> spec_redirect_target(url, backend)->0 == backend
            + spec_parse_url(url).1,
{
}

/// Plain http and https are treated alike: for a host name `h` (no ':' or '/')
/// and a path `p` starting with '/', "http://" + h + p and "https://" + h + p
/// are both sent to backend + p when `h` ends with an Epic Games host suffix,
/// and both handed on unchanged otherwise.
pub proof fn lemma_either_scheme_redirected(h: Seq<char>, p: Seq<char>, backend: Seq<char>)
    requires
        !has_substring(h, seq![':']),
        !has_substring(h, seq!['/']),
        p.len() > 0,
        p[0] == '/',
    ensures
        spec_redirect_target("http://"@ + h + p, backend) == (if ends_with_epic_domain(h) {
            Some(backend + p)
        } else {
            None
        }),
        spec_redirect_target("https://"@ + h + p, backend) == (if ends_with_epic_domain(h) {
            Some(backend + p)
        } else {
            None
        }),
{
    lemma_split_scheme_host_path(h, p);
    lemma_plain_host_test(h);
    lemma_scheme_and_port_ignored(h, Seq::empty());
}

} // verus!
