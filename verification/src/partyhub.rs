//! The Partyhub pages that the Java side asks the native library for.
use vstd::prelude::*;
use crate::url::Url;

verus! {

/// The path of the Partyhub GraphQL endpoint on the backend.
pub open spec fn graphql_path() -> Seq<char> {
    "/partyhub/graphql"@
}

/// The backend's Partyhub GraphQL endpoint.
pub fn partyhub_graphql_url(backend: &str) -> (r: String)
    ensures
        r@ == backend@ + graphql_path(),
{
    Url::create_url(backend, "/partyhub/graphql")
}

} // verus!
