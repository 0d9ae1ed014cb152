//! The rewrite rule of the reverse proxy that sits in front of the search
//! backend: requests under the backend's entry prefix are forwarded to the
//! backend URL with the prefix stripped; everything else is served as
//! static files by the caller.

use vstd::prelude::*;

verus! {

use crate::launch::{spec_has_prefix, str_has_prefix};

/// The path prefix under which the proxy exposes the search backend.
pub open spec fn spec_entry_prefix() -> Seq<char> {
    "/meilisearch"@
}

/// The route pattern that captures every request under the entry prefix.
pub fn meilisearch_route_rule() -> (s: String)
    ensures
        s@ == spec_entry_prefix() + "/{*wildcard}"@,
{
    let mut s: String = "/meilisearch".to_owned();
    s.append("/{*wildcard}");
    s
}

/// The URI a proxied request is forwarded to: the backend base URL,
/// followed by the request's path and query with the entry prefix
/// stripped — or unchanged, if the prefix is somehow absent.
pub open spec fn spec_proxy_target(base_url: Seq<char>, path_query: Seq<char>) -> Seq<char> {
    if spec_has_prefix(path_query, spec_entry_prefix()) {
        base_url + path_query.skip(spec_entry_prefix().len() as int)
    } else {
        base_url + path_query
    }
}

/// Rewrites one request's path and query into the backend URI.
pub fn rewrite_proxy_target(base_url: &str, path_query: &str) -> (r: String)
    ensures
        r@ == spec_proxy_target(base_url@, path_query@),
{
    proof {
        reveal_strlit("/meilisearch");
    }
    let mut r: String = base_url.to_owned();
    if str_has_prefix(path_query, "/meilisearch") {
        let stripped = path_query.substring_char(12, path_query.unicode_len());
        r.append(stripped);
        proof {
            assert(r@ =~= spec_proxy_target(base_url@, path_query@));
        }
    } else {
        r.append(path_query);
    }
    r
}

} // verus!
