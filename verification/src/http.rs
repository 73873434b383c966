//! What the HTTP transport adds to every request.

use vstd::prelude::*;

use crate::text::{str_eq, string_of};

verus! {

/// The views of a list of query pairs.
pub open spec fn query_view(q: Seq<(String, String)>) -> Seq<(Seq<char>, Seq<char>)> {
    q.map_values(|p: (String, String)| (p.0@, p.1@))
}

/// Whether a query already names `api_token`.
pub open spec fn has_token_key(q: Seq<(Seq<char>, Seq<char>)>) -> bool {
    exists|i: int| 0 <= i < q.len() && #[trigger] q[i].0 == "api_token"@
}

/// Adds `api_token=<token>` at the end of a GET query, unless the query
/// already carries an `api_token` (as the tokenless category query may not).
pub fn query_with_token(query: Vec<(String, String)>, token: &str) -> (r: Vec<(String, String)>)
    ensures
        query_view(r@) == if has_token_key(query_view(query@)) {
            query_view(query@)
        } else {
            query_view(query@).push(("api_token"@, token@))
        },
{
    let mut i: usize = 0;
    let mut found = false;
    while i < query.len()
        invariant
            i <= query@.len(),
            found <==> exists|j: int| 0 <= j < i && #[trigger] query_view(query@)[j].0 == "api_token"@,
        decreases query.len() - i,
    {
        if str_eq(query[i].0.as_str(), "api_token") {
            found = true;
            assert(query_view(query@)[i as int].0 == "api_token"@);
        }
        i = i + 1;
    }
    if found {
        return query;
    }
    let mut q = query;
    let ghost before = q@;
    q.push((string_of("api_token"), string_of(token)));
    assert(query_view(q@) =~= query_view(before).push(("api_token"@, token@)));
    q
}

} // verus!
