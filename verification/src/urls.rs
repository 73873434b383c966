//! Reading and extending URLs through the `url` crate.

use vstd::prelude::*;

use crate::text::string_views;

verus! {

/// What `url::Url::parse` makes of a string: the host, whether a query is
/// present, and the names of the query pairs in order; or the text of the
/// parse error. Named, not spelled out: the WHATWG URL parser it stands for
/// takes pages to state.
pub uninterp spec fn parsed_url(s: Seq<char>) -> Result<(Option<Seq<char>>, bool, Seq<Seq<char>>), Seq<char>>;

/// The serialization of the URL parsed from `s` after `key=value` was
/// appended to its query (`query_pairs_mut().append_pair`, then `to_string`).
pub uninterp spec fn url_with_pair(s: Seq<char>, key: Seq<char>, value: Seq<char>) -> Seq<char>;

/// The parts of a parsed URL the client reads.
pub struct UrlParts {
    pub host: Option<String>,
    pub has_query: bool,
    pub query_keys: Vec<String>,
}

/// The model of [`UrlParts`].
pub open spec fn url_parts_view(p: UrlParts) -> (Option<Seq<char>>, bool, Seq<Seq<char>>) {
    (
        match p.host {
            Some(h) => Some(h@),
            None => None,
        },
        p.has_query,
        string_views(p.query_keys@),
    )
}

/// Parses `s` with `url::Url::parse` and reads its host (`host_str`), whether
/// it has a query (`query`), and its query names (`query_pairs`). The
/// contract only ties the result to [`parsed_url`]; it states nothing of how
/// the parser normalizes its input.
#[verifier::external_body]
pub(crate) fn parse_url(s: &str) -> (r: Result<UrlParts, String>)
    ensures
        match r {
            Ok(p) => parsed_url(s@) == Ok::<_, Seq<char>>(url_parts_view(p)),
            Err(m) => parsed_url(s@) == Err::<(Option<Seq<char>>, bool, Seq<Seq<char>>), _>(m@),
        },
{
    match url::Url::parse(s) {
        Ok(u) => Ok(UrlParts {
            host: u.host_str().map(String::from),
            has_query: u.query().is_some(),
            query_keys: u.query_pairs().map(|(k, _)| k.into_owned()).collect(),
        }),
        Err(e) => Err(e.to_string()),
    }
}

/// Parses `s` with `url::Url::parse`, appends `key=value` to its query with
/// `query_pairs_mut().append_pair`, and serializes it; `None` exactly when
/// `s` does not parse.
#[verifier::external_body]
pub(crate) fn append_query_pair(s: &str, key: &str, value: &str) -> (r: Option<String>)
    ensures
        r is Some <==> parsed_url(s@) is Ok,
        r matches Some(t) ==> t@ == url_with_pair(s@, key@, value@),
{
    match url::Url::parse(s) {
        Ok(mut u) => {
            u.query_pairs_mut().append_pair(key, value);
            Some(u.to_string())
        },
        Err(_) => None,
    }
}

} // verus!
