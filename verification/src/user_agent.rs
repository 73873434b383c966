//! The User-Agent string sent on every request.

use vstd::prelude::*;

use crate::text::{push_str, string_of};

verus! {

/// The compiler version to report: the one recorded when the crate was
/// built, or `unknown` when none was.
pub fn rustc_version(recorded: Option<&'static str>) -> (r: &'static str)
    ensures
        r@ == match recorded {
            Some(v) => v@,
            None => "unknown"@,
        },
{
    match recorded {
        Some(v) => v,
        None => "unknown",
    }
}

/// The User-Agent text: `audd-rust/<version> rust/<rustc-version> (<os>)`.
pub open spec fn user_agent_of(version: Seq<char>, rustc: Seq<char>, os: Seq<char>) -> Seq<char> {
    "audd-rust/"@ + version + " rust/"@ + rustc + " ("@ + os + ")"@
}

/// Builds the User-Agent text, in the format of the sibling SDKs.
pub fn user_agent_text(version: &str, rustc: &str, os: &str) -> (r: String)
    ensures
        r@ == user_agent_of(version@, rustc@, os@),
{
    let mut r = string_of("audd-rust/");
    push_str(&mut r, version);
    push_str(&mut r, " rust/");
    push_str(&mut r, rustc);
    push_str(&mut r, " (");
    push_str(&mut r, os);
    push_str(&mut r, ")");
    r
}

} // verus!
