//! Whether a command argument is a link, as the `url` crate decides it.
use vstd::prelude::*;

verus! {

/// Whether `url::Url::parse` accepts the text `s` as an absolute URL.
pub uninterp spec fn url_parses(s: Seq<char>) -> bool;

/// Calls `url::Url::parse` on `s` and reports whether it returned `Ok`.
/// The contract names the verdict and claims only that it depends on the text
/// alone; what the URL standard accepts is not stated.
#[verifier::external_body]
pub(crate) fn parses_as_url(s: &str) -> (ok: bool)
    ensures
        ok == url_parses(s@),
{
    url::Url::parse(s).is_ok()
}

} // verus!
