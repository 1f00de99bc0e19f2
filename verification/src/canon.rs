//! URL canonicalization.
//!
//! A raw link string taken out of page text is turned into a canonical
//! absolute URL, or rejected. Canonical-form equality is exactly the
//! equality the traversal's deduplication is checked against.

use vstd::prelude::*;

verus! {

/// Errors of the crawler's own domain.
#[derive(Clone, Copy, PartialEq, Eq, Structural, Debug)]
pub enum CrawlError {
    /// The input string does not parse as an absolute URL.
    InvalidUrl,
}

/// The canonical absolute form of a raw link string, or `None` where the
/// string does not parse as an absolute URL. The outcome depends on the
/// characters of the input alone.
pub uninterp spec fn canon_of(raw: Seq<char>) -> Option<Seq<char>>;

/// Relies on `url::Url::parse` followed by `url::Url::to_string`: parsing
/// resolves and normalizes the input, serialization renders the normalized
/// form; both depend only on the input string.
#[verifier::external_body]
fn parse_absolute(raw: &str) -> (r: Option<String>)
    ensures
        r matches Some(c) ==> canon_of(raw@) == Some(c@),
        r is None ==> canon_of(raw@) is None,
{
    match url::Url::parse(raw) {
        Ok(u) => Some(u.to_string()),
        Err(_) => None,
    }
}

/// Normalize a raw link string into its canonical absolute URL form.
/// Malformed input is rejected with `InvalidUrl`, exactly when the parser
/// rejects it.
pub fn canonicalize(raw: &str) -> (r: Result<String, CrawlError>)
    ensures
        r matches Ok(c) ==> canon_of(raw@) == Some(c@),
        r is Err ==> canon_of(raw@) is None && r == Err::<String, CrawlError>(CrawlError::InvalidUrl),
{
    match parse_absolute(raw) {
        Some(c) => Ok(c),
        None => Err(CrawlError::InvalidUrl),
    }
}

} // verus!
