//! Content-type classification for fetched responses.
//!
//! Only textual responses are scanned for links: `text/*` subtypes and a
//! small allowlist of structured-text application types. Anything else is
//! treated as non-textual and its body is never read.

use vstd::prelude::*;
use crate::text::{spec_starts_with, str_eq, str_starts_with};

verus! {

/// A declared content type is textual when it is a `text/*` subtype or one
/// of the recognized structured-text application types (JSON, XML,
/// JavaScript, JSON-LD, XHTML).
pub open spec fn textual_content_type(ct: Seq<char>) -> bool {
    ||| spec_starts_with(ct, "text/"@)
    ||| ct == "application/json"@
    ||| ct == "application/xml"@
    ||| ct == "application/javascript"@
    ||| ct == "application/ld+json"@
    ||| ct == "application/xhtml+xml"@
}

/// Decide whether a response with the given declared content type is
/// textual, and so worth reading and scanning for links.
pub fn is_textual(content_type: &str) -> (r: bool)
    ensures
        r == textual_content_type(content_type@),
{
    if str_starts_with(content_type, "text/") {
        return true;
    }
    str_eq(content_type, "application/json")
        || str_eq(content_type, "application/xml")
        || str_eq(content_type, "application/javascript")
        || str_eq(content_type, "application/ld+json")
        || str_eq(content_type, "application/xhtml+xml")
}

} // verus!
