// Unit tests of content-type classification, link extraction,
// canonicalization and the model types.

use findconn::content::is_textual;
use findconn::extract::extract_links;
use findconn::canon::{canonicalize, CrawlError};
use findconn::model::SiteURLNode;

#[test]
fn pdf_is_not_textual() {
    assert!(!is_textual("application/pdf"));
}

#[test]
fn html_with_charset_is_textual() {
    assert!(is_textual("text/html; charset=utf-8"));
}

#[test]
fn text_subtypes_are_textual() {
    assert!(is_textual("text/plain"));
    assert!(is_textual("text/css"));
}

#[test]
fn structured_text_allowlist_is_textual() {
    assert!(is_textual("application/json"));
    assert!(is_textual("application/xml"));
    assert!(is_textual("application/javascript"));
    assert!(is_textual("application/ld+json"));
    assert!(is_textual("application/xhtml+xml"));
}

#[test]
fn other_content_types_are_not_textual() {
    assert!(!is_textual("application/octet-stream"));
    assert!(!is_textual("image/png"));
    assert!(!is_textual(""));
    // An allowlist entry with a parameter is not the bare entry.
    assert!(!is_textual("application/json; charset=utf-8"));
}

#[test]
fn extractor_finds_single_candidate() {
    let links = extract_links("not a url alongside https://example.com in text");
    assert_eq!(links, vec!["https://example.com".to_string()]);
}

#[test]
fn extractor_collapses_duplicates() {
    let links = extract_links("https://example.com twice https://example.com");
    assert_eq!(links, vec!["https://example.com".to_string()]);
}

#[test]
fn extractor_yields_nothing_on_plain_text() {
    assert!(extract_links("").is_empty());
    assert!(extract_links("no links anywhere in this body").is_empty());
}

#[test]
fn extractor_keeps_distinct_urls() {
    let links = extract_links("https://a.example/ and https://b.example/");
    assert_eq!(
        links,
        vec!["https://a.example/".to_string(), "https://b.example/".to_string()],
    );
}

#[test]
fn canonicalize_adds_root_path() {
    assert_eq!(
        canonicalize("https://example.com").unwrap(),
        "https://example.com/".to_string(),
    );
}

#[test]
fn canonicalize_normalizes_case_of_host() {
    assert_eq!(
        canonicalize("HTTPS://EXAMPLE.COM/Path").unwrap(),
        "https://example.com/Path".to_string(),
    );
}

#[test]
fn canonicalize_rejects_malformed_input() {
    assert_eq!(canonicalize("not a url"), Err(CrawlError::InvalidUrl));
    assert_eq!(canonicalize("/relative/path"), Err(CrawlError::InvalidUrl));
    assert_eq!(canonicalize(""), Err(CrawlError::InvalidUrl));
}

#[test]
fn new_node_has_no_identifier() {
    let node = SiteURLNode::new("https://example.com/".to_string());
    assert_eq!(node.url, "https://example.com/".to_string());
    assert!(node.id.is_none());
}
