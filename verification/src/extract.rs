//! Link extraction from page text.
//!
//! A permissive matcher finds URL-shaped substrings anywhere in free text
//! (no HTML parsing); the crawler then collapses duplicate occurrences so
//! each candidate link is scheduled once per page.

use vstd::prelude::*;
use crate::text::{views_of, contains_string};

verus! {

/// The URL-shaped substrings of a page body, in order of occurrence,
/// duplicates included. The outcome depends on the characters of the body
/// alone.
pub uninterp spec fn raw_links_of(body: Seq<char>) -> Seq<Seq<char>>;

/// Relies on `linkify::LinkFinder::links` restricted to the URL kind: the
/// spans it finds depend only on the text scanned; an empty text holds no
/// link.
#[verifier::external_body]
fn find_links(body: &str) -> (r: Vec<String>)
    ensures
        r@.map_values(|s: String| s@) == raw_links_of(body@),
        body@.len() == 0 ==> r@.len() == 0,
{
    let mut finder = linkify::LinkFinder::new();
    finder.kinds(&[linkify::LinkKind::Url]);
    finder.links(body).map(|l| l.as_str().to_owned()).collect()
}

/// `s` with every repeated element dropped, keeping the first occurrence
/// of each and the order of first occurrences.
pub open spec fn dedup_seq(s: Seq<Seq<char>>) -> Seq<Seq<char>>
    decreases s.len(),
{
    if s.len() == 0 {
        Seq::empty()
    } else {
        let rest = dedup_seq(s.drop_last());
        if rest.contains(s.last()) {
            rest
        } else {
            rest.push(s.last())
        }
    }
}

/// The candidate links of a page body: every URL-shaped substring, with
/// duplicate literal occurrences collapsed to one candidate. Never fails;
/// produces nothing on empty or non-matching input.
pub fn extract_links(body: &str) -> (r: Vec<String>)
    ensures
        views_of(r@) == dedup_seq(raw_links_of(body@)),
{
    let raw = find_links(body);
    let ghost raw_v: Seq<Seq<char>> = raw_links_of(body@);
    let mut out: Vec<String> = Vec::new();
    let mut i: usize = 0;
    while i < raw.len()
        invariant
            i <= raw.len(),
            views_of(raw@) == raw_v,
            views_of(out@) == dedup_seq(raw_v.take(i as int)),
        decreases raw.len() - i,
    {
        proof {
            assert(raw_v.take(i + 1).drop_last() =~= raw_v.take(i as int));
            assert(raw_v.take(i + 1).last() == raw_v[i as int]);
            assert(raw_v[i as int] == views_of(raw@)[i as int]);
        }
        let candidate = raw[i].clone();
        if !contains_string(&out, &candidate) {
            out.push(candidate);
            proof {
                assert(views_of(out@) =~= dedup_seq(raw_v.take(i + 1)));
            }
        } else {
            proof {
                assert(views_of(out@) =~= dedup_seq(raw_v.take(i + 1)));
            }
        }
        i += 1;
    }
    proof {
        assert(raw_v.take(raw@.len() as int) =~= raw_v);
    }
    out
}

} // verus!
