// End-to-end tests of the traversal engine, driven against an in-memory
// web of pages and an in-memory node store (node id = index in `store`).

use findconn::engine::{Action, Crawler, Event};
use findconn::model::Record;

fn drive(seed: &str, pages: &[(&str, &str)], store: &mut Vec<String>) -> Crawler {
    let (mut crawler, mut action) = Crawler::new(seed).expect("seed must be a valid URL");
    let mut steps: u32 = 0;
    loop {
        steps += 1;
        assert!(steps < 10_000, "traversal did not finish");
        let event = match action {
            Action::Finished => break,
            Action::Continue => Event::Start,
            Action::Probe { url } => Event::Probed { found: store.contains(&url) },
            Action::CreateNode { url } => {
                store.push(url);
                Event::NodeCreated { record: Record { id: (store.len() - 1) as u64 } }
            }
            Action::CreateEdge { .. } => Event::EdgeCreated,
            Action::Fetch { url } => match pages.iter().find(|(u, _)| url.as_str() == *u) {
                Some((_, body)) => Event::Fetched { body: body.to_string() },
                None => Event::FetchFailed,
            },
        };
        action = crawler.step(&event);
    }
    crawler
}

fn url_of(crawler: &Crawler, id: u64) -> String {
    crawler
        .nodes()
        .iter()
        .find(|n| n.id == Some(id))
        .expect("edge endpoint must be a persisted node")
        .url
        .clone()
}

fn edge_urls(crawler: &Crawler) -> Vec<(String, String)> {
    crawler
        .edges()
        .iter()
        .map(|e| (url_of(crawler, e.a_in), url_of(crawler, e.out)))
        .collect()
}

#[test]
fn seed_without_links_yields_one_node() {
    let mut store: Vec<String> = Vec::new();
    let crawler = drive(
        "https://a.example/",
        &[("https://a.example/", "nothing to see here")],
        &mut store,
    );
    assert_eq!(crawler.nodes().len(), 1);
    assert_eq!(crawler.nodes()[0].url, "https://a.example/");
    assert_eq!(crawler.nodes()[0].id, Some(0));
    assert!(crawler.edges().is_empty());
}

#[test]
fn dedup_two_paths_one_node() {
    // C is reachable from both A and B; exactly one node for C.
    let mut store: Vec<String> = Vec::new();
    let crawler = drive(
        "https://a.example/",
        &[
            ("https://a.example/", "https://b.example/ then https://c.example/"),
            ("https://b.example/", "see https://c.example/"),
            ("https://c.example/", "no links"),
        ],
        &mut store,
    );
    let mut urls: Vec<String> = crawler.nodes().iter().map(|n| n.url.clone()).collect();
    urls.sort();
    assert_eq!(
        urls,
        vec![
            "https://a.example/".to_string(),
            "https://b.example/".to_string(),
            "https://c.example/".to_string(),
        ],
    );
    assert_eq!(crawler.nodes().len(), 3);
}

#[test]
fn edges_from_every_discovering_source() {
    // A links to B and C, B links to C: three edges, C's node created once
    // but receiving edges from both A and B.
    let mut store: Vec<String> = Vec::new();
    let crawler = drive(
        "https://a.example/",
        &[
            ("https://a.example/", "https://b.example/ then https://c.example/"),
            ("https://b.example/", "see https://c.example/"),
            ("https://c.example/", "no links"),
        ],
        &mut store,
    );
    let edges = edge_urls(&crawler);
    assert_eq!(edges.len(), 3);
    let has = |s: &str, t: &str| edges.iter().any(|(a, b)| a == s && b == t);
    assert!(has("https://a.example/", "https://b.example/"));
    assert!(has("https://a.example/", "https://c.example/"));
    assert!(has("https://b.example/", "https://c.example/"));
}

#[test]
fn cyclic_graph_terminates() {
    // A and B link to each other; the dedup short-circuit prevents
    // re-expansion, so the traversal reaches Finished.
    let mut store: Vec<String> = Vec::new();
    let crawler = drive(
        "https://a.example/",
        &[
            ("https://a.example/", "https://b.example/"),
            ("https://b.example/", "back to https://a.example/"),
        ],
        &mut store,
    );
    assert_eq!(crawler.nodes().len(), 2);
    let edges = edge_urls(&crawler);
    assert_eq!(edges.len(), 2);
    let has = |s: &str, t: &str| edges.iter().any(|(a, b)| a == s && b == t);
    assert!(has("https://a.example/", "https://b.example/"));
    assert!(has("https://b.example/", "https://a.example/"));
}

#[test]
fn rerun_discovers_nothing() {
    // Second run over a store populated by the first: zero new nodes,
    // zero new edges.
    let pages = [
        ("https://a.example/", "https://b.example/ and https://c.example/"),
        ("https://b.example/", "see https://c.example/"),
        ("https://c.example/", "no links"),
    ];
    let mut store: Vec<String> = Vec::new();
    let first = drive("https://a.example/", &pages, &mut store);
    assert_eq!(first.nodes().len(), 3);
    let second = drive("https://a.example/", &pages, &mut store);
    assert!(second.nodes().is_empty());
    assert!(second.edges().is_empty());
}

#[test]
fn malformed_link_dropped() {
    // Body text with one URL-shaped substring next to plain words yields
    // exactly one new candidate; the words are dropped silently.
    let mut store: Vec<String> = Vec::new();
    let crawler = drive(
        "https://a.example/",
        &[
            ("https://a.example/", "not a url but https://b.example/ is"),
            ("https://b.example/", "nothing"),
        ],
        &mut store,
    );
    assert_eq!(crawler.nodes().len(), 2);
    assert_eq!(edge_urls(&crawler).len(), 1);
}

#[test]
fn duplicate_occurrences_collapse() {
    let mut store: Vec<String> = Vec::new();
    let crawler = drive(
        "https://a.example/",
        &[
            ("https://a.example/", "https://b.example/ https://b.example/"),
            ("https://b.example/", "nothing"),
        ],
        &mut store,
    );
    assert_eq!(crawler.nodes().len(), 2);
    assert_eq!(edge_urls(&crawler).len(), 1);
}

#[test]
fn fetch_failure_leaves_dead_end_node() {
    // B's fetch fails: its node stays persisted with no outgoing edges and
    // the traversal completes.
    let mut store: Vec<String> = Vec::new();
    let crawler = drive(
        "https://a.example/",
        &[("https://a.example/", "https://b.example/")],
        &mut store,
    );
    assert_eq!(crawler.nodes().len(), 2);
    assert_eq!(edge_urls(&crawler).len(), 1);
}

#[test]
fn node_create_failure_aborts_branch() {
    let (mut crawler, action) = Crawler::new("https://a.example/").unwrap();
    assert!(matches!(action, Action::Probe { .. }));
    let a = crawler.step(&Event::Probed { found: false });
    assert!(matches!(a, Action::CreateNode { .. }));
    let a = crawler.step(&Event::NodeFailed);
    assert!(matches!(a, Action::Continue));
    let a = crawler.step(&Event::Start);
    assert!(matches!(a, Action::Finished));
    assert!(crawler.nodes().is_empty());
    assert!(crawler.edges().is_empty());
}

#[test]
fn edge_create_failure_aborts_branch() {
    // A is persisted and fetched; B's node is created, but the edge
    // A -> B fails: B is never fetched and the run still completes.
    let (mut crawler, _) = Crawler::new("https://a.example/").unwrap();
    let a = crawler.step(&Event::Probed { found: false });
    assert!(matches!(a, Action::CreateNode { .. }));
    let a = crawler.step(&Event::NodeCreated { record: Record { id: 0 } });
    assert!(matches!(a, Action::Fetch { .. }));
    let a = crawler.step(&Event::Fetched { body: "https://b.example/".to_string() });
    assert!(matches!(a, Action::Continue));
    let a = crawler.step(&Event::Start);
    assert!(matches!(a, Action::Probe { .. }));
    let a = crawler.step(&Event::Probed { found: false });
    assert!(matches!(a, Action::CreateNode { .. }));
    let a = crawler.step(&Event::NodeCreated { record: Record { id: 1 } });
    assert!(matches!(a, Action::CreateEdge { source: 0, target: 1 }));
    let a = crawler.step(&Event::EdgeFailed);
    assert!(matches!(a, Action::Continue));
    let a = crawler.step(&Event::Start);
    assert!(matches!(a, Action::Finished));
    assert_eq!(crawler.nodes().len(), 2);
    assert!(crawler.edges().is_empty());
}

#[test]
fn non_textual_page_is_not_expanded() {
    let (mut crawler, _) = Crawler::new("https://a.example/").unwrap();
    let _ = crawler.step(&Event::Probed { found: false });
    let a = crawler.step(&Event::NodeCreated { record: Record { id: 0 } });
    assert!(matches!(a, Action::Fetch { .. }));
    let a = crawler.step(&Event::NotTextual);
    assert!(matches!(a, Action::Continue));
    let a = crawler.step(&Event::Start);
    assert!(matches!(a, Action::Finished));
    assert_eq!(crawler.nodes().len(), 1);
}

#[test]
fn invalid_seed_is_startup_error() {
    assert!(Crawler::new("not a url").is_err());
    assert!(Crawler::new("/relative/only").is_err());
}
