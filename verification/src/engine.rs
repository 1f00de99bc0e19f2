//! The frontier-traversal engine.
//!
//! One `Crawler` value owns the whole traversal state: the set of canonical
//! URLs already claimed, the frontier of tasks still to examine, the one
//! store or network operation currently in flight, and the nodes and edges
//! persisted so far in this run. The engine itself performs no I/O: each
//! call of [`Crawler::step`] consumes the outcome of the previous operation
//! and answers with the next [`Action`] the caller must perform. The caller
//! owns nothing but that loop; every decision — deduplication, when a node
//! or an edge is persisted, which pages are fetched — is made and verified
//! here.
//!
//! The exact transition relation is the spec function [`step_spec`];
//! `Crawler::step` is proved to implement it, and the traversal laws in
//! [`crate::laws`] are proved of it.

use vstd::prelude::*;
use crate::model::{SiteURLNode, NodeV, Record, Relation};
use crate::canon::{canonicalize, canon_of, CrawlError};
use crate::extract::{extract_links, dedup_seq, raw_links_of};
use crate::text::{views_of, contains_string};

verus! {

/// A frontier entry: a raw link string to examine, and the store identifier
/// of the page it was discovered on, if any.
struct Task {
    parent: Option<u64>,
    raw: String,
}

/// Ghost image of a `Task`.
pub ghost struct TaskV {
    pub parent: Option<u64>,
    pub raw: Seq<char>,
}

impl View for Task {
    type V = TaskV;

    closed spec fn view(&self) -> TaskV {
        TaskV { parent: self.parent, raw: self.raw@ }
    }
}

/// The operation currently in flight, with what the engine must remember
/// to resume once its outcome arrives.
enum Pending {
    Idle,
    AwaitProbe { parent: Option<u64>, url: String },
    AwaitNode { parent: Option<u64>, url: String },
    AwaitEdge { source: u64, node: u64, url: String },
    AwaitCrossEdge { source: u64, node: u64 },
    AwaitFetch { node: u64, url: String },
}

/// Ghost image of a `Pending`.
pub ghost enum PendingV {
    Idle,
    AwaitProbe { parent: Option<u64>, url: Seq<char> },
    AwaitNode { parent: Option<u64>, url: Seq<char> },
    AwaitEdge { source: u64, node: u64, url: Seq<char> },
    AwaitCrossEdge { source: u64, node: u64 },
    AwaitFetch { node: u64, url: Seq<char> },
}

impl View for Pending {
    type V = PendingV;

    closed spec fn view(&self) -> PendingV {
        match self {
            Pending::Idle => PendingV::Idle,
            Pending::AwaitProbe { parent, url } => PendingV::AwaitProbe { parent: *parent, url: url@ },
            Pending::AwaitNode { parent, url } => PendingV::AwaitNode { parent: *parent, url: url@ },
            Pending::AwaitEdge { source, node, url } => PendingV::AwaitEdge { source: *source, node: *node, url: url@ },
            Pending::AwaitCrossEdge { source, node } => PendingV::AwaitCrossEdge { source: *source, node: *node },
            Pending::AwaitFetch { node, url } => PendingV::AwaitFetch { node: *node, url: url@ },
        }
    }
}

/// What the engine asks its caller to do next.
pub enum Action {
    /// Nothing external: call `step` again with `Event::Start`.
    Continue,
    /// Ask the store whether a node with this canonical URL already exists.
    Probe { url: String },
    /// Create a node for this canonical URL; answer with its identifier.
    CreateNode { url: String },
    /// Create a directed edge between two persisted nodes.
    CreateEdge { source: u64, target: u64 },
    /// Issue a GET request for this canonical URL.
    Fetch { url: String },
    /// The frontier is exhausted: the traversal is done.
    Finished,
}

/// Ghost image of an `Action`.
pub ghost enum ActionV {
    Continue,
    Probe { url: Seq<char> },
    CreateNode { url: Seq<char> },
    CreateEdge { source: u64, target: u64 },
    Fetch { url: Seq<char> },
    Finished,
}

impl View for Action {
    type V = ActionV;

    open spec fn view(&self) -> ActionV {
        match self {
            Action::Continue => ActionV::Continue,
            Action::Probe { url } => ActionV::Probe { url: url@ },
            Action::CreateNode { url } => ActionV::CreateNode { url: url@ },
            Action::CreateEdge { source, target } => ActionV::CreateEdge { source: *source, target: *target },
            Action::Fetch { url } => ActionV::Fetch { url: url@ },
            Action::Finished => ActionV::Finished,
        }
    }
}

/// The outcome of the previous action, handed back to the engine.
pub enum Event {
    /// There was no previous action (or it was `Continue`).
    Start,
    /// Outcome of `Probe`: whether the store already holds the URL.
    Probed { found: bool },
    /// Outcome of `CreateNode`: the row with the generated identifier.
    NodeCreated { record: Record },
    /// Outcome of `CreateNode`: the store failed; the branch is abandoned.
    NodeFailed,
    /// Outcome of `CreateEdge`: the edge was persisted.
    EdgeCreated,
    /// Outcome of `CreateEdge`: the store failed; the branch is abandoned.
    EdgeFailed,
    /// Outcome of `Fetch`: a textual body, to be scanned for links.
    Fetched { body: String },
    /// Outcome of `Fetch`: the declared content type was not textual.
    NotTextual,
    /// Outcome of `Fetch`: network failure, timeout or error status.
    FetchFailed,
}

/// Ghost image of an `Event`.
pub ghost enum EventV {
    Start,
    Probed { found: bool },
    NodeCreated { id: u64 },
    NodeFailed,
    EdgeCreated,
    EdgeFailed,
    Fetched { body: Seq<char> },
    NotTextual,
    FetchFailed,
}

impl View for Event {
    type V = EventV;

    open spec fn view(&self) -> EventV {
        match self {
            Event::Start => EventV::Start,
            Event::Probed { found } => EventV::Probed { found: *found },
            Event::NodeCreated { record } => EventV::NodeCreated { id: record.id },
            Event::NodeFailed => EventV::NodeFailed,
            Event::EdgeCreated => EventV::EdgeCreated,
            Event::EdgeFailed => EventV::EdgeFailed,
            Event::Fetched { body } => EventV::Fetched { body: body@ },
            Event::NotTextual => EventV::NotTextual,
            Event::FetchFailed => EventV::FetchFailed,
        }
    }
}

/// Ghost image of a whole `Crawler`.
#[verifier::ext_equal]
pub ghost struct CrawlerV {
    /// Canonical URLs this run has taken responsibility for, in claim order.
    pub claimed: Seq<Seq<char>>,
    /// Frontier of tasks still to examine.
    pub frontier: Seq<TaskV>,
    /// The operation currently in flight.
    pub pending: PendingV,
    /// Nodes persisted in this run, in creation order.
    pub nodes: Seq<NodeV>,
    /// Edges persisted in this run, in creation order.
    pub edges: Seq<Relation>,
}

/// No two elements of `s` are equal.
pub open spec fn distinct_seqs(s: Seq<Seq<char>>) -> bool {
    forall|i: int, j: int| 0 <= i < j < s.len() ==> s[i] != s[j]
}

impl CrawlerV {
    /// The canonical URLs of the persisted nodes, in creation order.
    pub open spec fn node_urls(self) -> Seq<Seq<char>> {
        self.nodes.map_values(|n: NodeV| n.url)
    }

    /// Some persisted node carries the identifier `id`.
    pub open spec fn has_node_id(self, id: u64) -> bool {
        exists|i: int| 0 <= i < self.nodes.len() && (#[trigger] self.nodes[i]).id == Some(id)
    }

    /// The canonical URL `u` has been claimed by this run.
    pub open spec fn is_claimed(self, u: Seq<char>) -> bool {
        self.claimed.contains(u)
    }

    /// The identifier of the node this run persisted for the canonical URL
    /// `u`, if there is one.
    pub open spec fn node_id_of(self, u: Seq<char>) -> Option<u64> {
        if exists|i: int| 0 <= i < self.nodes.len() && (#[trigger] self.nodes[i]).url == u {
            let i = choose|i: int| 0 <= i < self.nodes.len() && (#[trigger] self.nodes[i]).url == u;
            self.nodes[i].id
        } else {
            None
        }
    }

    /// A parent reference, where present, names a persisted node.
    pub open spec fn parent_ok(self, p: Option<u64>) -> bool {
        p matches Some(id) ==> self.has_node_id(id)
    }

    /// The in-flight operation is consistent with the rest of the state.
    pub open spec fn pending_ok(self) -> bool {
        match self.pending {
            PendingV::Idle => true,
            PendingV::AwaitProbe { parent, url } =>
                self.parent_ok(parent) && self.is_claimed(url) && !self.node_urls().contains(url),
            PendingV::AwaitNode { parent, url } =>
                self.parent_ok(parent) && self.is_claimed(url) && !self.node_urls().contains(url),
            PendingV::AwaitEdge { source, node, url } =>
                self.has_node_id(source) && self.has_node_id(node) && self.is_claimed(url),
            PendingV::AwaitCrossEdge { source, node } =>
                self.has_node_id(source) && self.has_node_id(node),
            PendingV::AwaitFetch { node, url } =>
                self.has_node_id(node) && self.is_claimed(url),
        }
    }

    /// Well-formedness of the traversal state. Established by
    /// [`Crawler::new`] and preserved by every step; carries the dedup
    /// invariant: no two claims, and no two persisted nodes, share a
    /// canonical URL.
    pub open spec fn wf(self) -> bool {
        &&& distinct_seqs(self.claimed)
        &&& distinct_seqs(self.node_urls())
        &&& forall|i: int| 0 <= i < self.nodes.len() ==>
                (#[trigger] self.nodes[i]).id is Some && self.claimed.contains(self.nodes[i].url)
        &&& forall|i: int| 0 <= i < self.frontier.len() ==>
                self.parent_ok((#[trigger] self.frontier[i]).parent)
        &&& forall|i: int| 0 <= i < self.edges.len() ==>
                self.has_node_id((#[trigger] self.edges[i]).a_in) && self.has_node_id(self.edges[i].out)
        &&& self.pending_ok()
    }
}

/// `c` with nothing in flight.
pub open spec fn idle(c: CrawlerV) -> CrawlerV {
    CrawlerV { pending: PendingV::Idle, ..c }
}

/// The frontier tasks spawned for the links of a fetched page.
pub open spec fn child_tasks(node: u64, links: Seq<Seq<char>>) -> Seq<TaskV> {
    links.map_values(|l: Seq<char>| TaskV { parent: Some(node), raw: l })
}

/// The event kinds the engine can consume in its current state; any other
/// event leaves the state unchanged.
pub open spec fn event_fits(p: PendingV, ev: EventV) -> bool {
    match p {
        PendingV::Idle => ev is Start,
        PendingV::AwaitProbe { .. } => ev is Probed,
        PendingV::AwaitNode { .. } => ev is NodeCreated || ev is NodeFailed,
        PendingV::AwaitEdge { .. } => ev is EdgeCreated || ev is EdgeFailed,
        PendingV::AwaitCrossEdge { .. } => ev is EdgeCreated || ev is EdgeFailed,
        PendingV::AwaitFetch { .. } => ev is Fetched || ev is NotTextual || ev is FetchFailed,
    }
}

/// One idle transition: take the next frontier task, canonicalize it, drop
/// it when malformed, claim it and ask the store whether it is already
/// persisted when it is new; a URL already claimed is not re-expanded, but
/// when this run has persisted a node for it and the task has a parent, a
/// further edge parent → node is recorded, so an already-visited page still
/// receives edges from every page that links to it.
pub open spec fn start_step(c: CrawlerV) -> (CrawlerV, ActionV) {
    if c.frontier.len() == 0 {
        (c, ActionV::Finished)
    } else {
        let t = c.frontier.last();
        let c1 = CrawlerV { frontier: c.frontier.drop_last(), ..c };
        match canon_of(t.raw) {
            None => (c1, ActionV::Continue),
            Some(u) => if c1.claimed.contains(u) {
                match (t.parent, c1.node_id_of(u)) {
                    (Some(p), Some(id)) => (
                        CrawlerV { pending: PendingV::AwaitCrossEdge { source: p, node: id }, ..c1 },
                        ActionV::CreateEdge { source: p, target: id },
                    ),
                    _ => (c1, ActionV::Continue),
                }
            } else {
                (
                    CrawlerV {
                        claimed: c1.claimed.push(u),
                        pending: PendingV::AwaitProbe { parent: t.parent, url: u },
                        ..c1
                    },
                    ActionV::Probe { url: u },
                )
            },
        }
    }
}

/// The transition relation of the traversal engine: from a state and the
/// outcome of the previous action to the next state and the next action.
/// An event that does not fit the in-flight operation changes nothing.
pub open spec fn step_spec(c: CrawlerV, ev: EventV) -> (CrawlerV, ActionV) {
    match c.pending {
        PendingV::Idle => match ev {
            EventV::Start => start_step(c),
            _ => (c, ActionV::Continue),
        },
        PendingV::AwaitProbe { parent, url } => match ev {
            EventV::Probed { found } => if found {
                (idle(c), ActionV::Continue)
            } else {
                (
                    CrawlerV { pending: PendingV::AwaitNode { parent, url }, ..c },
                    ActionV::CreateNode { url },
                )
            },
            _ => (c, ActionV::Continue),
        },
        PendingV::AwaitNode { parent, url } => match ev {
            EventV::NodeCreated { id } => {
                let c1 = CrawlerV { nodes: c.nodes.push(NodeV { url, id: Some(id) }), ..c };
                match parent {
                    Some(p) => (
                        CrawlerV { pending: PendingV::AwaitEdge { source: p, node: id, url }, ..c1 },
                        ActionV::CreateEdge { source: p, target: id },
                    ),
                    None => (
                        CrawlerV { pending: PendingV::AwaitFetch { node: id, url }, ..c1 },
                        ActionV::Fetch { url },
                    ),
                }
            },
            EventV::NodeFailed => (idle(c), ActionV::Continue),
            _ => (c, ActionV::Continue),
        },
        PendingV::AwaitEdge { source, node, url } => match ev {
            EventV::EdgeCreated => (
                CrawlerV {
                    edges: c.edges.push(Relation { a_in: source, out: node }),
                    pending: PendingV::AwaitFetch { node, url },
                    ..c
                },
                ActionV::Fetch { url },
            ),
            EventV::EdgeFailed => (idle(c), ActionV::Continue),
            _ => (c, ActionV::Continue),
        },
        PendingV::AwaitCrossEdge { source, node } => match ev {
            EventV::EdgeCreated => (
                CrawlerV {
                    edges: c.edges.push(Relation { a_in: source, out: node }),
                    pending: PendingV::Idle,
                    ..c
                },
                ActionV::Continue,
            ),
            EventV::EdgeFailed => (idle(c), ActionV::Continue),
            _ => (c, ActionV::Continue),
        },
        PendingV::AwaitFetch { node, url } => match ev {
            EventV::Fetched { body } => (
                CrawlerV {
                    frontier: c.frontier + child_tasks(node, dedup_seq(raw_links_of(body))),
                    pending: PendingV::Idle,
                    ..c
                },
                ActionV::Continue,
            ),
            EventV::NotTextual => (idle(c), ActionV::Continue),
            EventV::FetchFailed => (idle(c), ActionV::Continue),
            _ => (c, ActionV::Continue),
        },
    }
}

/// The state a traversal starts from: the canonical seed URL is claimed
/// and its existence probe is in flight.
pub open spec fn init_view(u: Seq<char>) -> CrawlerV {
    CrawlerV {
        claimed: seq![u],
        frontier: Seq::empty(),
        pending: PendingV::AwaitProbe { parent: None, url: u },
        nodes: Seq::empty(),
        edges: Seq::empty(),
    }
}

/// Every step preserves well-formedness — in particular the dedup
/// invariant on claims and on persisted node URLs.
pub proof fn lemma_step_preserves_wf(c: CrawlerV, ev: EventV)
    requires
        c.wf(),
    ensures
        step_spec(c, ev).0.wf(),
{
    let c2 = step_spec(c, ev).0;
    match c.pending {
        PendingV::Idle => {
            if ev is Start {
                lemma_start_preserves_wf(c);
            }
        },
        PendingV::AwaitProbe { parent, url } => {},
        PendingV::AwaitNode { parent, url } => {
            if let EventV::NodeCreated { id } = ev {
                let nv = NodeV { url, id: Some(id) };
                assert forall|p: u64| c.has_node_id(p) implies c2.has_node_id(p) by {
                    let i = choose|i: int| 0 <= i < c.nodes.len() && (#[trigger] c.nodes[i]).id == Some(p);
                    assert(c2.nodes[i].id == Some(p));
                };
                assert(c2.nodes[c.nodes.len() as int] == nv);
                assert(c2.has_node_id(id));
                assert(c2.node_urls() =~= c.node_urls().push(url));
                assert(distinct_seqs(c2.node_urls()));
                assert(c2.wf());
            }
        },
        PendingV::AwaitEdge { source, node, url } => {
            if ev is EdgeCreated {
                assert(c2.edges.last() == (Relation { a_in: source, out: node }));
                assert(c2.wf());
            }
        },
        PendingV::AwaitCrossEdge { source, node } => {
            if ev is EdgeCreated {
                assert(c2.edges.last() == (Relation { a_in: source, out: node }));
                assert(c2.wf());
            }
        },
        PendingV::AwaitFetch { node, url } => {
            if let EventV::Fetched { body } = ev {
                let ts = child_tasks(node, dedup_seq(raw_links_of(body)));
                assert forall|i: int| 0 <= i < c2.frontier.len() implies
                    c2.parent_ok((#[trigger] c2.frontier[i]).parent) by {
                    if i < c.frontier.len() {
                        assert(c2.frontier[i] == c.frontier[i]);
                    } else {
                        assert(c2.frontier[i] == ts[i - c.frontier.len()]);
                        assert(c2.frontier[i].parent == Some(node));
                    }
                };
                assert(c2.wf());
            }
        },
    }
}

/// The idle transition preserves well-formedness.
proof fn lemma_start_preserves_wf(c: CrawlerV)
    requires
        c.wf(),
        c.pending is Idle,
    ensures
        start_step(c).0.wf(),
{
    let c2 = start_step(c).0;
    if c.frontier.len() > 0 {
        let t = c.frontier.last();
        assert(c.parent_ok(t.parent));
        if let Some(u) = canon_of(t.raw) {
            if c.claimed.contains(u) {
                if let Some(p) = t.parent {
                    if let Some(id) = c.node_id_of(u) {
                        let i = choose|i: int| 0 <= i < c.nodes.len()
                            && (#[trigger] c.nodes[i]).url == u;
                        assert(c2.nodes[i].id == Some(id));
                        assert(c2.has_node_id(id));
                        assert(c2.has_node_id(p)) by {
                            let k = choose|k: int| 0 <= k < c.nodes.len()
                                && (#[trigger] c.nodes[k]).id == Some(p);
                            assert(c2.nodes[k].id == Some(p));
                        };
                        assert(c2.wf());
                    }
                }
            } else {
                assert(c2.claimed =~= c.claimed.push(u));
                assert(distinct_seqs(c2.claimed)) by {
                    assert forall|i: int, j: int| 0 <= i < j < c2.claimed.len() implies
                        c2.claimed[i] != c2.claimed[j] by {
                        if j == c.claimed.len() {
                            assert(c2.claimed[i] == c.claimed[i]);
                            assert(!c.claimed.contains(u));
                        }
                    };
                };
                assert(c2.is_claimed(u)) by {
                    assert(c2.claimed[c.claimed.len() as int] == u);
                };
                assert(!c2.node_urls().contains(u)) by {
                    if c2.node_urls().contains(u) {
                        let i = choose|i: int| 0 <= i < c2.node_urls().len() && c2.node_urls()[i] == u;
                        assert(c.nodes[i].url == u);
                        assert(c.claimed.contains(u));
                    }
                };
                assert forall|i: int| 0 <= i < c2.nodes.len() implies
                    (#[trigger] c2.nodes[i]).id is Some && c2.claimed.contains(c2.nodes[i].url) by {
                    assert(c.claimed.contains(c.nodes[i].url));
                    let k = choose|k: int| 0 <= k < c.claimed.len() && c.claimed[k] == c.nodes[i].url;
                    assert(c2.claimed[k] == c.nodes[i].url);
                };
                assert(c2.wf());
            }
        }
    }
}

/// The traversal engine. Its state is reachable only through
/// [`Crawler::new`] and [`Crawler::step`], which keep it well-formed.
pub struct Crawler {
    claimed: Vec<String>,
    frontier: Vec<Task>,
    pending: Pending,
    nodes: Vec<SiteURLNode>,
    edges: Vec<Relation>,
}

impl View for Crawler {
    type V = CrawlerV;

    closed spec fn view(&self) -> CrawlerV {
        CrawlerV {
            claimed: views_of(self.claimed@),
            frontier: self.frontier@.map_values(|t: Task| t@),
            pending: self.pending@,
            nodes: self.nodes@.map_values(|n: SiteURLNode| n@),
            edges: self.edges@,
        }
    }
}

impl Crawler {
    /// Start a traversal from a seed URL. The seed is canonicalized; a seed
    /// that does not parse as an absolute URL is a startup failure. On
    /// success the returned action asks the caller to probe the store for
    /// the canonical seed.
    pub fn new(seed: &str) -> (r: Result<(Crawler, Action), CrawlError>)
        ensures
            (r matches Ok(p) ==> canon_of(seed@) matches Some(u)
                && p.0@ == init_view(u)
                && p.1@ == (ActionV::Probe { url: u })
                && p.0@.wf()),
            r is Err ==> canon_of(seed@) is None
                && r == Err::<(Crawler, Action), CrawlError>(CrawlError::InvalidUrl),
    {
        match canonicalize(seed) {
            Err(e) => Err(e),
            Ok(u) => {
                let url_for_pending = u.clone();
                let url_for_action = u.clone();
                let c = Crawler {
                    claimed: vec![u],
                    frontier: Vec::new(),
                    pending: Pending::AwaitProbe { parent: None, url: url_for_pending },
                    nodes: Vec::new(),
                    edges: Vec::new(),
                };
                proof {
                    let uv = canon_of(seed@)->Some_0;
                    assert(c@ =~~= init_view(uv));
                    assert(init_view(uv).claimed[0] == uv);
                    assert(init_view(uv).wf());
                }
                Ok((c, Action::Probe { url: url_for_action }))
            },
        }
    }

    /// Look up, among the nodes persisted in this run, the identifier of
    /// the one carrying the canonical URL `u`.
    fn find_node_id(&self, u: &String) -> (r: Option<u64>)
        requires
            distinct_seqs(self@.node_urls()),
            forall|i: int| 0 <= i < self@.nodes.len() ==> (#[trigger] self@.nodes[i]).id is Some,
        ensures
            r == self@.node_id_of(u@),
    {
        let mut i: usize = 0;
        while i < self.nodes.len()
            invariant
                i <= self.nodes.len(),
                distinct_seqs(self@.node_urls()),
                forall|j: int| 0 <= j < self@.nodes.len() ==> (#[trigger] self@.nodes[j]).id is Some,
                forall|j: int| 0 <= j < i ==> (#[trigger] self@.nodes[j]).url != u@,
            decreases self.nodes.len() - i,
        {
            if self.nodes[i].url == *u {
                proof {
                    let iv = i as int;
                    assert(self@.nodes[iv].url == u@);
                    assert(exists|j: int| 0 <= j < self@.nodes.len()
                        && (#[trigger] self@.nodes[j]).url == u@);
                    let j = choose|j: int| 0 <= j < self@.nodes.len()
                        && (#[trigger] self@.nodes[j]).url == u@;
                    assert(self@.node_urls().len() == self@.nodes.len());
                    assert(self@.node_urls()[j] == u@);
                    assert(self@.node_urls()[iv] == u@);
                    assert(j == iv) by {
                        if j < iv {
                            assert(self@.node_urls()[j] != self@.node_urls()[iv]);
                        }
                        if iv < j {
                            assert(self@.node_urls()[iv] != self@.node_urls()[j]);
                        }
                    };
                    assert(self@.node_id_of(u@) == self@.nodes[iv].id);
                }
                return self.nodes[i].id;
            }
            i += 1;
        }
        None
    }

    /// Consume the outcome of the previous action and answer with the next
    /// one. Implements [`step_spec`] exactly; the state stays well-formed.
    pub fn step(&mut self, ev: &Event) -> (a: Action)
        requires
            old(self)@.wf(),
        ensures
            final(self)@ == step_spec(old(self)@, ev@).0,
            a@ == step_spec(old(self)@, ev@).1,
            final(self)@.wf(),
    {
        let ghost c0 = self@;
        let a = match &self.pending {
            Pending::Idle => match ev {
                Event::Start => {
                    if self.frontier.len() == 0 {
                        Action::Finished
                    } else {
                        let t = self.frontier.pop().unwrap();
                        proof {
                            assert(self@.frontier =~= c0.frontier.drop_last());
                            assert(t@ == c0.frontier.last());
                            assert(self@ =~~= (CrawlerV {
                                frontier: c0.frontier.drop_last(),
                                ..c0
                            }));
                        }
                        match canonicalize(t.raw.as_str()) {
                            Err(_) => Action::Continue,
                            Ok(u) => {
                                if contains_string(&self.claimed, &u) {
                                    match t.parent {
                                        Some(p) => match self.find_node_id(&u) {
                                            Some(id) => {
                                                self.pending = Pending::AwaitCrossEdge {
                                                    source: p,
                                                    node: id,
                                                };
                                                Action::CreateEdge { source: p, target: id }
                                            },
                                            None => Action::Continue,
                                        },
                                        None => Action::Continue,
                                    }
                                } else {
                                    let url_for_pending = u.clone();
                                    let url_for_action = u.clone();
                                    self.claimed.push(u);
                                    self.pending = Pending::AwaitProbe {
                                        parent: t.parent,
                                        url: url_for_pending,
                                    };
                                    Action::Probe { url: url_for_action }
                                }
                            },
                        }
                    }
                },
                _ => Action::Continue,
            },
            Pending::AwaitProbe { parent, url } => match ev {
                Event::Probed { found } => {
                    if *found {
                        self.pending = Pending::Idle;
                        Action::Continue
                    } else {
                        let p = *parent;
                        let u = url.clone();
                        let url_for_action = url.clone();
                        self.pending = Pending::AwaitNode { parent: p, url: u };
                        Action::CreateNode { url: url_for_action }
                    }
                },
                _ => Action::Continue,
            },
            Pending::AwaitNode { parent, url } => match ev {
                Event::NodeCreated { record } => {
                    let p = *parent;
                    let id = record.id;
                    let mut node = SiteURLNode::new(url.clone());
                    node.id = Some(id);
                    let u = url.clone();
                    self.nodes.push(node);
                    match p {
                        Some(source) => {
                            let url_kept = u.clone();
                            self.pending = Pending::AwaitEdge { source, node: id, url: url_kept };
                            Action::CreateEdge { source, target: id }
                        },
                        None => {
                            let url_for_action = u.clone();
                            self.pending = Pending::AwaitFetch { node: id, url: u };
                            Action::Fetch { url: url_for_action }
                        },
                    }
                },
                Event::NodeFailed => {
                    self.pending = Pending::Idle;
                    Action::Continue
                },
                _ => Action::Continue,
            },
            Pending::AwaitEdge { source, node, url } => match ev {
                Event::EdgeCreated => {
                    let s = *source;
                    let n = *node;
                    let u = url.clone();
                    let url_for_action = u.clone();
                    self.edges.push(Relation { a_in: s, out: n });
                    self.pending = Pending::AwaitFetch { node: n, url: u };
                    Action::Fetch { url: url_for_action }
                },
                Event::EdgeFailed => {
                    self.pending = Pending::Idle;
                    Action::Continue
                },
                _ => Action::Continue,
            },
            Pending::AwaitCrossEdge { source, node } => match ev {
                Event::EdgeCreated => {
                    let s = *source;
                    let n = *node;
                    self.edges.push(Relation { a_in: s, out: n });
                    self.pending = Pending::Idle;
                    Action::Continue
                },
                Event::EdgeFailed => {
                    self.pending = Pending::Idle;
                    Action::Continue
                },
                _ => Action::Continue,
            },
            Pending::AwaitFetch { node, url } => match ev {
                Event::Fetched { body } => {
                    let nd = *node;
                    let links = extract_links(body.as_str());
                    let ghost links_v = dedup_seq(raw_links_of(body@));
                    let ghost base = self@.frontier;
                    let mut k: usize = 0;
                    while k < links.len()
                        invariant
                            k <= links.len(),
                            views_of(links@) == links_v,
                            self.frontier@.map_values(|t: Task| t@) =~=
                                base + child_tasks(nd, links_v.take(k as int)),
                            views_of(self.claimed@) == c0.claimed,
                            self.pending@ == c0.pending,
                            self.nodes@.map_values(|n: SiteURLNode| n@) == c0.nodes,
                            self.edges@ == c0.edges,
                        decreases links.len() - k,
                    {
                        let raw = links[k].clone();
                        let ghost rawv = raw@;
                        self.frontier.push(Task { parent: Some(nd), raw });
                        proof {
                            let tv = TaskV { parent: Some(nd), raw: rawv };
                            let fold = base + child_tasks(nd, links_v.take(k as int));
                            assert(views_of(links@)[k as int] == links_v[k as int]);
                            assert(rawv == links_v[k as int]);
                            assert(self.frontier@.map_values(|t: Task| t@) =~= fold.push(tv));
                            assert(child_tasks(nd, links_v.take(k + 1)) =~=
                                child_tasks(nd, links_v.take(k as int)).push(tv));
                            assert(fold.push(tv) =~= base + child_tasks(nd, links_v.take(k + 1)));
                        }
                        k += 1;
                    }
                    proof {
                        assert(links_v.take(links@.len() as int) =~= links_v);
                    }
                    self.pending = Pending::Idle;
                    Action::Continue
                },
                Event::NotTextual => {
                    self.pending = Pending::Idle;
                    Action::Continue
                },
                Event::FetchFailed => {
                    self.pending = Pending::Idle;
                    Action::Continue
                },
                _ => Action::Continue,
            },
        };
        proof {
            assert(self@ =~~= step_spec(c0, ev@).0);
            assert(a@ == step_spec(c0, ev@).1);
            lemma_step_preserves_wf(c0, ev@);
        }
        a
    }

    /// The nodes persisted in this run, in creation order.
    pub fn nodes(&self) -> (r: &Vec<SiteURLNode>)
        ensures
            r@.map_values(|n: SiteURLNode| n@) == self@.nodes,
    {
        &self.nodes
    }

    /// The edges persisted in this run, in creation order.
    pub fn edges(&self) -> (r: &Vec<Relation>)
        ensures
            r@ == self@.edges,
    {
        &self.edges
    }
}

} // verus!
