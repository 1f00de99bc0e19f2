//! Laws of the traversal engine, proved of the transition relation
//! [`step_spec`]: deduplication, single admission of every URL, progress,
//! and idempotence of a re-run against an already populated store.

use vstd::prelude::*;
use crate::engine::{
    CrawlerV, EventV, ActionV, PendingV, step_spec, event_fits, distinct_seqs,
    lemma_step_preserves_wf,
};
use crate::extract::{dedup_seq, raw_links_of};

verus! {

/// The state after the engine has consumed the events of `evs` in order,
/// starting from `c`.
pub open spec fn run_from(c: CrawlerV, evs: Seq<EventV>) -> CrawlerV
    decreases evs.len(),
{
    if evs.len() == 0 {
        c
    } else {
        run_from(step_spec(c, evs[0]).0, evs.drop_first())
    }
}

/// The actions the engine answers with along a run.
pub open spec fn actions_of(c: CrawlerV, evs: Seq<EventV>) -> Seq<ActionV>
    decreases evs.len(),
{
    if evs.len() == 0 {
        Seq::empty()
    } else {
        seq![step_spec(c, evs[0]).1] + actions_of(step_spec(c, evs[0]).0, evs.drop_first())
    }
}

/// Well-formedness holds along every run.
pub proof fn lemma_run_preserves_wf(c: CrawlerV, evs: Seq<EventV>)
    requires
        c.wf(),
    ensures
        run_from(c, evs).wf(),
    decreases evs.len(),
{
    if evs.len() > 0 {
        lemma_step_preserves_wf(c, evs[0]);
        lemma_run_preserves_wf(step_spec(c, evs[0]).0, evs.drop_first());
    }
}

/// Dedup law: starting from any well-formed state — in particular the one
/// `Crawler::new` builds — however a run unfolds, the node collection never
/// holds two nodes with the same canonical URL.
pub proof fn lemma_dedup_invariant(c: CrawlerV, evs: Seq<EventV>)
    requires
        c.wf(),
    ensures
        distinct_seqs(run_from(c, evs).node_urls()),
{
    lemma_run_preserves_wf(c, evs);
}

/// A URL once claimed stays claimed: no step ever withdraws a claim.
pub proof fn lemma_step_keeps_claims(c: CrawlerV, ev: EventV, u: Seq<char>)
    requires
        c.is_claimed(u),
    ensures
        step_spec(c, ev).0.is_claimed(u),
{
    let c2 = step_spec(c, ev).0;
    let i = choose|i: int| 0 <= i < c.claimed.len() && c.claimed[i] == u;
    assert(c2.claimed[i] == u);
    assert(c2.is_claimed(u));
}

/// A probe is asked only for a URL that was not yet claimed, and claims it:
/// the dedup short-circuit admits every canonical URL at most once.
pub proof fn lemma_probe_is_fresh(c: CrawlerV, ev: EventV, u: Seq<char>)
    requires
        step_spec(c, ev).1 == (ActionV::Probe { url: u }),
    ensures
        !c.is_claimed(u),
        step_spec(c, ev).0.is_claimed(u),
{
    let c2 = step_spec(c, ev).0;
    assert(c2.claimed.last() == u);
    assert(c2.is_claimed(u));
}

/// Once a URL is claimed, no later step of the run ever probes it again:
/// a visited page is never re-expanded, which is what makes the traversal
/// terminate on cyclic link graphs.
pub proof fn lemma_claimed_never_reprobed(c: CrawlerV, evs: Seq<EventV>, u: Seq<char>)
    requires
        c.is_claimed(u),
    ensures
        forall|k: int| 0 <= k < actions_of(c, evs).len() ==>
            actions_of(c, evs)[k] != (ActionV::Probe { url: u }),
    decreases evs.len(),
{
    if evs.len() > 0 {
        let c1 = step_spec(c, evs[0]).0;
        let a0 = step_spec(c, evs[0]).1;
        if a0 == (ActionV::Probe { url: u }) {
            lemma_probe_is_fresh(c, evs[0], u);
        }
        lemma_step_keeps_claims(c, evs[0], u);
        lemma_claimed_never_reprobed(c1, evs.drop_first(), u);
        assert forall|k: int| 0 <= k < actions_of(c, evs).len() implies
            actions_of(c, evs)[k] != (ActionV::Probe { url: u }) by {
            if k > 0 {
                assert(actions_of(c, evs)[k] == actions_of(c1, evs.drop_first())[k - 1]);
            }
        };
    }
}

/// Single admission: one run never asks two probes for the same canonical
/// URL — every URL reachable along several paths is examined once.
pub proof fn lemma_probe_at_most_once(
    c: CrawlerV,
    evs: Seq<EventV>,
    i: int,
    j: int,
    u: Seq<char>,
    w: Seq<char>,
)
    requires
        0 <= i < j < actions_of(c, evs).len(),
        actions_of(c, evs)[i] == (ActionV::Probe { url: u }),
        actions_of(c, evs)[j] == (ActionV::Probe { url: w }),
    ensures
        u != w,
    decreases evs.len(),
{
    let c1 = step_spec(c, evs[0]).0;
    let rest = evs.drop_first();
    assert(actions_of(c, evs)[i] == if i == 0 {
        step_spec(c, evs[0]).1
    } else {
        actions_of(c1, rest)[i - 1]
    });
    assert(actions_of(c, evs)[j] == actions_of(c1, rest)[j - 1]);
    if i == 0 {
        lemma_probe_is_fresh(c, evs[0], u);
        lemma_claimed_never_reprobed(c1, rest, u);
    } else {
        lemma_probe_at_most_once(c1, rest, i - 1, j - 1, u, w);
    }
}

/// `s2` extends `s1` without touching what was already there.
pub open spec fn extends<A>(s2: Seq<A>, s1: Seq<A>) -> bool {
    s1.len() <= s2.len() && forall|i: int| 0 <= i < s1.len() ==> s2[i] == s1[i]
}

/// One step only appends: no claim is withdrawn and no persisted node or
/// edge is ever mutated or dropped.
pub proof fn lemma_step_appends(c: CrawlerV, ev: EventV)
    ensures
        extends(step_spec(c, ev).0.claimed, c.claimed),
        extends(step_spec(c, ev).0.nodes, c.nodes),
        extends(step_spec(c, ev).0.edges, c.edges),
{
}

/// Append-only persistence along whole runs: a node or edge once
/// persisted, and a URL once claimed, stays exactly as it was.
pub proof fn lemma_run_appends(c: CrawlerV, evs: Seq<EventV>)
    ensures
        extends(run_from(c, evs).claimed, c.claimed),
        extends(run_from(c, evs).nodes, c.nodes),
        extends(run_from(c, evs).edges, c.edges),
    decreases evs.len(),
{
    if evs.len() > 0 {
        lemma_step_appends(c, evs[0]);
        lemma_run_appends(step_spec(c, evs[0]).0, evs.drop_first());
    }
}

/// Every `Probed` event of `evs` reports the URL as already stored.
pub open spec fn probes_find_existing(evs: Seq<EventV>) -> bool {
    forall|i: int| 0 <= i < evs.len() ==>
        ((#[trigger] evs[i]) matches EventV::Probed { found } ==> found)
}

/// Idempotent re-run: starting a fresh run — no node persisted yet — in
/// which every probe finds its URL already persisted, as when the
/// traversal runs again over a store populated by an earlier run, the
/// engine creates no node and no edge.
pub proof fn lemma_rerun_creates_nothing(c: CrawlerV, evs: Seq<EventV>)
    requires
        c.pending is Idle || c.pending is AwaitProbe,
        c.nodes.len() == 0,
        probes_find_existing(evs),
    ensures
        run_from(c, evs).nodes == c.nodes,
        run_from(c, evs).edges == c.edges,
        run_from(c, evs).pending is Idle || run_from(c, evs).pending is AwaitProbe,
    decreases evs.len(),
{
    if evs.len() > 0 {
        let c1 = step_spec(c, evs[0]).0;
        assert((#[trigger] evs[0]) matches EventV::Probed { found } ==> found);
        assert(c1.nodes == c.nodes);
        assert(c1.edges == c.edges);
        assert(c1.pending is Idle || c1.pending is AwaitProbe);
        assert forall|k: int| 0 <= k < evs.drop_first().len() implies
            ((#[trigger] evs.drop_first()[k]) matches EventV::Probed { found } ==> found) by {
            assert(evs.drop_first()[k] == evs[k + 1]);
        };
        lemma_rerun_creates_nothing(c1, evs.drop_first());
    }
}

/// How many frontier tasks an event spawns: the deduplicated links of a
/// fetched body, else none.
pub open spec fn spawned(ev: EventV) -> nat {
    match ev {
        EventV::Fetched { body } => dedup_seq(raw_links_of(body)).len(),
        _ => 0,
    }
}

/// The remaining work in a state: five pending operations per frontier
/// task, plus what is left of the task in flight.
pub open spec fn measure(c: CrawlerV) -> nat {
    5 * c.frontier.len() + match c.pending {
        PendingV::Idle => 0nat,
        PendingV::AwaitProbe { .. } => 4nat,
        PendingV::AwaitNode { .. } => 3nat,
        PendingV::AwaitEdge { .. } => 2nat,
        PendingV::AwaitCrossEdge { .. } => 1nat,
        PendingV::AwaitFetch { .. } => 1nat,
    }
}

/// Progress: a fitting step either reports the traversal finished — and
/// then the state is final — or strictly shrinks the measure, except for
/// the tasks a textual fetch spawns. A URL is probed, hence fetched, at
/// most once per run (`lemma_probe_at_most_once`), so over a finite link
/// graph only finitely many tasks are ever spawned and the measure must
/// reach zero: the traversal terminates.
pub proof fn lemma_step_progress(c: CrawlerV, ev: EventV)
    requires
        event_fits(c.pending, ev),
    ensures
        step_spec(c, ev).1 is Finished ==> step_spec(c, ev).0 == c && measure(c) == 0,
        !(step_spec(c, ev).1 is Finished) ==>
            measure(step_spec(c, ev).0) + 1 <= measure(c) + 5 * spawned(ev),
{
}

/// A finished traversal stays finished: once the engine has answered
/// `Finished`, every further `Start` leaves the state untouched and is
/// answered with `Finished` again.
pub proof fn lemma_finished_is_stable(c: CrawlerV)
    requires
        c.pending is Idle,
        c.frontier.len() == 0,
    ensures
        step_spec(c, EventV::Start).0 == c,
        step_spec(c, EventV::Start).1 is Finished,
{
}

} // verus!
