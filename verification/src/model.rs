//! Data model: nodes, store rows and edges of the link graph.

use vstd::prelude::*;

verus! {

/// A discovered page: its canonical URL and, once the page has been
/// persisted, the identifier the graph store assigned to it.
#[derive(Clone)]
pub struct SiteURLNode {
    pub url: String,
    pub id: Option<u64>,
}

/// Ghost image of a `SiteURLNode`.
pub ghost struct NodeV {
    pub url: Seq<char>,
    pub id: Option<u64>,
}

impl View for SiteURLNode {
    type V = NodeV;

    open spec fn view(&self) -> NodeV {
        NodeV { url: self.url@, id: self.id }
    }
}

impl SiteURLNode {
    /// A freshly discovered page carries no store identifier yet.
    pub fn new(url: String) -> (r: Self)
        ensures
            r.url == url,
            r.id is None,
    {
        SiteURLNode { url, id: None }
    }
}

/// The row the graph store hands back when a node is created: the
/// generated identifier of the new node.
#[derive(Clone, Copy, PartialEq, Eq, Structural, Debug)]
pub struct Record {
    pub id: u64,
}

/// A directed edge of the link graph: the page identified by `a_in`
/// contains a link to the page identified by `out`.
#[derive(Clone, Copy, PartialEq, Eq, Structural, Debug)]
pub struct Relation {
    pub a_in: u64,
    pub out: u64,
}

} // verus!
