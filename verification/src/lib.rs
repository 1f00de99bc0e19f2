//! Verified core of a link-graph crawler.
//!
//! Starting from a seed URL, the crawler discovers the connectivity graph of
//! reachable pages: every page becomes a node in a graph store, every link a
//! directed edge. The traversal itself — deduplication, node and edge
//! persistence, fetch scheduling — is a verified state machine; the
//! surrounding process performs the HTTP and store I/O it asks for.

pub mod model;
pub mod text;
pub mod canon;
pub mod extract;
pub mod content;
pub mod engine;
pub mod laws;
