//! The aggregate statistics that the daemon reports.

use vstd::prelude::*;

verus! {

/// How many items of each kind of source the daemon holds.
#[derive(Clone, Copy, Debug, PartialEq, Eq, Structural)]
pub struct SourceCounts {
    pub emails: i64,
    pub documents: i64,
    pub notes: i64,
}

/// The totals of the daemon's store.
///
/// A payload may leave out `total_clusters` and `sources`: the first then
/// counts as zero and the second as absent.
#[derive(Clone, Copy, Debug, PartialEq, Eq, Structural)]
pub struct DaemonStats {
    pub total_documents: i64,
    pub total_chunks: i64,
    pub total_tags: i64,
    pub total_clusters: i64,
    pub sources: Option<SourceCounts>,
}

} // verus!
