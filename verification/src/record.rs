//! Plain data types: the pod record snapshot, the resolver's result, and
//! the error taxonomy.

use vstd::prelude::*;

verus! {

/// The coarse status classes that the listing distinguishes for display.
/// A phase string outside the four well-known ones classifies as `Other`.
#[derive(Clone, Copy, PartialEq, Eq, Structural, Debug)]
pub enum PhaseKind {
    Running,
    Pending,
    Failed,
    Succeeded,
    Other,
}

/// A read-only snapshot of one pod at query time.
///
/// `created_at` is the creation time in seconds since the epoch; `None` is
/// the "unknown age" sentinel used when the query response carried no
/// parsable creation timestamp.
pub struct PodRecord {
    pub name: String,
    pub namespace: String,
    pub phase: String,
    pub restart_count: u64,
    pub created_at: Option<i64>,
}

/// The resolver's output: the identity of exactly one record that existed
/// at query time.
pub struct ResolvedTarget {
    pub name: String,
    pub namespace: String,
}

/// Failures of the query adapter.  `TransportFailure` is raised by the
/// caller when the external call cannot be started or exits non-zero;
/// `DecodeFailure` when the response is not valid structured data.
#[derive(Clone, Copy, PartialEq, Eq, Structural, Debug)]
pub enum QueryError {
    TransportFailure,
    DecodeFailure,
}

/// Failures of the fuzzy resolver.  `NotFound` carries the pattern that
/// matched nothing; `Ambiguous` carries every matching candidate, in the
/// order the query returned them.
pub enum ResolveError {
    NotFound(String),
    Ambiguous(Vec<ResolvedTarget>),
}

/// The display class of a phase string: exact, case-sensitive comparison
/// with the four well-known phases, anything else classed as `Other`.
pub open spec fn phase_kind_of(s: Seq<char>) -> PhaseKind {
    if s == "Running"@ {
        PhaseKind::Running
    } else if s == "Pending"@ {
        PhaseKind::Pending
    } else if s == "Failed"@ {
        PhaseKind::Failed
    } else if s == "Succeeded"@ {
        PhaseKind::Succeeded
    } else {
        PhaseKind::Other
    }
}

/// Classifies a phase string into the display class the listing colors by.
pub fn phase_kind(phase: &String) -> (k: PhaseKind)
    ensures
        k == phase_kind_of(phase@),
{
    let running: String = String::from_str("Running");
    let pending: String = String::from_str("Pending");
    let failed: String = String::from_str("Failed");
    let succeeded: String = String::from_str("Succeeded");
    if phase.eq(&running) {
        PhaseKind::Running
    } else if phase.eq(&pending) {
        PhaseKind::Pending
    } else if phase.eq(&failed) {
        PhaseKind::Failed
    } else if phase.eq(&succeeded) {
        PhaseKind::Succeeded
    } else {
        PhaseKind::Other
    }
}

} // verus!
