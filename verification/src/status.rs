//! The status state machine of a measurement.
//!
//! A measurement's status moves only along the directed path
//! Pending -> Processing -> {Completed, Failed}; the two last states are
//! terminal. The orchestrator is the only mutator of status, and it applies
//! transitions exclusively through [`Status::advance`], which refuses every
//! step that is not on the path.

use vstd::prelude::*;

verus! {

/// The lifecycle state of a measurement.
#[derive(Clone, Copy, Debug, PartialEq, Eq, Structural)]
pub enum Status {
    Pending,
    Processing,
    Completed,
    Failed,
}

impl Status {
    /// A terminal status never changes again.
    pub open spec fn is_terminal(self) -> bool {
        self == Status::Completed || self == Status::Failed
    }

    /// The single-step transition relation of the lifecycle path.
    pub open spec fn allowed(self, to: Status) -> bool {
        ||| (self == Status::Pending && to == Status::Processing)
        ||| (self == Status::Processing && to == Status::Completed)
        ||| (self == Status::Processing && to == Status::Failed)
    }

    /// Position of a status along the lifecycle path; both terminal states
    /// share the last position.
    pub open spec fn rank(self) -> int {
        match self {
            Status::Pending => 0,
            Status::Processing => 1,
            Status::Completed => 2,
            Status::Failed => 2,
        }
    }

    /// Apply a transition if it is allowed; otherwise stay unchanged.
    ///
    /// Returns the status after the attempt together with whether the
    /// transition was applied. This is the only way status ever changes.
    pub fn advance(self, to: Status) -> (r: (Status, bool))
        ensures
            r.1 == self.allowed(to),
            r.0 == if self.allowed(to) { to } else { self },
    {
        let ok = match (self, to) {
            (Status::Pending, Status::Processing) => true,
            (Status::Processing, Status::Completed) => true,
            (Status::Processing, Status::Failed) => true,
            _ => false,
        };
        if ok {
            (to, ok)
        } else {
            (self, ok)
        }
    }

    /// Whether this status marks the measurement as terminal; the exec twin
    /// of [`Status::is_terminal`].
    pub fn terminal(self) -> (r: bool)
        ensures
            r == self.is_terminal(),
    {
        match self {
            Status::Completed => true,
            Status::Failed => true,
            _ => false,
        }
    }
}

/// Every allowed transition moves strictly forward along the path and never
/// leaves a terminal state.
pub proof fn lemma_transitions_move_forward(from: Status, to: Status)
    requires
        from.allowed(to),
    ensures
        from.rank() < to.rank(),
        !from.is_terminal(),
{
}

/// A history is the sequence of statuses a measurement has held, oldest
/// first, each step of which was an allowed transition.
pub open spec fn valid_history(h: Seq<Status>) -> bool {
    &&& h.len() >= 1
    &&& h[0] == Status::Pending
    &&& forall|i: int| 0 <= i < h.len() - 1 ==> #[trigger] h[i].allowed(h[i + 1])
}

/// Status never moves backward: along any valid history the rank strictly
/// increases, so no status recurs and Pending never returns.
pub proof fn lemma_history_monotonic(h: Seq<Status>, i: int, j: int)
    requires
        valid_history(h),
        0 <= i < j < h.len(),
    ensures
        h[i].rank() < h[j].rank(),
    decreases j - i,
{
    assert(h[j - 1].allowed(h[(j - 1) + 1]));
    if j == i + 1 {
        lemma_transitions_move_forward(h[i], h[j]);
    } else {
        lemma_history_monotonic(h, i, j - 1);
        lemma_transitions_move_forward(h[j - 1], h[j]);
    }
}

/// A terminal status is never reached without passing through Processing:
/// in any valid history a terminal entry is preceded directly by Processing.
pub proof fn lemma_no_skipped_processing(h: Seq<Status>, i: int)
    requires
        valid_history(h),
        0 < i < h.len(),
        h[i].is_terminal(),
    ensures
        h[i - 1] == Status::Processing,
{
    assert(h[i - 1].allowed(h[(i - 1) + 1]));
}

} // verus!
