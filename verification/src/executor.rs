//! The transaction executor's decision core.
//!
//! A segment list runs as one atomic transaction: the select line is asserted
//! before the first segment and released after the last, never toggled in
//! between. The bus transfer itself is outside work performed by the caller;
//! [`RunState`] tracks the progress of one transaction and decides, after
//! each bus outcome, which segment runs next. Segments run strictly in list
//! order and the first failing segment aborts the remainder; buffers already
//! filled by completed segments stand (physical bus activity cannot be
//! undone).

use vstd::prelude::*;
use crate::error::Error;
use crate::segment::Segment;

verus! {

/// What a completed segment must have delivered: a segment with a
/// destination buffer yields exactly as many bytes as that buffer holds; a
/// segment without one yields no data.
pub open spec fn received_matches(data: Option<Vec<u8>>, seg: Segment) -> bool {
    match seg.read {
        Some(dst) => data matches Some(d) && d@.len() == dst@.len(),
        None => data is None,
    }
}

/// Progress of one segmented transaction.
///
/// The caller drives the loop: it asks [`RunState::next_segment`] which
/// segment to run, performs the transfer or delay on the bus, and records
/// the outcome with [`RunState::record_success`] or
/// [`RunState::record_failure`]. After a failure no further segment is ever
/// offered.
pub struct RunState {
    /// Number of segments that have completed, in list order.
    pub completed: usize,
    /// Bytes received by each completed segment, in order: one entry per
    /// completed segment, `None` for segments without a destination.
    pub received: Vec<Option<Vec<u8>>>,
    /// The error of the first failing segment, if one failed.
    pub failure: Option<Error>,
}

impl RunState {
    /// Well-formedness with respect to the segment list being run: exactly
    /// the first `completed` segments have delivered their data, and a
    /// failure can only have struck a segment that was still pending.
    pub open spec fn wf(&self, segments: Seq<Segment>) -> bool {
        &&& self.completed <= segments.len()
        &&& self.received@.len() == self.completed
        &&& forall|i: int| 0 <= i < self.completed ==>
            received_matches(#[trigger] self.received@[i], segments[i])
        &&& self.failure is Some ==> self.completed < segments.len()
    }

    /// Index of the segment to run next: the first not yet completed, or
    /// nothing once every segment completed or one failed.
    pub open spec fn spec_next_segment(&self, segments: Seq<Segment>) -> Option<usize> {
        if self.failure is Some || self.completed >= segments.len() {
            None
        } else {
            Some(self.completed)
        }
    }

    /// Begins a transaction: nothing completed, nothing failed.
    pub fn new() -> (s: RunState)
        ensures
            s.completed == 0,
            s.received@ =~= Seq::<Option<Vec<u8>>>::empty(),
            s.failure is None,
            forall|segments: Seq<Segment>| s.wf(segments),
    {
        RunState { completed: 0, received: Vec::new(), failure: None }
    }

    /// Which segment of `segments` runs next, strictly in list order; `None`
    /// once the transaction is over — all segments done, or one failed and
    /// the rest are abandoned.
    pub fn next_segment(&self, segments: &Vec<Segment>) -> (r: Option<usize>)
        requires
            self.wf(segments@),
        ensures
            r == self.spec_next_segment(segments@),
            r matches Some(i) ==> i == self.completed < segments@.len(),
    {
        if self.failure.is_some() || self.completed >= segments.len() {
            None
        } else {
            Some(self.completed)
        }
    }

    /// Records that the pending segment completed on the bus and delivered
    /// `data`. The segment counts as done and the next one becomes pending.
    pub fn record_success(&mut self, segments: &Vec<Segment>, data: Option<Vec<u8>>)
        requires
            old(self).wf(segments@),
            old(self).failure is None,
            old(self).completed < segments@.len(),
            received_matches(data, segments@[old(self).completed as int]),
        ensures
            final(self).wf(segments@),
            final(self).completed == old(self).completed + 1,
            final(self).received@ == old(self).received@.push(data),
            final(self).failure is None,
    {
        // The segment count is a usize, which bounds `completed` strictly
        // below it, so the increment below cannot overflow.
        let _bound: usize = segments.len();
        self.received.push(data);
        self.completed = self.completed + 1;
    }

    /// Records that the pending segment failed on the bus. The transaction
    /// aborts: no further segment runs, buffers already filled by earlier
    /// segments stand, and `err` is the one error the call surfaces.
    pub fn record_failure(&mut self, segments: &Vec<Segment>, err: Error)
        requires
            old(self).wf(segments@),
            old(self).failure is None,
            old(self).completed < segments@.len(),
        ensures
            final(self).wf(segments@),
            final(self).completed == old(self).completed,
            final(self).received@ == old(self).received@,
            final(self).failure == Some(err),
            final(self).spec_next_segment(segments@) is None,
    {
        self.failure = Some(err);
    }

    /// The transaction's result: the error of the first failing segment, or
    /// success once every segment completed. Must only be read once the
    /// transaction is over.
    pub fn outcome(&self, segments: &Vec<Segment>) -> (r: Result<(), Error>)
        requires
            self.wf(segments@),
            self.spec_next_segment(segments@) is None,
        ensures
            self.failure matches Some(e) ==> r == Err::<(), Error>(e),
            self.failure is None ==> r == Ok::<(), Error>(())
                && self.completed == segments@.len(),
    {
        match self.failure {
            Some(e) => Err(e),
            None => Ok(()),
        }
    }
}

/// What the bus reported for one attempted segment: it completed and
/// delivered the given bytes, or it failed.
#[derive(Clone, Debug, PartialEq, Eq)]
pub enum SegmentOutcome {
    Completed(Option<Vec<u8>>),
    Failed(Error),
}

/// Two optional byte buffers with identical contents.
pub open spec fn option_bytes_eq(a: Option<Vec<u8>>, b: Option<Vec<u8>>) -> bool {
    match (a, b) {
        (Some(x), Some(y)) => x@ == y@,
        (None, None) => true,
        _ => false,
    }
}

/// Every outcome before index `k` is a completion.
pub open spec fn all_completed_before(outcomes: Seq<SegmentOutcome>, k: int) -> bool {
    forall|j: int| 0 <= j < k ==> (#[trigger] outcomes[j]) is Completed
}

/// Copies an optional byte buffer.
fn copy_outcome_data(data: &Option<Vec<u8>>) -> (r: Option<Vec<u8>>)
    ensures
        option_bytes_eq(r, *data),
{
    match data {
        Some(d) => Some(crate::segment::snapshot_bytes(d)),
        None => None,
    }
}

/// Runs a whole segment list against the bus outcomes the driving loop hands
/// back, one per segment in list order. The segments run strictly in order;
/// every segment before the first failure completes with exactly the bytes
/// the bus delivered; the first failing segment aborts the remainder — no
/// later segment is ever attempted — and its error is the one error the
/// transaction surfaces. With no failing outcome, every segment completes.
pub fn run_segments(segments: &Vec<Segment>, outcomes: &Vec<SegmentOutcome>) -> (s: RunState)
    requires
        outcomes@.len() == segments@.len(),
        forall|i: int| 0 <= i < outcomes@.len() ==> ((#[trigger] outcomes@[i]) matches
            SegmentOutcome::Completed(d) ==> received_matches(d, segments@[i])),
    ensures
        s.wf(segments@),
        s.spec_next_segment(segments@) is None,
        forall|j: int| 0 <= j < s.completed ==> ((#[trigger] outcomes@[j]) matches
            SegmentOutcome::Completed(d) && option_bytes_eq(s.received@[j], d)),
        s.failure is None ==> (s.completed == segments@.len()
            && all_completed_before(outcomes@, segments@.len() as int)),
        s.failure matches Some(e) ==> ({
            &&& s.completed < segments@.len()
            &&& all_completed_before(outcomes@, s.completed as int)
            &&& outcomes@[s.completed as int] matches SegmentOutcome::Failed(f) && f == e
        }),
{
    let mut s = RunState::new();
    let mut i: usize = 0;
    while i < segments.len()
        invariant
            s.wf(segments@),
            i <= segments@.len(),
            outcomes@.len() == segments@.len(),
            forall|k: int| 0 <= k < outcomes@.len() ==> ((#[trigger] outcomes@[k]) matches
                SegmentOutcome::Completed(d) ==> received_matches(d, segments@[k])),
            forall|j: int| 0 <= j < s.completed ==> ((#[trigger] outcomes@[j]) matches
                SegmentOutcome::Completed(d) && option_bytes_eq(s.received@[j], d)),
            s.failure is None ==> (s.completed == i
                && all_completed_before(outcomes@, i as int)),
            s.failure matches Some(e) ==> ({
                &&& s.completed < segments@.len()
                &&& all_completed_before(outcomes@, s.completed as int)
                &&& outcomes@[s.completed as int] matches SegmentOutcome::Failed(f) && f == e
            }),
        decreases segments@.len() - i,
    {
        match s.next_segment(segments) {
            Some(k) => {
                match &outcomes[k] {
                    SegmentOutcome::Completed(data) => {
                        let owned = copy_outcome_data(data);
                        s.record_success(segments, owned);
                    },
                    SegmentOutcome::Failed(e) => {
                        s.record_failure(segments, *e);
                    },
                }
            },
            None => {},
        }
        i = i + 1;
    }
    s
}

/// Once a segment fails, the transaction is over: no segment after the
/// failing one is ever offered to run, so exactly the segments before it
/// completed and the one classified error is all the call surfaces.
pub proof fn lemma_failure_halts_transaction(s: RunState, segments: Seq<Segment>)
    requires
        s.wf(segments),
        s.failure is Some,
    ensures
        s.spec_next_segment(segments) is None,
        s.received@.len() == s.completed < segments.len(),
{
}

} // verus!
