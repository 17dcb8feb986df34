use vstd::prelude::*;

use crate::error::UpdateError;
use crate::tracker::{Step, Tracker, TrackerView};

verus! {

/// The state of one embedding stream.
///
/// It holds the fused state vector, the last drift score and the time of the
/// last accepted embedding, next to the stream's bookkeeping. The element type
/// `E`, the score type `D` and the time type `T` are carried as they are: the
/// arithmetic that produces them is done by the caller, which asks `check`
/// what an embedding calls for and hands the outcome back through
/// `set_baseline` or `track`.
pub struct StreamState<E, D, T> {
    tracker: Tracker,
    state: Vec<E>,
    last_drift: D,
    last_updated_at: T,
}

/// The abstract state of a `StreamState`.
pub struct StreamView<E, D, T> {
    pub tracker: TrackerView,
    pub state: Seq<E>,
    pub last_drift: D,
    pub last_updated_at: T,
}

impl<E, D, T> View for StreamState<E, D, T> {
    type V = StreamView<E, D, T>;

    closed spec fn view(&self) -> StreamView<E, D, T> {
        StreamView {
            tracker: self.tracker@,
            state: self.state@,
            last_drift: self.last_drift,
            last_updated_at: self.last_updated_at,
        }
    }
}

impl<E, D, T> StreamView<E, D, T> {
    /// The state vector has the stream's dimension: empty before the baseline,
    /// of the baseline's length after it.
    pub open spec fn wf(self) -> bool {
        &&& self.tracker.wf()
        &&& self.state.len() == self.tracker.dimension
    }
}

impl<E, D, T> StreamState<E, D, T> {
    /// A stream with no embedding yet: an empty state vector, the given drift
    /// score and the given time.
    pub fn new(initial_drift: D, start: T) -> (s: Self)
        ensures
            s@.tracker == (TrackerView { dimension: 0, updates: 0 }),
            s@.state == Seq::<E>::empty(),
            s@.last_drift == initial_drift,
            s@.last_updated_at == start,
            s@.wf(),
    {
        StreamState {
            tracker: Tracker::new(),
            state: Vec::new(),
            last_drift: initial_drift,
            last_updated_at: start,
        }
    }

    /// What an embedding of length `len` calls for. The stream is not changed,
    /// so a refused embedding leaves it as it was.
    pub fn check(&self, len: usize) -> (r: Result<Step, UpdateError>)
        ensures
            r == self@.tracker.outcome(len as nat),
    {
        self.tracker.outcome(len)
    }

    /// Records the baseline: `fused` is the first embedding fused from the zero
    /// origin. The drift score is left as it was.
    pub fn set_baseline(&mut self, fused: Vec<E>, now: T)
        requires
            old(self)@.wf(),
            old(self)@.tracker.outcome(fused@.len()) == Ok::<Step, UpdateError>(Step::Baseline),
        ensures
            final(self)@.tracker == old(self)@.tracker.accepted(fused@.len()),
            final(self)@.state == fused@,
            final(self)@.last_drift == old(self)@.last_drift,
            final(self)@.last_updated_at == now,
            final(self)@.wf(),
    {
        let _ = self.tracker.accept(fused.len());
        self.state = fused;
        self.last_updated_at = now;
    }

    /// Records a tracked embedding: `fused` is the new state vector and `drift`
    /// the drift score measured against the previous one.
    pub fn track(&mut self, fused: Vec<E>, drift: D, now: T)
        requires
            old(self)@.wf(),
            old(self)@.tracker.outcome(fused@.len()) == Ok::<Step, UpdateError>(Step::Track),
        ensures
            final(self)@.tracker == old(self)@.tracker.accepted(fused@.len()),
            final(self)@.tracker.dimension == old(self)@.tracker.dimension,
            final(self)@.state == fused@,
            final(self)@.last_drift == drift,
            final(self)@.last_updated_at == now,
            final(self)@.wf(),
    {
        let _ = self.tracker.accept(fused.len());
        self.state = fused;
        self.last_drift = drift;
        self.last_updated_at = now;
    }

    /// The current state vector.
    pub fn state(&self) -> (r: &Vec<E>)
        ensures
            r@ == self@.state,
    {
        &self.state
    }

    /// The drift score of the last tracked embedding, or the initial one.
    pub fn last_drift(&self) -> (r: &D)
        ensures
            *r == self@.last_drift,
    {
        &self.last_drift
    }

    /// The time of the last accepted embedding, or the initial one.
    pub fn last_updated_at(&self) -> (r: &T)
        ensures
            *r == self@.last_updated_at,
    {
        &self.last_updated_at
    }

    /// The bookkeeping of the stream.
    pub fn tracker(&self) -> (r: &Tracker)
        ensures
            r@ == self@.tracker,
    {
        &self.tracker
    }
}

} // verus!
