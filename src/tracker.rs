use vstd::prelude::*;

use crate::error::UpdateError;

verus! {

/// What an accepted embedding does to the engine's state.
#[derive(Debug, Clone, Copy, PartialEq, Eq, Structural)]
pub enum Step {
    /// The first embedding: it fixes the dimension and seeds the state, with no drift test.
    Baseline,
    /// A later embedding: it is compared with the state, then fused into it.
    Track,
}

/// The bookkeeping of one stream: the dimension fixed by the first accepted
/// embedding and the number of accepted embeddings.
pub struct Tracker {
    dimension: usize,
    updates: u64,
}

/// The abstract state of a `Tracker`.
pub struct TrackerView {
    /// The length every embedding must have; 0 while no embedding was accepted.
    pub dimension: nat,
    /// How many embeddings were accepted (saturating at `u64::MAX`).
    pub updates: nat,
}

impl View for Tracker {
    type V = TrackerView;

    closed spec fn view(&self) -> TrackerView {
        TrackerView { dimension: self.dimension as nat, updates: self.updates as nat }
    }
}

/// The update count after one more accepted embedding.
pub open spec fn next_count(n: nat) -> nat {
    if n < u64::MAX {
        n + 1
    } else {
        n
    }
}

impl TrackerView {
    /// A dimension (never 0) is fixed exactly when an embedding was accepted.
    pub open spec fn wf(self) -> bool {
        &&& (self.updates == 0) == (self.dimension == 0)
        &&& self.updates <= u64::MAX
        &&& self.dimension <= usize::MAX
    }

    /// Whether a baseline was established.
    pub open spec fn established(self) -> bool {
        self.updates > 0
    }

    /// What the engine answers to an embedding of length `len` in this state.
    pub open spec fn outcome(self, len: nat) -> Result<Step, UpdateError> {
        if len == 0 {
            Err(UpdateError::EmptyEmbedding)
        } else if !self.established() {
            Ok(Step::Baseline)
        } else if len != self.dimension {
            Err(
                UpdateError::DimensionMismatch {
                    expected: self.dimension as usize,
                    got: len as usize,
                },
            )
        } else {
            Ok(Step::Track)
        }
    }

    /// The state after an embedding of length `len` was accepted.
    pub open spec fn accepted(self, len: nat) -> TrackerView {
        TrackerView { dimension: len, updates: next_count(self.updates) }
    }
}

impl Tracker {
    /// A dimension is fixed exactly when an embedding was accepted.
    #[verifier::type_invariant]
    spec fn inv(&self) -> bool {
        (self.updates == 0) == (self.dimension == 0)
    }

    /// A tracker that has accepted nothing yet.
    pub fn new() -> (t: Tracker)
        ensures
            t@ == (TrackerView { dimension: 0, updates: 0 }),
            t@.wf(),
    {
        Tracker { dimension: 0, updates: 0 }
    }

    /// Whether a baseline was established.
    pub fn is_established(&self) -> (r: bool)
        ensures
            r == self@.established(),
    {
        self.updates > 0
    }

    /// The fixed dimension, once a baseline was established.
    pub fn dimension(&self) -> (r: Option<usize>)
        ensures
            self@.established() ==> r == Some(self@.dimension as usize),
            !self@.established() ==> r is None,
    {
        proof {
            use_type_invariant(self);
        }
        if self.updates > 0 {
            Some(self.dimension)
        } else {
            None
        }
    }

    /// How many embeddings were accepted.
    pub fn update_count(&self) -> (r: u64)
        ensures
            r == self@.updates,
    {
        self.updates
    }

    /// What an embedding of length `len` calls for. The tracker is not changed.
    pub fn outcome(&self, len: usize) -> (r: Result<Step, UpdateError>)
        ensures
            r == self@.outcome(len as nat),
    {
        proof {
            use_type_invariant(self);
        }
        if len == 0 {
            Err(UpdateError::EmptyEmbedding)
        } else if self.updates == 0 {
            Ok(Step::Baseline)
        } else if len != self.dimension {
            Err(UpdateError::DimensionMismatch { expected: self.dimension, got: len })
        } else {
            Ok(Step::Track)
        }
    }

    /// Checks an embedding of length `len` against the stream and, when it is
    /// accepted, records it. A refused embedding leaves the tracker as it was.
    pub fn accept(&mut self, len: usize) -> (r: Result<Step, UpdateError>)
        ensures
            r == old(self)@.outcome(len as nat),
            r is Err ==> final(self)@ == old(self)@,
            r is Ok ==> final(self)@ == old(self)@.accepted(len as nat),
            final(self)@.wf(),
    {
        proof {
            use_type_invariant(&*self);
        }
        let r = self.outcome(len);
        if r.is_ok() {
            let updates = if self.updates < u64::MAX {
                self.updates + 1
            } else {
                self.updates
            };
            *self = Tracker { dimension: len, updates };
        }
        r
    }
}

/// Once a baseline is established, the dimension never changes: every embedding
/// that is accepted afterwards has that dimension, and accepting it keeps it.
pub proof fn lemma_dimension_fixed(v: TrackerView, len: nat)
    requires
        v.wf(),
        v.established(),
        v.outcome(len) is Ok,
    ensures
        len == v.dimension,
        v.accepted(len).dimension == v.dimension,
        v.accepted(len).wf(),
        v.accepted(len).established(),
{
}

/// A refused embedding is refused for one of two reasons: it is empty, or its
/// length differs from the established dimension.
pub proof fn lemma_refusal_reasons(v: TrackerView, len: nat)
    requires
        v.wf(),
        v.outcome(len) is Err,
    ensures
        len == 0 || (v.established() && len != v.dimension),
{
}

/// The baseline is established exactly once: an embedding is taken as the
/// baseline exactly when none was accepted before and it is non-empty, and
/// after any accepted embedding the tracker is established for good.
pub proof fn lemma_baseline_once(v: TrackerView, len: nat)
    requires
        v.wf(),
    ensures
        (v.outcome(len) == Ok::<Step, UpdateError>(Step::Baseline)) == (!v.established() && len
            > 0),
        v.outcome(len) is Ok ==> v.accepted(len).established(),
        v.established() && v.outcome(len) is Ok ==> v.outcome(len) == Ok::<Step, UpdateError>(
            Step::Track,
        ),
{
}

} // verus!
