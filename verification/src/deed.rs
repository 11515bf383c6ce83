//! Direct-witness deeds and the results of submitting them.
use crate::evaluation::EvaluationResult;
use crate::memory::MemoryRecord;
use crate::pad::Pad;
use crate::relationship::RelationshipLookup;
use crate::simulation::{Error, MemberId};
use crate::values::{Affinity, Aggression, Impact};
use vstd::prelude::*;

verus! {

/// A single direct-witness deed submitted to a simulation.
#[derive(Clone, Copy, Debug, PartialEq, Eq, Structural)]
pub struct DirectWitnessDeed {
    pub deed_id: u64,
    pub observer: MemberId,
    pub actor: MemberId,
    pub target: Option<MemberId>,
    pub impact: Impact,
    pub aggression: Aggression,
    pub threatens_observer: bool,
}

impl DirectWitnessDeed {
    pub fn new(
        deed_id: u64,
        observer: MemberId,
        actor: MemberId,
        target: Option<MemberId>,
        impact: Impact,
        aggression: Aggression,
        threatens_observer: bool,
    ) -> (r: Self)
        ensures
            r == (DirectWitnessDeed {
                deed_id,
                observer,
                actor,
                target,
                impact,
                aggression,
                threatens_observer,
            }),
    {
        DirectWitnessDeed {
            deed_id,
            observer,
            actor,
            target,
            impact,
            aggression,
            threatens_observer,
        }
    }
}

/// Read-only result of applying one direct-witness deed.
#[derive(Clone, Copy, Debug, PartialEq, Eq, Structural)]
pub struct DirectWitnessOutcome {
    deed_id: u64,
    observer: MemberId,
    actor: MemberId,
    target: Option<MemberId>,
    relationship: RelationshipLookup,
    evaluation: EvaluationResult,
    previous_affinity: Affinity,
    current_affinity: Affinity,
    previous_pad: Pad,
    current_pad: Pad,
    memory: Option<MemoryRecord>,
}

/// Result of one submission, distinguishing an applied deed from an idempotent duplicate.
#[derive(Clone, Copy, Debug, PartialEq, Eq, Structural)]
pub enum DirectWitnessSubmission {
    Applied(DirectWitnessOutcome),
    Duplicate { observer: MemberId, deed_id: u64 },
}

impl DirectWitnessSubmission {
    pub fn is_duplicate(self) -> (r: bool)
        ensures
            r == self is Duplicate,
    {
        matches!(self, DirectWitnessSubmission::Duplicate { .. })
    }

    pub fn as_applied(self) -> (r: Option<DirectWitnessOutcome>)
        ensures
            r == match self {
                DirectWitnessSubmission::Applied(outcome) => Some(outcome),
                DirectWitnessSubmission::Duplicate { .. } => None,
            },
    {
        match self {
            DirectWitnessSubmission::Applied(outcome) => Some(outcome),
            DirectWitnessSubmission::Duplicate { .. } => None,
        }
    }

    pub fn duplicate_key(self) -> (r: Option<(MemberId, u64)>)
        ensures
            r == match self {
                DirectWitnessSubmission::Applied(_) => None,
                DirectWitnessSubmission::Duplicate { observer, deed_id } => Some((observer, deed_id)),
            },
    {
        match self {
            DirectWitnessSubmission::Applied(_) => None,
            DirectWitnessSubmission::Duplicate { observer, deed_id } => Some((observer, deed_id)),
        }
    }
}

/// Error identifying which item caused a batch submission to fail.
#[derive(Clone, Copy, Debug, PartialEq, Eq, Structural)]
pub struct BatchError {
    index: usize,
    error: Error,
}

impl BatchError {
    pub closed spec fn index_of(self) -> usize {
        self.index
    }

    pub closed spec fn error_of(self) -> Error {
        self.error
    }

    /// The error of the batch item at `index`.
    pub fn new(index: usize, error: Error) -> (r: Self)
        ensures
            r.index_of() == index,
            r.error_of() == error,
    {
        BatchError { index, error }
    }

    pub fn index(&self) -> (r: usize)
        ensures
            r == self.index_of(),
    {
        self.index
    }

    pub fn error(&self) -> (r: &Error)
        ensures
            *r == self.error_of(),
    {
        &self.error
    }

    pub fn into_error(self) -> (r: Error)
        ensures
            r == self.error_of(),
    {
        self.error
    }
}

impl DirectWitnessOutcome {
    pub closed spec fn deed_id_of(self) -> u64 {
        self.deed_id
    }

    pub closed spec fn observer_of(self) -> MemberId {
        self.observer
    }

    pub closed spec fn actor_of(self) -> MemberId {
        self.actor
    }

    pub closed spec fn target_of(self) -> Option<MemberId> {
        self.target
    }

    pub closed spec fn relationship_of(self) -> RelationshipLookup {
        self.relationship
    }

    pub closed spec fn evaluation_of(self) -> EvaluationResult {
        self.evaluation
    }

    pub closed spec fn previous_affinity_of(self) -> Affinity {
        self.previous_affinity
    }

    pub closed spec fn current_affinity_of(self) -> Affinity {
        self.current_affinity
    }

    pub closed spec fn previous_pad_of(self) -> Pad {
        self.previous_pad
    }

    pub closed spec fn current_pad_of(self) -> Pad {
        self.current_pad
    }

    pub closed spec fn memory_of(self) -> Option<MemoryRecord> {
        self.memory
    }

    /// The parts of an outcome built by `outcome_of`.
    pub proof fn lemma_outcome_of(
        deed: DirectWitnessDeed,
        relationship: RelationshipLookup,
        evaluation: EvaluationResult,
        previous_affinity: Affinity,
        current_affinity: Affinity,
        previous_pad: Pad,
        current_pad: Pad,
        memory: Option<MemoryRecord>,
    )
        ensures
            ({
                let o = Self::outcome_of(
                    deed,
                    relationship,
                    evaluation,
                    previous_affinity,
                    current_affinity,
                    previous_pad,
                    current_pad,
                    memory,
                );
                &&& o.deed_id_of() == deed.deed_id
                &&& o.observer_of() == deed.observer
                &&& o.actor_of() == deed.actor
                &&& o.target_of() == deed.target
                &&& o.relationship_of() == relationship
                &&& o.evaluation_of() == evaluation
                &&& o.previous_affinity_of() == previous_affinity
                &&& o.current_affinity_of() == current_affinity
                &&& o.previous_pad_of() == previous_pad
                &&& o.current_pad_of() == current_pad
                &&& o.memory_of() == memory
            }),
    {
    }

    /// The outcome of applying `deed` with these parts.
    pub closed spec fn outcome_of(
        deed: DirectWitnessDeed,
        relationship: RelationshipLookup,
        evaluation: EvaluationResult,
        previous_affinity: Affinity,
        current_affinity: Affinity,
        previous_pad: Pad,
        current_pad: Pad,
        memory: Option<MemoryRecord>,
    ) -> Self {
        DirectWitnessOutcome {
            deed_id: deed.deed_id,
            observer: deed.observer,
            actor: deed.actor,
            target: deed.target,
            relationship,
            evaluation,
            previous_affinity,
            current_affinity,
            previous_pad,
            current_pad,
            memory,
        }
    }

    /// The outcome of applying `deed`, with the states before and after it.
    pub(crate) fn new(
        deed: DirectWitnessDeed,
        relationship: RelationshipLookup,
        evaluation: EvaluationResult,
        previous_affinity: Affinity,
        current_affinity: Affinity,
        previous_pad: Pad,
        current_pad: Pad,
        memory: Option<MemoryRecord>,
    ) -> (r: Self)
        ensures
            r == Self::outcome_of(
                deed,
                relationship,
                evaluation,
                previous_affinity,
                current_affinity,
                previous_pad,
                current_pad,
                memory,
            ),
            r.memory_of() == memory,
            r.deed_id_of() == deed.deed_id,
            r.observer_of() == deed.observer,
            r.actor_of() == deed.actor,
            r.target_of() == deed.target,
            r.relationship_of() == relationship,
            r.evaluation_of() == evaluation,
            r.previous_affinity_of() == previous_affinity,
            r.current_affinity_of() == current_affinity,
            r.previous_pad_of() == previous_pad,
            r.current_pad_of() == current_pad,
    {
        DirectWitnessOutcome {
            deed_id: deed.deed_id,
            observer: deed.observer,
            actor: deed.actor,
            target: deed.target,
            relationship,
            evaluation,
            previous_affinity,
            current_affinity,
            previous_pad,
            current_pad,
            memory,
        }
    }

    pub fn deed_id(self) -> (r: u64)
        ensures
            r == self.deed_id_of(),
    {
        self.deed_id
    }

    pub fn observer(self) -> (r: MemberId)
        ensures
            r == self.observer_of(),
    {
        self.observer
    }

    pub fn actor(self) -> (r: MemberId)
        ensures
            r == self.actor_of(),
    {
        self.actor
    }

    pub fn target(self) -> (r: Option<MemberId>)
        ensures
            r == self.target_of(),
    {
        self.target
    }

    pub fn relationship(self) -> (r: RelationshipLookup)
        ensures
            r == self.relationship_of(),
    {
        self.relationship
    }

    pub fn relationship_lookup(self) -> (r: RelationshipLookup)
        ensures
            r == self.relationship_of(),
    {
        self.relationship()
    }

    pub fn evaluation(self) -> (r: EvaluationResult)
        ensures
            r == self.evaluation_of(),
    {
        self.evaluation
    }

    pub fn previous_affinity(self) -> (r: Affinity)
        ensures
            r == self.previous_affinity_of(),
    {
        self.previous_affinity
    }

    pub fn current_affinity(self) -> (r: Affinity)
        ensures
            r == self.current_affinity_of(),
    {
        self.current_affinity
    }

    pub fn previous_pad(self) -> (r: Pad)
        ensures
            r == self.previous_pad_of(),
    {
        self.previous_pad
    }

    pub fn current_pad(self) -> (r: Pad)
        ensures
            r == self.current_pad_of(),
    {
        self.current_pad
    }

    /// The record the deed left in memory, when it is remembered.
    pub fn memory(self) -> (r: Option<MemoryRecord>)
        ensures
            r == self.memory_of(),
    {
        self.memory
    }
}

} // verus!
