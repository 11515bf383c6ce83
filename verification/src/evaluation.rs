//! The fixed direct-witness v1 evaluation model.
//!
//! An evaluation weighs the observer's relationship toward the deed's target
//! and the deed's impact and aggression. This module selects the operands of
//! the model (the affinity that is weighed, whether the observer counts as
//! threatened, the event intensity) and makes its decisions (the dominance
//! delta is `+0.0` unless the observer is threatened, the memory salience and
//! the memory classification). The binary32 products of the model (`concern =
//! 0.30 + 0.70 * target_affinity`, `raw_affinity_delta = impact * concern` and
//! the PAD delta axes) are multiplied by the host from those operands and
//! handed in as [`WeightedTerms`].
use crate::binary32::{
    abs, is_finite_pattern, less_than, lemma_one_value, magnitude_of, scaled_value, ONE_BITS,
    POSITIVE_ZERO_BITS,
};
use crate::pad::Pad;
use crate::values::{
    is_signed_unit, is_unsigned_unit, lemma_canonical_patterns_are_unique, Affinity, Aggression,
    Confidence, Impact,
};
use vstd::prelude::*;

verus! {

/// Immutable configuration for the direct-witness v1 evaluation model.
#[derive(Clone, Copy, Debug, Default, PartialEq, Eq, Structural)]
pub struct EvaluationPolicyV1;

impl EvaluationPolicyV1 {
    pub const MODEL_VERSION: u32 = 1;

    /// `0.30` as a binary32 pattern.
    pub const MORAL_BASELINE: u32 = 0x3E99_999A;

    /// `0.70` as a binary32 pattern.
    pub const RELATIONSHIP_WEIGHT: u32 = 0x3F33_3333;

    /// `0.40` as a binary32 pattern.
    pub const MEMORY_THRESHOLD: u32 = 0x3ECC_CCCD;

    /// `0.75` as a binary32 pattern.
    pub const LONG_TERM_THRESHOLD: u32 = 0x3F40_0000;

    pub fn new() -> (r: Self)
        ensures
            r == (EvaluationPolicyV1 {  }),
    {
        EvaluationPolicyV1
    }

    pub fn model_version(self) -> (r: u32)
        ensures
            r == 1,
    {
        Self::MODEL_VERSION
    }

    /// The moral baseline of concern, `0.30`.
    pub fn moral_baseline(self) -> (r: u32)
        ensures
            r == 0x3E99_999Au32,
    {
        Self::MORAL_BASELINE
    }

    /// The weight of the target relationship in concern, `0.70`.
    pub fn relationship_weight(self) -> (r: u32)
        ensures
            r == 0x3F33_3333u32,
    {
        Self::RELATIONSHIP_WEIGHT
    }

    /// The inclusive short-term memory threshold, `0.40`.
    pub fn memory_threshold(self) -> (r: u32)
        ensures
            r == 0x3ECC_CCCDu32,
    {
        Self::MEMORY_THRESHOLD
    }

    /// The inclusive long-term memory threshold, `0.75`.
    pub fn long_term_threshold(self) -> (r: u32)
        ensures
            r == 0x3F40_0000u32,
    {
        Self::LONG_TERM_THRESHOLD
    }

    /// Evaluates one direct witness without changing simulation state.
    pub fn evaluate_direct_witness(self, input: DirectWitnessInput, terms: WeightedTerms) -> (r:
        EvaluationResult)
        ensures
            is_evaluation_of(r, input, terms),
            r == evaluation_of(input, terms),
            !threat_counts(input) ==> r.raw_pad_delta_of().dominance == 0,
    {
        evaluate_with_policy(self, input, terms)
    }
}

/// Inputs supplied by a host for one direct-witness evaluation.
#[derive(Clone, Copy, Debug, PartialEq, Eq, Structural)]
pub struct DirectWitnessInput {
    pub impact: Impact,
    pub aggression: Aggression,
    pub target_affinity: Affinity,
    pub has_target: bool,
    pub threatens_observer: bool,
}

impl DirectWitnessInput {
    pub fn new(
        impact: Impact,
        aggression: Aggression,
        target_affinity: Affinity,
        has_target: bool,
        threatens_observer: bool,
    ) -> (r: Self)
        ensures
            r == (DirectWitnessInput {
                impact,
                aggression,
                target_affinity,
                has_target,
                threatens_observer,
            }),
    {
        DirectWitnessInput { impact, aggression, target_affinity, has_target, threatens_observer }
    }
}

/// Classification assigned by the v1 memory salience thresholds.
#[derive(Clone, Copy, Debug, PartialEq, Eq, Structural)]
pub enum MemoryDecision {
    NotRemembered,
    ShortTerm,
    LongTerm,
}

/// Alias matching the domain term used by the behavior specification.
pub type MemoryClassification = MemoryDecision;

/// The binary32 products of one evaluation, computed by the host: `concern =
/// 0.30 + 0.70 * target_affinity`, `raw_affinity_delta = impact * concern`,
/// and the PAD delta (`0.5 * raw_affinity_delta`, `0.5 * event_intensity`,
/// and `-0.4 * aggression`, which the evaluation uses only when the observer
/// is threatened).
#[derive(Clone, Copy, Debug, PartialEq, Eq, Structural)]
pub struct WeightedTerms {
    pub concern: u32,
    pub raw_affinity_delta: u32,
    pub raw_pad_delta: Pad,
}

/// Pure output of one direct-witness evaluation.
#[derive(Clone, Copy, Debug, PartialEq, Eq, Structural)]
pub struct EvaluationResult {
    concern: u32,
    effective_confidence: Confidence,
    raw_affinity_delta: u32,
    raw_pad_delta: Pad,
    event_intensity: u32,
    memory_salience: u32,
    memory_decision: MemoryDecision,
}

/// The affinity toward the target that the evaluation weighs: the input's
/// affinity when there is a target, `+0.0` otherwise.
pub open spec fn weighed_affinity(input: DirectWitnessInput) -> u32 {
    if input.has_target {
        input.target_affinity@
    } else {
        POSITIVE_ZERO_BITS
    }
}

/// Whether the evaluation treats the observer as threatened: only a deed
/// with a target can threaten the observer.
pub open spec fn threat_counts(input: DirectWitnessInput) -> bool {
    input.has_target && input.threatens_observer
}

/// `max(|impact|, aggression)`, times `2^149`.
pub open spec fn intensity_value(input: DirectWitnessInput) -> int {
    let i = scaled_value(input.impact@);
    let a = scaled_value(input.aggression@);
    let m = if i < 0 {
        -i
    } else {
        i
    };
    if m < a {
        a
    } else {
        m
    }
}

/// The memory classification of a salience (given times `2^149`): long-term
/// from `0.75` inclusive, short-term from `0.40` inclusive, else none.
pub open spec fn decision_for(salience: int) -> MemoryDecision {
    if salience >= scaled_value(0x3F40_0000u32) {
        MemoryDecision::LongTerm
    } else if salience >= scaled_value(0x3ECC_CCCDu32) {
        MemoryDecision::ShortTerm
    } else {
        MemoryDecision::NotRemembered
    }
}

/// The canonical non-negative pattern of `max(|impact|, aggression)`.
pub open spec fn intensity_pattern(input: DirectWitnessInput) -> u32 {
    let m = (input.impact@ % 0x8000_0000) as u32;
    if scaled_value(m) < scaled_value(input.aggression@) {
        input.aggression@
    } else {
        m
    }
}

/// The PAD delta of an evaluation: the host's pleasure and arousal products,
/// and its dominance product only when the observer is threatened, `+0.0`
/// otherwise.
pub open spec fn pad_delta_for(input: DirectWitnessInput, terms: WeightedTerms) -> Pad {
    Pad {
        pleasure: terms.raw_pad_delta.pleasure,
        arousal: terms.raw_pad_delta.arousal,
        dominance: if threat_counts(input) {
            terms.raw_pad_delta.dominance
        } else {
            POSITIVE_ZERO_BITS
        },
    }
}

/// What an evaluation of one direct witness with the given products holds:
/// the host's products, full confidence, the PAD delta whose dominance counts
/// only under threat, the event intensity as both intensity and memory
/// salience, and the classification of that salience.
pub open spec fn is_evaluation_of(r: EvaluationResult, input: DirectWitnessInput, terms: WeightedTerms) -> bool {
    &&& r.concern_of() == terms.concern
    &&& r.effective_confidence_of() == Confidence::one()
    &&& r.raw_affinity_delta_of() == terms.raw_affinity_delta
    &&& r.raw_pad_delta_of() == pad_delta_for(input, terms)
    &&& r.event_intensity_of() == intensity_pattern(input)
    &&& r.memory_salience_of() == intensity_pattern(input)
    &&& r.memory_decision_of() == decision_for(intensity_value(input))
}

/// The evaluation of one direct witness with the given products, as
/// `is_evaluation_of` describes it.
pub closed spec fn evaluation_of(input: DirectWitnessInput, terms: WeightedTerms) -> EvaluationResult {
    EvaluationResult {
        concern: terms.concern,
        effective_confidence: Confidence::one(),
        raw_affinity_delta: terms.raw_affinity_delta,
        raw_pad_delta: pad_delta_for(input, terms),
        event_intensity: intensity_pattern(input),
        memory_salience: intensity_pattern(input),
        memory_decision: decision_for(intensity_value(input)),
    }
}

/// The intensity pattern denotes `max(|impact|, aggression)` and is a valid
/// salience.
pub proof fn lemma_intensity_pattern(input: DirectWitnessInput)
    requires
        is_signed_unit(input.impact@),
        is_unsigned_unit(input.aggression@),
    ensures
        scaled_value(intensity_pattern(input)) == intensity_value(input),
        is_unsigned_unit(intensity_pattern(input)),
{
    let impact = input.impact@;
    let m = (impact % 0x8000_0000) as u32;
    lemma_one_value();
    assert(magnitude_of(m) == magnitude_of(impact));
    lemma_canonical_patterns_are_unique(m, 0);
    vstd::arithmetic::power2::lemma_pow2_pos(149);
    if magnitude_of(m) > magnitude_of(ONE_BITS) {
        crate::binary32::lemma_value_strictly_increases(magnitude_of(ONE_BITS), magnitude_of(m));
    }
    crate::binary32::lemma_value_zero(magnitude_of(m));
}

/// `evaluation_of` is the evaluation that `is_evaluation_of` describes.
pub proof fn lemma_evaluation_of(input: DirectWitnessInput, terms: WeightedTerms)
    ensures
        is_evaluation_of(evaluation_of(input, terms), input, terms),
{
}

impl EvaluationResult {
    /// The memory salience is a canonical pattern in `[0, 1]`, classified by
    /// the v1 thresholds.
    #[verifier::type_invariant]
    closed spec fn inv(self) -> bool {
        &&& is_unsigned_unit(self.memory_salience)
        &&& self.memory_decision == decision_for(scaled_value(self.memory_salience))
    }

    pub closed spec fn concern_of(self) -> u32 {
        self.concern
    }

    pub closed spec fn effective_confidence_of(self) -> Confidence {
        self.effective_confidence
    }

    pub closed spec fn raw_affinity_delta_of(self) -> u32 {
        self.raw_affinity_delta
    }

    pub closed spec fn raw_pad_delta_of(self) -> Pad {
        self.raw_pad_delta
    }

    pub closed spec fn event_intensity_of(self) -> u32 {
        self.event_intensity
    }

    pub closed spec fn memory_salience_of(self) -> u32 {
        self.memory_salience
    }

    pub closed spec fn memory_decision_of(self) -> MemoryDecision {
        self.memory_decision
    }

    pub fn concern(self) -> (r: u32)
        ensures
            r == self.concern_of(),
    {
        self.concern
    }

    pub fn effective_confidence(self) -> (r: Confidence)
        ensures
            r == self.effective_confidence_of(),
    {
        self.effective_confidence
    }

    pub fn raw_affinity_delta(self) -> (r: u32)
        ensures
            r == self.raw_affinity_delta_of(),
    {
        self.raw_affinity_delta
    }

    pub fn raw_pad_delta(self) -> (r: Pad)
        ensures
            r == self.raw_pad_delta_of(),
    {
        self.raw_pad_delta
    }

    pub fn event_intensity(self) -> (r: u32)
        ensures
            r == self.event_intensity_of(),
    {
        self.event_intensity
    }

    pub fn memory_salience(self) -> (r: u32)
        ensures
            r == self.memory_salience_of(),
            is_unsigned_unit(r),
    {
        proof {
            use_type_invariant(&self);
        }
        self.memory_salience
    }

    pub fn memory_decision(self) -> (r: MemoryDecision)
        ensures
            r == self.memory_decision_of(),
            r == decision_for(scaled_value(self.memory_salience_of())),
    {
        proof {
            use_type_invariant(&self);
        }
        self.memory_decision
    }
}

/// The affinity the evaluation weighs toward the target: the input's when
/// there is a target, `+0.0` otherwise (the relationship is ignored).
pub fn weighed_target_affinity(input: DirectWitnessInput) -> (r: u32)
    ensures
        r == weighed_affinity(input),
        is_signed_unit(r),
{
    if input.has_target {
        input.target_affinity.value()
    } else {
        proof {
            lemma_one_value();
        }
        POSITIVE_ZERO_BITS
    }
}

/// Whether the observer counts as threatened: the flag is ignored without a target.
pub fn observer_threatened(input: DirectWitnessInput) -> (r: bool)
    ensures
        r == threat_counts(input),
{
    input.has_target && input.threatens_observer
}

/// The event intensity `max(|impact|, aggression)`.
pub fn event_intensity(input: DirectWitnessInput) -> (r: u32)
    ensures
        r == intensity_pattern(input),
        scaled_value(r) == intensity_value(input),
        is_unsigned_unit(r),
{
    let impact = input.impact.value();
    let aggression = input.aggression.value();
    let magnitude = abs(impact);
    proof {
        lemma_one_value();
        assert(magnitude == (impact % 0x8000_0000) as u32);
        lemma_canonical_patterns_are_unique(magnitude, 0);
    }
    if less_than(magnitude, aggression) {
        aggression
    } else {
        magnitude
    }
}

/// The memory classification of a salience by the inclusive v1 thresholds.
pub fn classify_salience(salience: u32) -> (r: MemoryDecision)
    requires
        is_finite_pattern(salience),
    ensures
        r == decision_for(scaled_value(salience)),
{
    proof {
        lemma_one_value();
        assert(is_finite_pattern(EvaluationPolicyV1::LONG_TERM_THRESHOLD));
        assert(is_finite_pattern(EvaluationPolicyV1::MEMORY_THRESHOLD));
    }
    if !less_than(salience, EvaluationPolicyV1::LONG_TERM_THRESHOLD) {
        MemoryDecision::LongTerm
    } else if !less_than(salience, EvaluationPolicyV1::MEMORY_THRESHOLD) {
        MemoryDecision::ShortTerm
    } else {
        MemoryDecision::NotRemembered
    }
}

/// Evaluates a direct witness with the fixed v1 policy.
pub fn evaluate_direct_witness(input: DirectWitnessInput, terms: WeightedTerms) -> (r:
    EvaluationResult)
    ensures
        is_evaluation_of(r, input, terms),
        r == evaluation_of(input, terms),
        !threat_counts(input) ==> r.raw_pad_delta_of().dominance == 0,
{
    EvaluationPolicyV1::new().evaluate_direct_witness(input, terms)
}

fn evaluate_with_policy(
    policy: EvaluationPolicyV1,
    input: DirectWitnessInput,
    terms: WeightedTerms,
) -> (r: EvaluationResult)
    ensures
        is_evaluation_of(r, input, terms),
        r == evaluation_of(input, terms),
{
    let effective_confidence = Confidence::one_exec();
    let dominance = if observer_threatened(input) {
        terms.raw_pad_delta.dominance
    } else {
        POSITIVE_ZERO_BITS
    };
    let raw_pad_delta = Pad {
        pleasure: terms.raw_pad_delta.pleasure,
        arousal: terms.raw_pad_delta.arousal,
        dominance,
    };
    let event_intensity = event_intensity(input);
    let memory_salience = event_intensity;
    let memory_decision = classify_salience(memory_salience);
    EvaluationResult {
        concern: terms.concern,
        effective_confidence,
        raw_affinity_delta: terms.raw_affinity_delta,
        raw_pad_delta,
        event_intensity,
        memory_salience,
        memory_decision,
    }
}

} // verus!
