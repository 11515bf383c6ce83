use lib::evaluation::{
    classify_salience, evaluate_direct_witness, event_intensity, observer_threatened,
    weighed_target_affinity, DirectWitnessInput, EvaluationPolicyV1, EvaluationResult,
    MemoryDecision, WeightedTerms,
};
use lib::pad::Pad;
use lib::values::{Affinity, Aggression, Impact};

fn affinity(value: f32) -> Affinity {
    Affinity::new(value.to_bits()).unwrap()
}

fn impact(value: f32) -> Impact {
    Impact::new(value.to_bits()).unwrap()
}

fn aggression(value: f32) -> Aggression {
    Aggression::new(value.to_bits()).unwrap()
}

fn f(bits: u32) -> f32 {
    f32::from_bits(bits)
}

/// The binary32 products of the v1 model, as the host computes them; the
/// dominance product is always handed in and counts only under threat.
fn host_terms(input: DirectWitnessInput) -> WeightedTerms {
    let policy = EvaluationPolicyV1::new();
    let target_affinity = f(weighed_target_affinity(input));
    let concern = f(policy.moral_baseline()) + f(policy.relationship_weight()) * target_affinity;
    let raw_affinity_delta = f(input.impact.value()) * concern;
    let intensity = f(event_intensity(input));
    let dominance = -0.4 * f(input.aggression.value());
    WeightedTerms {
        concern: concern.to_bits(),
        raw_affinity_delta: raw_affinity_delta.to_bits(),
        raw_pad_delta: Pad {
            pleasure: (0.5 * raw_affinity_delta).to_bits(),
            arousal: (0.5 * intensity).to_bits(),
            dominance: dominance.to_bits(),
        },
    }
}

fn evaluate(input: DirectWitnessInput) -> EvaluationResult {
    evaluate_direct_witness(input, host_terms(input))
}

#[test]
fn policy_exposes_fixed_model_constants() {
    let policy = EvaluationPolicyV1::new();
    assert_eq!(policy.model_version(), 1);
    assert_eq!(f(policy.moral_baseline()), 0.30);
    assert_eq!(f(policy.relationship_weight()), 0.70);
    assert_eq!(f(policy.memory_threshold()), 0.40);
    assert_eq!(f(policy.long_term_threshold()), 0.75);
}

#[test]
fn direct_witness_uses_signed_concern_and_long_term_threshold() {
    let result = evaluate(DirectWitnessInput::new(
        impact(0.8),
        aggression(0.2),
        affinity(0.5),
        true,
        false,
    ));

    assert!((f(result.concern()) - 0.65).abs() < 1e-6);
    assert!((f(result.raw_affinity_delta()) - 0.52).abs() < 1e-6);
    assert_eq!(f(result.effective_confidence().value()), 1.0);
    assert!((f(result.event_intensity()) - 0.8).abs() < 1e-6);
    assert!((f(result.raw_pad_delta().pleasure) - 0.26).abs() < 1e-6);
    assert!((f(result.raw_pad_delta().arousal) - 0.4).abs() < 1e-6);
    assert_eq!(f(result.raw_pad_delta().dominance), 0.0);
    assert_eq!(result.memory_decision(), MemoryDecision::LongTerm);
}

#[test]
fn affinity_direction_covers_liked_neutral_and_disliked_targets() {
    let liked_harmed = evaluate(DirectWitnessInput::new(
        impact(-0.5),
        aggression(0.0),
        affinity(1.0),
        true,
        false,
    ));
    let neutral_harmed = evaluate(DirectWitnessInput::new(
        impact(-0.5),
        aggression(0.0),
        affinity(0.0),
        false,
        false,
    ));
    let disliked_harmed = evaluate(DirectWitnessInput::new(
        impact(-0.5),
        aggression(0.0),
        affinity(-1.0),
        true,
        false,
    ));

    assert!(f(liked_harmed.raw_affinity_delta()) < 0.0);
    assert!((f(neutral_harmed.concern()) - 0.30).abs() < 1e-6);
    assert!(f(neutral_harmed.raw_affinity_delta()) < 0.0);
    assert!(f(disliked_harmed.raw_affinity_delta()) > 0.0);

    let liked_helped = evaluate(DirectWitnessInput::new(
        impact(0.5),
        aggression(0.0),
        affinity(1.0),
        true,
        false,
    ));
    assert!(f(liked_helped.raw_affinity_delta()) > 0.0);
}

#[test]
fn no_target_ignores_relationship_and_observer_threat_flag() {
    let result = evaluate(DirectWitnessInput::new(
        impact(0.2),
        aggression(0.6),
        affinity(-1.0),
        false,
        true,
    ));

    assert!((f(result.concern()) - 0.30).abs() < 1e-6);
    assert!((f(result.raw_affinity_delta()) - 0.06).abs() < 1e-6);
    assert!((f(result.raw_pad_delta().arousal) - 0.3).abs() < 1e-6);
    assert_eq!(f(result.raw_pad_delta().dominance), 0.0);
    assert_eq!(result.memory_decision(), MemoryDecision::ShortTerm);
}

#[test]
fn aggression_can_raise_arousal_without_affinity_change() {
    let result = evaluate(DirectWitnessInput::new(
        impact(0.0),
        aggression(0.6),
        affinity(0.0),
        true,
        true,
    ));

    assert_eq!(f(result.raw_affinity_delta()), 0.0);
    assert!((f(result.raw_pad_delta().arousal) - 0.3).abs() < 1e-6);
    assert!((f(result.raw_pad_delta().dominance) + 0.24).abs() < 1e-6);
    assert!((f(result.memory_salience()) - 0.6).abs() < 1e-6);
    assert_eq!(result.memory_decision(), MemoryDecision::ShortTerm);
}

#[test]
fn memory_thresholds_include_their_boundary_values() {
    let short_term = evaluate(DirectWitnessInput::new(
        impact(0.4),
        aggression(0.0),
        affinity(0.0),
        true,
        false,
    ));
    let long_term = evaluate(DirectWitnessInput::new(
        impact(0.75),
        aggression(0.0),
        affinity(0.0),
        true,
        false,
    ));
    let none = evaluate(DirectWitnessInput::new(
        impact(0.0),
        aggression(0.0),
        affinity(0.0),
        true,
        false,
    ));

    assert_eq!(short_term.memory_decision(), MemoryDecision::ShortTerm);
    assert_eq!(long_term.memory_decision(), MemoryDecision::LongTerm);
    assert_eq!(none.memory_decision(), MemoryDecision::NotRemembered);
}

#[test]
fn evaluation_is_deterministic_and_does_not_mutate_input() {
    let input =
        DirectWitnessInput::new(impact(-0.35), aggression(0.2), affinity(0.25), true, false);
    let first = evaluate(input);
    let second = evaluate(input);
    assert_eq!(first, second);
    assert_eq!(f(input.impact.value()), -0.35);
    assert_eq!(f(input.aggression.value()), 0.2);
    assert_eq!(f(input.target_affinity.value()), 0.25);
}

#[test]
fn salience_just_below_each_threshold_falls_to_the_lower_class() {
    let below_long = f32::from_bits(0.75f32.to_bits() - 1);
    let below_short = f32::from_bits(0.40f32.to_bits() - 1);
    assert_eq!(classify_salience(below_long.to_bits()), MemoryDecision::ShortTerm);
    assert_eq!(classify_salience(0.75f32.to_bits()), MemoryDecision::LongTerm);
    assert_eq!(classify_salience(below_short.to_bits()), MemoryDecision::NotRemembered);
    assert_eq!(classify_salience(0.40f32.to_bits()), MemoryDecision::ShortTerm);
    assert_eq!(classify_salience(1.0f32.to_bits()), MemoryDecision::LongTerm);
}

#[test]
fn event_intensity_is_the_larger_of_magnitude_and_aggression() {
    let input = DirectWitnessInput::new(impact(-0.9), aggression(0.3), affinity(0.0), false, false);
    assert_eq!(f(event_intensity(input)), 0.9);
    let input = DirectWitnessInput::new(impact(-0.1), aggression(0.3), affinity(0.0), false, false);
    assert_eq!(f(event_intensity(input)), 0.3);
    let input = DirectWitnessInput::new(impact(-0.0), aggression(0.0), affinity(0.0), false, false);
    assert_eq!(event_intensity(input), 0);
}

#[test]
fn threat_and_target_affinity_count_only_with_a_target() {
    let with_target = DirectWitnessInput::new(impact(0.1), aggression(0.5), affinity(-0.5), true, true);
    let without_target =
        DirectWitnessInput::new(impact(0.1), aggression(0.5), affinity(-0.5), false, true);
    assert!(observer_threatened(with_target));
    assert!(!observer_threatened(without_target));
    assert_eq!(f(weighed_target_affinity(with_target)), -0.5);
    assert_eq!(weighed_target_affinity(without_target), 0);
}

#[test]
fn dominance_delta_counts_only_when_the_observer_is_threatened() {
    let input = DirectWitnessInput::new(impact(-0.5), aggression(0.5), affinity(0.0), true, false);
    let mut terms = host_terms(input);
    terms.raw_pad_delta.dominance = (-0.2f32).to_bits();
    let calm = evaluate_direct_witness(input, terms);
    assert_eq!(calm.raw_pad_delta().dominance, 0);
    assert_eq!(calm.raw_pad_delta().pleasure, terms.raw_pad_delta.pleasure);
    assert!(!observer_threatened(input));

    let threatened_input =
        DirectWitnessInput::new(impact(-0.5), aggression(0.5), affinity(0.0), true, true);
    let threatened = evaluate_direct_witness(threatened_input, host_terms(threatened_input));
    assert!((f(threatened.raw_pad_delta().dominance) + 0.2).abs() < 1e-6);
}
