use lib::abi::{
    check_capacity, encode_evaluation, encode_event, encode_events, encode_lookup, encode_memory,
    encode_submission, faction_name_text, last_error_bytes, memory_decision_to_c, LastError,
    WireEvaluation, WireEvent, WireLookup, PF_BUFFER_TOO_SMALL, PF_EVENT_FACTION_ADDED, PF_EVENT_MEMBER_ADDED,
    PF_EVENT_RELATIONSHIP_CHANGED, PF_INVALID_ARGUMENT, PF_EVENT_TIME_ADVANCED,
    PF_EVENT_MEMORY_EXPIRED, PF_EVENT_MEMORY_UPGRADED, PF_EVENT_PAD_CHANGED,
    PF_EVENT_AFFINITY_CHANGED, PF_MEMORY_SHORT_TERM, PF_MEMORY_LONG_TERM, PF_MEMORY_NONE,
    PF_RELATIONSHIP_FACTION_TO_FACTION, PF_RELATIONSHIP_MEMBER_TO_MEMBER, PF_SUBMISSION_DUPLICATE,
};
use lib::deed::{DirectWitnessDeed, DirectWitnessSubmission};
use lib::evaluation::{
    evaluate_direct_witness, event_intensity, DirectWitnessInput, MemoryDecision, WeightedTerms,
};
use lib::memory::{MemoryKind, MemoryRecord};
use lib::pad::Pad;
use lib::relationship::{RelationshipLayer, RelationshipLookup, RelationshipSubject};
use lib::simulation::{FactionId, MemberId, Simulation, SimulationConfig, SimulationEvent};
use lib::values::{Affinity, Aggression, Impact};

fn affinity(value: f32) -> Affinity {
    Affinity::new(value.to_bits()).unwrap()
}

fn zero_event() -> WireEvent {
    let zero_pad = Pad { pleasure: 0, arousal: 0, dominance: 0 };
    WireEvent {
        kind: 0,
        faction_id: 0,
        member_id: 0,
        deed_id: 0,
        observer: 0,
        actor: 0,
        target: 0,
        has_target: 0,
        relationship_layer: 0,
        relationship_source_id: 0,
        relationship_target_id: 0,
        previous_present: 0,
        current_present: 0,
        previous_affinity: 0,
        current_affinity: 0,
        evaluation: WireEvaluation {
            concern: 0,
            effective_confidence: 0,
            raw_affinity_delta: 0,
            raw_pad_delta: zero_pad,
            event_intensity: 0,
            memory_salience: 0,
            memory_kind: 0,
        },
        previous_pad: zero_pad,
        current_pad: zero_pad,
        memory_kind: 0,
        previous_memory_kind: 0,
        current_memory_kind: 0,
        salience: 0,
        previous_tick: 0,
        current_tick: 0,
    }
}

#[test]
fn lookups_encode_presence_layer_and_affinity() {
    assert_eq!(
        encode_lookup(RelationshipLookup::Missing),
        WireLookup { present: 0, source: 0, affinity: 0 }
    );
    let neutral = encode_lookup(RelationshipLookup::explicit(
        affinity(0.0),
        RelationshipLayer::FactionToFaction,
    ));
    assert_eq!(
        neutral,
        WireLookup { present: 1, source: PF_RELATIONSHIP_FACTION_TO_FACTION, affinity: 0 }
    );
    let liked = encode_lookup(RelationshipLookup::explicit(
        affinity(0.5),
        RelationshipLayer::MemberToMember,
    ));
    assert_eq!(liked.present, 1);
    assert_eq!(liked.source, PF_RELATIONSHIP_MEMBER_TO_MEMBER);
    assert_eq!(f32::from_bits(liked.affinity), 0.5);
}

#[test]
fn events_encode_their_tag_ids_and_presence() {
    assert_eq!(
        encode_event(SimulationEvent::FactionAdded { faction_id: FactionId::from_raw(4) }),
        WireEvent { kind: PF_EVENT_FACTION_ADDED, faction_id: 4, ..zero_event() }
    );
    assert_eq!(
        encode_event(SimulationEvent::MemberAdded { member_id: MemberId::from_raw(9) }),
        WireEvent { kind: PF_EVENT_MEMBER_ADDED, member_id: 9, ..zero_event() }
    );
    let added = encode_event(SimulationEvent::RelationshipChanged {
        layer: RelationshipLayer::MemberToMember,
        subject: RelationshipSubject::MemberToMember {
            observer: MemberId::from_raw(2),
            target: MemberId::from_raw(3),
        },
        previous: None,
        current: Some(affinity(-0.25)),
    });
    assert_eq!(
        added,
        WireEvent {
            kind: PF_EVENT_RELATIONSHIP_CHANGED,
            relationship_layer: PF_RELATIONSHIP_MEMBER_TO_MEMBER,
            relationship_source_id: 2,
            relationship_target_id: 3,
            previous_present: 0,
            current_present: 1,
            previous_affinity: 0,
            current_affinity: (-0.25f32).to_bits(),
            ..zero_event()
        }
    );
    let cleared = encode_event(SimulationEvent::RelationshipChanged {
        layer: RelationshipLayer::FactionToFaction,
        subject: RelationshipSubject::FactionToFaction {
            source: FactionId::from_raw(7),
            target: FactionId::from_raw(8),
        },
        previous: Some(affinity(0.0)),
        current: None,
    });
    assert_eq!(cleared.relationship_source_id, 7);
    assert_eq!(cleared.relationship_target_id, 8);
    assert_eq!(cleared.previous_present, 1);
    assert_eq!(cleared.previous_affinity, 0);
    assert_eq!(cleared.current_present, 0);
}

#[test]
fn pending_events_encode_in_order_without_draining() {
    let mut simulation = Simulation::new(SimulationConfig { random_seed: 0 });
    let faction = simulation.add_faction("Settlers".to_string()).unwrap();
    let member = simulation.add_member(faction).unwrap();
    let mut slot = LastError::new();
    let encoded = encode_events(&mut slot, &simulation).unwrap();
    assert_eq!(encoded.len(), 2);
    assert_eq!(encoded[0].kind, PF_EVENT_FACTION_ADDED);
    assert_eq!(encoded[0].faction_id, faction.into_raw());
    assert_eq!(encoded[1].kind, PF_EVENT_MEMBER_ADDED);
    assert_eq!(encoded[1].member_id, member.into_raw());
    assert_eq!(simulation.event_count(), 2);
    assert!(last_error_bytes(&slot).is_empty());
}

#[test]
fn small_buffers_are_reported_and_large_ones_pass() {
    let mut slot = LastError::new();
    assert_eq!(check_capacity(&mut slot, 2, 2, "event buffer is too small"), Ok(()));
    assert!(last_error_bytes(&slot).is_empty());
    assert_eq!(
        check_capacity(&mut slot, 1, 2, "event buffer is too small"),
        Err(PF_BUFFER_TOO_SMALL)
    );
    assert_eq!(last_error_bytes(&slot), b"event buffer is too small".to_vec());
}

#[test]
fn faction_names_must_be_utf8() {
    let mut slot = LastError::new();
    assert_eq!(faction_name_text(&mut slot, "Siedler \u{e4}".as_bytes()), Ok("Siedler \u{e4}"));
    assert!(last_error_bytes(&slot).is_empty());
    assert_eq!(faction_name_text(&mut slot, &[0x53, 0xC3]), Err(PF_INVALID_ARGUMENT));
    assert_eq!(last_error_bytes(&slot), b"faction name is not valid UTF-8".to_vec());
    assert_eq!(faction_name_text(&mut slot, &[0xED, 0xA0, 0x80]), Err(PF_INVALID_ARGUMENT));
}

#[test]
fn evaluations_and_memories_encode_their_codes() {
    let input = DirectWitnessInput::new(
        Impact::new(0.9f32.to_bits()).unwrap(),
        Aggression::new(0.0f32.to_bits()).unwrap(),
        affinity(0.0),
        false,
        false,
    );
    let terms = WeightedTerms {
        concern: 0.3f32.to_bits(),
        raw_affinity_delta: (0.9f32 * 0.3).to_bits(),
        raw_pad_delta: Pad {
            pleasure: (0.5f32 * 0.9 * 0.3).to_bits(),
            arousal: (0.5 * f32::from_bits(event_intensity(input))).to_bits(),
            dominance: 0,
        },
    };
    let evaluation = evaluate_direct_witness(input, terms);
    assert_eq!(evaluation.memory_decision(), MemoryDecision::LongTerm);
    let wire = encode_evaluation(evaluation);
    assert_eq!(wire.memory_kind, memory_decision_to_c(MemoryDecision::LongTerm));
    assert_eq!(memory_decision_to_c(MemoryDecision::NotRemembered), PF_MEMORY_NONE);
    assert_eq!(wire.effective_confidence, 1.0f32.to_bits());
    assert_eq!(wire.memory_salience, 0.9f32.to_bits());
    assert_eq!(wire.concern, 0.3f32.to_bits());

    let deed = DirectWitnessDeed::new(
        5,
        MemberId::from_raw(1),
        MemberId::from_raw(2),
        None,
        input.impact,
        input.aggression,
        false,
    );
    let record = MemoryRecord::from_evaluation(deed, evaluation, 10).unwrap().unwrap();
    let memory = encode_memory(record);
    assert_eq!(memory.observer, 1);
    assert_eq!(memory.deed_id, 5);
    assert_eq!(memory.actor, 2);
    assert_eq!(memory.target, 0);
    assert_eq!(memory.has_target, 0);
    assert_eq!(memory.impact, 0.9f32.to_bits());
    assert_eq!(memory.kind, PF_MEMORY_LONG_TERM);
    assert_eq!(memory.created_tick, 10);
    assert_eq!(memory.expires_at, 3610);
}

#[test]
fn duplicate_submissions_encode_their_key_only() {
    let wire = encode_submission(DirectWitnessSubmission::Duplicate {
        observer: MemberId::from_raw(3),
        deed_id: 12,
    });
    assert_eq!(wire.kind, PF_SUBMISSION_DUPLICATE);
    assert_eq!(wire.observer, 3);
    assert_eq!(wire.deed_id, 12);
    assert_eq!(wire.outcome, None);
}

#[test]
fn time_and_memory_events_encode_their_fields() {
    assert_eq!(
        encode_event(SimulationEvent::TimeAdvanced { previous_tick: 3, current_tick: 63 }),
        WireEvent { kind: PF_EVENT_TIME_ADVANCED, previous_tick: 3, current_tick: 63, ..zero_event() }
    );
    assert_eq!(
        encode_event(SimulationEvent::MemoryExpired {
            observer: MemberId::from_raw(2),
            deed_id: 41,
            kind: MemoryKind::ShortTerm,
        }),
        WireEvent {
            kind: PF_EVENT_MEMORY_EXPIRED,
            observer: 2,
            deed_id: 41,
            memory_kind: PF_MEMORY_SHORT_TERM,
            ..zero_event()
        }
    );
    assert_eq!(
        encode_event(SimulationEvent::MemoryUpgraded {
            observer: MemberId::from_raw(2),
            deed_id: 41,
            previous: MemoryKind::ShortTerm,
            current: MemoryKind::LongTerm,
            salience: 0.8f32.to_bits(),
        }),
        WireEvent {
            kind: PF_EVENT_MEMORY_UPGRADED,
            observer: 2,
            deed_id: 41,
            previous_memory_kind: PF_MEMORY_SHORT_TERM,
            current_memory_kind: PF_MEMORY_LONG_TERM,
            salience: 0.8f32.to_bits(),
            ..zero_event()
        }
    );
    let pad = Pad { pleasure: 0.25f32.to_bits(), arousal: 0, dominance: 0 };
    assert_eq!(
        encode_event(SimulationEvent::PadChanged {
            member_id: MemberId::from_raw(5),
            previous: Pad { pleasure: 0, arousal: 0, dominance: 0 },
            current: pad,
        }),
        WireEvent { kind: PF_EVENT_PAD_CHANGED, member_id: 5, current_pad: pad, ..zero_event() }
    );
    assert_eq!(
        encode_event(SimulationEvent::AffinityChanged {
            observer: MemberId::from_raw(1),
            actor: MemberId::from_raw(2),
            previous: affinity(0.0),
            current: affinity(0.5),
        }),
        WireEvent {
            kind: PF_EVENT_AFFINITY_CHANGED,
            observer: 1,
            actor: 2,
            current_affinity: 0.5f32.to_bits(),
            ..zero_event()
        }
    );
}

#[test]
fn message_copies_report_small_or_missing_buffers() {
    assert_eq!(lib::abi::message_copy_result(5, 4, true), PF_BUFFER_TOO_SMALL);
    assert_eq!(lib::abi::message_copy_result(5, 5, false), PF_INVALID_ARGUMENT);
    assert_eq!(lib::abi::message_copy_result(0, 0, false), lib::abi::PF_OK);
    assert_eq!(lib::abi::message_copy_result(5, 8, true), lib::abi::PF_OK);
}
