use lib::deed::DirectWitnessDeed;
use lib::evaluation::{
    evaluate_direct_witness, event_intensity, DirectWitnessInput, EvaluationResult,
    MemoryDecision, WeightedTerms,
};
use lib::memory::{MemoryChange, MemoryKind, MemoryRecord, MemoryStore, LONG_TERM_TTL};
use lib::pad::Pad;
use lib::simulation::{Error, MemberId};
use lib::values::{Affinity, Aggression, Impact};

fn deed(deed_id: u64, impact: f32, aggression: f32) -> DirectWitnessDeed {
    DirectWitnessDeed::new(
        deed_id,
        MemberId::from_raw(1),
        MemberId::from_raw(2),
        None,
        Impact::new(impact.to_bits()).unwrap(),
        Aggression::new(aggression.to_bits()).unwrap(),
        false,
    )
}

/// Evaluates a deed without a target, with the host's binary32 products.
fn evaluation(impact: f32, aggression: f32, decision: MemoryDecision) -> EvaluationResult {
    let input = DirectWitnessInput::new(
        Impact::new(impact.to_bits()).unwrap(),
        Aggression::new(aggression.to_bits()).unwrap(),
        Affinity::new(0.0f32.to_bits()).unwrap(),
        false,
        false,
    );
    let concern = 0.30f32 + 0.70f32 * 0.0;
    let raw = impact * concern;
    let intensity = f32::from_bits(event_intensity(input));
    let terms = WeightedTerms {
        concern: concern.to_bits(),
        raw_affinity_delta: raw.to_bits(),
        raw_pad_delta: Pad {
            pleasure: (0.5 * raw).to_bits(),
            arousal: (0.5 * intensity).to_bits(),
            dominance: 0.0f32.to_bits(),
        },
    };
    let evaluation = evaluate_direct_witness(input, terms);
    assert_eq!(evaluation.memory_decision(), decision);
    evaluation
}

#[test]
fn remembers_once_and_orders_records_by_deed_id() {
    let mut store = MemoryStore::default();
    let first = MemoryRecord::from_evaluation(
        deed(2, 0.5, 0.0),
        evaluation(0.5, 0.0, MemoryDecision::ShortTerm),
        0,
    )
    .unwrap()
    .unwrap();
    let second = MemoryRecord::from_evaluation(
        deed(1, 0.8, 0.0),
        evaluation(0.8, 0.0, MemoryDecision::LongTerm),
        0,
    )
    .unwrap()
    .unwrap();

    assert_eq!(
        store.insert_or_upgrade(first, 0).unwrap(),
        MemoryChange::Remembered(first)
    );
    assert_eq!(
        store.insert_or_upgrade(second, 0).unwrap(),
        MemoryChange::Remembered(second)
    );
    assert_eq!(
        store.for_observer(MemberId::from_raw(1)),
        vec![second, first]
    );
}

#[test]
fn upgrades_short_term_without_replacing_the_original_payload() {
    let mut store = MemoryStore::default();
    let short = MemoryRecord::from_evaluation(
        deed(3, 0.5, 0.0),
        evaluation(0.5, 0.0, MemoryDecision::ShortTerm),
        4,
    )
    .unwrap()
    .unwrap();
    let long = MemoryRecord::from_evaluation(
        deed(3, -0.9, 0.8),
        evaluation(0.9, 0.8, MemoryDecision::LongTerm),
        4,
    )
    .unwrap()
    .unwrap();

    store.insert_or_upgrade(short, 4).unwrap();
    let current = match store.insert_or_upgrade(long, 10).unwrap() {
        MemoryChange::Upgraded { current, .. } => current,
        other => panic!("unexpected change: {other:?}"),
    };
    assert_eq!(current.actor(), short.actor());
    assert_eq!(current.impact(), short.impact());
    assert_eq!(current.kind(), MemoryKind::LongTerm);
    assert_eq!(current.salience(), long.salience());
    assert_eq!(current.created_tick(), short.created_tick());
    assert_eq!(current.expires_at(), 10 + LONG_TERM_TTL);
}

#[test]
fn same_kind_and_downgrade_requests_are_no_ops() {
    let mut store = MemoryStore::default();
    let long = MemoryRecord::from_evaluation(
        deed(4, 0.9, 0.0),
        evaluation(0.9, 0.0, MemoryDecision::LongTerm),
        0,
    )
    .unwrap()
    .unwrap();
    let short = MemoryRecord::from_evaluation(
        deed(4, 0.4, 0.0),
        evaluation(0.4, 0.0, MemoryDecision::ShortTerm),
        0,
    )
    .unwrap()
    .unwrap();

    assert_eq!(
        store.insert_or_upgrade(long, 0).unwrap(),
        MemoryChange::Remembered(long)
    );
    assert_eq!(
        store.insert_or_upgrade(long, 0).unwrap(),
        MemoryChange::Unchanged
    );
    assert_eq!(
        store.insert_or_upgrade(short, 0).unwrap(),
        MemoryChange::Unchanged
    );
    assert_eq!(store.get(MemberId::from_raw(1), 4), Some(long));
}

#[test]
fn expiration_is_inclusive_and_keeps_records_before_the_boundary() {
    let mut store = MemoryStore::default();
    let record = MemoryRecord::from_evaluation(
        deed(5, 0.4, 0.0),
        evaluation(0.4, 0.0, MemoryDecision::ShortTerm),
        0,
    )
    .unwrap()
    .unwrap();
    store.insert_or_upgrade(record, 0).unwrap();
    assert!(store.expire(record.expires_at() - 1).is_empty());
    assert_eq!(store.expire(record.expires_at()), vec![record]);
    assert!(store.get(record.observer(), record.deed_id()).is_none());
}

#[test]
fn weak_deeds_are_not_remembered_and_ticks_cannot_overflow() {
    let weak = MemoryRecord::from_evaluation(
        deed(6, 0.1, 0.2),
        evaluation(0.1, 0.2, MemoryDecision::NotRemembered),
        0,
    );
    assert_eq!(weak, Ok(None));
    let late = MemoryRecord::from_evaluation(
        deed(7, 0.5, 0.0),
        evaluation(0.5, 0.0, MemoryDecision::ShortTerm),
        u64::MAX - 59,
    );
    assert_eq!(late, Err(Error::TimeOverflow));
    let just_in_time = MemoryRecord::from_evaluation(
        deed(7, 0.5, 0.0),
        evaluation(0.5, 0.0, MemoryDecision::ShortTerm),
        u64::MAX - 60,
    )
    .unwrap()
    .unwrap();
    assert_eq!(just_in_time.expires_at(), u64::MAX);
    assert_eq!(MemoryRecord::ttl(MemoryKind::ShortTerm), 60);
    assert_eq!(MemoryRecord::ttl(MemoryKind::LongTerm), 3600);
}

#[test]
fn records_carry_the_deed_payload_and_retention() {
    let record = MemoryRecord::from_evaluation(
        deed(8, -0.6, 0.7),
        evaluation(-0.6, 0.7, MemoryDecision::ShortTerm),
        100,
    )
    .unwrap()
    .unwrap();
    assert_eq!(record.observer(), MemberId::from_raw(1));
    assert_eq!(record.deed_id(), 8);
    assert_eq!(record.actor(), MemberId::from_raw(2));
    assert_eq!(record.target(), None);
    assert_eq!(f32::from_bits(record.impact().value()), -0.6);
    assert_eq!(f32::from_bits(record.aggression().value()), 0.7);
    assert_eq!(f32::from_bits(record.salience()), 0.7);
    assert_eq!(record.kind(), MemoryKind::ShortTerm);
    assert_eq!(record.created_tick(), 100);
    assert_eq!(record.expires_at(), 160);
}

#[test]
fn upgrade_overflow_leaves_the_store_alone() {
    let mut store = MemoryStore::new();
    let short = MemoryRecord::from_evaluation(
        deed(9, 0.5, 0.0),
        evaluation(0.5, 0.0, MemoryDecision::ShortTerm),
        0,
    )
    .unwrap()
    .unwrap();
    let long = MemoryRecord::from_evaluation(
        deed(9, 0.9, 0.0),
        evaluation(0.9, 0.0, MemoryDecision::LongTerm),
        0,
    )
    .unwrap()
    .unwrap();
    store.insert_or_upgrade(short, 0).unwrap();
    assert_eq!(
        store.insert_or_upgrade(long, u64::MAX - 10),
        Err(Error::TimeOverflow)
    );
    assert_eq!(store.get(MemberId::from_raw(1), 9), Some(short));
}

#[test]
fn listings_and_expiry_keep_key_order_across_observers() {
    let mut store = MemoryStore::new();
    let mut records = Vec::new();
    for (observer, deed_id, tick) in [(2u64, 5u64, 0u64), (1, 9, 0), (1, 3, 50), (2, 1, 50), (1, 4, 0)] {
        let mut d = deed(deed_id, 0.5, 0.0);
        d.observer = MemberId::from_raw(observer);
        let record = MemoryRecord::from_evaluation(
            d,
            evaluation(0.5, 0.0, MemoryDecision::ShortTerm),
            tick,
        )
        .unwrap()
        .unwrap();
        store.insert_or_upgrade(record, tick).unwrap();
        records.push(record);
    }
    let ids: Vec<u64> = store
        .for_observer(MemberId::from_raw(1))
        .iter()
        .map(|r| r.deed_id())
        .collect();
    assert_eq!(ids, vec![3, 4, 9]);
    assert!(store.for_observer(MemberId::from_raw(3)).is_empty());
    let expired: Vec<(u64, u64)> = store
        .expire(60)
        .iter()
        .map(|r| (r.observer().into_raw(), r.deed_id()))
        .collect();
    assert_eq!(expired, vec![(1, 4), (1, 9), (2, 5)]);
    let left: Vec<u64> = store
        .for_observer(MemberId::from_raw(1))
        .iter()
        .map(|r| r.deed_id())
        .collect();
    assert_eq!(left, vec![3]);
    assert_eq!(store.get(MemberId::from_raw(2), 1), Some(records[3]));
}
