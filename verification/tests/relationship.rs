use lib::deed::{DirectWitnessDeed, DirectWitnessSubmission};
use lib::relationship::{RelationshipLayer, RelationshipLookup, RelationshipStore};
use lib::simulation::{FactionId, MemberId};
use lib::values::{Affinity, Aggression, Impact};

fn affinity(value: f32) -> Affinity {
    Affinity::new(value.to_bits()).unwrap()
}

#[test]
fn lookups_distinguish_missing_from_explicit_neutral() {
    let explicit = RelationshipLookup::explicit(affinity(0.0), RelationshipLayer::FactionToMember);
    assert_eq!(explicit.affinity(), Some(affinity(0.0)));
    assert_eq!(explicit.source(), Some(RelationshipLayer::FactionToMember));
    assert_eq!(RelationshipLookup::Missing.affinity(), None);
    assert_eq!(RelationshipLookup::Missing.source(), None);
}

#[test]
fn store_layers_are_independent_and_return_previous_values() {
    let mut store = RelationshipStore::default();
    let a = MemberId::from_raw(1);
    let b = MemberId::from_raw(2);
    let f = FactionId::from_raw(1);
    assert_eq!(store.set_member_to_member(a, b, affinity(0.5)), None);
    assert_eq!(store.set_member_to_member(a, b, affinity(-0.5)), Some(affinity(0.5)));
    assert_eq!(store.member_to_member(b, a), RelationshipLookup::Missing);
    assert_eq!(store.faction_to_member(f, b), RelationshipLookup::Missing);
    assert_eq!(store.set_faction_to_member(f, b, affinity(0.25)), None);
    assert_eq!(store.set_faction_to_faction(f, f, affinity(1.0)), None);
    assert_eq!(
        store.faction_to_faction(f, f),
        RelationshipLookup::Explicit {
            affinity: affinity(1.0),
            source: RelationshipLayer::FactionToFaction
        }
    );
    assert_eq!(store.clear_member_to_member(a, b), Some(affinity(-0.5)));
    assert_eq!(store.clear_member_to_member(a, b), None);
    assert_eq!(store.clear_faction_to_member(f, b), Some(affinity(0.25)));
    assert_eq!(store.clear_faction_to_faction(f, f), Some(affinity(1.0)));
    assert_eq!(store.faction_to_faction(f, f), RelationshipLookup::Missing);
}

#[test]
fn deeds_and_submissions_expose_their_parts() {
    let deed = DirectWitnessDeed::new(
        7,
        MemberId::from_raw(1),
        MemberId::from_raw(2),
        None,
        Impact::new(0.5f32.to_bits()).unwrap(),
        Aggression::new(0.0f32.to_bits()).unwrap(),
        false,
    );
    assert_eq!(deed.deed_id, 7);
    let duplicate = DirectWitnessSubmission::Duplicate {
        observer: deed.observer,
        deed_id: deed.deed_id,
    };
    assert!(duplicate.is_duplicate());
    assert_eq!(duplicate.as_applied(), None);
    assert_eq!(duplicate.duplicate_key(), Some((MemberId::from_raw(1), 7)));
}
