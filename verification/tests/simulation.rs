use lib::pad::Pad;
use lib::relationship::{RelationshipLayer, RelationshipLookup, RelationshipSubject};
use lib::simulation::{
    name_is_blank, Error, FactionId, MemberId, Simulation, SimulationConfig, SimulationEvent,
};
use lib::values::Affinity;

fn affinity(value: f32) -> Affinity {
    Affinity::new(value.to_bits()).unwrap()
}

fn relationship_simulation() -> (Simulation, FactionId, FactionId, MemberId, MemberId) {
    let mut simulation = Simulation::new(SimulationConfig::default());
    let faction_a = simulation.add_faction(String::from("A")).unwrap();
    let faction_b = simulation.add_faction(String::from("B")).unwrap();
    let member_a = simulation.add_member(faction_a).unwrap();
    let member_b = simulation.add_member(faction_b).unwrap();
    simulation.drain_events();
    (simulation, faction_a, faction_b, member_a, member_b)
}

#[test]
fn adds_factions_and_members_with_stable_events() {
    let mut simulation = Simulation::new(SimulationConfig::default());
    let faction_id = simulation.add_faction(String::from("Settlers")).unwrap();
    let member_id = simulation.add_member(faction_id).unwrap();

    assert_eq!(simulation.faction_name(faction_id), Some("Settlers"));
    assert_eq!(simulation.member_faction(member_id), Some(faction_id));
    assert_eq!(simulation.member_pad(member_id), Some(Pad::default()));
    assert_eq!(
        simulation.drain_events(),
        vec![
            SimulationEvent::FactionAdded { faction_id },
            SimulationEvent::MemberAdded { member_id },
        ]
    );
}

#[test]
fn rejects_members_for_unknown_factions() {
    let mut simulation = Simulation::new(SimulationConfig::default());
    let unknown_faction = FactionId::from_raw(42);

    assert_eq!(
        simulation.add_member(unknown_faction),
        Err(Error::FactionNotFound(unknown_faction))
    );
}

#[test]
fn member_relationships_are_directional_and_explicit_zero_is_not_missing() {
    let (mut simulation, _, _, member_a, member_b) = relationship_simulation();

    simulation
        .set_member_relationship(member_a, member_b, affinity(0.7))
        .unwrap();
    simulation
        .set_member_relationship(member_b, member_a, affinity(-0.2))
        .unwrap();

    assert_eq!(
        simulation.member_relationship(member_a, member_b).unwrap(),
        RelationshipLookup::Explicit {
            affinity: affinity(0.7),
            source: RelationshipLayer::MemberToMember,
        }
    );
    assert_eq!(
        simulation.member_relationship(member_b, member_a).unwrap(),
        RelationshipLookup::Explicit {
            affinity: affinity(-0.2),
            source: RelationshipLayer::MemberToMember,
        }
    );

    simulation
        .set_member_relationship(member_a, member_b, affinity(0.0))
        .unwrap();
    assert_eq!(
        simulation.member_relationship(member_a, member_b).unwrap(),
        RelationshipLookup::Explicit {
            affinity: affinity(0.0),
            source: RelationshipLayer::MemberToMember,
        }
    );
}

#[test]
fn effective_relationship_uses_member_then_faction_member_then_faction_fallbacks() {
    let (mut simulation, faction_a, faction_b, member_a, member_b) = relationship_simulation();

    assert_eq!(
        simulation
            .effective_member_relationship(member_a, member_b)
            .unwrap(),
        RelationshipLookup::Missing
    );

    simulation
        .set_faction_relationship(faction_a, faction_b, affinity(0.2))
        .unwrap();
    assert_eq!(
        simulation
            .effective_member_relationship(member_a, member_b)
            .unwrap(),
        RelationshipLookup::Explicit {
            affinity: affinity(0.2),
            source: RelationshipLayer::FactionToFaction,
        }
    );

    simulation
        .set_faction_member_relationship(faction_a, member_b, affinity(0.4))
        .unwrap();
    assert_eq!(
        simulation
            .effective_member_relationship(member_a, member_b)
            .unwrap(),
        RelationshipLookup::Explicit {
            affinity: affinity(0.4),
            source: RelationshipLayer::FactionToMember,
        }
    );

    simulation
        .set_member_relationship(member_a, member_b, affinity(-0.6))
        .unwrap();
    assert_eq!(
        simulation
            .effective_member_relationship(member_a, member_b)
            .unwrap(),
        RelationshipLookup::Explicit {
            affinity: affinity(-0.6),
            source: RelationshipLayer::MemberToMember,
        }
    );

    simulation
        .clear_member_relationship(member_a, member_b)
        .unwrap();
    simulation
        .clear_faction_member_relationship(faction_a, member_b)
        .unwrap();
    assert_eq!(
        simulation
            .effective_member_relationship(member_a, member_b)
            .unwrap(),
        RelationshipLookup::Explicit {
            affinity: affinity(0.2),
            source: RelationshipLayer::FactionToFaction,
        }
    );
}

#[test]
fn relationship_changes_emit_only_for_actual_changes() {
    let (mut simulation, faction_a, faction_b, member_a, member_b) = relationship_simulation();

    simulation
        .set_member_relationship(member_a, member_b, affinity(0.5))
        .unwrap();
    assert_eq!(
        simulation.drain_events(),
        vec![SimulationEvent::RelationshipChanged {
            layer: RelationshipLayer::MemberToMember,
            subject: RelationshipSubject::MemberToMember {
                observer: member_a,
                target: member_b,
            },
            previous: None,
            current: Some(affinity(0.5)),
        }]
    );

    simulation
        .set_member_relationship(member_a, member_b, affinity(0.5))
        .unwrap();
    assert_eq!(simulation.drain_events().into_iter().next(), None);

    simulation
        .set_member_relationship(member_a, member_b, affinity(0.8))
        .unwrap();
    simulation
        .clear_member_relationship(member_a, member_b)
        .unwrap();
    assert_eq!(
        simulation.drain_events(),
        vec![
            SimulationEvent::RelationshipChanged {
                layer: RelationshipLayer::MemberToMember,
                subject: RelationshipSubject::MemberToMember {
                    observer: member_a,
                    target: member_b,
                },
                previous: Some(affinity(0.5)),
                current: Some(affinity(0.8)),
            },
            SimulationEvent::RelationshipChanged {
                layer: RelationshipLayer::MemberToMember,
                subject: RelationshipSubject::MemberToMember {
                    observer: member_a,
                    target: member_b,
                },
                previous: Some(affinity(0.8)),
                current: None,
            },
        ]
    );

    simulation
        .clear_member_relationship(member_a, member_b)
        .unwrap();
    assert_eq!(simulation.drain_events().into_iter().next(), None);

    simulation
        .set_faction_relationship(faction_a, faction_b, affinity(0.1))
        .unwrap();
    assert_eq!(
        simulation.drain_events(),
        vec![SimulationEvent::RelationshipChanged {
            layer: RelationshipLayer::FactionToFaction,
            subject: RelationshipSubject::FactionToFaction {
                source: faction_a,
                target: faction_b,
            },
            previous: None,
            current: Some(affinity(0.1)),
        }]
    );
}

#[test]
fn each_relationship_layer_supports_direct_lookup_override_and_clear() {
    let (mut simulation, faction_a, faction_b, member_a, member_b) = relationship_simulation();

    simulation
        .set_member_relationship(member_a, member_b, affinity(0.1))
        .unwrap();
    simulation
        .set_faction_member_relationship(faction_a, member_b, affinity(0.2))
        .unwrap();
    simulation
        .set_faction_relationship(faction_a, faction_b, affinity(0.3))
        .unwrap();
    simulation.drain_events();

    assert_eq!(
        simulation.member_relationship(member_a, member_b).unwrap(),
        RelationshipLookup::Explicit {
            affinity: affinity(0.1),
            source: RelationshipLayer::MemberToMember,
        }
    );
    assert_eq!(
        simulation
            .faction_member_relationship(faction_a, member_b)
            .unwrap(),
        RelationshipLookup::Explicit {
            affinity: affinity(0.2),
            source: RelationshipLayer::FactionToMember,
        }
    );
    assert_eq!(
        simulation
            .faction_relationship(faction_a, faction_b)
            .unwrap(),
        RelationshipLookup::Explicit {
            affinity: affinity(0.3),
            source: RelationshipLayer::FactionToFaction,
        }
    );

    simulation
        .set_member_relationship(member_a, member_b, affinity(-0.1))
        .unwrap();
    simulation
        .set_faction_member_relationship(faction_a, member_b, affinity(-0.2))
        .unwrap();
    simulation
        .set_faction_relationship(faction_a, faction_b, affinity(-0.3))
        .unwrap();
    assert_eq!(
        simulation.member_relationship(member_a, member_b).unwrap(),
        RelationshipLookup::Explicit {
            affinity: affinity(-0.1),
            source: RelationshipLayer::MemberToMember,
        }
    );
    assert_eq!(
        simulation
            .faction_member_relationship(faction_a, member_b)
            .unwrap(),
        RelationshipLookup::Explicit {
            affinity: affinity(-0.2),
            source: RelationshipLayer::FactionToMember,
        }
    );
    assert_eq!(
        simulation
            .faction_relationship(faction_a, faction_b)
            .unwrap(),
        RelationshipLookup::Explicit {
            affinity: affinity(-0.3),
            source: RelationshipLayer::FactionToFaction,
        }
    );

    simulation
        .clear_member_relationship(member_a, member_b)
        .unwrap();
    simulation
        .clear_faction_member_relationship(faction_a, member_b)
        .unwrap();
    simulation
        .clear_faction_relationship(faction_a, faction_b)
        .unwrap();
    assert_eq!(
        simulation.member_relationship(member_a, member_b).unwrap(),
        RelationshipLookup::Missing
    );
    assert_eq!(
        simulation
            .faction_member_relationship(faction_a, member_b)
            .unwrap(),
        RelationshipLookup::Missing
    );
    assert_eq!(
        simulation
            .faction_relationship(faction_a, faction_b)
            .unwrap(),
        RelationshipLookup::Missing
    );
}

#[test]
fn relationship_operations_reject_unknown_entities_but_allow_self_relationships() {
    let (mut simulation, faction_a, _, member_a, _) = relationship_simulation();
    let unknown_member = MemberId::from_raw(99);
    let unknown_faction = FactionId::from_raw(99);

    assert_eq!(
        simulation.set_member_relationship(member_a, unknown_member, affinity(0.1)),
        Err(Error::MemberNotFound(unknown_member))
    );
    assert_eq!(
        simulation.set_faction_member_relationship(unknown_faction, member_a, affinity(0.1)),
        Err(Error::FactionNotFound(unknown_faction))
    );
    assert_eq!(
        simulation.set_faction_relationship(faction_a, unknown_faction, affinity(0.1)),
        Err(Error::FactionNotFound(unknown_faction))
    );
    assert_eq!(
        simulation.member_relationship(member_a, unknown_member),
        Err(Error::MemberNotFound(unknown_member))
    );

    simulation
        .set_member_relationship(member_a, member_a, affinity(0.3))
        .unwrap();
    assert_eq!(
        simulation.member_relationship(member_a, member_a).unwrap(),
        RelationshipLookup::Explicit {
            affinity: affinity(0.3),
            source: RelationshipLayer::MemberToMember,
        }
    );
}

#[test]
fn blank_faction_names_are_rejected_without_side_effects() {
    let mut simulation = Simulation::new(SimulationConfig { random_seed: 7 });
    assert_eq!(simulation.add_faction(String::new()), Err(Error::EmptyName));
    assert_eq!(
        simulation.add_faction(String::from(" \t\u{3000}\n")),
        Err(Error::EmptyName)
    );
    assert!(simulation.drain_events().is_empty());
    assert_eq!(simulation.config().random_seed, 7);
    let faction = simulation.add_faction(String::from("  Guild ")).unwrap();
    assert_eq!(faction.into_raw(), 1);
    assert_eq!(simulation.faction_name(faction), Some("  Guild "));
    assert!(name_is_blank("\u{85}\u{a0}\u{2028}"));
    assert!(!name_is_blank("\u{200b}"));
}

#[test]
fn identifiers_count_up_from_one_and_unknown_ids_are_errors() {
    let mut simulation = Simulation::new(SimulationConfig::default());
    let f1 = simulation.add_faction(String::from("one")).unwrap();
    let f2 = simulation.add_faction(String::from("two")).unwrap();
    let m1 = simulation.add_member(f2).unwrap();
    let m2 = simulation.add_member(f1).unwrap();
    assert_eq!((f1.into_raw(), f2.into_raw()), (1, 2));
    assert_eq!((m1.into_raw(), m2.into_raw()), (1, 2));
    assert_eq!(simulation.member_faction(MemberId::from_raw(3)), None);
    assert_eq!(simulation.member_pad(MemberId::from_raw(3)), None);
    assert_eq!(simulation.faction_name(FactionId::from_raw(3)), None);
    assert_eq!(
        simulation.effective_member_relationship(MemberId::from_raw(3), m1),
        Err(Error::MemberNotFound(MemberId::from_raw(3)))
    );
    assert_eq!(
        simulation.effective_member_relationship(m1, MemberId::from_raw(4)),
        Err(Error::MemberNotFound(MemberId::from_raw(4)))
    );
    assert_eq!(
        simulation.clear_faction_relationship(FactionId::from_raw(9), f1),
        Err(Error::FactionNotFound(FactionId::from_raw(9)))
    );
}

#[test]
fn clearing_a_missing_relationship_is_silent() {
    let (mut simulation, faction_a, faction_b, member_a, member_b) = relationship_simulation();
    simulation.clear_member_relationship(member_a, member_b).unwrap();
    simulation
        .clear_faction_member_relationship(faction_a, member_b)
        .unwrap();
    simulation.clear_faction_relationship(faction_b, faction_a).unwrap();
    assert!(simulation.drain_events().is_empty());
}
