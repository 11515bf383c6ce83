//! Laws of the library: how relationship operations relate, what a deed
//! submission does, how time expires memories, and what the C ABI wire
//! records carry, stated over the maps, simulation views, event queues and
//! wire records that the operations' contracts speak of.
use crate::relationship::{entry_of, lookup_in, RelationshipLayer, RelationshipLookup, RelationshipSubject};
use crate::deed::{DirectWitnessDeed, DirectWitnessSubmission};
use crate::simulation::{
    events_after_clear, events_after_set, MemberId, Simulation, SimulationEvent, WitnessArithmetic,
    WitnessView,
};
use crate::abi::{
    event_wire, evaluation_wire, memory_wire, outcome_wire, PF_EVENT_AFFINITY_CHANGED,
    PF_EVENT_DEED_EVALUATED, PF_EVENT_FACTION_ADDED, PF_EVENT_MEMBER_ADDED,
    PF_EVENT_MEMORY_EXPIRED, PF_EVENT_MEMORY_REMEMBERED, PF_EVENT_MEMORY_UPGRADED,
    PF_EVENT_PAD_CHANGED, PF_EVENT_RELATIONSHIP_CHANGED, PF_EVENT_TIME_ADVANCED,
    PF_MEMORY_DECISION_LONG_TERM, PF_MEMORY_DECISION_SHORT_TERM, PF_MEMORY_LONG_TERM,
    PF_MEMORY_NONE, PF_MEMORY_SHORT_TERM, PF_SUBMISSION_APPLIED, PF_SUBMISSION_DUPLICATE,
    submission_wire,
};
use crate::binary32::scaled_value;
use crate::deed::DirectWitnessOutcome;
use crate::simulation::{affinity_entry, changed_memory, checked_updates, remember};
use crate::values::{is_signed_unit, is_unsigned_unit};
use crate::evaluation::{
    evaluation_of, intensity_value, lemma_evaluation_of, lemma_intensity_pattern,
    DirectWitnessInput, MemoryDecision, WeightedTerms,
};
use crate::memory::{memory_for, MemoryKind};
use crate::values::Affinity;
use vstd::prelude::*;

verus! {

/// A lookup after setting an entry finds exactly the value that was set, on
/// the layer it was set on; an explicit neutral value is found, not `Missing`.
pub proof fn law_lookup_after_set(
    m: Map<(u64, u64), Affinity>,
    key: (u64, u64),
    affinity: Affinity,
    layer: RelationshipLayer,
)
    ensures
        lookup_in(m.insert(key, affinity), key, layer) == (RelationshipLookup::Explicit {
            affinity,
            source: layer,
        }),
{
}

/// A lookup after clearing an entry finds nothing.
pub proof fn law_lookup_after_clear(
    m: Map<(u64, u64), Affinity>,
    key: (u64, u64),
    layer: RelationshipLayer,
)
    ensures
        lookup_in(m.remove(key), key, layer) == RelationshipLookup::Missing,
{
}

/// Relationships are directed: setting `source -> target` leaves
/// `target -> source` as it was (unless both are the same entity).
pub proof fn law_relationships_are_directed(
    m: Map<(u64, u64), Affinity>,
    source: u64,
    target: u64,
    affinity: Affinity,
    layer: RelationshipLayer,
)
    requires
        source != target,
    ensures
        lookup_in(m.insert((source, target), affinity), (target, source), layer) == lookup_in(
            m,
            (target, source),
            layer,
        ),
        lookup_in(m.remove((source, target)), (target, source), layer) == lookup_in(
            m,
            (target, source),
            layer,
        ),
{
}

/// Setting the same value twice queues one event at most: the second set
/// changes nothing and queues nothing.
pub proof fn law_repeated_set_is_silent(
    events: Seq<SimulationEvent>,
    layer: RelationshipLayer,
    subject: RelationshipSubject,
    m: Map<(u64, u64), Affinity>,
    key: (u64, u64),
    affinity: Affinity,
)
    ensures
        m.insert(key, affinity).insert(key, affinity) == m.insert(key, affinity),
        events_after_set(
            events_after_set(events, layer, subject, entry_of(m, key), affinity),
            layer,
            subject,
            entry_of(m.insert(key, affinity), key),
            affinity,
        ) == events_after_set(events, layer, subject, entry_of(m, key), affinity),
{
    assert(m.insert(key, affinity).insert(key, affinity) =~= m.insert(key, affinity));
}

/// Clearing twice queues one event at most: the second clear finds nothing
/// to remove and queues nothing.
pub proof fn law_repeated_clear_is_silent(
    events: Seq<SimulationEvent>,
    layer: RelationshipLayer,
    subject: RelationshipSubject,
    m: Map<(u64, u64), Affinity>,
    key: (u64, u64),
)
    ensures
        m.remove(key).remove(key) == m.remove(key),
        events_after_clear(
            events_after_clear(events, layer, subject, entry_of(m, key)),
            layer,
            subject,
            entry_of(m.remove(key), key),
        ) == events_after_clear(events, layer, subject, entry_of(m, key)),
{
    assert(m.remove(key).remove(key) =~= m.remove(key));
}

/// Setting a new entry and clearing it again restores the layer, and queues
/// exactly two events: the addition (no previous value) and the removal (no
/// current value).
pub proof fn law_set_then_clear_restores(
    events: Seq<SimulationEvent>,
    layer: RelationshipLayer,
    subject: RelationshipSubject,
    m: Map<(u64, u64), Affinity>,
    key: (u64, u64),
    affinity: Affinity,
)
    requires
        !m.contains_key(key),
    ensures
        m.insert(key, affinity).remove(key) == m,
        events_after_clear(
            events_after_set(events, layer, subject, entry_of(m, key), affinity),
            layer,
            subject,
            entry_of(m.insert(key, affinity), key),
        ) == events.push(
            SimulationEvent::RelationshipChanged {
                layer,
                subject,
                previous: None,
                current: Some(affinity),
            },
        ).push(
            SimulationEvent::RelationshipChanged {
                layer,
                subject,
                previous: Some(affinity),
                current: None,
            },
        ),
{
    assert(m.insert(key, affinity).remove(key) =~= m);
}

/// An observer's own relationship toward a target overrides the faction
/// fallbacks: once it is set, the effective relationship is that value, found
/// on the member layer, whatever the faction layers hold.
pub proof fn law_member_entry_overrides_fallbacks(
    before: &Simulation,
    after: &Simulation,
    observer: MemberId,
    target: MemberId,
    affinity: Affinity,
)
    requires
        after.member_relationships() == before.member_relationships().insert(
            (observer@, target@),
            affinity,
        ),
    ensures
        after.effective_lookup(observer, target) == (RelationshipLookup::Explicit {
            affinity,
            source: RelationshipLayer::MemberToMember,
        }),
{
}

/// Clearing an observer's own relationship toward a target hands the
/// effective relationship back to the faction fallbacks, as they stood.
pub proof fn law_member_clear_restores_fallback(
    before: &Simulation,
    after: &Simulation,
    observer: MemberId,
    target: MemberId,
)
    requires
        after.member_relationships() == before.member_relationships().remove((observer@, target@)),
        after.faction_member_relationships() == before.faction_member_relationships(),
        after.faction_relationships() == before.faction_relationships(),
        after.member_factions() == before.member_factions(),
    ensures
        after.effective_lookup(observer, target) == before.fallback_lookup(observer, target),
{
}

/// A faction-to-member entry answers for every member of that faction that
/// has no relationship of its own toward the target, ahead of the
/// faction-to-faction layer.
pub proof fn law_faction_member_entry_precedes_faction_entry(
    sim: &Simulation,
    observer: MemberId,
    target: MemberId,
)
    requires
        !sim.member_relationships().contains_key((observer@, target@)),
        sim.faction_member_relationships().contains_key(
            (sim.member_factions()[observer@]@, target@),
        ),
    ensures
        sim.effective_lookup(observer, target) == (RelationshipLookup::Explicit {
            affinity: sim.faction_member_relationships()[(sim.member_factions()[observer@]@, target@)],
            source: RelationshipLayer::FactionToMember,
        }),
{
}

/// A deed is evaluated at most once per `(observer, deed_id)`: after one
/// submission of it (applied or not), submitting it again, whatever the
/// host's arithmetic, is a `Duplicate` that changes nothing.
pub proof fn law_deed_applies_once(
    sim: &Simulation,
    v: WitnessView,
    deed: DirectWitnessDeed,
    first: WitnessArithmetic,
    second: WitnessArithmetic,
)
    requires
        sim.witness_step(v, deed, first) is Ok,
    ensures
        sim.witness_step(v, deed, first) matches Ok((after, _)) && sim.witness_step(
            after,
            deed,
            second,
        ) == Ok::<(WitnessView, DirectWitnessSubmission), crate::simulation::Error>(
            (after, DirectWitnessSubmission::Duplicate { observer: deed.observer, deed_id: deed.deed_id }),
        ),
{
}

/// An applied submission keeps the events already queued and queues
/// `DeedEvaluated` before any other event of its own.
pub proof fn law_applied_deed_is_reported_first(
    sim: &Simulation,
    v: WitnessView,
    deed: DirectWitnessDeed,
    a: WitnessArithmetic,
)
    requires
        sim.witness_step(v, deed, a) matches Ok((_, submission)) && submission is Applied,
    ensures
        sim.witness_step(v, deed, a) matches Ok((after, _)) && after.events.len() > v.events.len()
            && after.events.subrange(0, v.events.len() as int) == v.events
            && after.events[v.events.len() as int] is DeedEvaluated,
{
    if let Ok((after, _)) = sim.witness_step(v, deed, a) {
        assert(after.events.subrange(0, v.events.len() as int) =~= v.events);
    }
}

/// The wire record of a relationship change names the relationship by the
/// key its layer stores it under: the source is the observer, the faction or
/// the source faction, and the target is the target member, the member or
/// the target faction; both presence flags follow the previous and current
/// values.
pub proof fn law_relationship_event_names_its_key(
    layer: RelationshipLayer,
    subject: RelationshipSubject,
    previous: Option<Affinity>,
    current: Option<Affinity>,
)
    ensures
        ({
            let wire = event_wire(
                SimulationEvent::RelationshipChanged { layer, subject, previous, current },
            );
            &&& wire.kind == PF_EVENT_RELATIONSHIP_CHANGED
            &&& (subject matches RelationshipSubject::MemberToMember { observer, target } ==> (
                wire.relationship_source_id == observer@ && wire.relationship_target_id
                    == target@))
            &&& (subject matches RelationshipSubject::FactionToMember { faction, member } ==> (
                wire.relationship_source_id == faction@ && wire.relationship_target_id
                    == member@))
            &&& (subject matches RelationshipSubject::FactionToFaction { source, target } ==> (
                wire.relationship_source_id == source@ && wire.relationship_target_id
                    == target@))
            &&& (wire.previous_present == 1) == (previous is Some)
            &&& (wire.current_present == 1) == (current is Some)
        }),
{
}

/// The wire code of an evaluation's memory decision: `PF_MEMORY_NONE` when
/// the deed is not remembered, `PF_MEMORY_DECISION_SHORT_TERM` and
/// `PF_MEMORY_DECISION_LONG_TERM` otherwise; a more intense deed never gets a
/// lower code, and a remembered deed's code is that of the record it leaves.
pub proof fn law_memory_decision_codes(
    first: DirectWitnessInput,
    first_terms: WeightedTerms,
    second: DirectWitnessInput,
    second_terms: WeightedTerms,
)
    ensures
        ({
            let e = evaluation_of(first, first_terms);
            let code = evaluation_wire(e).memory_kind;
            &&& e.memory_decision_of() == MemoryDecision::NotRemembered ==> code == PF_MEMORY_NONE
            &&& e.memory_decision_of() == MemoryDecision::ShortTerm ==> code
                == PF_MEMORY_DECISION_SHORT_TERM && code == PF_MEMORY_SHORT_TERM
            &&& e.memory_decision_of() == MemoryDecision::LongTerm ==> code
                == PF_MEMORY_DECISION_LONG_TERM && code == PF_MEMORY_LONG_TERM
        }),
        intensity_value(first) <= intensity_value(second) ==> evaluation_wire(
            evaluation_of(first, first_terms),
        ).memory_kind <= evaluation_wire(evaluation_of(second, second_terms)).memory_kind,
        forall|deed: DirectWitnessDeed, tick: u64, record: crate::memory::MemoryRecord|
            #[trigger] memory_for(deed, evaluation_of(first, first_terms), tick) == Ok::<
                Option<crate::memory::MemoryRecord>,
                crate::simulation::Error,
            >(Some(record)) ==> #[trigger] memory_wire(record).kind == evaluation_wire(
                evaluation_of(first, first_terms),
            ).memory_kind,
{
    lemma_evaluation_of(first, first_terms);
    lemma_evaluation_of(second, second_terms);
    assert forall|deed: DirectWitnessDeed, tick: u64, record: crate::memory::MemoryRecord|
        #[trigger] memory_for(deed, evaluation_of(first, first_terms), tick) == Ok::<
            Option<crate::memory::MemoryRecord>,
            crate::simulation::Error,
        >(Some(record)) implies #[trigger] memory_wire(record).kind == evaluation_wire(
            evaluation_of(first, first_terms),
        ).memory_kind by {
        let e = evaluation_of(first, first_terms);
        if e.memory_decision_of() == MemoryDecision::ShortTerm {
            crate::memory::lemma_record_for(deed, e, MemoryKind::ShortTerm, tick);
        } else if e.memory_decision_of() == MemoryDecision::LongTerm {
            crate::memory::lemma_record_for(deed, e, MemoryKind::LongTerm, tick);
        }
    }
}

/// The outcome of an applied deed, as written to the wire, reports the
/// observer's PAD before the deed as `previous_pad` and the PAD the deed left
/// it with as `current_pad`, and likewise its affinity toward the actor.
pub proof fn law_outcome_reports_state_before_and_after(
    sim: &Simulation,
    v: WitnessView,
    deed: DirectWitnessDeed,
    a: WitnessArithmetic,
)
    ensures
        sim.witness_step(v, deed, a) matches Ok((after, DirectWitnessSubmission::Applied(outcome)))
            ==> {
            let wire = outcome_wire(outcome);
            &&& wire.previous_pad == v.pads[deed.observer@]
            &&& wire.current_pad == after.pads[deed.observer@]
            &&& wire.previous_affinity == affinity_entry(
                v.affinities,
                (deed.observer@, deed.actor@),
            )@
            &&& wire.current_affinity == after.affinities[(deed.observer@, deed.actor@)]@
            &&& wire.deed_id == deed.deed_id
            &&& wire.observer == deed.observer@
            &&& wire.actor == deed.actor@
        },
{
    let key = (deed.observer@, deed.deed_id);
    if !v.seen.contains(key) {
        let lookup = sim.deed_lookup(deed);
        let evaluation = evaluation_of(sim.deed_input(deed), a.terms);
        let previous_affinity = affinity_entry(v.affinities, (deed.observer@, deed.actor@));
        let previous_pad = v.pads[deed.observer@];
        if let Ok((current_affinity, current_pad)) = checked_updates(a) {
            if let Ok(memory) = memory_for(deed, evaluation, sim.tick()) {
                if let Ok((memories, change)) = remember(v.memories, memory, sim.tick()) {
                    DirectWitnessOutcome::lemma_outcome_of(
                        deed,
                        lookup,
                        evaluation,
                        previous_affinity,
                        current_affinity,
                        previous_pad,
                        current_pad,
                        changed_memory(change),
                    );
                }
            }
        }
    }
}

/// A memory that a deed leaves fresh carries, on the wire, the salience
/// `max(|impact|, aggression)` of that deed: a value in `[0, 1]`, whatever
/// the sign of the impact.
pub proof fn law_fresh_memory_salience(
    deed: DirectWitnessDeed,
    input: DirectWitnessInput,
    terms: WeightedTerms,
    tick: u64,
    record: crate::memory::MemoryRecord,
)
    requires
        input.impact == deed.impact,
        input.aggression == deed.aggression,
        is_signed_unit(deed.impact@),
        is_unsigned_unit(deed.aggression@),
        memory_for(deed, evaluation_of(input, terms), tick) == Ok::<
            Option<crate::memory::MemoryRecord>,
            crate::simulation::Error,
        >(Some(record)),
    ensures
        is_unsigned_unit(memory_wire(record).salience),
        scaled_value(memory_wire(record).salience) == ({
            let i = scaled_value(deed.impact@);
            let magnitude = if i < 0 {
                -i
            } else {
                i
            };
            let g = scaled_value(deed.aggression@);
            if magnitude < g {
                g
            } else {
                magnitude
            }
        }),
{
    let e = evaluation_of(input, terms);
    lemma_evaluation_of(input, terms);
    lemma_intensity_pattern(input);
    if e.memory_decision_of() == MemoryDecision::ShortTerm {
        crate::memory::lemma_record_for(deed, e, MemoryKind::ShortTerm, tick);
    } else if e.memory_decision_of() == MemoryDecision::LongTerm {
        crate::memory::lemma_record_for(deed, e, MemoryKind::LongTerm, tick);
    }
}

/// A deed that does not threaten the observer (no target, or the threat flag
/// clear) leaves the observer's dominance as it was, whenever the host's
/// bounded update leaves a value alone under a zero delta: the dominance
/// update the host is asked for is exactly a zero delta on the current value.
pub proof fn law_unthreatened_dominance_is_unchanged<P, B>(
    sim: &Simulation,
    products: P,
    bounded: B,
    v: WitnessView,
    deed: DirectWitnessDeed,
    a: WitnessArithmetic,
) where P: Fn(DirectWitnessInput) -> WeightedTerms, B: Fn(u32, u32) -> Result<
    u32,
    crate::values::ValueError,
>
    requires
        !(deed.target is Some && deed.threatens_observer),
        is_signed_unit(v.pads[deed.observer@].dominance),
        forall|current: u32, r: Result<u32, crate::values::ValueError>|
            #[trigger] call_ensures(bounded, (current, 0u32), r) ==> r == Ok::<
                u32,
                crate::values::ValueError,
            >(current),
        sim.arithmetic_from(products, bounded, v, deed, a),
    ensures
        sim.witness_step(v, deed, a) matches Ok((after, _)) ==> after.pads[deed.observer@].dominance
            == v.pads[deed.observer@].dominance,
{
    let input = sim.deed_input(deed);
    lemma_evaluation_of(input, a.terms);
    crate::values::lemma_canonical_is_canonical(v.pads[deed.observer@].dominance);
    crate::binary32::lemma_one_value();
}

/// Every event's wire record carries its fixed tag and the event's own
/// values in the fields named after them: a value before a change as the
/// previous field and the value after it as the current one.
pub proof fn law_event_records_carry_their_values(e: SimulationEvent)
    ensures
        ({
            let wire = event_wire(e);
            match e {
                SimulationEvent::FactionAdded { faction_id } => wire.kind == PF_EVENT_FACTION_ADDED
                    && wire.faction_id == faction_id@,
                SimulationEvent::MemberAdded { member_id } => wire.kind == PF_EVENT_MEMBER_ADDED
                    && wire.member_id == member_id@,
                SimulationEvent::RelationshipChanged { previous, current, .. } => {
                    &&& wire.kind == PF_EVENT_RELATIONSHIP_CHANGED
                    &&& (previous matches Some(p) ==> wire.previous_affinity == p@)
                    &&& (current matches Some(c) ==> wire.current_affinity == c@)
                    &&& (previous is None ==> wire.previous_affinity == 0)
                    &&& (current is None ==> wire.current_affinity == 0)
                },
                SimulationEvent::DeedEvaluated { deed_id, observer, actor, target, evaluation } => {
                    &&& wire.kind == PF_EVENT_DEED_EVALUATED
                    &&& wire.deed_id == deed_id
                    &&& wire.observer == observer@
                    &&& wire.actor == actor@
                    &&& (target matches Some(t) ==> wire.target == t@ && wire.has_target == 1)
                    &&& (target is None ==> wire.target == 0 && wire.has_target == 0)
                    &&& wire.evaluation.concern == evaluation.concern_of()
                    &&& wire.evaluation.memory_salience == evaluation.memory_salience_of()
                    &&& wire.evaluation.raw_pad_delta == evaluation.raw_pad_delta_of()
                },
                SimulationEvent::AffinityChanged { observer, actor, previous, current } => {
                    &&& wire.kind == PF_EVENT_AFFINITY_CHANGED
                    &&& wire.observer == observer@
                    &&& wire.actor == actor@
                    &&& wire.previous_affinity == previous@
                    &&& wire.current_affinity == current@
                },
                SimulationEvent::PadChanged { member_id, previous, current } => {
                    &&& wire.kind == PF_EVENT_PAD_CHANGED
                    &&& wire.member_id == member_id@
                    &&& wire.previous_pad == previous
                    &&& wire.current_pad == current
                },
                SimulationEvent::MemoryRemembered { observer, deed_id, kind, salience } => {
                    &&& wire.kind == PF_EVENT_MEMORY_REMEMBERED
                    &&& wire.observer == observer@
                    &&& wire.deed_id == deed_id
                    &&& wire.memory_kind == (if kind == MemoryKind::ShortTerm {
                        PF_MEMORY_SHORT_TERM
                    } else {
                        PF_MEMORY_LONG_TERM
                    })
                    &&& wire.salience == salience
                },
                SimulationEvent::MemoryUpgraded { observer, deed_id, previous, current, salience } => {
                    &&& wire.kind == PF_EVENT_MEMORY_UPGRADED
                    &&& wire.observer == observer@
                    &&& wire.deed_id == deed_id
                    &&& wire.previous_memory_kind == (if previous == MemoryKind::ShortTerm {
                        PF_MEMORY_SHORT_TERM
                    } else {
                        PF_MEMORY_LONG_TERM
                    })
                    &&& wire.current_memory_kind == (if current == MemoryKind::ShortTerm {
                        PF_MEMORY_SHORT_TERM
                    } else {
                        PF_MEMORY_LONG_TERM
                    })
                    &&& wire.salience == salience
                },
                SimulationEvent::MemoryExpired { observer, deed_id, kind } => {
                    &&& wire.kind == PF_EVENT_MEMORY_EXPIRED
                    &&& wire.observer == observer@
                    &&& wire.deed_id == deed_id
                    &&& wire.memory_kind == (if kind == MemoryKind::ShortTerm {
                        PF_MEMORY_SHORT_TERM
                    } else {
                        PF_MEMORY_LONG_TERM
                    })
                },
                SimulationEvent::TimeAdvanced { previous_tick, current_tick } => {
                    &&& wire.kind == PF_EVENT_TIME_ADVANCED
                    &&& wire.previous_tick == previous_tick
                    &&& wire.current_tick == current_tick
                },
            }
        }),
{
}

/// A memory that a deed leaves fresh carries, on the wire, that deed's
/// observer, identifier, actor, target, impact and aggression, the tick it
/// was made at, and an expiry one retention period later: 60 ticks for a
/// short-term memory (salience below `0.75`), 3600 for a long-term one.
pub proof fn law_fresh_memory_record(
    deed: DirectWitnessDeed,
    input: DirectWitnessInput,
    terms: WeightedTerms,
    tick: u64,
    record: crate::memory::MemoryRecord,
)
    requires
        input.impact == deed.impact,
        input.aggression == deed.aggression,
        is_signed_unit(deed.impact@),
        is_unsigned_unit(deed.aggression@),
        memory_for(deed, evaluation_of(input, terms), tick) == Ok::<
            Option<crate::memory::MemoryRecord>,
            crate::simulation::Error,
        >(Some(record)),
    ensures
        ({
            let wire = memory_wire(record);
            &&& wire.observer == deed.observer@
            &&& wire.deed_id == deed.deed_id
            &&& wire.actor == deed.actor@
            &&& (deed.target matches Some(t) ==> wire.target == t@ && wire.has_target == 1)
            &&& (deed.target is None ==> wire.target == 0 && wire.has_target == 0)
            &&& wire.impact == deed.impact@
            &&& wire.aggression == deed.aggression@
            &&& wire.created_tick == tick
            &&& scaled_value(wire.salience) < scaled_value(0x3F40_0000u32) ==> wire.kind
                == PF_MEMORY_SHORT_TERM && wire.expires_at == tick + 60
            &&& scaled_value(wire.salience) >= scaled_value(0x3F40_0000u32) ==> wire.kind
                == PF_MEMORY_LONG_TERM && wire.expires_at == tick + 3600
        }),
{
    let e = evaluation_of(input, terms);
    lemma_evaluation_of(input, terms);
    lemma_intensity_pattern(input);
    if e.memory_decision_of() == MemoryDecision::ShortTerm {
        crate::memory::lemma_record_for(deed, e, MemoryKind::ShortTerm, tick);
    } else if e.memory_decision_of() == MemoryDecision::LongTerm {
        crate::memory::lemma_record_for(deed, e, MemoryKind::LongTerm, tick);
    }
}

/// `event` reports the expiry of a memory that `before` held, that had
/// reached its expiry at `target`, and that `after` no longer holds.
pub open spec fn names_expired_memory(
    event: SimulationEvent,
    before: &Simulation,
    after: &Simulation,
    target: u64,
) -> bool {
    match event {
        SimulationEvent::MemoryExpired { observer, deed_id, kind } => {
            &&& before.memory_records().contains_key((observer@, deed_id))
            &&& !after.memory_records().contains_key((observer@, deed_id))
            &&& before.memory_records()[(observer@, deed_id)].kind_of() == kind
            &&& before.memory_records()[(observer@, deed_id)].expires_at_of() <= target
        },
        _ => false,
    }
}

/// Moving the clock forward queues `TimeAdvanced` from the old tick to the
/// new one, and then, for each memory it removes, a `MemoryExpired` that
/// names a memory that had reached its expiry and is gone afterwards.
pub proof fn law_expiry_reports_removed_memories(
    before: &Simulation,
    after: &Simulation,
    target: u64,
    expired: Seq<crate::memory::MemoryRecord>,
)
    requires
        after.advanced_from(before, target, expired),
    ensures
        after.pending_events().len() == before.pending_events().len() + 1 + expired.len(),
        after.pending_events()[before.pending_events().len() as int]
            == (SimulationEvent::TimeAdvanced { previous_tick: before.tick(), current_tick: target }),
        forall|i: int|
            0 <= i < expired.len() ==> names_expired_memory(
                #[trigger] after.pending_events()[before.pending_events().len() + 1 + i],
                before,
                after,
                target,
            ),
{
    let n = before.pending_events().len();
    assert forall|i: int| 0 <= i < expired.len() implies names_expired_memory(
        #[trigger] after.pending_events()[n + 1 + i],
        before,
        after,
        target,
    ) by {
        let record = expired[i];
        assert(after.pending_events()[n + 1 + i] == crate::simulation::expired_event(record));
        assert(before.memory_records().contains_key(crate::memory::key_of(record)));
    }
}

/// An evaluation's wire record carries the host's concern, raw affinity delta
/// and pleasure and arousal products as they were handed in, full confidence
/// (`1.0`), the salience `max(|impact|, aggression)` as both event intensity
/// and memory salience, and a dominance delta that is the host's product
/// under threat and `0` otherwise.
pub proof fn law_evaluation_record(input: DirectWitnessInput, terms: WeightedTerms)
    requires
        is_signed_unit(input.impact@),
        is_unsigned_unit(input.aggression@),
    ensures
        ({
            let wire = evaluation_wire(evaluation_of(input, terms));
            &&& wire.concern == terms.concern
            &&& wire.raw_affinity_delta == terms.raw_affinity_delta
            &&& wire.effective_confidence == crate::binary32::ONE_BITS
            &&& wire.raw_pad_delta.pleasure == terms.raw_pad_delta.pleasure
            &&& wire.raw_pad_delta.arousal == terms.raw_pad_delta.arousal
            &&& (input.has_target && input.threatens_observer) ==> wire.raw_pad_delta.dominance
                == terms.raw_pad_delta.dominance
            &&& !(input.has_target && input.threatens_observer) ==> wire.raw_pad_delta.dominance
                == 0
            &&& wire.event_intensity == wire.memory_salience
            &&& scaled_value(wire.memory_salience) == intensity_value(input)
            &&& is_unsigned_unit(wire.memory_salience)
        }),
{
    lemma_evaluation_of(input, terms);
    lemma_intensity_pattern(input);
    crate::values::Confidence::lemma_one();
}

/// A submission's wire record is tagged `PF_SUBMISSION_DUPLICATE` exactly for
/// a duplicate and `PF_SUBMISSION_APPLIED` otherwise, carries the deed's
/// observer and identifier, and has an outcome record exactly when applied.
pub proof fn law_submission_record(submission: DirectWitnessSubmission)
    ensures
        ({
            let wire = submission_wire(submission);
            match submission {
                DirectWitnessSubmission::Duplicate { observer, deed_id } => {
                    &&& wire.kind == PF_SUBMISSION_DUPLICATE
                    &&& wire.observer == observer@
                    &&& wire.deed_id == deed_id
                    &&& wire.outcome is None
                },
                DirectWitnessSubmission::Applied(outcome) => {
                    &&& wire.kind == PF_SUBMISSION_APPLIED
                    &&& wire.observer == outcome.observer_of()@
                    &&& wire.deed_id == outcome.deed_id_of()
                    &&& wire.outcome == Some(outcome_wire(outcome))
                },
            }
        }),
{
}

} // verus!
