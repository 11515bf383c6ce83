//! An isolated social-affect simulation: factions, members, directed
//! relationships and the queue of events they produce.
use crate::pad::Pad;
use crate::relationship::{
    entry_of, lookup_in, RelationshipLayer, RelationshipLookup, RelationshipStore,
    RelationshipSubject,
};
use crate::binary32::{MINUS_ONE_BITS, ONE_BITS};
use crate::deed::{BatchError, DirectWitnessDeed, DirectWitnessOutcome, DirectWitnessSubmission};
use crate::evaluation::{
    evaluate_direct_witness, evaluation_of, DirectWitnessInput, EvaluationResult, WeightedTerms,
};
use crate::memory::{
    lists_expired, lists_records_of, memory_for, store_outcome, unexpired_keys, MemoryChange,
    MemoryKind, MemoryRecord, MemoryStore,
};
use crate::time::LogicalClock;
use crate::values::{checked_affinity, validated, Affinity, PadValue, ValueError};
use std::collections::{BTreeMap, BTreeSet, VecDeque};
use vstd::prelude::*;

verus! {

/// Stable identifier for a faction inside one simulation.
#[derive(Clone, Copy, Debug, PartialEq, Eq, Structural, PartialOrd, Ord)]
pub struct FactionId(u64);

/// Stable identifier for a member inside one simulation.
#[derive(Clone, Copy, Debug, PartialEq, Eq, Structural, PartialOrd, Ord)]
pub struct MemberId(u64);

impl View for FactionId {
    type V = u64;

    /// The raw identifier.
    closed spec fn view(&self) -> u64 {
        self.0
    }
}

impl View for MemberId {
    type V = u64;

    /// The raw identifier.
    closed spec fn view(&self) -> u64 {
        self.0
    }
}

impl FactionId {
    /// The identifier with the given raw value.
    pub fn from_raw(value: u64) -> (r: Self)
        ensures
            r@ == value,
    {
        FactionId(value)
    }

    /// The raw value of the identifier.
    pub fn into_raw(self) -> (r: u64)
        ensures
            r == self@,
    {
        self.0
    }

    /// Identifiers are equal exactly when their raw values are.
    pub proof fn lemma_view_injective(a: Self, b: Self)
        ensures
            (a == b) <==> (a@ == b@),
    {
    }
}

impl MemberId {
    /// The identifier with the given raw value.
    pub fn from_raw(value: u64) -> (r: Self)
        ensures
            r@ == value,
    {
        MemberId(value)
    }

    /// The raw value of the identifier.
    pub fn into_raw(self) -> (r: u64)
        ensures
            r == self@,
    {
        self.0
    }

    /// Identifiers are equal exactly when their raw values are.
    pub proof fn lemma_view_injective(a: Self, b: Self)
        ensures
            (a == b) <==> (a@ == b@),
    {
    }
}

/// Configuration shared by one simulation instance.
#[derive(Clone, Copy, Debug, PartialEq, Eq, Structural)]
pub struct SimulationConfig {
    pub random_seed: u64,
}

impl Default for SimulationConfig {
    /// A configuration with random seed zero.
    fn default() -> (r: Self)
        ensures
            r.random_seed == 0,
    {
        SimulationConfig { random_seed: 0 }
    }
}

/// Errors returned by simulation commands and queries.
#[derive(Clone, Copy, Debug, PartialEq, Eq, Structural)]
pub enum Error {
    EmptyName,
    FactionNotFound(FactionId),
    MemberNotFound(MemberId),
    ActorTargetSame(MemberId),
    Value(ValueError),
    TimeWentBackwards { current_tick: u64, target_tick: u64 },
    TimeOverflow,
}

impl From<ValueError> for Error {
    /// A value error as a simulation error.
    fn from(error: ValueError) -> (r: Self) {
        Error::Value(error)
    }
}

impl vstd::std_specs::convert::FromSpecImpl<ValueError> for Error {
    open spec fn obeys_from_spec() -> bool {
        true
    }

    open spec fn from_spec(error: ValueError) -> Self {
        Error::Value(error)
    }
}

/// Events queued by simulation commands, in the order the commands ran.
#[allow(inconsistent_fields)]
#[derive(Clone, Copy, Debug, PartialEq, Eq, Structural)]
pub enum SimulationEvent {
    FactionAdded { faction_id: FactionId },
    MemberAdded { member_id: MemberId },
    RelationshipChanged {
        layer: RelationshipLayer,
        subject: RelationshipSubject,
        previous: Option<Affinity>,
        current: Option<Affinity>,
    },
    DeedEvaluated {
        deed_id: u64,
        observer: MemberId,
        actor: MemberId,
        target: Option<MemberId>,
        evaluation: EvaluationResult,
    },
    AffinityChanged { observer: MemberId, actor: MemberId, previous: Affinity, current: Affinity },
    PadChanged { member_id: MemberId, previous: Pad, current: Pad },
    MemoryRemembered { observer: MemberId, deed_id: u64, kind: MemoryKind, salience: u32 },
    MemoryUpgraded {
        observer: MemberId,
        deed_id: u64,
        previous: MemoryKind,
        current: MemoryKind,
        salience: u32,
    },
    MemoryExpired { observer: MemberId, deed_id: u64, kind: MemoryKind },
    TimeAdvanced { previous_tick: u64, current_tick: u64 },
}


/// Whether a name is empty once leading and trailing whitespace is removed,
/// i.e. whether every character is Unicode `White_Space`.
pub open spec fn is_blank(name: Seq<char>) -> bool {
    forall|i: int| 0 <= i < name.len() ==> #[trigger] is_white_space(name[i])
}

/// The Unicode `White_Space` property, which `char::is_whitespace` documents.
pub open spec fn is_white_space(c: char) -> bool {
    let u = c as u32;
    ||| 0x09 <= u <= 0x0D
    ||| u == 0x20
    ||| u == 0x85
    ||| u == 0xA0
    ||| u == 0x1680
    ||| 0x2000 <= u <= 0x200A
    ||| u == 0x2028
    ||| u == 0x2029
    ||| u == 0x202F
    ||| u == 0x205F
    ||| u == 0x3000
}

/// Whether `c` has the Unicode `White_Space` property.
pub fn is_whitespace(c: char) -> (r: bool)
    ensures
        r == is_white_space(c),
{
    let u = c as u32;
    (0x09 <= u && u <= 0x0D) || u == 0x20 || u == 0x85 || u == 0xA0 || u == 0x1680 || (0x2000 <= u
        && u <= 0x200A) || u == 0x2028 || u == 0x2029 || u == 0x202F || u == 0x205F || u == 0x3000
}

/// Whether every character of `name` is whitespace (so that trimming leaves it empty).
pub fn name_is_blank(name: &str) -> (r: bool)
    ensures
        r == is_blank(name@),
{
    let ghost text = name@;
    let mut all_white = true;
    for c in it: name.chars()
        invariant
            it.seq() == text,
            all_white == (forall|i: int| 0 <= i < it.index() ==> #[trigger] is_white_space(text[i])),
    {
        if !is_whitespace(c) {
            all_white = false;
        }
    }
    all_white
}

/// A registered faction.
#[derive(Clone, Debug)]
struct Faction {
    name: String,
}

/// A registered member.
#[derive(Clone, Debug)]
struct Member {
    faction_id: FactionId,
    pad: Pad,
}

/// Owns all state for an isolated social-affect simulation.
pub struct Simulation {
    config: SimulationConfig,
    next_faction_id: u64,
    next_member_id: u64,
    factions: BTreeMap<u64, Faction>,
    members: BTreeMap<u64, Member>,
    relationships: RelationshipStore,
    events: VecDeque<SimulationEvent>,
    clock: LogicalClock,
    affinities: BTreeMap<(u64, u64), Affinity>,
    memories: MemoryStore,
    seen: BTreeSet<(u64, u64)>,
}

/// The event recorded when a relationship entry changes from `previous` to `current`.
pub open spec fn changed_event(
    layer: RelationshipLayer,
    subject: RelationshipSubject,
    previous: Option<Affinity>,
    current: Option<Affinity>,
) -> SimulationEvent {
    SimulationEvent::RelationshipChanged { layer, subject, previous, current }
}

/// The queue after setting an entry whose previous value was `previous`:
/// one event when the value actually changes, none otherwise.
pub open spec fn events_after_set(
    events: Seq<SimulationEvent>,
    layer: RelationshipLayer,
    subject: RelationshipSubject,
    previous: Option<Affinity>,
    affinity: Affinity,
) -> Seq<SimulationEvent> {
    if previous == Some(affinity) {
        events
    } else {
        events.push(changed_event(layer, subject, previous, Some(affinity)))
    }
}

/// The queue after clearing an entry whose previous value was `previous`:
/// one event when an entry was removed, none otherwise.
pub open spec fn events_after_clear(
    events: Seq<SimulationEvent>,
    layer: RelationshipLayer,
    subject: RelationshipSubject,
    previous: Option<Affinity>,
) -> Seq<SimulationEvent> {
    if previous is Some {
        events.push(changed_event(layer, subject, previous, None))
    } else {
        events
    }
}

impl Simulation {
    /// The configuration the simulation was created with.
    pub closed spec fn configuration(&self) -> SimulationConfig {
        self.config
    }

    /// The raw identifier the next added faction receives.
    pub closed spec fn next_faction(&self) -> u64 {
        self.next_faction_id
    }

    /// The raw identifier the next added member receives.
    pub closed spec fn next_member(&self) -> u64 {
        self.next_member_id
    }

    /// Registered factions and their names, by raw identifier.
    pub closed spec fn faction_names(&self) -> Map<u64, Seq<char>> {
        self.factions@.map_values(|f: Faction| f.name@)
    }

    /// Registered members and their factions, by raw identifier.
    pub closed spec fn member_factions(&self) -> Map<u64, FactionId> {
        self.members@.map_values(|m: Member| m.faction_id)
    }

    /// Registered members and their PAD state, by raw identifier.
    pub closed spec fn member_pads(&self) -> Map<u64, Pad> {
        self.members@.map_values(|m: Member| m.pad)
    }

    /// Member-to-member relationships, keyed by raw `(observer, target)`.
    pub closed spec fn member_relationships(&self) -> Map<(u64, u64), Affinity> {
        self.relationships.members()
    }

    /// Faction-to-member relationships, keyed by raw `(faction, member)`.
    pub closed spec fn faction_member_relationships(&self) -> Map<(u64, u64), Affinity> {
        self.relationships.faction_members()
    }

    /// Faction-to-faction relationships, keyed by raw `(source, target)`.
    pub closed spec fn faction_relationships(&self) -> Map<(u64, u64), Affinity> {
        self.relationships.factions()
    }

    /// Events not yet drained, oldest first.
    pub closed spec fn pending_events(&self) -> Seq<SimulationEvent> {
        self.events@
    }

    /// The current logical tick.
    pub closed spec fn tick(&self) -> u64 {
        self.clock@
    }

    /// Each observer's dynamic affinity toward an actor, keyed by raw
    /// `(observer, actor)`; a pair without an entry is neutral.
    pub closed spec fn member_affinities(&self) -> Map<(u64, u64), Affinity> {
        self.affinities@
    }

    /// The remembered deeds, keyed by raw `(observer, deed_id)`.
    pub closed spec fn memory_records(&self) -> Map<(u64, u64), MemoryRecord> {
        self.memories.records()
    }

    /// The raw `(observer, deed_id)` of every deed applied so far; they are
    /// kept when memories expire.
    pub closed spec fn seen_deeds(&self) -> Set<(u64, u64)> {
        self.seen@
    }

    /// Whether a member with this identifier is registered.
    pub open spec fn has_member(&self, member: MemberId) -> bool {
        self.member_factions().contains_key(member@)
    }

    /// Whether a faction with this identifier is registered.
    pub open spec fn has_faction(&self, faction: FactionId) -> bool {
        self.faction_names().contains_key(faction@)
    }

    /// Identifiers are handed out in increasing order from one, and every
    /// member belongs to a registered faction.
    pub open spec fn well_formed(&self) -> bool {
        &&& 1 <= self.next_faction()
        &&& 1 <= self.next_member()
        &&& forall|k: u64| #[trigger]
            self.faction_names().contains_key(k) ==> 1 <= k < self.next_faction()
        &&& forall|k: u64| #[trigger]
            self.member_factions().contains_key(k) ==> {
                &&& 1 <= k < self.next_member()
                &&& self.faction_names().contains_key(self.member_factions()[k]@)
            }
        &&& self.member_pads().dom() == self.member_factions().dom()
        &&& self.memories_keyed()
    }

    /// Every memory is stored under its own `(observer, deed_id)`.
    pub closed spec fn memories_keyed(&self) -> bool {
        self.memories.well_formed()
    }

    /// The clock, the dynamic affinities, the memories and the applied deeds are the same.
    pub open spec fn same_history(&self, other: &Self) -> bool {
        &&& self.tick() == other.tick()
        &&& self.member_affinities() == other.member_affinities()
        &&& self.memory_records() == other.memory_records()
        &&& self.seen_deeds() == other.seen_deeds()
    }

    /// The entities (configuration, identifiers, factions and members) are the same.
    pub open spec fn same_entities(&self, other: &Self) -> bool {
        &&& self.configuration() == other.configuration()
        &&& self.next_faction() == other.next_faction()
        &&& self.next_member() == other.next_member()
        &&& self.faction_names() == other.faction_names()
        &&& self.member_factions() == other.member_factions()
        &&& self.member_pads() == other.member_pads()
        &&& self.same_history(other)
    }

    /// The three relationship layers are the same.
    pub open spec fn same_relationships(&self, other: &Self) -> bool {
        &&& self.member_relationships() == other.member_relationships()
        &&& self.faction_member_relationships() == other.faction_member_relationships()
        &&& self.faction_relationships() == other.faction_relationships()
    }

    /// The whole observable state is the same.
    pub open spec fn same_state(&self, other: &Self) -> bool {
        &&& self.same_entities(other)
        &&& self.same_relationships(other)
        &&& self.pending_events() == other.pending_events()
    }

    /// The faction-level answer for an observer and a target member: the
    /// observer's faction toward the target, else toward the target's
    /// faction, else `Missing`.
    pub open spec fn fallback_lookup(&self, observer: MemberId, target: MemberId) -> RelationshipLookup {
        let observer_faction = self.member_factions()[observer@]@;
        let target_faction = self.member_factions()[target@]@;
        if self.faction_member_relationships().contains_key((observer_faction, target@)) {
            lookup_in(
                self.faction_member_relationships(),
                (observer_faction, target@),
                RelationshipLayer::FactionToMember,
            )
        } else {
            lookup_in(
                self.faction_relationships(),
                (observer_faction, target_faction),
                RelationshipLayer::FactionToFaction,
            )
        }
    }

    /// The relationship an observer has toward a target member: the first
    /// entry found on the member, faction-to-member and faction-to-faction
    /// layers, in that order, or `Missing`.
    pub open spec fn effective_lookup(&self, observer: MemberId, target: MemberId) -> RelationshipLookup {
        if self.member_relationships().contains_key((observer@, target@)) {
            lookup_in(
                self.member_relationships(),
                (observer@, target@),
                RelationshipLayer::MemberToMember,
            )
        } else {
            self.fallback_lookup(observer, target)
        }
    }

    /// The error for a pair of members, the first unknown one, if any.
    pub open spec fn member_pair_error(&self, a: MemberId, b: MemberId) -> Option<Error> {
        if !self.has_member(a) {
            Some(Error::MemberNotFound(a))
        } else if !self.has_member(b) {
            Some(Error::MemberNotFound(b))
        } else {
            None
        }
    }

    /// The error for a faction and a member, the first unknown one, if any.
    pub open spec fn faction_member_error(&self, f: FactionId, m: MemberId) -> Option<Error> {
        if !self.has_faction(f) {
            Some(Error::FactionNotFound(f))
        } else if !self.has_member(m) {
            Some(Error::MemberNotFound(m))
        } else {
            None
        }
    }

    /// The error for a pair of factions, the first unknown one, if any.
    pub open spec fn faction_pair_error(&self, a: FactionId, b: FactionId) -> Option<Error> {
        if !self.has_faction(a) {
            Some(Error::FactionNotFound(a))
        } else if !self.has_faction(b) {
            Some(Error::FactionNotFound(b))
        } else {
            None
        }
    }

    /// A new, empty simulation.
    pub fn new(config: SimulationConfig) -> (r: Self)
        ensures
            r.configuration() == config,
            r.next_faction() == 1,
            r.next_member() == 1,
            r.faction_names() == Map::<u64, Seq<char>>::empty(),
            r.member_factions() == Map::<u64, FactionId>::empty(),
            r.member_pads() == Map::<u64, Pad>::empty(),
            r.member_relationships() == Map::<(u64, u64), Affinity>::empty(),
            r.faction_member_relationships() == Map::<(u64, u64), Affinity>::empty(),
            r.faction_relationships() == Map::<(u64, u64), Affinity>::empty(),
            r.pending_events() == Seq::<SimulationEvent>::empty(),
            r.tick() == 0,
            r.member_affinities() == Map::<(u64, u64), Affinity>::empty(),
            r.memory_records() == Map::<(u64, u64), MemoryRecord>::empty(),
            r.seen_deeds() == Set::<(u64, u64)>::empty(),
            r.well_formed(),
    {
        let r = Simulation {
            config,
            next_faction_id: 1,
            next_member_id: 1,
            factions: BTreeMap::new(),
            members: BTreeMap::new(),
            relationships: RelationshipStore::new(),
            events: VecDeque::new(),
            clock: LogicalClock::new(),
            affinities: BTreeMap::new(),
            memories: MemoryStore::new(),
            seen: BTreeSet::new(),
        };
        proof {
            assert(r.faction_names() =~= Map::<u64, Seq<char>>::empty());
            assert(r.member_factions() =~= Map::<u64, FactionId>::empty());
            assert(r.member_pads() =~= Map::<u64, Pad>::empty());
        }
        r
    }

    /// The configuration the simulation was created with.
    pub fn config(&self) -> (r: SimulationConfig)
        ensures
            r == self.configuration(),
    {
        self.config
    }

    /// Registers a faction under a name that is not blank.
    pub fn add_faction(&mut self, name: String) -> (r: Result<FactionId, Error>)
        requires
            old(self).well_formed(),
            old(self).next_faction() < u64::MAX || is_blank(name@),
        ensures
            is_blank(name@) ==> r == Err::<FactionId, Error>(Error::EmptyName)
                && final(self).same_state(old(self)),
            !is_blank(name@) ==> match r {
                Err(_) => false,
                Ok(id) => {
                &&& id@ == old(self).next_faction()
                &&& !old(self).faction_names().contains_key(id@)
                &&& final(self).next_faction() == old(self).next_faction() + 1
                &&& final(self).faction_names() == old(self).faction_names().insert(id@, name@)
                &&& final(self).pending_events() == old(self).pending_events().push(
                    SimulationEvent::FactionAdded { faction_id: id },
                )
                &&& final(self).configuration() == old(self).configuration()
                &&& final(self).next_member() == old(self).next_member()
                &&& final(self).member_factions() == old(self).member_factions()
                &&& final(self).member_pads() == old(self).member_pads()
                &&& final(self).same_history(old(self))
                &&& final(self).same_relationships(old(self))
                },
            },
            final(self).well_formed(),
    {
        if name_is_blank(name.as_str()) {
            return Err(Error::EmptyName);
        }
        let faction_id = FactionId(self.next_faction_id);
        self.next_faction_id = self.next_faction_id + 1;
        self.factions.insert(faction_id.0, Faction { name });
        self.events.push_back(SimulationEvent::FactionAdded { faction_id });
        proof {
            assert(self.faction_names() =~= old(self).faction_names().insert(
                faction_id@,
                name@,
            ));
            assert(self.member_factions() =~= old(self).member_factions());
            assert(self.member_pads() =~= old(self).member_pads());
        }
        Ok(faction_id)
    }

    /// The name of a registered faction.
    pub fn faction_name(&self, faction_id: FactionId) -> (r: Option<&str>)
        ensures
            match r {
                Some(name) => self.has_faction(faction_id) && name@ == self.faction_names()[faction_id@],
                None => !self.has_faction(faction_id),
            },
    {
        match self.factions.get(&faction_id.into_raw()) {
            Some(faction) => Some(faction.name.as_str()),
            None => None,
        }
    }

    /// Registers a member of a registered faction, with a neutral PAD state.
    pub fn add_member(&mut self, faction_id: FactionId) -> (r: Result<MemberId, Error>)
        requires
            old(self).well_formed(),
            old(self).next_member() < u64::MAX || !old(self).has_faction(faction_id),
        ensures
            !old(self).has_faction(faction_id) ==> r == Err::<MemberId, Error>(
                Error::FactionNotFound(faction_id),
            ) && final(self).same_state(old(self)),
            old(self).has_faction(faction_id) ==> match r {
                Err(_) => false,
                Ok(id) => {
                    &&& id@ == old(self).next_member()
                    &&& !old(self).member_factions().contains_key(id@)
                    &&& final(self).next_member() == old(self).next_member() + 1
                    &&& final(self).member_factions() == old(self).member_factions().insert(
                        id@,
                        faction_id,
                    )
                    &&& final(self).member_pads() == old(self).member_pads().insert(
                        id@,
                        Pad { pleasure: 0, arousal: 0, dominance: 0 },
                    )
                    &&& final(self).pending_events() == old(self).pending_events().push(
                        SimulationEvent::MemberAdded { member_id: id },
                    )
                    &&& final(self).configuration() == old(self).configuration()
                    &&& final(self).next_faction() == old(self).next_faction()
                    &&& final(self).faction_names() == old(self).faction_names()
                    &&& final(self).same_history(old(self))
                    &&& final(self).same_relationships(old(self))
                },
            },
            final(self).well_formed(),
    {
        if !self.factions.contains_key(&faction_id.into_raw()) {
            return Err(Error::FactionNotFound(faction_id));
        }
        let member_id = MemberId(self.next_member_id);
        self.next_member_id = self.next_member_id + 1;
        self.members.insert(member_id.0, Member { faction_id, pad: Pad::default() });
        self.events.push_back(SimulationEvent::MemberAdded { member_id });
        proof {
            assert(self.member_factions() =~= old(self).member_factions().insert(
                member_id@,
                faction_id,
            ));
            assert(self.member_pads() =~= old(self).member_pads().insert(
                member_id@,
                Pad { pleasure: 0, arousal: 0, dominance: 0 },
            ));
            assert(self.faction_names() =~= old(self).faction_names());
        }
        Ok(member_id)
    }

    /// The faction of a registered member.
    pub fn member_faction(&self, member_id: MemberId) -> (r: Option<FactionId>)
        ensures
            r == if self.has_member(member_id) {
                Some(self.member_factions()[member_id@])
            } else {
                None::<FactionId>
            },
    {
        match self.members.get(&member_id.into_raw()) {
            Some(member) => Some(member.faction_id),
            None => None,
        }
    }

    /// The PAD state of a registered member.
    pub fn member_pad(&self, member_id: MemberId) -> (r: Option<Pad>)
        ensures
            r == if self.has_member(member_id) {
                Some(self.member_pads()[member_id@])
            } else {
                None::<Pad>
            },
    {
        match self.members.get(&member_id.into_raw()) {
            Some(member) => Some(member.pad),
            None => None,
        }
    }

    /// Sets the MemberToMember relationship; an event is queued only when the value changes.
    pub fn set_member_relationship(&mut self, observer: MemberId, target: MemberId, affinity: Affinity) -> (r: Result<(), Error>)
        requires
            old(self).well_formed(),
        ensures
            final(self).well_formed(),
            match old(self).member_pair_error(observer, target) {
                Some(e) => r == Err::<(), Error>(e) && final(self).same_state(old(self)),
                None => {
                    &&& r == Ok::<(), Error>(())
                    &&& final(self).member_relationships() == old(self).member_relationships().insert((observer@, target@), affinity)
                    &&& final(self).faction_member_relationships() == old(self).faction_member_relationships()
                    &&& final(self).faction_relationships() == old(self).faction_relationships()
                    &&& final(self).same_entities(old(self))
                    &&& final(self).pending_events() == events_after_set(
                        old(self).pending_events(),
                        RelationshipLayer::MemberToMember,
                        RelationshipSubject::MemberToMember { observer, target },
                        entry_of(old(self).member_relationships(), (observer@, target@)),
                        affinity,
                    )
                },
            },
    {
        match self.require_member(observer) {
            Ok(()) => {},
            Err(e) => return Err(e),
        }
        match self.require_member(target) {
            Ok(()) => {},
            Err(e) => return Err(e),
        }
        let previous = self.relationships.set_member_to_member(observer, target, affinity);
        if !holds_value(previous, affinity) {
            self.events.push_back(
                SimulationEvent::RelationshipChanged {
                    layer: RelationshipLayer::MemberToMember,
                    subject: RelationshipSubject::MemberToMember { observer, target },
                    previous,
                    current: Some(affinity),
                },
            );
        }
        Ok(())
    }

    /// Clears the MemberToMember relationship; an event is queued only when an entry is removed.
    pub fn clear_member_relationship(&mut self, observer: MemberId, target: MemberId) -> (r: Result<(), Error>)
        requires
            old(self).well_formed(),
        ensures
            final(self).well_formed(),
            match old(self).member_pair_error(observer, target) {
                Some(e) => r == Err::<(), Error>(e) && final(self).same_state(old(self)),
                None => {
                    &&& r == Ok::<(), Error>(())
                    &&& final(self).member_relationships() == old(self).member_relationships().remove((observer@, target@))
                    &&& final(self).faction_member_relationships() == old(self).faction_member_relationships()
                    &&& final(self).faction_relationships() == old(self).faction_relationships()
                    &&& final(self).same_entities(old(self))
                    &&& final(self).pending_events() == events_after_clear(
                        old(self).pending_events(),
                        RelationshipLayer::MemberToMember,
                        RelationshipSubject::MemberToMember { observer, target },
                        entry_of(old(self).member_relationships(), (observer@, target@)),
                    )
                },
            },
    {
        match self.require_member(observer) {
            Ok(()) => {},
            Err(e) => return Err(e),
        }
        match self.require_member(target) {
            Ok(()) => {},
            Err(e) => return Err(e),
        }
        let previous = self.relationships.clear_member_to_member(observer, target);
        if previous.is_some() {
            self.events.push_back(
                SimulationEvent::RelationshipChanged {
                    layer: RelationshipLayer::MemberToMember,
                    subject: RelationshipSubject::MemberToMember { observer, target },
                    previous,
                    current: None,
                },
            );
        }
        Ok(())
    }

    /// The MemberToMember relationship, without fallback.
    pub fn member_relationship(&self, observer: MemberId, target: MemberId) -> (r: Result<RelationshipLookup, Error>)
        ensures
            r == match self.member_pair_error(observer, target) {
                Some(e) => Err::<RelationshipLookup, Error>(e),
                None => Ok(lookup_in(self.member_relationships(), (observer@, target@), RelationshipLayer::MemberToMember)),
            },
    {
        match self.require_member(observer) {
            Ok(()) => {},
            Err(e) => return Err(e),
        }
        match self.require_member(target) {
            Ok(()) => {},
            Err(e) => return Err(e),
        }
        Ok(self.relationships.member_to_member(observer, target))
    }

    /// Sets the FactionToMember relationship; an event is queued only when the value changes.
    pub fn set_faction_member_relationship(&mut self, faction: FactionId, member: MemberId, affinity: Affinity) -> (r: Result<(), Error>)
        requires
            old(self).well_formed(),
        ensures
            final(self).well_formed(),
            match old(self).faction_member_error(faction, member) {
                Some(e) => r == Err::<(), Error>(e) && final(self).same_state(old(self)),
                None => {
                    &&& r == Ok::<(), Error>(())
                    &&& final(self).faction_member_relationships() == old(self).faction_member_relationships().insert((faction@, member@), affinity)
                    &&& final(self).member_relationships() == old(self).member_relationships()
                    &&& final(self).faction_relationships() == old(self).faction_relationships()
                    &&& final(self).same_entities(old(self))
                    &&& final(self).pending_events() == events_after_set(
                        old(self).pending_events(),
                        RelationshipLayer::FactionToMember,
                        RelationshipSubject::FactionToMember { faction, member },
                        entry_of(old(self).faction_member_relationships(), (faction@, member@)),
                        affinity,
                    )
                },
            },
    {
        match self.require_faction(faction) {
            Ok(()) => {},
            Err(e) => return Err(e),
        }
        match self.require_member(member) {
            Ok(()) => {},
            Err(e) => return Err(e),
        }
        let previous = self.relationships.set_faction_to_member(faction, member, affinity);
        if !holds_value(previous, affinity) {
            self.events.push_back(
                SimulationEvent::RelationshipChanged {
                    layer: RelationshipLayer::FactionToMember,
                    subject: RelationshipSubject::FactionToMember { faction, member },
                    previous,
                    current: Some(affinity),
                },
            );
        }
        Ok(())
    }

    /// Clears the FactionToMember relationship; an event is queued only when an entry is removed.
    pub fn clear_faction_member_relationship(&mut self, faction: FactionId, member: MemberId) -> (r: Result<(), Error>)
        requires
            old(self).well_formed(),
        ensures
            final(self).well_formed(),
            match old(self).faction_member_error(faction, member) {
                Some(e) => r == Err::<(), Error>(e) && final(self).same_state(old(self)),
                None => {
                    &&& r == Ok::<(), Error>(())
                    &&& final(self).faction_member_relationships() == old(self).faction_member_relationships().remove((faction@, member@))
                    &&& final(self).member_relationships() == old(self).member_relationships()
                    &&& final(self).faction_relationships() == old(self).faction_relationships()
                    &&& final(self).same_entities(old(self))
                    &&& final(self).pending_events() == events_after_clear(
                        old(self).pending_events(),
                        RelationshipLayer::FactionToMember,
                        RelationshipSubject::FactionToMember { faction, member },
                        entry_of(old(self).faction_member_relationships(), (faction@, member@)),
                    )
                },
            },
    {
        match self.require_faction(faction) {
            Ok(()) => {},
            Err(e) => return Err(e),
        }
        match self.require_member(member) {
            Ok(()) => {},
            Err(e) => return Err(e),
        }
        let previous = self.relationships.clear_faction_to_member(faction, member);
        if previous.is_some() {
            self.events.push_back(
                SimulationEvent::RelationshipChanged {
                    layer: RelationshipLayer::FactionToMember,
                    subject: RelationshipSubject::FactionToMember { faction, member },
                    previous,
                    current: None,
                },
            );
        }
        Ok(())
    }

    /// The FactionToMember relationship, without fallback.
    pub fn faction_member_relationship(&self, faction: FactionId, member: MemberId) -> (r: Result<RelationshipLookup, Error>)
        ensures
            r == match self.faction_member_error(faction, member) {
                Some(e) => Err::<RelationshipLookup, Error>(e),
                None => Ok(lookup_in(self.faction_member_relationships(), (faction@, member@), RelationshipLayer::FactionToMember)),
            },
    {
        match self.require_faction(faction) {
            Ok(()) => {},
            Err(e) => return Err(e),
        }
        match self.require_member(member) {
            Ok(()) => {},
            Err(e) => return Err(e),
        }
        Ok(self.relationships.faction_to_member(faction, member))
    }

    /// Sets the FactionToFaction relationship; an event is queued only when the value changes.
    pub fn set_faction_relationship(&mut self, source: FactionId, target: FactionId, affinity: Affinity) -> (r: Result<(), Error>)
        requires
            old(self).well_formed(),
        ensures
            final(self).well_formed(),
            match old(self).faction_pair_error(source, target) {
                Some(e) => r == Err::<(), Error>(e) && final(self).same_state(old(self)),
                None => {
                    &&& r == Ok::<(), Error>(())
                    &&& final(self).faction_relationships() == old(self).faction_relationships().insert((source@, target@), affinity)
                    &&& final(self).member_relationships() == old(self).member_relationships()
                    &&& final(self).faction_member_relationships() == old(self).faction_member_relationships()
                    &&& final(self).same_entities(old(self))
                    &&& final(self).pending_events() == events_after_set(
                        old(self).pending_events(),
                        RelationshipLayer::FactionToFaction,
                        RelationshipSubject::FactionToFaction { source, target },
                        entry_of(old(self).faction_relationships(), (source@, target@)),
                        affinity,
                    )
                },
            },
    {
        match self.require_faction(source) {
            Ok(()) => {},
            Err(e) => return Err(e),
        }
        match self.require_faction(target) {
            Ok(()) => {},
            Err(e) => return Err(e),
        }
        let previous = self.relationships.set_faction_to_faction(source, target, affinity);
        if !holds_value(previous, affinity) {
            self.events.push_back(
                SimulationEvent::RelationshipChanged {
                    layer: RelationshipLayer::FactionToFaction,
                    subject: RelationshipSubject::FactionToFaction { source, target },
                    previous,
                    current: Some(affinity),
                },
            );
        }
        Ok(())
    }

    /// Clears the FactionToFaction relationship; an event is queued only when an entry is removed.
    pub fn clear_faction_relationship(&mut self, source: FactionId, target: FactionId) -> (r: Result<(), Error>)
        requires
            old(self).well_formed(),
        ensures
            final(self).well_formed(),
            match old(self).faction_pair_error(source, target) {
                Some(e) => r == Err::<(), Error>(e) && final(self).same_state(old(self)),
                None => {
                    &&& r == Ok::<(), Error>(())
                    &&& final(self).faction_relationships() == old(self).faction_relationships().remove((source@, target@))
                    &&& final(self).member_relationships() == old(self).member_relationships()
                    &&& final(self).faction_member_relationships() == old(self).faction_member_relationships()
                    &&& final(self).same_entities(old(self))
                    &&& final(self).pending_events() == events_after_clear(
                        old(self).pending_events(),
                        RelationshipLayer::FactionToFaction,
                        RelationshipSubject::FactionToFaction { source, target },
                        entry_of(old(self).faction_relationships(), (source@, target@)),
                    )
                },
            },
    {
        match self.require_faction(source) {
            Ok(()) => {},
            Err(e) => return Err(e),
        }
        match self.require_faction(target) {
            Ok(()) => {},
            Err(e) => return Err(e),
        }
        let previous = self.relationships.clear_faction_to_faction(source, target);
        if previous.is_some() {
            self.events.push_back(
                SimulationEvent::RelationshipChanged {
                    layer: RelationshipLayer::FactionToFaction,
                    subject: RelationshipSubject::FactionToFaction { source, target },
                    previous,
                    current: None,
                },
            );
        }
        Ok(())
    }

    /// The FactionToFaction relationship, without fallback.
    pub fn faction_relationship(&self, source: FactionId, target: FactionId) -> (r: Result<RelationshipLookup, Error>)
        ensures
            r == match self.faction_pair_error(source, target) {
                Some(e) => Err::<RelationshipLookup, Error>(e),
                None => Ok(lookup_in(self.faction_relationships(), (source@, target@), RelationshipLayer::FactionToFaction)),
            },
    {
        match self.require_faction(source) {
            Ok(()) => {},
            Err(e) => return Err(e),
        }
        match self.require_faction(target) {
            Ok(()) => {},
            Err(e) => return Err(e),
        }
        Ok(self.relationships.faction_to_faction(source, target))
    }

    /// The relationship an observer member has toward a target member: the
    /// member entry, else the observer's faction toward the target, else the
    /// observer's faction toward the target's faction, else `Missing`.
    pub fn effective_member_relationship(&self, observer: MemberId, target: MemberId) -> (r: Result<
        RelationshipLookup,
        Error,
    >)
        ensures
            r == match self.member_pair_error(observer, target) {
                Some(e) => Err::<RelationshipLookup, Error>(e),
                None => Ok(self.effective_lookup(observer, target)),
            },
    {
        let observer_faction = match self.member_faction_or_error(observer) {
            Ok(faction) => faction,
            Err(e) => return Err(e),
        };
        let target_faction = match self.member_faction_or_error(target) {
            Ok(faction) => faction,
            Err(e) => return Err(e),
        };
        let member_relationship = self.relationships.member_to_member(observer, target);
        if !matches!(member_relationship, RelationshipLookup::Missing) {
            return Ok(member_relationship);
        }
        let faction_member_relationship = self.relationships.faction_to_member(
            observer_faction,
            target,
        );
        if !matches!(faction_member_relationship, RelationshipLookup::Missing) {
            return Ok(faction_member_relationship);
        }
        Ok(self.relationships.faction_to_faction(observer_faction, target_faction))
    }

    fn require_faction(&self, faction_id: FactionId) -> (r: Result<(), Error>)
        ensures
            r == if self.has_faction(faction_id) {
                Ok::<(), Error>(())
            } else {
                Err(Error::FactionNotFound(faction_id))
            },
    {
        if self.factions.contains_key(&faction_id.into_raw()) {
            Ok(())
        } else {
            Err(Error::FactionNotFound(faction_id))
        }
    }

    fn require_member(&self, member_id: MemberId) -> (r: Result<(), Error>)
        ensures
            r == if self.has_member(member_id) {
                Ok::<(), Error>(())
            } else {
                Err(Error::MemberNotFound(member_id))
            },
    {
        if self.members.contains_key(&member_id.into_raw()) {
            Ok(())
        } else {
            Err(Error::MemberNotFound(member_id))
        }
    }

    fn member_faction_or_error(&self, member_id: MemberId) -> (r: Result<FactionId, Error>)
        ensures
            r == if self.has_member(member_id) {
                Ok::<FactionId, Error>(self.member_factions()[member_id@])
            } else {
                Err(Error::MemberNotFound(member_id))
            },
    {
        match self.members.get(&member_id.into_raw()) {
            Some(member) => Ok(member.faction_id),
            None => Err(Error::MemberNotFound(member_id)),
        }
    }

    /// `self` is `before` with the clock moved forward to `target`: the
    /// memories listed in `expired` (every memory that has expired at
    /// `target`, in key order) are removed, and the queue gains
    /// `TimeAdvanced` followed by one `MemoryExpired` per removed memory.
    /// Everything else is as it was.
    pub open spec fn advanced_from(&self, before: &Self, target: u64, expired: Seq<MemoryRecord>) -> bool {
        &&& self.tick() == target
        &&& lists_expired(expired, before.memory_records(), target)
        &&& self.memory_records() == before.memory_records().restrict(
            unexpired_keys(before.memory_records(), target),
        )
        &&& self.pending_events() == before.pending_events().push(
            SimulationEvent::TimeAdvanced { previous_tick: before.tick(), current_tick: target },
        ) + expired.map_values(|m: MemoryRecord| expired_event(m))
        &&& self.configuration() == before.configuration()
        &&& self.next_faction() == before.next_faction()
        &&& self.next_member() == before.next_member()
        &&& self.faction_names() == before.faction_names()
        &&& self.member_factions() == before.member_factions()
        &&& self.member_pads() == before.member_pads()
        &&& self.member_affinities() == before.member_affinities()
        &&& self.seen_deeds() == before.seen_deeds()
        &&& self.same_relationships(before)
    }

    /// The current logical tick.
    pub fn current_tick(&self) -> (r: u64)
        ensures
            r == self.tick(),
    {
        self.clock.current_tick()
    }

    /// Moves the clock to `target_tick` and expires the memories whose
    /// lifetime has ended. Moving to the current tick changes nothing; an
    /// earlier tick is refused and changes nothing.
    #[verifier::loop_isolation(false)]
    pub fn advance_to(&mut self, target_tick: u64) -> (r: Result<(), Error>)
        requires
            old(self).well_formed(),
        ensures
            final(self).well_formed(),
            target_tick < old(self).tick() ==> r == Err::<(), Error>(
                Error::TimeWentBackwards { current_tick: old(self).tick(), target_tick },
            ) && final(self).same_state(old(self)),
            target_tick == old(self).tick() ==> r == Ok::<(), Error>(())
                && final(self).same_state(old(self)),
            target_tick > old(self).tick() ==> r == Ok::<(), Error>(()) && exists|
                expired: Seq<MemoryRecord>,
            | #[trigger] final(self).advanced_from(old(self), target_tick, expired),
    {
        let current_tick = self.clock.current_tick();
        if target_tick < current_tick {
            return Err(Error::TimeWentBackwards { current_tick, target_tick });
        }
        if target_tick == current_tick {
            return Ok(());
        }
        match self.clock.advance_to(target_tick) {
            Ok(()) => {},
            Err(_) => return Err(Error::TimeWentBackwards { current_tick, target_tick }),
        }
        self.events.push_back(
            SimulationEvent::TimeAdvanced { previous_tick: current_tick, current_tick: target_tick },
        );
        let expired = self.memories.expire(target_tick);
        let mut queue: VecDeque<SimulationEvent> = VecDeque::new();
        std::mem::swap(&mut queue, &mut self.events);
        let ghost base = queue@;
        for i in 0..expired.len()
            invariant
                queue@ == base + expired@.take(i as int).map_values(
                    |m: MemoryRecord| expired_event(m),
                ),
        {
            let record = expired[i];
            queue.push_back(
                SimulationEvent::MemoryExpired {
                    observer: record.observer(),
                    deed_id: record.deed_id(),
                    kind: record.kind(),
                },
            );
            proof {
                assert(expired@.take(i + 1).map_values(|m: MemoryRecord| expired_event(m))
                    =~= expired@.take(i as int).map_values(|m: MemoryRecord| expired_event(m)).push(
                    expired_event(expired@[i as int]),
                ));
                assert(base + expired@.take(i + 1).map_values(|m: MemoryRecord| expired_event(m))
                    =~= (base + expired@.take(i as int).map_values(
                    |m: MemoryRecord| expired_event(m),
                )).push(expired_event(expired@[i as int])));
            }
        }
        std::mem::swap(&mut queue, &mut self.events);
        proof {
            assert(expired@.take(expired@.len() as int) =~= expired@);
            assert(self.pending_events() == old(self).pending_events().push(
                SimulationEvent::TimeAdvanced { previous_tick: old(self).tick(), current_tick: target_tick },
            ) + expired@.map_values(|m: MemoryRecord| expired_event(m)));
            assert(self.advanced_from(old(self), target_tick, expired@));
        }
        Ok(())
    }

    /// Moves the clock `delta_ticks` forward, as `advance_to` does; a tick
    /// beyond `u64::MAX` is refused and changes nothing.
    pub fn step(&mut self, delta_ticks: u64) -> (r: Result<(), Error>)
        requires
            old(self).well_formed(),
        ensures
            final(self).well_formed(),
            old(self).tick() + delta_ticks > u64::MAX ==> r == Err::<(), Error>(Error::TimeOverflow)
                && final(self).same_state(old(self)),
            delta_ticks == 0 ==> r == Ok::<(), Error>(()) && final(self).same_state(old(self)),
            delta_ticks > 0 && old(self).tick() + delta_ticks <= u64::MAX ==> r == Ok::<(), Error>(())
                && exists|expired: Seq<MemoryRecord>| #[trigger] final(self).advanced_from(
                old(self),
                (old(self).tick() + delta_ticks) as u64,
                expired,
            ),
    {
        let target_tick = match self.clock.current_tick().checked_add(delta_ticks) {
            Some(tick) => tick,
            None => return Err(Error::TimeOverflow),
        };
        self.advance_to(target_tick)
    }

    /// The dynamic affinity of `observer` toward `actor`, neutral until a
    /// deed changes it.
    pub fn member_affinity(&self, observer: MemberId, actor: MemberId) -> (r: Result<Affinity, Error>)
        ensures
            r == match self.member_pair_error(observer, actor) {
                Some(e) => Err::<Affinity, Error>(e),
                None => Ok(affinity_entry(self.member_affinities(), (observer@, actor@))),
            },
    {
        match self.require_member(observer) {
            Ok(()) => {},
            Err(e) => return Err(e),
        }
        match self.require_member(actor) {
            Ok(()) => {},
            Err(e) => return Err(e),
        }
        Ok(self.stored_affinity(observer, actor))
    }

    fn stored_affinity(&self, observer: MemberId, actor: MemberId) -> (r: Affinity)
        ensures
            r == affinity_entry(self.member_affinities(), (observer@, actor@)),
    {
        match self.affinities.get(&(observer.into_raw(), actor.into_raw())) {
            Some(affinity) => *affinity,
            None => Affinity::neutral(),
        }
    }

    /// The memory `observer` keeps of `deed_id`, if any.
    pub fn memory(&self, observer: MemberId, deed_id: u64) -> (r: Result<Option<MemoryRecord>, Error>)
        ensures
            r == if !self.has_member(observer) {
                Err::<Option<MemoryRecord>, Error>(Error::MemberNotFound(observer))
            } else if self.memory_records().contains_key((observer@, deed_id)) {
                Ok(Some(self.memory_records()[(observer@, deed_id)]))
            } else {
                Ok(None)
            },
    {
        match self.require_member(observer) {
            Ok(()) => {},
            Err(e) => return Err(e),
        }
        Ok(self.memories.get(observer, deed_id))
    }

    /// The memories of `observer`, in increasing deed order.
    pub fn memories_for(&self, observer: MemberId) -> (r: Result<Vec<MemoryRecord>, Error>)
        requires
            self.well_formed(),
        ensures
            !self.has_member(observer) ==> r == Err::<Vec<MemoryRecord>, Error>(
                Error::MemberNotFound(observer),
            ),
            self.has_member(observer) ==> (r matches Ok(records) && lists_records_of(
                records@,
                self.memory_records(),
                observer@,
            )),
    {
        match self.require_member(observer) {
            Ok(()) => {},
            Err(e) => return Err(e),
        }
        Ok(self.memories.for_observer(observer))
    }

    /// The parts of the simulation that deed submissions read and write.
    pub open spec fn witness_view(&self) -> WitnessView {
        WitnessView {
            pads: self.member_pads(),
            affinities: self.member_affinities(),
            memories: self.memory_records(),
            seen: self.seen_deeds(),
            events: self.pending_events(),
        }
    }

    /// Everything that deed submissions only read is the same: the
    /// configuration, the entities, the relationships and the clock.
    pub open spec fn same_context(&self, other: &Self) -> bool {
        &&& self.configuration() == other.configuration()
        &&& self.next_faction() == other.next_faction()
        &&& self.next_member() == other.next_member()
        &&& self.faction_names() == other.faction_names()
        &&& self.member_factions() == other.member_factions()
        &&& self.same_relationships(other)
        &&& self.tick() == other.tick()
    }

    /// Why a deed is refused before anything is evaluated: the first unknown
    /// member among observer, actor and target, else an actor that is its
    /// own target.
    pub open spec fn deed_error(&self, deed: DirectWitnessDeed) -> Option<Error> {
        if !self.has_member(deed.observer) {
            Some(Error::MemberNotFound(deed.observer))
        } else if !self.has_member(deed.actor) {
            Some(Error::MemberNotFound(deed.actor))
        } else {
            match deed.target {
                Some(target) => if !self.has_member(target) {
                    Some(Error::MemberNotFound(target))
                } else if target == deed.actor {
                    Some(Error::ActorTargetSame(deed.actor))
                } else {
                    None
                },
                None => None,
            }
        }
    }

    /// The observer's effective relationship toward the deed's target;
    /// `Missing` for a deed without a target.
    pub open spec fn deed_lookup(&self, deed: DirectWitnessDeed) -> RelationshipLookup {
        match deed.target {
            Some(target) => self.effective_lookup(deed.observer, target),
            None => RelationshipLookup::Missing,
        }
    }

    /// The evaluation input of a deed.
    pub open spec fn deed_input(&self, deed: DirectWitnessDeed) -> DirectWitnessInput {
        DirectWitnessInput {
            impact: deed.impact,
            aggression: deed.aggression,
            target_affinity: lookup_affinity(self.deed_lookup(deed)),
            has_target: deed.target is Some,
            threatens_observer: deed.threatens_observer,
        }
    }

    /// One submission of a valid deed against the view `v`, given the host's
    /// arithmetic `a`: a deed whose `(observer, deed_id)` was already applied
    /// is a `Duplicate` and changes nothing; otherwise the deed is evaluated,
    /// the observer's affinity toward the actor and its PAD take their
    /// checked updates, the deed is remembered, the key is kept, and the
    /// deed's events are queued. A failed update or memory overflow is the
    /// error, and changes nothing.
    pub open spec fn witness_step(&self, v: WitnessView, deed: DirectWitnessDeed, a: WitnessArithmetic) -> Result<
        (WitnessView, DirectWitnessSubmission),
        Error,
    > {
        let key = (deed.observer@, deed.deed_id);
        if v.seen.contains(key) {
            Ok((v, DirectWitnessSubmission::Duplicate { observer: deed.observer, deed_id: deed.deed_id }))
        } else {
            let lookup = self.deed_lookup(deed);
            let evaluation = evaluation_of(self.deed_input(deed), a.terms);
            let previous_affinity = affinity_entry(v.affinities, (deed.observer@, deed.actor@));
            let previous_pad = v.pads[deed.observer@];
            match checked_updates(a) {
                Err(e) => Err(Error::Value(e)),
                Ok((current_affinity, current_pad)) => match memory_for(deed, evaluation, self.tick()) {
                    Err(e) => Err(e),
                    Ok(memory) => match remember(v.memories, memory, self.tick()) {
                        Err(e) => Err(e),
                        Ok((memories, change)) => Ok(
                            (
                                WitnessView {
                                    pads: v.pads.insert(deed.observer@, current_pad),
                                    affinities: v.affinities.insert(
                                        (deed.observer@, deed.actor@),
                                        current_affinity,
                                    ),
                                    memories,
                                    seen: v.seen.insert(key),
                                    events: v.events + applied_events(
                                        deed,
                                        evaluation,
                                        previous_affinity,
                                        current_affinity,
                                        previous_pad,
                                        current_pad,
                                        change,
                                    ),
                                },
                                DirectWitnessSubmission::Applied(
                                    DirectWitnessOutcome::outcome_of(
                                        deed,
                                        lookup,
                                        evaluation,
                                        previous_affinity,
                                        current_affinity,
                                        previous_pad,
                                        current_pad,
                                        changed_memory(change),
                                    ),
                                ),
                            ),
                        ),
                    },
                },
            }
        }
    }

    /// `a` is what the host's arithmetic returned for a submission of `deed`
    /// against `v`: the products of the deed's input, then the bounded
    /// updates that `updates_from` describes.
    pub open spec fn arithmetic_from<P, B>(
        &self,
        products: P,
        bounded: B,
        v: WitnessView,
        deed: DirectWitnessDeed,
        a: WitnessArithmetic,
    ) -> bool where P: Fn(DirectWitnessInput) -> WeightedTerms, B: Fn(u32, u32) -> Result<u32, ValueError> {
        ||| v.seen.contains((deed.observer@, deed.deed_id))
        ||| {
            &&& call_ensures(products, (self.deed_input(deed),), a.terms)
            &&& updates_from(
                bounded,
                affinity_entry(v.affinities, (deed.observer@, deed.actor@)),
                v.pads[deed.observer@],
                evaluation_of(self.deed_input(deed), a.terms),
                a,
            )
        }
    }

    /// `after` and `r` are what submitting a valid `deed` to `self` gives,
    /// for some arithmetic the host's functions returned.
    pub open spec fn witness_result<P, B>(
        &self,
        after: &Self,
        products: P,
        bounded: B,
        deed: DirectWitnessDeed,
        r: Result<DirectWitnessSubmission, Error>,
    ) -> bool where P: Fn(DirectWitnessInput) -> WeightedTerms, B: Fn(u32, u32) -> Result<u32, ValueError> {
        exists|a: WitnessArithmetic|
            #[trigger] self.arithmetic_from(products, bounded, self.witness_view(), deed, a)
                && match self.witness_step(self.witness_view(), deed, a) {
                Ok((v, submission)) => r == Ok::<DirectWitnessSubmission, Error>(submission)
                    && after.witness_view() == v,
                Err(e) => r == Err::<DirectWitnessSubmission, Error>(e) && after.witness_view()
                    == self.witness_view(),
            }
    }

    /// The first refused deed of a batch, by index, and why; `None` when
    /// every deed is valid.
    pub open spec fn batch_error(&self, deeds: Seq<DirectWitnessDeed>) -> Option<(int, Error)>
        decreases deeds.len(),
    {
        if deeds.len() == 0 {
            None
        } else {
            match self.batch_error(deeds.drop_last()) {
                Some(found) => Some(found),
                None => match self.deed_error(deeds.last()) {
                    Some(e) => Some(((deeds.len() - 1) as int, e)),
                    None => None,
                },
            }
        }
    }

    /// Submitting valid `deeds` in order, each seeing the updates of the
    /// ones before it, with `ariths[i]` the host's arithmetic for deed `i`:
    /// the final view and the submissions, or the index of the first deed
    /// that failed and its error.
    pub open spec fn batch_run(
        &self,
        v: WitnessView,
        deeds: Seq<DirectWitnessDeed>,
        ariths: Seq<WitnessArithmetic>,
    ) -> Result<(WitnessView, Seq<DirectWitnessSubmission>), (int, Error)>
        decreases deeds.len(),
    {
        if deeds.len() == 0 {
            Ok((v, Seq::empty()))
        } else {
            match self.batch_run(v, deeds.drop_last(), ariths.drop_last()) {
                Err(failed) => Err(failed),
                Ok((w, submissions)) => match self.witness_step(
                    w,
                    deeds.last(),
                    ariths[deeds.len() - 1],
                ) {
                    Err(e) => Err(((deeds.len() - 1) as int, e)),
                    Ok((next, submission)) => Ok((next, submissions.push(submission))),
                },
            }
        }
    }

    /// Every arithmetic of `ariths` that `batch_run` uses is what the host's
    /// functions returned for its deed against the view at that point.
    pub open spec fn batch_arithmetic<P, B>(
        &self,
        products: P,
        bounded: B,
        v: WitnessView,
        deeds: Seq<DirectWitnessDeed>,
        ariths: Seq<WitnessArithmetic>,
    ) -> bool where P: Fn(DirectWitnessInput) -> WeightedTerms, B: Fn(u32, u32) -> Result<u32, ValueError>
        decreases deeds.len(),
    {
        if deeds.len() == 0 {
            true
        } else {
            &&& self.batch_arithmetic(products, bounded, v, deeds.drop_last(), ariths.drop_last())
            &&& match self.batch_run(v, deeds.drop_last(), ariths.drop_last()) {
                Ok((w, _)) => self.arithmetic_from(
                    products,
                    bounded,
                    w,
                    deeds.last(),
                    ariths[deeds.len() - 1],
                ),
                Err(_) => true,
            }
        }
    }

    /// `after` and `r` are what submitting valid `deeds` as one batch to
    /// `self` gives, for some arithmetic the host's functions returned.
    pub open spec fn batch_result<P, B>(
        &self,
        after: &Self,
        products: P,
        bounded: B,
        deeds: Seq<DirectWitnessDeed>,
        r: Result<Vec<DirectWitnessSubmission>, BatchError>,
    ) -> bool where P: Fn(DirectWitnessInput) -> WeightedTerms, B: Fn(u32, u32) -> Result<u32, ValueError> {
        exists|ariths: Seq<WitnessArithmetic>|
            #[trigger] self.batch_arithmetic(products, bounded, self.witness_view(), deeds, ariths)
                && ariths.len() == deeds.len() && match self.batch_run(
                self.witness_view(),
                deeds,
                ariths,
            ) {
                Ok((v, submissions)) => r matches Ok(out) && out@ == submissions
                    && after.witness_view() == v,
                Err((index, e)) => r matches Err(failure) && failure.index_of() == index
                    && failure.error_of() == e && after.witness_view() == self.witness_view(),
            }
    }

    /// A refused deed in a prefix of a batch is the batch's first refusal.
    proof fn lemma_batch_error_prefix(&self, deeds: Seq<DirectWitnessDeed>, n: int)
        requires
            0 <= n <= deeds.len(),
        ensures
            self.batch_error(deeds.take(n)) is Some ==> self.batch_error(deeds) == self.batch_error(
                deeds.take(n),
            ),
            self.batch_error(deeds) is None ==> forall|i: int|
                0 <= i < deeds.len() ==> self.deed_error(#[trigger] deeds[i]) is None,
        decreases deeds.len(),
    {
        if deeds.len() > 0 {
            let shorter = deeds.drop_last();
            if n < deeds.len() {
                assert(shorter.take(n) =~= deeds.take(n));
                self.lemma_batch_error_prefix(shorter, n);
            } else {
                assert(deeds.take(n) =~= deeds);
                self.lemma_batch_error_prefix(shorter, 0);
            }
            if self.batch_error(deeds) is None {
                self.lemma_batch_error_prefix(shorter, shorter.len() as int);
                assert forall|i: int| 0 <= i < deeds.len() implies self.deed_error(
                    #[trigger] deeds[i],
                ) is None by {
                    if i < shorter.len() {
                        assert(shorter[i] == deeds[i]);
                    }
                }
            }
        }
    }

    /// Once a prefix of a batch fails, the whole batch fails there, whatever
    /// arithmetic follows.
    proof fn lemma_batch_stops<P, B>(
        &self,
        products: P,
        bounded: B,
        v: WitnessView,
        deeds: Seq<DirectWitnessDeed>,
        ariths: Seq<WitnessArithmetic>,
        n: int,
    ) where P: Fn(DirectWitnessInput) -> WeightedTerms, B: Fn(u32, u32) -> Result<u32, ValueError>
        requires
            0 <= n <= deeds.len(),
            ariths.len() == deeds.len(),
            self.batch_run(v, deeds.take(n), ariths.take(n)) is Err,
            self.batch_arithmetic(products, bounded, v, deeds.take(n), ariths.take(n)),
        ensures
            self.batch_run(v, deeds, ariths) == self.batch_run(v, deeds.take(n), ariths.take(n)),
            self.batch_arithmetic(products, bounded, v, deeds, ariths),
        decreases deeds.len(),
    {
        if n == deeds.len() {
            assert(deeds.take(n) =~= deeds);
            assert(ariths.take(n) =~= ariths);
        } else {
            let shorter = deeds.drop_last();
            let fewer = ariths.drop_last();
            assert(shorter.take(n) =~= deeds.take(n));
            assert(fewer.take(n) =~= ariths.take(n));
            self.lemma_batch_stops(products, bounded, v, shorter, fewer, n);
        }
    }

    /// Submissions read the simulation only through its context.
    proof fn lemma_same_context_step<P, B>(
        &self,
        other: &Self,
        products: P,
        bounded: B,
        v: WitnessView,
        deed: DirectWitnessDeed,
        a: WitnessArithmetic,
    ) where P: Fn(DirectWitnessInput) -> WeightedTerms, B: Fn(u32, u32) -> Result<u32, ValueError>
        requires
            self.same_context(other),
        ensures
            self.witness_step(v, deed, a) == other.witness_step(v, deed, a),
            self.arithmetic_from(products, bounded, v, deed, a) == other.arithmetic_from(
                products,
                bounded,
                v,
                deed,
                a,
            ),
            self.deed_error(deed) == other.deed_error(deed),
    {
        assert(self.deed_lookup(deed) == other.deed_lookup(deed));
        assert(self.deed_input(deed) == other.deed_input(deed));
    }

    /// Submits directly witnessed deeds as one atomic batch, in order, with
    /// the host's arithmetic as in `submit_direct_witness`. Every deed is
    /// checked first, and the first refused one is reported by index with
    /// nothing changed. Otherwise the deeds are applied in order, each seeing
    /// the earlier ones' updates and keys; if one fails, the batch is rolled
    /// back and that deed's index and error are reported.
    pub fn submit_direct_witness_batch<P, B>(
        &mut self,
        deeds: &[DirectWitnessDeed],
        products: P,
        bounded: B,
    ) -> (r: Result<Vec<DirectWitnessSubmission>, BatchError>) where
        P: Fn(DirectWitnessInput) -> WeightedTerms,
        B: Fn(u32, u32) -> Result<u32, ValueError>,

        requires
            old(self).well_formed(),
            forall|input: DirectWitnessInput| call_requires(products, (input,)),
            forall|current: u32, delta: u32| call_requires(bounded, (current, delta)),
        ensures
            final(self).well_formed(),
            match old(self).batch_error(deeds@) {
                Some((index, e)) => r matches Err(failure) && failure.index_of() == index
                    && failure.error_of() == e && final(self).same_state(old(self)),
                None => {
                    &&& final(self).same_context(old(self))
                    &&& old(self).batch_result(final(self), products, bounded, deeds@, r)
                    &&& r is Err ==> final(self).same_state(old(self))
                },
            },
    {
        match self.check_batch(deeds) {
            Ok(()) => {},
            Err(failure) => return Err(failure),
        }
        proof {
            self.lemma_batch_error_prefix(deeds@, deeds@.len() as int);
        }
        self.apply_batch(deeds, &products, &bounded)
    }

    /// The first refused deed of a batch, if any.
    fn check_batch(&self, deeds: &[DirectWitnessDeed]) -> (r: Result<(), BatchError>)
        ensures
            match self.batch_error(deeds@) {
                Some((index, e)) => r matches Err(failure) && failure.index_of() == index
                    && failure.error_of() == e,
                None => r is Ok,
            },
    {
        let n = deeds.len();
        for i in 0..n
            invariant
                n == deeds@.len(),
                self.batch_error(deeds@.take(i as int)) is None,
        {
            match self.check_deed(deeds[i]) {
                Ok(()) => {},
                Err(e) => {
                    proof {
                        assert(deeds@.take(i + 1).drop_last() =~= deeds@.take(i as int));
                        self.lemma_batch_error_prefix(deeds@, i + 1);
                    }
                    return Err(BatchError::new(i, e));
                },
            }
            proof {
                assert(deeds@.take(i + 1).drop_last() =~= deeds@.take(i as int));
            }
        }
        proof {
            assert(deeds@.take(n as int) =~= deeds@);
        }
        Ok(())
    }

    /// One more deed of a batch: the run over the longer prefix is the run
    /// over the shorter one followed by this deed's step.
    proof fn lemma_batch_extend<P, B>(
        &self,
        before: &Self,
        products: P,
        bounded: B,
        start: WitnessView,
        deeds: Seq<DirectWitnessDeed>,
        ariths: Seq<WitnessArithmetic>,
        submissions: Seq<DirectWitnessSubmission>,
        i: int,
        a: WitnessArithmetic,
    ) where P: Fn(DirectWitnessInput) -> WeightedTerms, B: Fn(u32, u32) -> Result<u32, ValueError>
        requires
            0 <= i < deeds.len(),
            ariths.len() == i,
            before.same_context(self),
            self.batch_arithmetic(products, bounded, start, deeds.take(i), ariths),
            self.batch_run(start, deeds.take(i), ariths) == Ok::<
                (WitnessView, Seq<DirectWitnessSubmission>),
                (int, Error),
            >((before.witness_view(), submissions)),
            before.arithmetic_from(products, bounded, before.witness_view(), deeds[i], a),
        ensures
            self.batch_arithmetic(products, bounded, start, deeds.take(i + 1), ariths.push(a)),
            self.batch_run(start, deeds.take(i + 1), ariths.push(a)) == match before.witness_step(
                before.witness_view(),
                deeds[i],
                a,
            ) {
                Ok((v, submission)) => Ok((v, submissions.push(submission))),
                Err(e) => Err((i, e)),
            },
    {
        self.lemma_same_context_step(before, products, bounded, before.witness_view(), deeds[i], a);
        let next = deeds.take(i + 1);
        assert(next.drop_last() =~= deeds.take(i));
        assert(ariths.push(a).drop_last() =~= ariths);
        assert(next.last() == deeds[i]);
    }

    /// A step only appends events.
    proof fn lemma_step_appends(&self, v: WitnessView, deed: DirectWitnessDeed, a: WitnessArithmetic)
        ensures
            self.witness_step(v, deed, a) matches Ok((w, _)) ==> w.events.len() >= v.events.len()
                && w.events.subrange(0, v.events.len() as int) == v.events,
    {
        if let Ok((w, _)) = self.witness_step(v, deed, a) {
            if !v.seen.contains((deed.observer@, deed.deed_id)) {
                assert(w.events.subrange(0, v.events.len() as int) =~= v.events);
            }
        }
    }

    /// Puts back the state a batch saved before it started.
    fn roll_back(
        &mut self,
        members: BTreeMap<u64, Member>,
        affinities: BTreeMap<(u64, u64), Affinity>,
        memories: MemoryStore,
        seen: BTreeSet<(u64, u64)>,
        events_len: usize,
    )
        requires
            events_len <= old(self).pending_events().len(),
        ensures
            final(self).members@ == members@,
            final(self).member_affinities() == affinities@,
            final(self).memory_records() == memories.records(),
            final(self).memories == memories,
            final(self).seen_deeds() == seen@,
            final(self).pending_events() == old(self).pending_events().subrange(0, events_len as int),
            final(self).configuration() == old(self).configuration(),
            final(self).next_faction() == old(self).next_faction(),
            final(self).next_member() == old(self).next_member(),
            final(self).faction_names() == old(self).faction_names(),
            final(self).same_relationships(old(self)),
            final(self).tick() == old(self).tick(),
    {
        self.members = members;
        self.affinities = affinities;
        self.memories = memories;
        self.seen = seen;
        self.events.truncate(events_len);
    }

    /// Applies valid deeds in order, rolling back on the first failure.
    #[verifier::spinoff_prover]
    #[verifier::rlimit(50)]
    fn apply_batch<P, B>(&mut self, deeds: &[DirectWitnessDeed], products: &P, bounded: &B) -> (r:
        Result<Vec<DirectWitnessSubmission>, BatchError>) where
        P: Fn(DirectWitnessInput) -> WeightedTerms,
        B: Fn(u32, u32) -> Result<u32, ValueError>,

        requires
            old(self).well_formed(),
            old(self).batch_error(deeds@) is None,
            forall|j: int| 0 <= j < deeds@.len() ==> old(self).deed_error(#[trigger] deeds@[j]) is None,
            forall|input: DirectWitnessInput| call_requires(*products, (input,)),
            forall|current: u32, delta: u32| call_requires(*bounded, (current, delta)),
        ensures
            final(self).well_formed(),
            final(self).same_context(old(self)),
            old(self).batch_result(final(self), *products, *bounded, deeds@, r),
            r is Err ==> final(self).same_state(old(self)),
    {
        let n = deeds.len();
        let ghost initial = *self;
        let ghost start = self.witness_view();
        let saved_members = self.members.clone();
        let saved_affinities = self.affinities.clone();
        let saved_memories = self.memories.duplicate();
        let saved_seen = self.seen.clone();
        let saved_len = self.events.len();
        let mut results: Vec<DirectWitnessSubmission> = Vec::new();
        let ghost mut ariths: Seq<WitnessArithmetic> = Seq::empty();
        for i in 0..n
            invariant
                n == deeds@.len(),
                initial == *old(self),
                self.well_formed(),
                self.same_context(&initial),
                initial.well_formed(),
                forall|j: int| 0 <= j < deeds@.len() ==> initial.deed_error(#[trigger] deeds@[j]) is None,
                forall|input: DirectWitnessInput| call_requires(*products, (input,)),
                forall|current: u32, delta: u32| call_requires(*bounded, (current, delta)),
                start == initial.witness_view(),
                ariths.len() == i,
                initial.batch_arithmetic(*products, *bounded, start, deeds@.take(i as int), ariths),
                initial.batch_run(start, deeds@.take(i as int), ariths) == Ok::<
                    (WitnessView, Seq<DirectWitnessSubmission>),
                    (int, Error),
                >((self.witness_view(), results@)),
                saved_members@ == initial.members@,
                saved_affinities@ == initial.member_affinities(),
                saved_memories.records() == initial.memory_records(),
                saved_seen@ == initial.seen_deeds(),
                saved_len == start.events.len(),
                self.pending_events().len() >= saved_len,
                self.pending_events().subrange(0, saved_len as int) == start.events,
        {
            let ghost before = *self;
            proof {
                initial.lemma_same_context_step(
                    &before,
                    *products,
                    *bounded,
                    before.witness_view(),
                    deeds@[i as int],
                    vstd::pervasive::arbitrary(),
                );
            }
            let outcome = self.apply_witness(deeds[i], products, bounded);
            let ghost a = choose|a: WitnessArithmetic|
                #[trigger] before.arithmetic_from(
                    *products,
                    *bounded,
                    before.witness_view(),
                    deeds@[i as int],
                    a,
                ) && match before.witness_step(before.witness_view(), deeds@[i as int], a) {
                    Ok((v, submission)) => outcome == Ok::<DirectWitnessSubmission, Error>(
                        submission,
                    ) && self.witness_view() == v,
                    Err(e) => outcome == Err::<DirectWitnessSubmission, Error>(e)
                        && self.witness_view() == before.witness_view(),
                };
            proof {
                initial.lemma_batch_extend(
                    &before,
                    *products,
                    *bounded,
                    start,
                    deeds@,
                    ariths,
                    results@,
                    i as int,
                    a,
                );
                before.lemma_step_appends(before.witness_view(), deeds@[i as int], a);
            }
            match outcome {
                Ok(submission) => {
                    results.push(submission);
                    proof {
                        ariths = ariths.push(a);
                        assert(self.pending_events().subrange(0, saved_len as int) =~= start.events);
                    }
                },
                Err(e) => {
                    self.roll_back(saved_members, saved_affinities, saved_memories, saved_seen, saved_len);
                    proof {
                        let failed = ariths.push(a);
                        let full = failed + Seq::new(
                            (n - i - 1) as nat,
                            |j: int| vstd::pervasive::arbitrary::<WitnessArithmetic>(),
                        );
                        assert(full.take(i + 1) =~= failed);
                        initial.lemma_batch_stops(*products, *bounded, start, deeds@, full, i + 1);
                        assert(self.member_pads() =~= initial.member_pads());
                        assert(self.member_factions() =~= initial.member_factions());
                    }
                    return Err(BatchError::new(i, e));
                },
            }
        }
        proof {
            assert(deeds@.take(n as int) =~= deeds@);
        }
        Ok(results)
    }

    fn check_deed(&self, deed: DirectWitnessDeed) -> (r: Result<(), Error>)
        ensures
            r == match self.deed_error(deed) {
                Some(e) => Err::<(), Error>(e),
                None => Ok(()),
            },
    {
        match self.require_member(deed.observer) {
            Ok(()) => {},
            Err(e) => return Err(e),
        }
        match self.require_member(deed.actor) {
            Ok(()) => {},
            Err(e) => return Err(e),
        }
        match deed.target {
            Some(target) => {
                match self.require_member(target) {
                    Ok(()) => {},
                    Err(e) => return Err(e),
                }
                if target == deed.actor {
                    return Err(Error::ActorTargetSame(deed.actor));
                }
            },
            None => {},
        }
        Ok(())
    }

    /// Submits one directly witnessed deed. The host supplies the binary32
    /// arithmetic of the model: `products` multiplies the evaluation's terms
    /// from its input, and `bounded` applies a raw delta to a current value
    /// within `[-1, 1]`. An invalid deed is refused; a deed already applied
    /// for its observer is a `Duplicate`; otherwise the deed is applied as
    /// `witness_step` describes. Any failure changes nothing.
    pub fn submit_direct_witness<P, B>(&mut self, deed: DirectWitnessDeed, products: P, bounded: B) -> (r:
        Result<DirectWitnessSubmission, Error>) where
        P: Fn(DirectWitnessInput) -> WeightedTerms,
        B: Fn(u32, u32) -> Result<u32, ValueError>,

        requires
            old(self).well_formed(),
            forall|input: DirectWitnessInput| call_requires(products, (input,)),
            forall|current: u32, delta: u32| call_requires(bounded, (current, delta)),
        ensures
            final(self).well_formed(),
            match old(self).deed_error(deed) {
                Some(e) => r == Err::<DirectWitnessSubmission, Error>(e) && final(self).same_state(
                    old(self),
                ),
                None => final(self).same_context(old(self)) && old(self).witness_result(
                    final(self),
                    products,
                    bounded,
                    deed,
                    r,
                ),
            },
    {
        match self.check_deed(deed) {
            Ok(()) => {},
            Err(e) => return Err(e),
        }
        self.apply_witness(deed, &products, &bounded)
    }

    fn apply_witness<P, B>(&mut self, deed: DirectWitnessDeed, products: &P, bounded: &B) -> (r: Result<
        DirectWitnessSubmission,
        Error,
    >) where
        P: Fn(DirectWitnessInput) -> WeightedTerms,
        B: Fn(u32, u32) -> Result<u32, ValueError>,

        requires
            old(self).well_formed(),
            old(self).deed_error(deed) is None,
            forall|input: DirectWitnessInput| call_requires(*products, (input,)),
            forall|current: u32, delta: u32| call_requires(*bounded, (current, delta)),
        ensures
            final(self).well_formed(),
            final(self).same_context(old(self)),
            old(self).witness_result(final(self), *products, *bounded, deed, r),
    {
        let observer = deed.observer;
        let key = (observer.into_raw(), deed.deed_id);
        let ghost view = self.witness_view();
        proof {
            assert(vstd::laws_cmp::obeys_cmp::<(u64, u64)>());
        }
        if self.seen.contains(&key) {
            proof {
                let a: WitnessArithmetic = vstd::pervasive::arbitrary();
                assert(self.arithmetic_from(*products, *bounded, view, deed, a));
            }
            return Ok(DirectWitnessSubmission::Duplicate { observer, deed_id: deed.deed_id });
        }
        let (lookup, input) = self.witness_operands(deed);
        let terms = products(input);
        let evaluation = evaluate_direct_witness(input, terms);
        let previous_affinity = self.stored_affinity(observer, deed.actor);
        let (faction_id, previous_pad) = self.member_state(observer);
        let (updates, Ghost(arith)) = bounded_updates(
            bounded,
            terms,
            previous_affinity,
            previous_pad,
            evaluation,
        );
        proof {
            assert(self.arithmetic_from(*products, *bounded, view, deed, arith));
        }
        let (current_affinity, current_pad) = match updates {
            Ok(values) => values,
            Err(e) => return Err(Error::Value(e)),
        };
        let tick = self.clock.current_tick();
        let memory = match MemoryRecord::from_evaluation(deed, evaluation, tick) {
            Ok(memory) => memory,
            Err(e) => return Err(e),
        };
        let change = match memory {
            None => MemoryChange::Unchanged,
            Some(record) => match self.memories.insert_or_upgrade(record, tick) {
                Ok(change) => change,
                Err(e) => return Err(e),
            },
        };
        let remembered = self.commit_witness(
            deed,
            evaluation,
            previous_affinity,
            current_affinity,
            faction_id,
            previous_pad,
            current_pad,
            change,
        );
        Ok(
            DirectWitnessSubmission::Applied(
                DirectWitnessOutcome::new(
                    deed,
                    lookup,
                    evaluation,
                    previous_affinity,
                    current_affinity,
                    previous_pad,
                    current_pad,
                    remembered,
                ),
            ),
        )
    }

    /// The effective lookup and the evaluation input of a valid deed.
    fn witness_operands(&self, deed: DirectWitnessDeed) -> (r: (RelationshipLookup, DirectWitnessInput))
        requires
            self.deed_error(deed) is None,
        ensures
            r.0 == self.deed_lookup(deed),
            r.1 == self.deed_input(deed),
    {
        let lookup = match deed.target {
            Some(target) => match self.effective_member_relationship(deed.observer, target) {
                Ok(lookup) => lookup,
                Err(_) => vstd::pervasive::unreached(),
            },
            None => RelationshipLookup::Missing,
        };
        let target_affinity = match lookup {
            RelationshipLookup::Explicit { affinity, .. } => affinity,
            RelationshipLookup::Missing => Affinity::neutral(),
        };
        let input = DirectWitnessInput::new(
            deed.impact,
            deed.aggression,
            target_affinity,
            deed.target.is_some(),
            deed.threatens_observer,
        );
        (lookup, input)
    }

    /// The faction and PAD of a registered member.
    fn member_state(&self, member_id: MemberId) -> (r: (FactionId, Pad))
        requires
            self.has_member(member_id),
        ensures
            r.0 == self.member_factions()[member_id@],
            r.1 == self.member_pads()[member_id@],
    {
        match self.members.get(&member_id.into_raw()) {
            Some(member) => (member.faction_id, member.pad),
            None => vstd::pervasive::unreached(),
        }
    }

    /// Writes an applied deed's new affinity and PAD, keeps its key, and
    /// queues its events; returns the record the memory change left.
    fn commit_witness(
        &mut self,
        deed: DirectWitnessDeed,
        evaluation: EvaluationResult,
        previous_affinity: Affinity,
        current_affinity: Affinity,
        faction_id: FactionId,
        previous_pad: Pad,
        current_pad: Pad,
        change: MemoryChange,
    ) -> (r: Option<MemoryRecord>)
        requires
            old(self).well_formed(),
            old(self).has_member(deed.observer),
            faction_id == old(self).member_factions()[deed.observer@],
        ensures
            r == changed_memory(change),
            final(self).well_formed(),
            final(self).same_context(old(self)),
            final(self).member_pads() == old(self).member_pads().insert(deed.observer@, current_pad),
            final(self).member_affinities() == old(self).member_affinities().insert(
                (deed.observer@, deed.actor@),
                current_affinity,
            ),
            final(self).memory_records() == old(self).memory_records(),
            final(self).seen_deeds() == old(self).seen_deeds().insert((deed.observer@, deed.deed_id)),
            final(self).pending_events() == old(self).pending_events() + applied_events(
                deed,
                evaluation,
                previous_affinity,
                current_affinity,
                previous_pad,
                current_pad,
                change,
            ),
    {
        let observer = deed.observer;
        let actor = deed.actor;
        proof {
            assert(vstd::laws_cmp::obeys_cmp::<(u64, u64)>());
        }
        self.affinities.insert((observer.into_raw(), actor.into_raw()), current_affinity);
        self.members.insert(observer.into_raw(), Member { faction_id, pad: current_pad });
        self.seen.insert((observer.into_raw(), deed.deed_id));
        self.events.push_back(
            SimulationEvent::DeedEvaluated {
                deed_id: deed.deed_id,
                observer,
                actor,
                target: deed.target,
                evaluation,
            },
        );
        if previous_affinity != current_affinity {
            self.events.push_back(
                SimulationEvent::AffinityChanged {
                    observer,
                    actor,
                    previous: previous_affinity,
                    current: current_affinity,
                },
            );
        }
        if previous_pad != current_pad {
            self.events.push_back(
                SimulationEvent::PadChanged {
                    member_id: observer,
                    previous: previous_pad,
                    current: current_pad,
                },
            );
        }
        let remembered = match change {
            MemoryChange::Unchanged => None,
            MemoryChange::Remembered(record) => {
                self.events.push_back(
                    SimulationEvent::MemoryRemembered {
                        observer: record.observer(),
                        deed_id: record.deed_id(),
                        kind: record.kind(),
                        salience: record.salience(),
                    },
                );
                Some(record)
            },
            MemoryChange::Upgraded { previous, current } => {
                self.events.push_back(
                    SimulationEvent::MemoryUpgraded {
                        observer: current.observer(),
                        deed_id: current.deed_id(),
                        previous,
                        current: current.kind(),
                        salience: current.salience(),
                    },
                );
                Some(current)
            },
        };
        proof {
            assert(self.member_factions() =~= old(self).member_factions());
            assert(self.member_pads() =~= old(self).member_pads().insert(observer@, current_pad));
            assert(self.pending_events() =~= old(self).pending_events() + applied_events(
                deed,
                evaluation,
                previous_affinity,
                current_affinity,
                previous_pad,
                current_pad,
                change,
            ));
        }
        remembered
    }

    /// The number of pending events.
    pub fn event_count(&self) -> (r: usize)
        ensures
            r == self.pending_events().len(),
    {
        self.events.len()
    }

    /// A copy of the pending events, oldest first; the queue is left as it is.
    pub fn events_snapshot(&self) -> (r: Vec<SimulationEvent>)
        ensures
            r@ == self.pending_events(),
    {
        let mut copy: Vec<SimulationEvent> = Vec::new();
        for i in 0..self.events.len()
            invariant
                copy@ == self.events@.take(i as int),
        {
            copy.push(self.events[i]);
            proof {
                assert(self.events@.take(i + 1) =~= self.events@.take(i as int).push(self.events@[i as int]));
            }
        }
        proof {
            assert(self.events@.take(self.events@.len() as int) =~= self.events@);
        }
        copy
    }

    /// Removes and returns every pending event, oldest first.
    pub fn drain_events(&mut self) -> (r: Vec<SimulationEvent>)
        requires
            old(self).well_formed(),
        ensures
            r@ == old(self).pending_events(),
            final(self).pending_events() == Seq::<SimulationEvent>::empty(),
            final(self).same_entities(old(self)),
            final(self).same_relationships(old(self)),
            final(self).well_formed(),
    {
        let ghost queued = self.events@;
        let mut drained: Vec<SimulationEvent> = Vec::new();
        while self.events.len() > 0
            invariant
                drained@ + self.events@ == queued,
                self.same_entities(old(self)),
                self.same_relationships(old(self)),
                self.well_formed(),
            decreases self.events@.len(),
        {
            let ghost before = self.events@;
            match self.events.pop_front() {
                Some(event) => {
                    drained.push(event);
                    proof {
                        assert(drained@ + self.events@ =~= queued) by {
                            assert(before =~= seq![event] + self.events@);
                        }
                    }
                },
                None => {},
            }
        }
        proof {
            assert(drained@ =~= queued);
        }
        drained
    }
}

/// A dynamic affinity: the stored one, or neutral (`+0.0`) when the pair has none.
pub open spec fn affinity_entry(m: Map<(u64, u64), Affinity>, key: (u64, u64)) -> Affinity {
    if m.contains_key(key) {
        m[key]
    } else {
        Affinity::from_pattern(0)
    }
}

/// The event that reports an expired memory.
pub open spec fn expired_event(record: MemoryRecord) -> SimulationEvent {
    SimulationEvent::MemoryExpired {
        observer: record.observer_of(),
        deed_id: record.deed_id_of(),
        kind: record.kind_of(),
    }
}

/// What the host's binary32 arithmetic gave for one applied deed: the
/// evaluation's products, and the bounded updates (`apply_bounded_delta`) of
/// the observer's affinity toward the actor and of its three PAD axes.
pub struct WitnessArithmetic {
    pub terms: WeightedTerms,
    pub affinity: Result<u32, ValueError>,
    pub pleasure: Result<u32, ValueError>,
    pub arousal: Result<u32, ValueError>,
    pub dominance: Result<u32, ValueError>,
}

/// The parts of a simulation that deed submissions read and write.
pub struct WitnessView {
    pub pads: Map<u64, Pad>,
    pub affinities: Map<(u64, u64), Affinity>,
    pub memories: Map<(u64, u64), MemoryRecord>,
    pub seen: Set<(u64, u64)>,
    pub events: Seq<SimulationEvent>,
}

/// The affinity a lookup weighs: its value, or neutral when it is missing.
pub open spec fn lookup_affinity(lookup: RelationshipLookup) -> Affinity {
    match lookup {
        RelationshipLookup::Explicit { affinity, .. } => affinity,
        RelationshipLookup::Missing => Affinity::from_pattern(0),
    }
}

/// A bounded PAD axis update, checked as `PadValue::new` checks it.
pub open spec fn checked_axis(update: Result<u32, ValueError>) -> Result<u32, ValueError> {
    match update {
        Ok(bits) => validated(bits, MINUS_ONE_BITS, ONE_BITS),
        Err(e) => Err(e),
    }
}

/// The checked updates of an arithmetic: the new affinity and PAD, or the
/// first failure in affinity, pleasure, arousal, dominance order.
pub open spec fn checked_updates(a: WitnessArithmetic) -> Result<(Affinity, Pad), ValueError> {
    match a.affinity {
        Err(e) => Err(e),
        Ok(bits) => match checked_affinity(bits) {
            Err(e) => Err(e),
            Ok(affinity) => match checked_axis(a.pleasure) {
                Err(e) => Err(e),
                Ok(pleasure) => match checked_axis(a.arousal) {
                    Err(e) => Err(e),
                    Ok(arousal) => match checked_axis(a.dominance) {
                        Err(e) => Err(e),
                        Ok(dominance) => Ok((affinity, Pad { pleasure, arousal, dominance })),
                    },
                },
            },
        },
    }
}

/// What remembering an evaluated deed does to the memories: nothing when it
/// is not remembered, else what `MemoryStore::insert_or_upgrade` does.
pub open spec fn remember(
    memories: Map<(u64, u64), MemoryRecord>,
    memory: Option<MemoryRecord>,
    tick: u64,
) -> Result<(Map<(u64, u64), MemoryRecord>, MemoryChange), Error> {
    match memory {
        None => Ok((memories, MemoryChange::Unchanged)),
        Some(record) => store_outcome(memories, record, tick),
    }
}

/// The record a memory change leaves, if any.
pub open spec fn changed_memory(change: MemoryChange) -> Option<MemoryRecord> {
    match change {
        MemoryChange::Unchanged => None,
        MemoryChange::Remembered(record) => Some(record),
        MemoryChange::Upgraded { current, .. } => Some(current),
    }
}

/// The event a memory change queues, if any.
pub open spec fn memory_events(change: MemoryChange) -> Seq<SimulationEvent> {
    match change {
        MemoryChange::Unchanged => Seq::empty(),
        MemoryChange::Remembered(record) => seq![
            SimulationEvent::MemoryRemembered {
                observer: record.observer_of(),
                deed_id: record.deed_id_of(),
                kind: record.kind_of(),
                salience: record.salience_of(),
            },
        ],
        MemoryChange::Upgraded { previous, current } => seq![
            SimulationEvent::MemoryUpgraded {
                observer: current.observer_of(),
                deed_id: current.deed_id_of(),
                previous,
                current: current.kind_of(),
                salience: current.salience_of(),
            },
        ],
    }
}

/// The events of an applied deed, in order: `DeedEvaluated`, then
/// `AffinityChanged` and `PadChanged` when those values changed, then the
/// memory event.
pub open spec fn applied_events(
    deed: DirectWitnessDeed,
    evaluation: EvaluationResult,
    previous_affinity: Affinity,
    current_affinity: Affinity,
    previous_pad: Pad,
    current_pad: Pad,
    change: MemoryChange,
) -> Seq<SimulationEvent> {
    seq![
        SimulationEvent::DeedEvaluated {
            deed_id: deed.deed_id,
            observer: deed.observer,
            actor: deed.actor,
            target: deed.target,
            evaluation,
        },
    ] + (if previous_affinity != current_affinity {
        seq![
            SimulationEvent::AffinityChanged {
                observer: deed.observer,
                actor: deed.actor,
                previous: previous_affinity,
                current: current_affinity,
            },
        ]
    } else {
        Seq::empty()
    }) + (if previous_pad != current_pad {
        seq![
            SimulationEvent::PadChanged {
                member_id: deed.observer,
                previous: previous_pad,
                current: current_pad,
            },
        ]
    } else {
        Seq::empty()
    }) + memory_events(change)
}

/// The bounded updates of `a` are what `bounded` returned: first for the
/// affinity toward the actor, and, while the updates so far checked out, for
/// pleasure, arousal and dominance, each from the current value and the
/// evaluation's raw delta.
pub open spec fn updates_from<B>(
    bounded: B,
    previous_affinity: Affinity,
    previous_pad: Pad,
    evaluation: EvaluationResult,
    a: WitnessArithmetic,
) -> bool where B: Fn(u32, u32) -> Result<u32, ValueError> {
    let affinity_checks = a.affinity matches Ok(bits) && checked_affinity(bits) is Ok;
    &&& call_ensures(
        bounded,
        (previous_affinity@, evaluation.raw_affinity_delta_of()),
        a.affinity,
    )
    &&& affinity_checks ==> call_ensures(
        bounded,
        (previous_pad.pleasure, evaluation.raw_pad_delta_of().pleasure),
        a.pleasure,
    )
    &&& (affinity_checks && checked_axis(a.pleasure) is Ok) ==> call_ensures(
        bounded,
        (previous_pad.arousal, evaluation.raw_pad_delta_of().arousal),
        a.arousal,
    )
    &&& (affinity_checks && checked_axis(a.pleasure) is Ok && checked_axis(a.arousal) is Ok)
        ==> call_ensures(
        bounded,
        (previous_pad.dominance, evaluation.raw_pad_delta_of().dominance),
        a.dominance,
    )
}

/// Calls the host's bounded update for the affinity and then for each PAD
/// axis, stopping at the first update that does not check out.
fn bounded_updates<B>(
    bounded: &B,
    terms: WeightedTerms,
    previous_affinity: Affinity,
    previous_pad: Pad,
    evaluation: EvaluationResult,
) -> (r: (Result<(Affinity, Pad), ValueError>, Ghost<WitnessArithmetic>)) where
    B: Fn(u32, u32) -> Result<u32, ValueError>,

    requires
        forall|current: u32, delta: u32| call_requires(*bounded, (current, delta)),
    ensures
        r.1@.terms == terms,
        updates_from(*bounded, previous_affinity, previous_pad, evaluation, r.1@),
        r.0 == checked_updates(r.1@),
{
    let affinity_update = bounded(previous_affinity.value(), evaluation.raw_affinity_delta());
    let ghost mut arith = WitnessArithmetic {
        terms,
        affinity: affinity_update,
        pleasure: vstd::pervasive::arbitrary(),
        arousal: vstd::pervasive::arbitrary(),
        dominance: vstd::pervasive::arbitrary(),
    };
    let affinity_bits = match affinity_update {
        Ok(bits) => bits,
        Err(e) => return (Err(e), Ghost(arith)),
    };
    let current_affinity = match Affinity::new(affinity_bits) {
        Ok(affinity) => affinity,
        Err(e) => return (Err(e), Ghost(arith)),
    };
    let pleasure_update = bounded(previous_pad.pleasure, evaluation.raw_pad_delta().pleasure);
    proof {
        arith.pleasure = pleasure_update;
    }
    let pleasure = match checked_pad_axis(pleasure_update) {
        Ok(bits) => bits,
        Err(e) => return (Err(e), Ghost(arith)),
    };
    let arousal_update = bounded(previous_pad.arousal, evaluation.raw_pad_delta().arousal);
    proof {
        arith.arousal = arousal_update;
    }
    let arousal = match checked_pad_axis(arousal_update) {
        Ok(bits) => bits,
        Err(e) => return (Err(e), Ghost(arith)),
    };
    let dominance_update = bounded(previous_pad.dominance, evaluation.raw_pad_delta().dominance);
    proof {
        arith.dominance = dominance_update;
    }
    let dominance = match checked_pad_axis(dominance_update) {
        Ok(bits) => bits,
        Err(e) => return (Err(e), Ghost(arith)),
    };
    (Ok((current_affinity, Pad { pleasure, arousal, dominance })), Ghost(arith))
}

/// A bounded PAD axis update, checked as a PAD value.
fn checked_pad_axis(update: Result<u32, ValueError>) -> (r: Result<u32, ValueError>)
    ensures
        r == checked_axis(update),
{
    match update {
        Ok(bits) => match PadValue::new(bits) {
            Ok(value) => Ok(value.value()),
            Err(e) => Err(e),
        },
        Err(e) => Err(e),
    }
}

/// Whether an entry holds exactly this affinity.
fn holds_value(entry: Option<Affinity>, affinity: Affinity) -> (r: bool)
    ensures
        r == (entry == Some(affinity)),
{
    match entry {
        Some(value) => value == affinity,
        None => false,
    }
}

} // verus!
