//! Remembered direct-witness deeds with short-term and long-term retention.
use crate::binary32::{less_than, scaled_value};
use crate::deed::DirectWitnessDeed;
use crate::evaluation::{EvaluationResult, MemoryDecision};
use crate::simulation::{Error, MemberId};
use crate::values::{is_unsigned_unit, Aggression, Impact};
use std::collections::BTreeMap;
use vstd::std_specs::cmp::OrdSpec;
use vstd::std_specs::iter::IteratorSpec;
use vstd::prelude::*;

verus! {

/// Logical ticks a short-term memory is retained.
pub const SHORT_TERM_TTL: u64 = 60;

/// Logical ticks a long-term memory is retained.
pub const LONG_TERM_TTL: u64 = 3600;

/// The v1 retention class assigned to a remembered deed.
#[derive(Clone, Copy, Debug, PartialEq, Eq, Structural, PartialOrd, Ord)]
pub enum MemoryKind {
    ShortTerm,
    LongTerm,
}

/// The retention of a memory kind, in ticks.
pub open spec fn ttl_of(kind: MemoryKind) -> u64 {
    match kind {
        MemoryKind::ShortTerm => SHORT_TERM_TTL,
        MemoryKind::LongTerm => LONG_TERM_TTL,
    }
}

/// A read-only record of a deed remembered by one observer.
#[derive(Clone, Copy, Debug, PartialEq, Eq, Structural)]
pub struct MemoryRecord {
    observer: MemberId,
    deed_id: u64,
    actor: MemberId,
    target: Option<MemberId>,
    impact: Impact,
    aggression: Aggression,
    salience: u32,
    kind: MemoryKind,
    created_tick: u64,
    expires_at: u64,
}

/// The storage key of a record: its observer and deed.
pub open spec fn key_of(record: MemoryRecord) -> (u64, u64) {
    (record.observer_of()@, record.deed_id_of())
}

/// The larger of two salience patterns (either one when they are equal).
pub open spec fn max_salience(a: u32, b: u32) -> u32 {
    if scaled_value(a) < scaled_value(b) {
        b
    } else {
        a
    }
}

/// `current` is `existing` upgraded to long-term at `tick` by `incoming`:
/// the first deed payload and creation tick are kept, the salience is the
/// larger one, and the record now expires `LONG_TERM_TTL` ticks after `tick`.
pub open spec fn is_upgrade(
    current: MemoryRecord,
    existing: MemoryRecord,
    incoming: MemoryRecord,
    tick: u64,
) -> bool {
    &&& current.observer_of() == existing.observer_of()
    &&& current.deed_id_of() == existing.deed_id_of()
    &&& current.actor_of() == existing.actor_of()
    &&& current.target_of() == existing.target_of()
    &&& current.impact_of() == existing.impact_of()
    &&& current.aggression_of() == existing.aggression_of()
    &&& current.salience_of() == max_salience(existing.salience_of(), incoming.salience_of())
    &&& current.kind_of() == MemoryKind::LongTerm
    &&& current.created_tick_of() == existing.created_tick_of()
    &&& current.expires_at_of() == tick + LONG_TERM_TTL
}

/// `record` remembers `deed`, evaluated as `evaluation`, as `kind` from `tick`.
pub open spec fn remembers(
    record: MemoryRecord,
    deed: DirectWitnessDeed,
    evaluation: EvaluationResult,
    kind: MemoryKind,
    tick: u64,
) -> bool {
    &&& record.observer_of() == deed.observer
    &&& record.deed_id_of() == deed.deed_id
    &&& record.actor_of() == deed.actor
    &&& record.target_of() == deed.target
    &&& record.impact_of() == deed.impact
    &&& record.aggression_of() == deed.aggression
    &&& record.salience_of() == evaluation.memory_salience_of()
    &&& record.kind_of() == kind
    &&& record.created_tick_of() == tick
    &&& record.expires_at_of() == tick + ttl_of(kind)
}


/// The record that `deed`, evaluated as `evaluation`, leaves as `kind` at
/// `tick` (its expiry is meaningful when `tick + ttl_of(kind)` fits a `u64`).
pub closed spec fn record_for(
    deed: DirectWitnessDeed,
    evaluation: EvaluationResult,
    kind: MemoryKind,
    tick: u64,
) -> MemoryRecord {
    MemoryRecord {
        observer: deed.observer,
        deed_id: deed.deed_id,
        actor: deed.actor,
        target: deed.target,
        impact: deed.impact,
        aggression: deed.aggression,
        salience: evaluation.memory_salience_of(),
        kind,
        created_tick: tick,
        expires_at: (tick + ttl_of(kind)) as u64,
    }
}

/// `record_for` is the record that `remembers` describes.
pub proof fn lemma_record_for(deed: DirectWitnessDeed, evaluation: EvaluationResult, kind: MemoryKind, tick: u64)
    requires
        tick + ttl_of(kind) <= u64::MAX,
    ensures
        remembers(record_for(deed, evaluation, kind, tick), deed, evaluation, kind, tick),
{
}

/// `upgraded_record` is the upgrade that `is_upgrade` describes.
pub proof fn lemma_upgraded_record(existing: MemoryRecord, incoming: MemoryRecord, tick: u64)
    requires
        tick + LONG_TERM_TTL <= u64::MAX,
    ensures
        is_upgrade(upgraded_record(existing, incoming, tick), existing, incoming, tick),
{
}

/// What `MemoryRecord::from_evaluation` returns: nothing when the deed is
/// not remembered, the remembered record, or `TimeOverflow` when its expiry
/// does not fit a `u64`.
pub open spec fn memory_for(deed: DirectWitnessDeed, evaluation: EvaluationResult, tick: u64) -> Result<
    Option<MemoryRecord>,
    Error,
> {
    match evaluation.memory_decision_of() {
        MemoryDecision::NotRemembered => Ok(None),
        MemoryDecision::ShortTerm => if tick + SHORT_TERM_TTL > u64::MAX {
            Err(Error::TimeOverflow)
        } else {
            Ok(Some(record_for(deed, evaluation, MemoryKind::ShortTerm, tick)))
        },
        MemoryDecision::LongTerm => if tick + LONG_TERM_TTL > u64::MAX {
            Err(Error::TimeOverflow)
        } else {
            Ok(Some(record_for(deed, evaluation, MemoryKind::LongTerm, tick)))
        },
    }
}

/// `existing` upgraded to long-term at `tick` by `incoming`, as `is_upgrade` describes.
pub closed spec fn upgraded_record(existing: MemoryRecord, incoming: MemoryRecord, tick: u64) -> MemoryRecord {
    MemoryRecord {
        salience: max_salience(existing.salience, incoming.salience),
        kind: MemoryKind::LongTerm,
        expires_at: (tick + LONG_TERM_TTL) as u64,
        ..existing
    }
}

/// What `MemoryStore::insert_or_upgrade` does to the records: the new
/// records and the change, or `TimeOverflow` (records unchanged).
pub open spec fn store_outcome(
    records: Map<(u64, u64), MemoryRecord>,
    incoming: MemoryRecord,
    tick: u64,
) -> Result<(Map<(u64, u64), MemoryRecord>, MemoryChange), Error> {
    let key = key_of(incoming);
    if !records.contains_key(key) {
        Ok((records.insert(key, incoming), MemoryChange::Remembered(incoming)))
    } else if records[key].kind_of() == MemoryKind::ShortTerm && incoming.kind_of()
        == MemoryKind::LongTerm {
        if tick + LONG_TERM_TTL > u64::MAX {
            Err(Error::TimeOverflow)
        } else {
            let current = upgraded_record(records[key], incoming, tick);
            Ok(
                (
                    records.insert(key, current),
                    MemoryChange::Upgraded { previous: MemoryKind::ShortTerm, current },
                ),
            )
        }
    } else {
        Ok((records, MemoryChange::Unchanged))
    }
}

/// `listing` holds exactly the records of `observer` in `records`, in
/// increasing deed order.
pub open spec fn lists_records_of(
    listing: Seq<MemoryRecord>,
    records: Map<(u64, u64), MemoryRecord>,
    observer: u64,
) -> bool {
    &&& forall|i: int|
        0 <= i < listing.len() ==> {
            &&& #[trigger] key_of(listing[i]).0 == observer
            &&& records.contains_key(key_of(listing[i]))
            &&& records[key_of(listing[i])] == listing[i]
        }
    &&& forall|i: int, j: int|
        0 <= i < j < listing.len() ==> listing[i].deed_id_of() < listing[j].deed_id_of()
    &&& forall|d: u64|
        records.contains_key((observer, d)) ==> exists|i: int|
            0 <= i < listing.len() && #[trigger] listing[i].deed_id_of() == d
}

/// `listing` holds exactly the records of `records` that have expired at
/// `now`, in increasing key order.
pub open spec fn lists_expired(
    listing: Seq<MemoryRecord>,
    records: Map<(u64, u64), MemoryRecord>,
    now: u64,
) -> bool {
    &&& forall|i: int|
        0 <= i < listing.len() ==> {
            &&& records.contains_key(key_of(#[trigger] listing[i]))
            &&& records[key_of(listing[i])] == listing[i]
            &&& now >= listing[i].expires_at_of()
        }
    &&& forall|i: int, j: int|
        0 <= i < j < listing.len() ==> key_less(
            key_of(#[trigger] listing[i]),
            key_of(#[trigger] listing[j]),
        )
    &&& forall|k: (u64, u64)|
        #[trigger] records.contains_key(k) && now >= records[k].expires_at_of() ==> exists|i: int|
            0 <= i < listing.len() && key_of(#[trigger] listing[i]) == k
}

/// The keys of the records that have not expired at `now`.
pub open spec fn unexpired_keys(records: Map<(u64, u64), MemoryRecord>, now: u64) -> Set<(u64, u64)> {
    Set::new(|k: (u64, u64)| records[k].expires_at_of() > now)
}

/// The first `n` keys of a listing, as a set.
pub open spec fn prefix_keys(keys: Seq<(u64, u64)>, n: int) -> Set<(u64, u64)> {
    Set::new(|k: (u64, u64)| exists|i: int| 0 <= i < n && keys[i] == k)
}

/// `pairs` lists every entry of `m` once, in increasing key order.
pub open spec fn pairs_of_map(
    pairs: Seq<(&(u64, u64), &MemoryRecord)>,
    m: Map<(u64, u64), MemoryRecord>,
) -> bool {
    &&& forall|j: int|
        0 <= j < pairs.len() ==> m.contains_key(*(#[trigger] pairs[j]).0) && m[*pairs[j].0]
            == *pairs[j].1
    &&& forall|k: (u64, u64)|
        #[trigger] m.contains_key(k) ==> exists|j: int|
            0 <= j < pairs.len() && *(#[trigger] pairs[j]).0 == k
    &&& forall|i: int, j: int|
        0 <= i < j < pairs.len() ==> key_less(*(#[trigger] pairs[i]).0, *(#[trigger] pairs[j]).0)
}

/// Lexicographic order of storage keys.
pub open spec fn key_less(a: (u64, u64), b: (u64, u64)) -> bool {
    a.0 < b.0 || (a.0 == b.0 && a.1 < b.1)
}

impl MemoryRecord {
    /// The salience is a canonical pattern in `[0, 1]`.
    #[verifier::type_invariant]
    closed spec fn inv(self) -> bool {
        is_unsigned_unit(self.salience)
    }

    pub closed spec fn observer_of(self) -> MemberId {
        self.observer
    }

    pub closed spec fn deed_id_of(self) -> u64 {
        self.deed_id
    }

    pub closed spec fn actor_of(self) -> MemberId {
        self.actor
    }

    pub closed spec fn target_of(self) -> Option<MemberId> {
        self.target
    }

    pub closed spec fn impact_of(self) -> Impact {
        self.impact
    }

    pub closed spec fn aggression_of(self) -> Aggression {
        self.aggression
    }

    pub closed spec fn salience_of(self) -> u32 {
        self.salience
    }

    pub closed spec fn kind_of(self) -> MemoryKind {
        self.kind
    }

    pub closed spec fn created_tick_of(self) -> u64 {
        self.created_tick
    }

    pub closed spec fn expires_at_of(self) -> u64 {
        self.expires_at
    }

    /// Two records with the same fields are the same record.
    pub proof fn lemma_fields_determine(a: Self, b: Self)
        requires
            a.observer_of() == b.observer_of(),
            a.deed_id_of() == b.deed_id_of(),
            a.actor_of() == b.actor_of(),
            a.target_of() == b.target_of(),
            a.impact_of() == b.impact_of(),
            a.aggression_of() == b.aggression_of(),
            a.salience_of() == b.salience_of(),
            a.kind_of() == b.kind_of(),
            a.created_tick_of() == b.created_tick_of(),
            a.expires_at_of() == b.expires_at_of(),
        ensures
            a == b,
    {
    }

    /// The record an evaluated deed leaves at `created_tick`: none when the
    /// evaluation does not remember it, else a short-term or long-term record
    /// that expires one retention period after `created_tick`.
    pub fn from_evaluation(
        deed: DirectWitnessDeed,
        evaluation: EvaluationResult,
        created_tick: u64,
    ) -> (r: Result<Option<Self>, Error>)
        ensures
            r == memory_for(deed, evaluation, created_tick),
            match evaluation.memory_decision_of() {
                MemoryDecision::NotRemembered => r == Ok::<Option<Self>, Error>(None),
                MemoryDecision::ShortTerm => if created_tick + SHORT_TERM_TTL > u64::MAX {
                    r == Err::<Option<Self>, Error>(Error::TimeOverflow)
                } else {
                    r matches Ok(Some(record)) && remembers(
                        record,
                        deed,
                        evaluation,
                        MemoryKind::ShortTerm,
                        created_tick,
                    )
                },
                MemoryDecision::LongTerm => if created_tick + LONG_TERM_TTL > u64::MAX {
                    r == Err::<Option<Self>, Error>(Error::TimeOverflow)
                } else {
                    r matches Ok(Some(record)) && remembers(
                        record,
                        deed,
                        evaluation,
                        MemoryKind::LongTerm,
                        created_tick,
                    )
                },
            },
    {
        let kind = match evaluation.memory_decision() {
            MemoryDecision::NotRemembered => return Ok(None),
            MemoryDecision::ShortTerm => MemoryKind::ShortTerm,
            MemoryDecision::LongTerm => MemoryKind::LongTerm,
        };
        let expires_at = match created_tick.checked_add(Self::ttl(kind)) {
            Some(tick) => tick,
            None => return Err(Error::TimeOverflow),
        };
        Ok(
            Some(
                MemoryRecord {
                    observer: deed.observer,
                    deed_id: deed.deed_id,
                    actor: deed.actor,
                    target: deed.target,
                    impact: deed.impact,
                    aggression: deed.aggression,
                    salience: evaluation.memory_salience(),
                    kind,
                    created_tick,
                    expires_at,
                },
            ),
        )
    }

    /// The retention of a memory kind, in ticks.
    pub fn ttl(kind: MemoryKind) -> (r: u64)
        ensures
            r == ttl_of(kind),
    {
        match kind {
            MemoryKind::ShortTerm => SHORT_TERM_TTL,
            MemoryKind::LongTerm => LONG_TERM_TTL,
        }
    }

    pub fn observer(self) -> (r: MemberId)
        ensures
            r == self.observer_of(),
    {
        self.observer
    }

    pub fn deed_id(self) -> (r: u64)
        ensures
            r == self.deed_id_of(),
    {
        self.deed_id
    }

    pub fn actor(self) -> (r: MemberId)
        ensures
            r == self.actor_of(),
    {
        self.actor
    }

    pub fn target(self) -> (r: Option<MemberId>)
        ensures
            r == self.target_of(),
    {
        self.target
    }

    pub fn impact(self) -> (r: Impact)
        ensures
            r == self.impact_of(),
    {
        self.impact
    }

    pub fn aggression(self) -> (r: Aggression)
        ensures
            r == self.aggression_of(),
    {
        self.aggression
    }

    pub fn salience(self) -> (r: u32)
        ensures
            r == self.salience_of(),
            is_unsigned_unit(r),
    {
        proof {
            use_type_invariant(&self);
        }
        self.salience
    }

    pub fn kind(self) -> (r: MemoryKind)
        ensures
            r == self.kind_of(),
    {
        self.kind
    }

    pub fn created_tick(self) -> (r: u64)
        ensures
            r == self.created_tick_of(),
    {
        self.created_tick
    }

    pub fn expires_at(self) -> (r: u64)
        ensures
            r == self.expires_at_of(),
    {
        self.expires_at
    }
}

/// What one remembering step did to the store.
#[derive(Clone, Copy, Debug, PartialEq, Eq, Structural)]
pub enum MemoryChange {
    Unchanged,
    Remembered(MemoryRecord),
    Upgraded { previous: MemoryKind, current: MemoryRecord },
}

/// Deterministic in-memory storage for remembered deeds, keyed by raw
/// `(observer, deed_id)`.
#[derive(Clone, Debug)]
pub struct MemoryStore {
    records: BTreeMap<(u64, u64), MemoryRecord>,
}

impl Default for MemoryStore {
    /// An empty store.
    fn default() -> (r: Self)
        ensures
            r.records() == Map::<(u64, u64), MemoryRecord>::empty(),
            r.well_formed(),
    {
        MemoryStore::new()
    }
}

impl MemoryStore {
    /// The stored records by raw `(observer, deed_id)`.
    pub closed spec fn records(&self) -> Map<(u64, u64), MemoryRecord> {
        self.records@
    }

    /// Every record is stored under its own key.
    pub open spec fn well_formed(&self) -> bool {
        forall|k: (u64, u64)| #[trigger] self.records().contains_key(k) ==> key_of(self.records()[k]) == k
    }

    /// An empty store.
    pub fn new() -> (r: Self)
        ensures
            r.records() == Map::<(u64, u64), MemoryRecord>::empty(),
            r.well_formed(),
    {
        MemoryStore { records: BTreeMap::new() }
    }

    /// The record of `observer` about `deed_id`, if any.
    pub fn get(&self, observer: MemberId, deed_id: u64) -> (r: Option<MemoryRecord>)
        ensures
            r == if self.records().contains_key((observer@, deed_id)) {
                Some(self.records()[(observer@, deed_id)])
            } else {
                None::<MemoryRecord>
            },
    {
        match self.records.get(&(observer.into_raw(), deed_id)) {
            Some(record) => Some(*record),
            None => None,
        }
    }

    /// Remembers `incoming` when its key is new; upgrades a short-term record
    /// to long-term when `incoming` is long-term (keeping the first deed
    /// payload); leaves the store alone otherwise.
    pub fn insert_or_upgrade(&mut self, incoming: MemoryRecord, current_tick: u64) -> (r: Result<
        MemoryChange,
        Error,
    >)
        requires
            old(self).well_formed(),
        ensures
            final(self).well_formed(),
            match store_outcome(old(self).records(), incoming, current_tick) {
                Ok((records, change)) => r == Ok::<MemoryChange, Error>(change)
                    && final(self).records() == records,
                Err(e) => r == Err::<MemoryChange, Error>(e) && final(self).records() == old(
                    self,
                ).records(),
            },
            !old(self).records().contains_key(key_of(incoming)) ==> {
                &&& r == Ok::<MemoryChange, Error>(MemoryChange::Remembered(incoming))
                &&& final(self).records() == old(self).records().insert(key_of(incoming), incoming)
            },
            old(self).records().contains_key(key_of(incoming)) ==> {
                let existing = old(self).records()[key_of(incoming)];
                if existing.kind_of() == MemoryKind::ShortTerm && incoming.kind_of()
                    == MemoryKind::LongTerm {
                    if current_tick + LONG_TERM_TTL > u64::MAX {
                        r == Err::<MemoryChange, Error>(Error::TimeOverflow) && final(self).records()
                            == old(self).records()
                    } else {
                        match r {
                            Ok(MemoryChange::Upgraded { previous, current }) => {
                                &&& previous == MemoryKind::ShortTerm
                                &&& is_upgrade(current, existing, incoming, current_tick)
                                &&& final(self).records() == old(self).records().insert(
                                    key_of(incoming),
                                    current,
                                )
                            },
                            _ => false,
                        }
                    }
                } else {
                    r == Ok::<MemoryChange, Error>(MemoryChange::Unchanged) && final(self).records()
                        == old(self).records()
                }
            },
    {
        let key = (incoming.observer.into_raw(), incoming.deed_id);
        let existing = match self.records.get(&key) {
            None => {
                self.records.insert(key, incoming);
                return Ok(MemoryChange::Remembered(incoming));
            },
            Some(existing) => *existing,
        };
        if existing.kind == MemoryKind::ShortTerm && incoming.kind == MemoryKind::LongTerm {
            // The first deed payload remains authoritative; only retention metadata upgrades.
            let expires_at = match current_tick.checked_add(LONG_TERM_TTL) {
                Some(tick) => tick,
                None => return Err(Error::TimeOverflow),
            };
            let salience = larger_salience(existing.salience(), incoming.salience());
            let current = MemoryRecord {
                salience,
                kind: MemoryKind::LongTerm,
                expires_at,
                ..existing
            };
            self.records.insert(key, current);
            return Ok(MemoryChange::Upgraded { previous: existing.kind, current });
        }
        Ok(MemoryChange::Unchanged)
    }

    /// A copy of the store.
    pub fn duplicate(&self) -> (r: Self)
        ensures
            r.records() == self.records(),
    {
        MemoryStore { records: self.records.clone() }
    }

    /// The records of `observer`, in increasing deed order.
    pub fn for_observer(&self, observer: MemberId) -> (r: Vec<MemoryRecord>)
        requires
            self.well_formed(),
        ensures
            lists_records_of(r@, self.records(), observer@),
    {
        let mut result: Vec<MemoryRecord> = Vec::new();
        let ghost m = self.records();
        let entries = self.records.iter();
        proof {
            lemma_entries_in_key_order(&self.records, entries);
        }
        for pair in it: entries
            invariant
                m == self.records(),
                self.well_formed(),
                pairs_of_map(it.seq(), m),
                forall|i: int|
                    0 <= i < result.len() ==> {
                        &&& m.contains_key(key_of(#[trigger] result@[i]))
                        &&& m[key_of(result@[i])] == result@[i]
                        &&& key_of(result@[i]).0 == observer@
                    },
                forall|i: int, j: int|
                    0 <= i < j < result.len() ==> result@[i].deed_id_of()
                        < result@[j].deed_id_of(),
                forall|i: int, j: int|
                    0 <= i < result.len() && it.index() <= j < it.seq().len() ==> key_less(
                        key_of(#[trigger] result@[i]),
                        *(#[trigger] it.seq()[j]).0,
                    ),
                forall|d: u64|
                    #[trigger] m.contains_key((observer@, d)) ==> (exists|i: int|
                        0 <= i < result.len() && #[trigger] result@[i].deed_id_of() == d) || (exists|
                        j: int,
                    |
                        it.index() <= j < it.seq().len() && *(#[trigger] it.seq()[j]).0 == (
                            observer@,
                            d,
                        )),
        {
            let (key, record) = pair;
            let ghost k = it.index();
            let ghost before = result@;
            proof {
                assert(pair == it.seq()[k]);
            }
            if key.0 == observer.into_raw() {
                result.push(*record);
                proof {
                    assert(key_of(*record) == *key);
                }
            }
            proof {
                assert forall|i: int, j: int|
                    0 <= i < result.len() && k + 1 <= j < it.seq().len() implies key_less(
                    key_of(#[trigger] result@[i]),
                    *(#[trigger] it.seq()[j]).0,
                ) by {
                    if i < before.len() {
                        assert(key_of(before[i]) == key_of(result@[i]));
                    }
                }
                assert forall|d: u64| #[trigger] m.contains_key((observer@, d)) implies (exists|
                    i: int,
                | 0 <= i < result.len() && #[trigger] result@[i].deed_id_of() == d) || (exists|
                    j: int,
                |
                    k + 1 <= j < it.seq().len() && *(#[trigger] it.seq()[j]).0 == (observer@, d)) by {
                    if exists|i: int| 0 <= i < before.len() && #[trigger] before[i].deed_id_of() == d {
                        let i = choose|i: int| 0 <= i < before.len() && #[trigger] before[i].deed_id_of() == d;
                        assert(result@[i] == before[i]);
                    } else {
                        let j = choose|j: int|
                            k <= j < it.seq().len() && *(#[trigger] it.seq()[j]).0 == (observer@, d);
                        if j == k {
                            assert(result@[before.len() as int].deed_id_of() == d);
                        }
                    }
                }
            }
        }
        result
    }

    /// Removes every record that has expired at `current_tick`, and returns
    /// the removed records in increasing key order. Expiry is inclusive: a
    /// record has expired once the tick reaches its `expires_at`.
    pub fn expire(&mut self, current_tick: u64) -> (r: Vec<MemoryRecord>)
        requires
            old(self).well_formed(),
        ensures
            final(self).well_formed(),
            lists_expired(r@, old(self).records(), current_tick),
            final(self).records() == old(self).records().restrict(
                unexpired_keys(old(self).records(), current_tick),
            ),
    {
        let ghost m = self.records();
        let mut expired_keys: Vec<(u64, u64)> = Vec::new();
        let entries = self.records.iter();
        proof {
            lemma_entries_in_key_order(&self.records, entries);
        }
        for pair in it: entries
            invariant
                m == self.records(),
                self.well_formed(),
                pairs_of_map(it.seq(), m),
                forall|i: int|
                    0 <= i < expired_keys.len() ==> {
                        &&& m.contains_key(#[trigger] expired_keys@[i])
                        &&& current_tick >= m[expired_keys@[i]].expires_at_of()
                    },
                forall|i: int, j: int|
                    0 <= i < j < expired_keys.len() ==> key_less(
                        #[trigger] expired_keys@[i],
                        #[trigger] expired_keys@[j],
                    ),
                forall|i: int, j: int|
                    0 <= i < expired_keys.len() && it.index() <= j < it.seq().len() ==> key_less(
                        #[trigger] expired_keys@[i],
                        *(#[trigger] it.seq()[j]).0,
                    ),
                forall|k: (u64, u64)|
                    #[trigger] m.contains_key(k) && current_tick >= m[k].expires_at_of() ==> (exists|
                        i: int,
                    | 0 <= i < expired_keys.len() && #[trigger] expired_keys@[i] == k) || (exists|
                        j: int,
                    | it.index() <= j < it.seq().len() && *(#[trigger] it.seq()[j]).0 == k),
        {
            let (key, record) = pair;
            let ghost k = it.index();
            let ghost before = expired_keys@;
            proof {
                assert(pair == it.seq()[k]);
            }
            if current_tick >= record.expires_at() {
                expired_keys.push(*key);
            }
            proof {
                assert forall|k2: (u64, u64)|
                    #[trigger] m.contains_key(k2) && current_tick >= m[k2].expires_at_of() implies (exists|
                    i: int,
                | 0 <= i < expired_keys.len() && #[trigger] expired_keys@[i] == k2) || (exists|
                    j: int,
                | k + 1 <= j < it.seq().len() && *(#[trigger] it.seq()[j]).0 == k2) by {
                    if exists|i: int| 0 <= i < before.len() && #[trigger] before[i] == k2 {
                        let i = choose|i: int| 0 <= i < before.len() && #[trigger] before[i] == k2;
                        assert(expired_keys@[i] == before[i]);
                    } else {
                        let j = choose|j: int|
                            k <= j < it.seq().len() && *(#[trigger] it.seq()[j]).0 == k2;
                        if j == k {
                            assert(expired_keys@[before.len() as int] == k2);
                        }
                    }
                }
            }
        }
        let mut removed: Vec<MemoryRecord> = Vec::new();
        let count = expired_keys.len();
        for n in 0..count
            invariant
                count == expired_keys.len(),
                removed.len() == n,
                forall|i: int| 0 <= i < n ==> #[trigger] removed@[i] == m[expired_keys@[i]],
                forall|i: int| 0 <= i < count ==> m.contains_key(#[trigger] expired_keys@[i]),
                forall|i: int, j: int|
                    0 <= i < j < count ==> key_less(
                        #[trigger] expired_keys@[i],
                        #[trigger] expired_keys@[j],
                    ),
                self.well_formed(),
                self.records() == m.remove_keys(prefix_keys(expired_keys@, n as int)),
        {
            let key = expired_keys[n];
            proof {
                assert forall|i: int| 0 <= i < n implies expired_keys@[i] != key by {
                    assert(key_less(expired_keys@[i], expired_keys@[n as int]));
                }
                assert(self.records().contains_key(key));
            }
            match self.records.remove(&key) {
                Some(record) => removed.push(record),
                None => {},
            }
            proof {
                assert(self.records() =~= m.remove_keys(prefix_keys(expired_keys@, n + 1)));
            }
        }
        proof {
            let gone = prefix_keys(expired_keys@, count as int);
            let kept = unexpired_keys(m, current_tick);
            assert(self.records() =~= m.restrict(kept)) by {
                assert forall|k: (u64, u64)| #[trigger] m.contains_key(k) implies (gone.contains(k)
                    <==> !kept.contains(k)) by {
                    if current_tick >= m[k].expires_at_of() {
                        let i = choose|i: int| 0 <= i < count && #[trigger] expired_keys@[i] == k;
                        assert(gone.contains(k));
                    }
                    if gone.contains(k) {
                        let i = choose|i: int| 0 <= i < count && expired_keys@[i] == k;
                        assert(current_tick >= m[expired_keys@[i]].expires_at_of());
                    }
                }
            }
            assert forall|i: int| 0 <= i < removed.len() implies key_of(#[trigger] removed@[i])
                == expired_keys@[i] by {
                assert(m.contains_key(expired_keys@[i]));
            }
            assert forall|k: (u64, u64)|
                #[trigger] m.contains_key(k) && current_tick >= m[k].expires_at_of() implies exists|
                i: int,
            | 0 <= i < removed.len() && key_of(#[trigger] removed@[i]) == k by {
                let i = choose|i: int| 0 <= i < count && #[trigger] expired_keys@[i] == k;
                assert(key_of(removed@[i]) == expired_keys@[i]);
            }
        }
        removed
    }
}

/// The entries of a map's iterator list every entry once, in increasing key order.
proof fn lemma_entries_in_key_order(
    map: &BTreeMap<(u64, u64), MemoryRecord>,
    entries: std::collections::btree_map::Iter<(u64, u64), MemoryRecord>,
)
    requires
        entries == vstd::std_specs::btree::spec_btree_map_iter(map),
        vstd::std_specs::btree::increasing_seq(
            entries.remaining().map_values(|kv: (&(u64, u64), &MemoryRecord)| *kv.0),
        ),
    ensures
        pairs_of_map(entries.remaining(), map@),
{
    let pairs = entries.remaining();
    let keys = pairs.map_values(|kv: (&(u64, u64), &MemoryRecord)| *kv.0);
    assert(vstd::laws_cmp::obeys_cmp::<(u64, u64)>());
    assert forall|a: int, b: int| 0 <= a < b < pairs.len() implies key_less(
        *(#[trigger] pairs[a]).0,
        *(#[trigger] pairs[b]).0,
    ) by {
        assert(keys[a] == *pairs[a].0);
        assert(keys[b] == *pairs[b].0);
        assert(keys[a].cmp_spec(&keys[b]) is Less);
    }
    assert forall|k: (u64, u64)| #[trigger] map@.contains_key(k) implies exists|j: int|
        0 <= j < pairs.len() && *(#[trigger] pairs[j]).0 == k by {
        assert(pairs.contains((&k, &map@[k])));
        let j = choose|j: int| 0 <= j < pairs.len() && pairs[j] == (&k, &map@[k]);
        assert(*pairs[j].0 == k);
    }

}

/// `f32::max` of two saliences in `[0, 1]`.
fn larger_salience(a: u32, b: u32) -> (r: u32)
    requires
        is_unsigned_unit(a),
        is_unsigned_unit(b),
    ensures
        r == max_salience(a, b),
        is_unsigned_unit(r),
{
    if less_than(a, b) {
        b
    } else {
        a
    }
}

} // verus!
