//! Directed relationships on three storage layers.
use crate::simulation::{FactionId, MemberId};
use crate::values::Affinity;
use std::collections::BTreeMap;
use vstd::prelude::*;

verus! {

/// Relationship storage layer used to explain an effective relationship lookup.
#[derive(Clone, Copy, Debug, PartialEq, Eq, Structural, PartialOrd, Ord)]
pub enum RelationshipLayer {
    MemberToMember,
    FactionToMember,
    FactionToFaction,
}

/// A typed relationship endpoint pair for change events.
#[allow(inconsistent_fields)]
#[derive(Clone, Copy, Debug, PartialEq, Eq, Structural, PartialOrd, Ord)]
pub enum RelationshipSubject {
    MemberToMember { observer: MemberId, target: MemberId },
    FactionToMember { faction: FactionId, member: MemberId },
    FactionToFaction { source: FactionId, target: FactionId },
}

/// Result of looking up a relationship, preserving missing versus explicit neutral.
#[derive(Clone, Copy, Debug, PartialEq, Eq, Structural)]
pub enum RelationshipLookup {
    Missing,
    Explicit { affinity: Affinity, source: RelationshipLayer },
}

/// The lookup of `key` in one layer's map.
pub open spec fn lookup_in(
    m: Map<(u64, u64), Affinity>,
    key: (u64, u64),
    layer: RelationshipLayer,
) -> RelationshipLookup {
    if m.contains_key(key) {
        RelationshipLookup::Explicit { affinity: m[key], source: layer }
    } else {
        RelationshipLookup::Missing
    }
}

/// The previous value of `key` in a map, as an option.
pub open spec fn entry_of(m: Map<(u64, u64), Affinity>, key: (u64, u64)) -> Option<Affinity> {
    if m.contains_key(key) {
        Some(m[key])
    } else {
        None
    }
}

impl RelationshipLookup {
    /// An explicit relationship found on `source`.
    pub fn explicit(affinity: Affinity, source: RelationshipLayer) -> (r: Self)
        ensures
            r == (RelationshipLookup::Explicit { affinity, source }),
    {
        RelationshipLookup::Explicit { affinity, source }
    }

    /// The affinity of an explicit relationship.
    pub fn affinity(self) -> (r: Option<Affinity>)
        ensures
            r == match self {
                RelationshipLookup::Missing => None,
                RelationshipLookup::Explicit { affinity, .. } => Some(affinity),
            },
    {
        match self {
            RelationshipLookup::Missing => None,
            RelationshipLookup::Explicit { affinity, .. } => Some(affinity),
        }
    }

    /// The layer an explicit relationship was found on.
    pub fn source(self) -> (r: Option<RelationshipLayer>)
        ensures
            r == match self {
                RelationshipLookup::Missing => None,
                RelationshipLookup::Explicit { source, .. } => Some(source),
            },
    {
        match self {
            RelationshipLookup::Missing => None,
            RelationshipLookup::Explicit { source, .. } => Some(source),
        }
    }
}

/// The three relationship layers, each keyed by the raw identifiers of its
/// source and target.
#[derive(Clone, Debug)]
pub struct RelationshipStore {
    member_to_member: BTreeMap<(u64, u64), Affinity>,
    faction_to_member: BTreeMap<(u64, u64), Affinity>,
    faction_to_faction: BTreeMap<(u64, u64), Affinity>,
}

impl Default for RelationshipStore {
    /// An empty store.
    fn default() -> (r: Self)
        ensures
            r.members() == Map::<(u64, u64), Affinity>::empty(),
            r.faction_members() == Map::<(u64, u64), Affinity>::empty(),
            r.factions() == Map::<(u64, u64), Affinity>::empty(),
    {
        RelationshipStore::new()
    }
}

impl RelationshipStore {
    /// Member-to-member relationships, keyed by `(observer, target)`.
    pub closed spec fn members(&self) -> Map<(u64, u64), Affinity> {
        self.member_to_member@
    }

    /// Faction-to-member relationships, keyed by `(faction, member)`.
    pub closed spec fn faction_members(&self) -> Map<(u64, u64), Affinity> {
        self.faction_to_member@
    }

    /// Faction-to-faction relationships, keyed by `(source, target)`.
    pub closed spec fn factions(&self) -> Map<(u64, u64), Affinity> {
        self.faction_to_faction@
    }

    /// An empty store.
    pub fn new() -> (r: Self)
        ensures
            r.members() == Map::<(u64, u64), Affinity>::empty(),
            r.faction_members() == Map::<(u64, u64), Affinity>::empty(),
            r.factions() == Map::<(u64, u64), Affinity>::empty(),
    {
        RelationshipStore {
            member_to_member: BTreeMap::new(),
            faction_to_member: BTreeMap::new(),
            faction_to_faction: BTreeMap::new(),
        }
    }

    pub fn member_to_member(&self, observer: MemberId, target: MemberId) -> (r: RelationshipLookup)
        ensures
            r == lookup_in(self.members(), (observer@, target@), RelationshipLayer::MemberToMember),
    {
        match self.member_to_member.get(&(observer.into_raw(), target.into_raw())) {
            Some(affinity) => RelationshipLookup::explicit(
                *affinity,
                RelationshipLayer::MemberToMember,
            ),
            None => RelationshipLookup::Missing,
        }
    }

    pub fn faction_to_member(&self, faction: FactionId, member: MemberId) -> (r: RelationshipLookup)
        ensures
            r == lookup_in(
                self.faction_members(),
                (faction@, member@),
                RelationshipLayer::FactionToMember,
            ),
    {
        match self.faction_to_member.get(&(faction.into_raw(), member.into_raw())) {
            Some(affinity) => RelationshipLookup::explicit(
                *affinity,
                RelationshipLayer::FactionToMember,
            ),
            None => RelationshipLookup::Missing,
        }
    }

    pub fn faction_to_faction(&self, source: FactionId, target: FactionId) -> (r:
        RelationshipLookup)
        ensures
            r == lookup_in(self.factions(), (source@, target@), RelationshipLayer::FactionToFaction),
    {
        match self.faction_to_faction.get(&(source.into_raw(), target.into_raw())) {
            Some(affinity) => RelationshipLookup::explicit(
                *affinity,
                RelationshipLayer::FactionToFaction,
            ),
            None => RelationshipLookup::Missing,
        }
    }

    pub fn set_member_to_member(&mut self, observer: MemberId, target: MemberId, affinity: Affinity) -> (r:
        Option<Affinity>)
        ensures
            r == entry_of(old(self).members(), (observer@, target@)),
            final(self).members() == old(self).members().insert((observer@, target@), affinity),
            final(self).faction_members() == old(self).faction_members(),
            final(self).factions() == old(self).factions(),
    {
        self.member_to_member.insert((observer.into_raw(), target.into_raw()), affinity)
    }

    pub fn clear_member_to_member(&mut self, observer: MemberId, target: MemberId) -> (r: Option<
        Affinity,
    >)
        ensures
            r == entry_of(old(self).members(), (observer@, target@)),
            final(self).members() == old(self).members().remove((observer@, target@)),
            final(self).faction_members() == old(self).faction_members(),
            final(self).factions() == old(self).factions(),
    {
        self.member_to_member.remove(&(observer.into_raw(), target.into_raw()))
    }

    pub fn set_faction_to_member(&mut self, faction: FactionId, member: MemberId, affinity: Affinity) -> (r:
        Option<Affinity>)
        ensures
            r == entry_of(old(self).faction_members(), (faction@, member@)),
            final(self).faction_members() == old(self).faction_members().insert(
                (faction@, member@),
                affinity,
            ),
            final(self).members() == old(self).members(),
            final(self).factions() == old(self).factions(),
    {
        self.faction_to_member.insert((faction.into_raw(), member.into_raw()), affinity)
    }

    pub fn clear_faction_to_member(&mut self, faction: FactionId, member: MemberId) -> (r: Option<
        Affinity,
    >)
        ensures
            r == entry_of(old(self).faction_members(), (faction@, member@)),
            final(self).faction_members() == old(self).faction_members().remove(
                (faction@, member@),
            ),
            final(self).members() == old(self).members(),
            final(self).factions() == old(self).factions(),
    {
        self.faction_to_member.remove(&(faction.into_raw(), member.into_raw()))
    }

    pub fn set_faction_to_faction(&mut self, source: FactionId, target: FactionId, affinity: Affinity) -> (r:
        Option<Affinity>)
        ensures
            r == entry_of(old(self).factions(), (source@, target@)),
            final(self).factions() == old(self).factions().insert((source@, target@), affinity),
            final(self).members() == old(self).members(),
            final(self).faction_members() == old(self).faction_members(),
    {
        self.faction_to_faction.insert((source.into_raw(), target.into_raw()), affinity)
    }

    pub fn clear_faction_to_faction(&mut self, source: FactionId, target: FactionId) -> (r: Option<
        Affinity,
    >)
        ensures
            r == entry_of(old(self).factions(), (source@, target@)),
            final(self).factions() == old(self).factions().remove((source@, target@)),
            final(self).members() == old(self).members(),
            final(self).faction_members() == old(self).faction_members(),
    {
        self.faction_to_faction.remove(&(source.into_raw(), target.into_raw()))
    }
}

} // verus!
