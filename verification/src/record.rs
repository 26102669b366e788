//! Replication records, replicated entities, and the registry binding
//! stable network identifiers to them.

use vstd::prelude::*;
use crate::direction::{AuthorityDirection, PeerDirection};

verus! {

/// The role this participant plays in the topology.
#[derive(Clone, Copy, PartialEq, Eq, Structural, Debug)]
pub enum Role {
    /// The peer with the global view, deciding recipients via recipient
    /// specifications.
    Authority,
    /// A participant with exactly one counterpart, the authority.
    Peer,
}

/// Per-entity, per-attribute replication state: the directional policy for
/// each role, the recency marker, and whether the overlap hazard of this
/// record was already reported.
pub struct ReplicationRecord {
    /// Policy applied when this participant is the authority.
    pub authority_dir: AuthorityDirection,
    /// Policy applied when this participant is a peer.
    pub peer_dir: PeerDirection,
    /// Send time of the last applied timestamped update, absent before any
    /// was applied.  Mutated only by the inbound pipeline, monotonically
    /// non-decreasing.
    pub last_applied: Option<u32>,
    /// Whether the overlapping `ToFrom` hazard of this record was already
    /// reported, so the diagnostic fires at most once per entity.
    pub hazard_warned: bool,
}

impl ReplicationRecord {
    /// A fresh record under the given policies: nothing applied yet,
    /// nothing warned yet.
    pub fn new(authority_dir: AuthorityDirection, peer_dir: PeerDirection) -> (r:
        ReplicationRecord)
        ensures
            r.authority_dir == authority_dir,
            r.peer_dir == peer_dir,
            r.last_applied is None,
            !r.hazard_warned,
    {
        ReplicationRecord {
            authority_dir,
            peer_dir,
            last_applied: Option::None,
            hazard_warned: false,
        }
    }
}

/// One replicated entity: its stable network identifier, its replication
/// record, the current encoded attribute value, and whether the attribute
/// mutated since the outbound pipeline last ran.
pub struct EntityState {
    /// Stable, serializable network identifier, unique among
    /// currently-replicated entities.
    pub net_id: u64,
    /// The per-attribute replication record this entity owns exclusively.
    pub record: ReplicationRecord,
    /// Current encoded attribute value.
    pub value: Vec<u8>,
    /// Whether the attribute mutated since the last outbound tick.
    pub changed: bool,
}

/// The set of currently-replicated entities, keyed by network identifier.
/// The index of an entity doubles as its local runtime handle: resolving a
/// network identifier yields it, and unknown identifiers yield absence
/// rather than a fault.
pub struct Registry {
    /// The replicated entities, with pairwise distinct `net_id`s.
    pub entities: Vec<EntityState>,
}

impl Registry {
    /// Well-formedness: network identifiers are pairwise distinct.
    pub open spec fn wf(self) -> bool {
        forall|i: int, j: int|
            0 <= i < self.entities@.len() && 0 <= j < self.entities@.len() && i != j
                ==> self.entities@[i].net_id != self.entities@[j].net_id
    }

    /// Whether some entity carries the identifier `net_id`.
    pub open spec fn spec_contains(self, net_id: u64) -> bool {
        exists|i: int| 0 <= i < self.entities@.len() && self.entities@[i].net_id == net_id
    }

    /// An empty registry.
    pub fn new() -> (r: Registry)
        ensures
            r.wf(),
            r.entities@.len() == 0,
    {
        Registry { entities: Vec::new() }
    }

    /// The number of replicated entities.
    pub fn len(&self) -> (r: usize)
        ensures
            r == self.entities@.len(),
    {
        self.entities.len()
    }

    /// Resolves a network identifier to the local handle of its entity.
    /// An unknown identifier yields absence, not a fault: the entity may
    /// not have replicated yet, or may have been destroyed.
    pub fn resolve(&self, net_id: u64) -> (r: Option<usize>)
        ensures
            match r {
                Option::Some(i) => i < self.entities@.len()
                    && self.entities@[i as int].net_id == net_id,
                Option::None => !self.spec_contains(net_id),
            },
    {
        let mut i: usize = 0;
        while i < self.entities.len()
            invariant
                i <= self.entities@.len(),
                forall|j: int| 0 <= j < i ==> self.entities@[j].net_id != net_id,
            decreases self.entities@.len() - i,
        {
            if self.entities[i].net_id == net_id {
                return Option::Some(i);
            }
            i += 1;
        }
        Option::None
    }

    /// Registers an entity that became replicated.  Its identifier is
    /// assumed, not invented, by this core: the caller guarantees it is
    /// unique among currently-replicated entities.
    pub fn register(&mut self, entity: EntityState)
        requires
            old(self).wf(),
            !old(self).spec_contains(entity.net_id),
        ensures
            final(self).wf(),
            final(self).entities@ == old(self).entities@.push(entity),
    {
        self.entities.push(entity);
    }

    /// Removes the entity carrying `net_id`, when present: it was
    /// destroyed or un-replicated.  Returns whether one was removed.
    pub fn unregister(&mut self, net_id: u64) -> (r: bool)
        requires
            old(self).wf(),
        ensures
            final(self).wf(),
            r == old(self).spec_contains(net_id),
            !r ==> final(self).entities@ == old(self).entities@,
            r ==> exists|i: int|
                0 <= i < old(self).entities@.len()
                    && old(self).entities@[i].net_id == net_id
                    && final(self).entities@ == old(self).entities@.remove(i),
    {
        match self.resolve(net_id) {
            Option::Some(i) => {
                self.entities.remove(i);
                true
            }
            Option::None => false,
        }
    }

    /// Writes a new encoded value into the attribute of the entity
    /// carrying `net_id` and marks it mutated, as application logic does
    /// between the inbound and the outbound pipeline.  Returns whether the
    /// entity was found.
    pub fn set_value(&mut self, net_id: u64, value: Vec<u8>) -> (r: bool)
        requires
            old(self).wf(),
        ensures
            final(self).wf(),
            r == old(self).spec_contains(net_id),
            !r ==> final(self).entities@ == old(self).entities@,
            r ==> exists|i: int|
                {
                    &&& 0 <= i < old(self).entities@.len()
                    &&& old(self).entities@[i].net_id == net_id
                    &&& final(self).entities@ == old(self).entities@.update(
                        i,
                        (EntityState {
                            net_id,
                            record: old(self).entities@[i].record,
                            value,
                            changed: true,
                        }),
                    )
                },
    {
        match self.resolve(net_id) {
            Option::Some(i) => {
                let mut e = self.entities.remove(i);
                e.value = value;
                e.changed = true;
                self.entities.insert(i, e);
                proof {
                    assert(self.entities@ =~= old(self).entities@.update(
                        i as int,
                        (EntityState {
                            net_id,
                            record: old(self).entities@[i as int].record,
                            value,
                            changed: true,
                        }),
                    ));
                }
                true
            }
            Option::None => false,
        }
    }

    /// The current encoded value of the entity carrying `net_id`, when it
    /// is replicated.
    pub fn value_of(&self, net_id: u64) -> (r: Option<&Vec<u8>>)
        ensures
            match r {
                Option::Some(v) => exists|i: int|
                    0 <= i < self.entities@.len() && self.entities@[i].net_id == net_id
                        && v@ == self.entities@[i].value@,
                Option::None => !self.spec_contains(net_id),
            },
    {
        match self.resolve(net_id) {
            Option::Some(i) => Option::Some(&self.entities[i].value),
            Option::None => Option::None,
        }
    }

    /// The record of the entity carrying `net_id`, when it is replicated.
    pub fn record_of(&self, net_id: u64) -> (r: Option<&ReplicationRecord>)
        ensures
            match r {
                Option::Some(rec) => exists|i: int|
                    0 <= i < self.entities@.len() && self.entities@[i].net_id == net_id
                        && *rec == self.entities@[i].record,
                Option::None => !self.spec_contains(net_id),
            },
    {
        match self.resolve(net_id) {
            Option::Some(i) => Option::Some(&self.entities[i].record),
            Option::None => Option::None,
        }
    }
}

} // verus!
