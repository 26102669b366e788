//! The inbound pipeline: once per tick, before application logic runs,
//! resolve the most recent applicable update for every replicated entity
//! and apply it.

use vstd::prelude::*;
use crate::envelope::{copy_payload, Received};
use crate::recipient::RecipientSpec;
use crate::record::{EntityState, Registry, ReplicationRecord, Role};
use crate::resolve::resolve_spec;

verus! {

/// The acceptance filter a record imposes on inbound updates: the
/// authority tests senders against its `from` specification; a peer whose
/// direction includes `From` accepts everything, since all inbound traffic
/// at a peer is implicitly from the single authority.  Absence means the
/// record receives nothing.
pub open spec fn accept_filter_spec(record: ReplicationRecord, role: Role) -> Option<
    RecipientSpec,
> {
    match role {
        Role::Authority => record.authority_dir.from_spec(),
        Role::Peer => if record.peer_dir is From {
            Option::Some(RecipientSpec::All)
        } else {
            Option::None
        },
    }
}

/// Whether processing this entity reports the overlap hazard now: the
/// authority's policy is `ToFrom` with overlapping specifications and the
/// record was not warned about before.
pub open spec fn warns_now(e: EntityState, role: Role) -> bool {
    role is Authority && e.record.authority_dir.spec_hazard() && !e.record.hazard_warned
}

/// What one tick of the inbound pipeline does to one entity, given the
/// drained batch: the new recency marker, the new encoded value, the new
/// mutation flag, and the new hazard-warned flag.
///
/// The recency marker advances to the accepted time exactly when an update
/// was applied and some timestamped entry was accepted along the way;
/// applying an update counts as a mutation for the next outbound tick.
pub open spec fn recv_model(e: EntityState, batch: Seq<Received>, role: Role) -> (
    Option<u32>,
    Seq<u8>,
    bool,
    bool,
) {
    let warned = e.record.hazard_warned || (role is Authority
        && e.record.authority_dir.spec_hazard());
    match accept_filter_spec(e.record, role) {
        Option::Some(filter) => {
            let (best, best_time) = resolve_spec(batch, e.record.last_applied, filter, e.net_id);
            match best {
                Option::Some(i) => (
                    if best_time > 0 {
                        Option::Some(best_time)
                    } else {
                        e.record.last_applied
                    },
                    batch[i].envelope.payload@,
                    true,
                    warned,
                ),
                Option::None => (e.record.last_applied, e.value@, e.changed, warned),
            }
        },
        Option::None => (e.record.last_applied, e.value@, e.changed, warned),
    }
}

/// Whether `post` is `pre` after one inbound tick over `batch`: the
/// identity and the directional policies are untouched, and the mutable
/// state follows [`recv_model`].
pub open spec fn entity_after_recv(
    pre: EntityState,
    post: EntityState,
    batch: Seq<Received>,
    role: Role,
) -> bool {
    let m = recv_model(pre, batch, role);
    &&& post.net_id == pre.net_id
    &&& post.record.authority_dir == pre.record.authority_dir
    &&& post.record.peer_dir == pre.record.peer_dir
    &&& post.record.last_applied == m.0
    &&& post.value@ == m.1
    &&& post.changed == m.2
    &&& post.record.hazard_warned == m.3
}

/// The identifiers of the entities among the first `n` whose overlap
/// hazard is reported during this tick, in registry order.
pub open spec fn warnings_upto(entities: Seq<EntityState>, n: int, role: Role) -> Seq<u64>
    decreases n,
{
    if n <= 0 {
        Seq::empty()
    } else {
        let prev = warnings_upto(entities, n - 1, role);
        if warns_now(entities[n - 1], role) {
            prev.push(entities[n - 1].net_id)
        } else {
            prev
        }
    }
}

/// Receives one tick's drained batch of inbound updates and applies, for
/// every replicated entity that accepts them, the most recent applicable
/// one.  Returns the identifiers of the entities whose overlap hazard is
/// reported this tick, each at most once ever.
///
/// Entries naming unknown entities are silently ignored, and a failed or
/// dropped update leaves the attribute at its last-accepted value.
pub fn comp_recv(reg: &mut Registry, role: Role, msgs: &Vec<Received>) -> (warnings: Vec<u64>)
    requires
        old(reg).wf(),
    ensures
        final(reg).wf(),
        final(reg).entities@.len() == old(reg).entities@.len(),
        forall|k: int|
            0 <= k < old(reg).entities@.len() ==> entity_after_recv(
                old(reg).entities@[k],
                #[trigger] final(reg).entities@[k],
                msgs@,
                role,
            ),
        warnings@ == warnings_upto(old(reg).entities@, old(reg).entities@.len() as int, role),
{
    let n = reg.entities.len();
    let mut warnings: Vec<u64> = Vec::new();
    let mut done: usize = 0;
    while done < n
        invariant
            n == old(reg).entities@.len(),
            done <= n,
            reg.entities@.len() == n,
            forall|k: int| 0 <= k < n - done ==> reg.entities@[k] == old(reg).entities@[done + k],
            forall|k: int|
                0 <= k < done ==> entity_after_recv(
                    old(reg).entities@[k],
                    #[trigger] reg.entities@[n - done + k],
                    msgs@,
                    role,
                ),
            warnings@ == warnings_upto(old(reg).entities@, done as int, role),
        decreases n - done,
    {
        let ghost start = reg.entities@;
        let mut e = reg.entities.remove(0);
        assert(e == old(reg).entities@[done as int]);

        // Report the overlap hazard once per entity: overlapping specs in
        // `ToFrom` risk a feedback loop; recency resolution keeps it from
        // re-applying not-newer data, so this stays a diagnostic.
        if matches!(role, Role::Authority) {
            if e.record.authority_dir.hazard() {
                if !e.record.hazard_warned {
                    warnings.push(e.net_id);
                }
                e.record.hazard_warned = true;
            }
        }

        // Determine the acceptance filter, resolve, and apply.
        let resolution: Option<(Option<usize>, u32)> = match role {
            Role::Authority => {
                match e.record.authority_dir.from() {
                    Option::Some(filter) => Option::Some(
                        crate::resolve::get_latest_msg(msgs, e.record.last_applied, filter, e.net_id),
                    ),
                    Option::None => Option::None,
                }
            },
            Role::Peer => {
                if e.record.peer_dir.from() {
                    let all = RecipientSpec::All;
                    Option::Some(
                        crate::resolve::get_latest_msg(msgs, e.record.last_applied, &all, e.net_id),
                    )
                } else {
                    Option::None
                }
            },
        };
        if let Option::Some((winner, best_time)) = resolution {
            if let Option::Some(i) = winner {
                e.value = copy_payload(&msgs[i].envelope.payload);
                e.changed = true;
                if best_time > 0 {
                    e.record.last_applied = Option::Some(best_time);
                }
            }
        }

        proof {
            let pre = old(reg).entities@[done as int];
            let m = recv_model(pre, msgs@, role);
            assert(e.net_id == pre.net_id);
            assert(e.record.hazard_warned == m.3);
            assert(e.record.last_applied == m.0);
            assert(e.value@ == m.1);
            assert(e.changed == m.2);
            assert(entity_after_recv(pre, e, msgs@, role));
        }
        let ghost epost = e;
        let ghost mid = reg.entities@;
        reg.entities.push(e);
        proof {
            assert forall|k: int| 0 <= k < done + 1 implies entity_after_recv(
                old(reg).entities@[k],
                #[trigger] reg.entities@[n - (done + 1) + k],
                msgs@,
                role,
            ) by {
                if k < done {
                    assert(mid == start.remove(0));
                    assert(mid[n - done - 1 + k] == start[n - done + k]);
                    assert(entity_after_recv(old(reg).entities@[k], start[n - done + k], msgs@, role));
                    assert(reg.entities@[n - (done + 1) + k] == mid[n - done - 1 + k]);
                } else {
                    assert(reg.entities@[n - (done + 1) + k] == epost);
                }
            }
        }
        done += 1;
    }
    proof {
        assert forall|k: int| 0 <= k < n implies entity_after_recv(
            old(reg).entities@[k],
            #[trigger] reg.entities@[k],
            msgs@,
            role,
        ) by {
            assert(entity_after_recv(
                old(reg).entities@[k],
                reg.entities@[n - done + k],
                msgs@,
                role,
            ));
        }
        assert forall|i: int, j: int|
            0 <= i < reg.entities@.len() && 0 <= j < reg.entities@.len() && i != j implies reg
            .entities@[i].net_id != reg.entities@[j].net_id by {
            assert(entity_after_recv(old(reg).entities@[i], reg.entities@[i], msgs@, role));
            assert(entity_after_recv(old(reg).entities@[j], reg.entities@[j], msgs@, role));
        }
    }
    warnings
}

} // verus!
