//! The outbound pipeline: once per tick, after application logic ran,
//! send an update for every attribute that mutated this tick or was named
//! by a forced-resync signal.

use vstd::prelude::*;
use crate::envelope::{copy_payload, Envelope, Outgoing};
use crate::recipient::RecipientSpec;
use crate::record::{EntityState, Registry, Role};

verus! {

/// The forced-resync signal: a drain-on-read queue of entity identifiers
/// whose attribute must be re-sent even without a mutation, typically
/// because a new peer joined.  Reading it empties it, so repeated ticks
/// without new signals send nothing extra.
pub struct ResyncSignal {
    /// Entities named since the last outbound tick.
    pub pending: Vec<u64>,
}

impl ResyncSignal {
    /// An empty signal.
    pub fn new() -> (r: ResyncSignal)
        ensures
            r.pending@.len() == 0,
    {
        ResyncSignal { pending: Vec::new() }
    }

    /// Names an entity for forced resynchronization at the next outbound
    /// tick.
    pub fn fire(&mut self, net_id: u64)
        ensures
            final(self).pending@ == old(self).pending@.push(net_id),
    {
        self.pending.push(net_id);
    }

    /// Names every currently-replicated entity, the way a host forces a
    /// full resync of an attribute when a new peer joins.
    pub fn fire_all(&mut self, reg: &Registry)
        ensures
            final(self).pending@.len() == old(self).pending@.len() + reg.entities@.len(),
            forall|i: int|
                0 <= i < old(self).pending@.len() ==> final(self).pending@[i] == old(
                    self,
                ).pending@[i],
            forall|i: int|
                0 <= i < reg.entities@.len() ==> final(self).pending@[old(
                    self,
                ).pending@.len() + i] == reg.entities@[i].net_id,
    {
        let mut i: usize = 0;
        while i < reg.entities.len()
            invariant
                i <= reg.entities@.len(),
                self.pending@.len() == old(self).pending@.len() + i,
                forall|j: int|
                    0 <= j < old(self).pending@.len() ==> self.pending@[j] == old(
                        self,
                    ).pending@[j],
                forall|j: int|
                    0 <= j < i ==> self.pending@[old(self).pending@.len() + j] == reg
                        .entities@[j].net_id,
            decreases reg.entities@.len() - i,
        {
            self.pending.push(reg.entities[i].net_id);
            i += 1;
        }
    }

    /// Drains the signal: returns everything named so far and leaves the
    /// signal empty, its at-most-once-per-tick effect.
    pub fn take(&mut self) -> (r: Vec<u64>)
        ensures
            r@ == old(self).pending@,
            final(self).pending@.len() == 0,
    {
        let mut fired: Vec<u64> = Vec::new();
        core::mem::swap(&mut fired, &mut self.pending);
        fired
    }
}

/// Mathematical image of one outbound envelope: target, entity, payload
/// bytes, and send time.
pub struct SendModel {
    /// The target peer, or absence for the single authority.
    pub to: Option<u32>,
    /// Network identifier the envelope is for.
    pub entity_id: u64,
    /// Encoded attribute value carried.
    pub payload: Seq<u8>,
    /// Logical send time stamped on the envelope.
    pub send_time: Option<u32>,
}

/// Whether an executable outbound envelope agrees with its mathematical
/// image field by field.
pub open spec fn out_matches(o: Outgoing, m: SendModel) -> bool {
    &&& o.to == m.to
    &&& o.envelope.entity_id == m.entity_id
    &&& o.envelope.payload@ == m.payload
    &&& o.envelope.send_time == m.send_time
}

/// Whether a list of outbound envelopes agrees element by element with a
/// list of mathematical images.
pub open spec fn sends_match(out: Seq<Outgoing>, model: Seq<SendModel>) -> bool {
    &&& out.len() == model.len()
    &&& forall|i: int| 0 <= i < out.len() ==> out_matches(#[trigger] out[i], model[i])
}

/// Whether this entity must send this tick: its attribute mutated, or a
/// forced-resync signal named it.
pub open spec fn triggered(e: EntityState, resync: Seq<u64>) -> bool {
    e.changed || resync.contains(e.net_id)
}

/// The envelopes the authority sends for one triggered entity to the
/// first `m` connected peers: one per peer its `to` specification
/// accepts.
pub open spec fn peer_sends_upto(
    e: EntityState,
    to: RecipientSpec,
    peers: Seq<u32>,
    m: int,
    now: u32,
) -> Seq<SendModel>
    decreases m,
{
    if m <= 0 {
        Seq::empty()
    } else {
        let prev = peer_sends_upto(e, to, peers, m - 1, now);
        if to.spec_matches(peers[m - 1]) {
            prev.push(
                SendModel {
                    to: Option::Some(peers[m - 1]),
                    entity_id: e.net_id,
                    payload: e.value@,
                    send_time: Option::Some(now),
                },
            )
        } else {
            prev
        }
    }
}

/// The envelopes sent for one triggered entity: the authority sends to
/// every connected peer its `to` specification accepts; a peer whose
/// direction is `To` sends to the authority only.
pub open spec fn entity_sends(e: EntityState, role: Role, peers: Seq<u32>, now: u32) -> Seq<
    SendModel,
> {
    match role {
        Role::Authority => match e.record.authority_dir.to_spec() {
            Option::Some(to) => peer_sends_upto(e, to, peers, peers.len() as int, now),
            Option::None => Seq::empty(),
        },
        Role::Peer => if e.record.peer_dir is To {
            seq![
                SendModel {
                    to: Option::None,
                    entity_id: e.net_id,
                    payload: e.value@,
                    send_time: Option::Some(now),
                },
            ]
        } else {
            Seq::empty()
        },
    }
}

/// The envelopes one outbound tick sends for the first `n` entities, in
/// registry order.
pub open spec fn outbound_upto(
    entities: Seq<EntityState>,
    n: int,
    role: Role,
    peers: Seq<u32>,
    resync: Seq<u64>,
    now: u32,
) -> Seq<SendModel>
    decreases n,
{
    if n <= 0 {
        Seq::empty()
    } else {
        let prev = outbound_upto(entities, n - 1, role, peers, resync, now);
        if triggered(entities[n - 1], resync) {
            prev + entity_sends(entities[n - 1], role, peers, now)
        } else {
            prev
        }
    }
}

/// The envelopes one outbound tick sends: one per triggered entity and
/// eligible recipient.
pub open spec fn outbound_spec(
    entities: Seq<EntityState>,
    role: Role,
    peers: Seq<u32>,
    resync: Seq<u64>,
    now: u32,
) -> Seq<SendModel> {
    outbound_upto(entities, entities.len() as int, role, peers, resync, now)
}

/// Whether `post` is `pre` after one outbound tick: everything is kept
/// except the mutation flag, which is consumed.
pub open spec fn entity_after_send(pre: EntityState, post: EntityState) -> bool {
    &&& post.net_id == pre.net_id
    &&& post.record == pre.record
    &&& post.value == pre.value
    &&& !post.changed
}

/// Whether the identifier list `ids` holds `id`.
fn contains_net_id(ids: &Vec<u64>, id: u64) -> (r: bool)
    ensures
        r == ids@.contains(id),
{
    let mut i: usize = 0;
    while i < ids.len()
        invariant
            i <= ids@.len(),
            forall|j: int| 0 <= j < i ==> ids@[j] != id,
        decreases ids@.len() - i,
    {
        if ids[i] == id {
            return true;
        }
        i += 1;
    }
    false
}

/// Runs one outbound tick: drains the forced-resync signal, computes the
/// trigger set (entities whose attribute mutated this tick, union the
/// entities the signal named), and returns one envelope per triggered
/// entity and eligible recipient, stamped with the logical time `now`.
/// Mutation flags are consumed, so an unchanged attribute sends nothing
/// on later ticks.
///
/// The caller hands each returned envelope to the transport; a transient
/// send failure there must not keep the remaining envelopes of the batch
/// from being handed over.
pub fn comp_send(
    reg: &mut Registry,
    role: Role,
    peers: &Vec<u32>,
    signal: &mut ResyncSignal,
    now: u32,
) -> (out: Vec<Outgoing>)
    requires
        old(reg).wf(),
    ensures
        final(reg).wf(),
        final(signal).pending@.len() == 0,
        final(reg).entities@.len() == old(reg).entities@.len(),
        forall|k: int|
            0 <= k < old(reg).entities@.len() ==> entity_after_send(
                old(reg).entities@[k],
                #[trigger] final(reg).entities@[k],
            ),
        sends_match(
            out@,
            outbound_spec(old(reg).entities@, role, peers@, old(signal).pending@, now),
        ),
{
    let fired = signal.take();
    let n = reg.entities.len();
    let mut out: Vec<Outgoing> = Vec::new();
    let mut done: usize = 0;
    while done < n
        invariant
            n == old(reg).entities@.len(),
            done <= n,
            reg.entities@.len() == n,
            fired@ == old(signal).pending@,
            forall|k: int| 0 <= k < n - done ==> reg.entities@[k] == old(reg).entities@[done + k],
            forall|k: int|
                0 <= k < done ==> entity_after_send(
                    old(reg).entities@[k],
                    #[trigger] reg.entities@[n - done + k],
                ),
            sends_match(
                out@,
                outbound_upto(old(reg).entities@, done as int, role, peers@, fired@, now),
            ),
        decreases n - done,
    {
        let ghost start = reg.entities@;
        let mut e = reg.entities.remove(0);
        assert(e == old(reg).entities@[done as int]);
        let ghost base = outbound_upto(old(reg).entities@, done as int, role, peers@, fired@, now);

        if e.changed || contains_net_id(&fired, e.net_id) {
            match role {
                Role::Authority => {
                    match e.record.authority_dir.to() {
                        Option::Some(to) => {
                            let mut j: usize = 0;
                            while j < peers.len()
                                invariant
                                    j <= peers@.len(),
                                    sends_match(
                                        out@,
                                        base + peer_sends_upto(e, *to, peers@, j as int, now),
                                    ),
                                    *to == e.record.authority_dir.to_spec()->Some_0,
                                decreases peers@.len() - j,
                            {
                                if to.matches(peers[j]) {
                                    out.push(
                                        Outgoing {
                                            to: Option::Some(peers[j]),
                                            envelope: Envelope {
                                                entity_id: e.net_id,
                                                payload: copy_payload(&e.value),
                                                send_time: Option::Some(now),
                                            },
                                        },
                                    );
                                }
                                j += 1;
                            }
                        },
                        Option::None => {},
                    }
                },
                Role::Peer => {
                    if e.record.peer_dir.to() {
                        out.push(
                            Outgoing {
                                to: Option::None,
                                envelope: Envelope {
                                    entity_id: e.net_id,
                                    payload: copy_payload(&e.value),
                                    send_time: Option::Some(now),
                                },
                            },
                        );
                    }
                },
            }
        }
        e.changed = false;

        proof {
            assert(sends_match(
                out@,
                outbound_upto(old(reg).entities@, done + 1 as int, role, peers@, fired@, now),
            ));
            assert(entity_after_send(old(reg).entities@[done as int], e));
        }
        let ghost epost = e;
        let ghost mid = reg.entities@;
        reg.entities.push(e);
        proof {
            assert forall|k: int| 0 <= k < done + 1 implies entity_after_send(
                old(reg).entities@[k],
                #[trigger] reg.entities@[n - (done + 1) + k],
            ) by {
                if k < done {
                    assert(mid == start.remove(0));
                    assert(mid[n - done - 1 + k] == start[n - done + k]);
                    assert(entity_after_send(old(reg).entities@[k], start[n - done + k]));
                    assert(reg.entities@[n - (done + 1) + k] == mid[n - done - 1 + k]);
                } else {
                    assert(reg.entities@[n - (done + 1) + k] == epost);
                }
            }
        }
        done += 1;
    }
    proof {
        assert forall|k: int| 0 <= k < n implies entity_after_send(
            old(reg).entities@[k],
            #[trigger] reg.entities@[k],
        ) by {
            assert(entity_after_send(old(reg).entities@[k], reg.entities@[n - done + k]));
        }
        assert forall|i: int, j: int|
            0 <= i < reg.entities@.len() && 0 <= j < reg.entities@.len() && i != j implies reg
            .entities@[i].net_id != reg.entities@[j].net_id by {
            assert(entity_after_send(old(reg).entities@[i], reg.entities@[i]));
            assert(entity_after_send(old(reg).entities@[j], reg.entities@[j]));
        }
    }
    out
}

/// *Idempotent forced resync*: with no attribute mutated and no entity
/// named by the signal, an outbound tick sends nothing.  Since an
/// outbound tick drains the signal and consumes the mutation flags, a
/// fired signal yields its envelopes exactly once, not once per tick
/// thereafter.
pub proof fn lemma_outbound_quiescent(
    entities: Seq<EntityState>,
    n: int,
    role: Role,
    peers: Seq<u32>,
    resync: Seq<u64>,
    now: u32,
)
    requires
        n <= entities.len(),
        forall|k: int| 0 <= k < n ==> !(#[trigger] entities[k]).changed,
        resync.len() == 0,
    ensures
        outbound_upto(entities, n, role, peers, resync, now) == Seq::<SendModel>::empty(),
    decreases n,
{
    if n > 0 {
        lemma_outbound_quiescent(entities, n - 1, role, peers, resync, now);
        assert(!resync.contains(entities[n - 1].net_id));
    }
}

} // verus!
