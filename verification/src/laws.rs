//! Laws of the replication core, stated over the mathematical models of
//! the pipelines and proved once and for all.

use vstd::prelude::*;
use crate::envelope::Received;
use crate::inbound::{accept_filter_spec, entity_after_recv};
use crate::recipient::RecipientSpec;
use crate::record::{EntityState, Role};
use crate::resolve::{
    admissible, init_time, lemma_newest_bound, lemma_newest_wins, lemma_resolve_nothing_newer,
    lemma_resolve_props, lemma_timestampless_last_wins, resolve_spec,
};

verus! {

/// What one inbound tick does to one record's mutable state: the new
/// recency marker and the new encoded value.
pub open spec fn record_after_batch(
    last: Option<u32>,
    value: Seq<u8>,
    batch: Seq<Received>,
    filter: RecipientSpec,
    id: u64,
) -> (Option<u32>, Seq<u8>) {
    let (best, best_time) = resolve_spec(batch, last, filter, id);
    match best {
        Option::Some(i) => (
            if best_time > 0 {
                Option::Some(best_time)
            } else {
                last
            },
            batch[i].envelope.payload@,
        ),
        Option::None => (last, value),
    }
}

/// What a run of inbound ticks does to one record's mutable state, one
/// drained batch per tick, in order.
pub open spec fn record_after_ticks(
    last: Option<u32>,
    value: Seq<u8>,
    ticks: Seq<Seq<Received>>,
    filter: RecipientSpec,
    id: u64,
) -> (Option<u32>, Seq<u8>)
    decreases ticks.len(),
{
    if ticks.len() <= 0 {
        (last, value)
    } else {
        let first = record_after_batch(last, value, ticks[0], filter, id);
        record_after_ticks(first.0, first.1, ticks.skip(1), filter, id)
    }
}

/// The inbound pipeline performs exactly one [`record_after_batch`] step
/// on every entity that accepts updates: what `comp_recv` promises of an
/// entity is this model.
pub proof fn lemma_recv_is_record_step(
    pre: EntityState,
    post: EntityState,
    batch: Seq<Received>,
    role: Role,
    filter: RecipientSpec,
)
    requires
        entity_after_recv(pre, post, batch, role),
        accept_filter_spec(pre.record, role) == Option::Some(filter),
    ensures
        post.record.last_applied == record_after_batch(
            pre.record.last_applied,
            pre.value@,
            batch,
            filter,
            pre.net_id,
        ).0,
        post.value@ == record_after_batch(
            pre.record.last_applied,
            pre.value@,
            batch,
            filter,
            pre.net_id,
        ).1,
{
}

/// *Timestamp-less last write wins*: a batch whose admissible entries are
/// all timestamp-less applies the payload of the last one in arrival
/// order and leaves the recency marker where it was, irrespective of its
/// starting value.
pub proof fn lemma_timestampless_applies(
    last: Option<u32>,
    value: Seq<u8>,
    batch: Seq<Received>,
    filter: RecipientSpec,
    id: u64,
    w: int,
)
    requires
        0 <= w < batch.len(),
        admissible(batch[w], filter, id),
        forall|j: int| 0 <= j < batch.len() && admissible(#[trigger] batch[j], filter, id)
            ==> batch[j].envelope.send_time is None,
        forall|j: int| w < j < batch.len() ==> !admissible(#[trigger] batch[j], filter, id),
    ensures
        record_after_batch(last, value, batch, filter, id)
            == (last, batch[w].envelope.payload@),
{
    lemma_timestampless_last_wins(batch, batch.len() as int, init_time(last), filter, id, w);
}

/// A record already at or past every admissible send time stays exactly
/// where it is through any further run of ticks: stale and duplicate
/// deliveries never re-apply.
pub proof fn lemma_record_stable(
    last: Option<u32>,
    value: Seq<u8>,
    ticks: Seq<Seq<Received>>,
    filter: RecipientSpec,
    id: u64,
)
    requires
        forall|k: int, j: int|
            0 <= k < ticks.len() && 0 <= j < ticks[k].len()
                && admissible(#[trigger] ticks[k][j], filter, id) ==> (
            ticks[k][j].envelope.send_time matches Option::Some(t) && t <= init_time(last)),
    ensures
        record_after_ticks(last, value, ticks, filter, id) == (last, value),
    decreases ticks.len(),
{
    if ticks.len() > 0 {
        lemma_resolve_nothing_newer(ticks[0], ticks[0].len() as int, init_time(last), filter, id);
        assert(record_after_batch(last, value, ticks[0], filter, id) == (last, value));
        let rest = ticks.skip(1);
        assert forall|k: int, j: int|
            0 <= k < rest.len() && 0 <= j < rest[k].len()
                && admissible(#[trigger] rest[k][j], filter, id) implies (
            rest[k][j].envelope.send_time matches Option::Some(t) && t <= init_time(last)) by {
            assert(rest[k] == ticks[k + 1]);
        }
        lemma_record_stable(last, value, rest, filter, id);
    }
}

/// *Recency monotonicity*: when updates with strictly increasing send
/// times arrive interleaved in any order across one or more ticks —
/// duplicates of the newest permitted, bearing the same payload — the
/// final applied value is the newest update's payload and the recency
/// marker ends at its send time, regardless of arrival order.
///
/// `ki`/`ji` locate one occurrence of the newest update.
pub proof fn lemma_recency_monotonic(
    last: Option<u32>,
    value: Seq<u8>,
    ticks: Seq<Seq<Received>>,
    filter: RecipientSpec,
    id: u64,
    ki: int,
    ji: int,
)
    requires
        0 <= ki < ticks.len(),
        0 <= ji < ticks[ki].len(),
        admissible(ticks[ki][ji], filter, id),
        ticks[ki][ji].envelope.send_time is Some,
        ticks[ki][ji].envelope.send_time->Some_0 > init_time(last),
        forall|k: int, j: int|
            0 <= k < ticks.len() && 0 <= j < ticks[k].len()
                && admissible(#[trigger] ticks[k][j], filter, id)
                ==> ticks[k][j].envelope.send_time is Some,
        forall|k: int, j: int|
            0 <= k < ticks.len() && 0 <= j < ticks[k].len()
                && admissible(#[trigger] ticks[k][j], filter, id)
                ==> ticks[k][j].envelope.send_time->Some_0
                    <= ticks[ki][ji].envelope.send_time->Some_0,
        forall|k: int, j: int|
            0 <= k < ticks.len() && 0 <= j < ticks[k].len()
                && admissible(#[trigger] ticks[k][j], filter, id)
                && ticks[k][j].envelope.send_time == ticks[ki][ji].envelope.send_time
                ==> ticks[k][j].envelope.payload@ == ticks[ki][ji].envelope.payload@,
    ensures
        record_after_ticks(last, value, ticks, filter, id) == (
            Option::Some(ticks[ki][ji].envelope.send_time->Some_0),
            ticks[ki][ji].envelope.payload@,
        ),
    decreases ki,
{
    let tmax = ticks[ki][ji].envelope.send_time->Some_0;
    let pmax = ticks[ki][ji].envelope.payload@;
    let init = init_time(last);
    let batch = ticks[0];
    let first = record_after_batch(last, value, batch, filter, id);
    let rest = ticks.skip(1);

    if ki == 0 {
        lemma_newest_wins(batch, batch.len() as int, init, filter, id, ji);
        assert(first == (Option::Some(tmax), pmax));
        lemma_stable_after_newest(ticks, filter, id, tmax, 1);
        lemma_record_stable(Option::Some(tmax), pmax, rest, filter, id);
    } else {
        lemma_newest_bound(batch, batch.len() as int, init, filter, id, tmax, pmax);
        lemma_resolve_props(batch, batch.len() as int, init, filter, id);
        let (best, best_time) = resolve_spec(batch, last, filter, id);
        if best is Some && best_time == tmax {
            // The newest time already arrived in the first tick, with the
            // newest payload; everything after can only confirm it.
            assert(first == (Option::Some(tmax), pmax));
            lemma_stable_after_newest(ticks, filter, id, tmax, 1);
            lemma_record_stable(Option::Some(tmax), pmax, rest, filter, id);
        } else {
            assert(init_time(first.0) < tmax);
            assert(rest[ki - 1] == ticks[ki]);
            assert forall|k: int, j: int|
                0 <= k < rest.len() && 0 <= j < rest[k].len()
                    && admissible(#[trigger] rest[k][j], filter, id) implies (
                rest[k][j].envelope.send_time is Some
                    && rest[k][j].envelope.send_time->Some_0 <= tmax
                    && (rest[k][j].envelope.send_time == ticks[ki][ji].envelope.send_time
                        ==> rest[k][j].envelope.payload@ == pmax)) by {
                assert(rest[k] == ticks[k + 1]);
            }
            lemma_recency_monotonic(first.0, first.1, rest, filter, id, ki - 1, ji);
        }
    }
}

/// Every admissible entry from tick `from` on carries a send time of at
/// most `tmax`: the transfer needed to keep a record stable once the
/// newest update was applied.
proof fn lemma_stable_after_newest(
    ticks: Seq<Seq<Received>>,
    filter: RecipientSpec,
    id: u64,
    tmax: u32,
    from: int,
)
    requires
        0 <= from <= ticks.len(),
        forall|k: int, j: int|
            0 <= k < ticks.len() && 0 <= j < ticks[k].len()
                && admissible(#[trigger] ticks[k][j], filter, id)
                ==> (ticks[k][j].envelope.send_time matches Option::Some(t) && t <= tmax),
    ensures
        forall|k: int, j: int|
            0 <= k < ticks.skip(from).len() && 0 <= j < ticks.skip(from)[k].len()
                && admissible(#[trigger] ticks.skip(from)[k][j], filter, id)
                ==> (ticks.skip(from)[k][j].envelope.send_time matches Option::Some(t)
                    && t <= init_time(Option::Some(tmax))),
{
    assert forall|k: int, j: int|
        0 <= k < ticks.skip(from).len() && 0 <= j < ticks.skip(from)[k].len()
            && admissible(#[trigger] ticks.skip(from)[k][j], filter, id) implies (
        ticks.skip(from)[k][j].envelope.send_time matches Option::Some(t)
            && t <= init_time(Option::Some(tmax))) by {
        assert(ticks.skip(from)[k] == ticks[k + from]);
    }
}

} // verus!
