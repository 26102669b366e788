//! Recency resolution: which of several candidate inbound updates for the
//! same entity and attribute is applied in a given tick.

use vstd::prelude::*;
use crate::envelope::Received;
use crate::recipient::RecipientSpec;

verus! {

/// Whether a batch entry is a candidate for the entity `id` under the
/// acceptance `filter`: it names that entity and its sender passes the
/// filter.
pub open spec fn admissible(r: Received, filter: RecipientSpec, id: u64) -> bool {
    r.envelope.entity_id == id && filter.spec_matches(r.sender)
}

/// The minimum sentinel standing for "no update applied yet".
pub open spec fn init_time(last_applied: Option<u32>) -> u32 {
    match last_applied {
        Option::Some(t) => t,
        Option::None => 0u32,
    }
}

/// State of recency resolution after scanning the first `n` batch entries:
/// the index of the entry currently selected for application, if any, and
/// the highest send time accepted so far (starting from `init`).
///
/// A timestamped entry is selected only if its time is strictly greater
/// than every time accepted before it, so ties favor the earlier-seen
/// entry.  A timestamp-less entry carries no ordering information and is
/// selected unconditionally, so among such entries the last in arrival
/// order wins.
pub open spec fn resolve_upto(
    batch: Seq<Received>,
    n: int,
    init: u32,
    filter: RecipientSpec,
    id: u64,
) -> (Option<int>, u32)
    decreases n,
{
    if n <= 0 {
        (Option::None, init)
    } else {
        let prev = resolve_upto(batch, n - 1, init, filter, id);
        let r = batch[n - 1];
        if admissible(r, filter, id) {
            match r.envelope.send_time {
                Option::Some(t) => if t > prev.1 {
                    (Option::Some(n - 1), t)
                } else {
                    prev
                },
                Option::None => (Option::Some(n - 1), prev.1),
            }
        } else {
            prev
        }
    }
}

/// Recency resolution over the whole batch.
pub open spec fn resolve_spec(
    batch: Seq<Received>,
    last_applied: Option<u32>,
    filter: RecipientSpec,
    id: u64,
) -> (Option<int>, u32) {
    resolve_upto(batch, batch.len() as int, init_time(last_applied), filter, id)
}

/// Selects the most recent applicable update for the entity `id` among the
/// drained batch `msgs`: the entry to apply, if any, and the new recency
/// marker.  `current` is the record's last-applied send time.
pub fn get_latest_msg(
    msgs: &Vec<Received>,
    current: Option<u32>,
    filter: &RecipientSpec,
    id: u64,
) -> (r: (Option<usize>, u32))
    ensures
        ({
            let (best, best_time) = resolve_spec(msgs@, current, *filter, id);
            &&& match r.0 {
                Option::Some(i) => best == Option::Some(i as int) && i < msgs@.len()
                    && admissible(msgs@[i as int], *filter, id),
                Option::None => best is None,
            }
            &&& r.1 == best_time
        }),
{
    proof {
        lemma_resolve_props(msgs@, msgs@.len() as int, init_time(current), *filter, id);
    }
    let init: u32 = match current {
        Option::Some(t) => t,
        Option::None => 0,
    };
    let mut best: Option<usize> = Option::None;
    let mut best_time: u32 = init;
    let mut i: usize = 0;
    while i < msgs.len()
        invariant
            i <= msgs@.len(),
            ({
                let st = resolve_upto(msgs@, i as int, init, *filter, id);
                &&& match best {
                    Option::Some(j) => st.0 == Option::Some(j as int) && j < i,
                    Option::None => st.0 is None,
                }
                &&& st.1 == best_time
            }),
        decreases msgs@.len() - i,
    {
        let m = &msgs[i];
        if m.envelope.entity_id == id && filter.matches(m.sender) {
            match m.envelope.send_time {
                Option::Some(t) => {
                    if t > best_time {
                        best_time = t;
                        best = Option::Some(i);
                    }
                }
                Option::None => {
                    best = Option::Some(i);
                }
            }
        }
        i += 1;
    }
    (best, best_time)
}

/// Basic shape of the resolution state: the selected entry is an
/// admissible one; the accepted time never falls below the starting
/// marker; when the selected entry is timestamped, the accepted time is
/// exactly its time and strictly above the starting marker; and when
/// nothing is selected, the marker is unchanged.
pub proof fn lemma_resolve_props(
    batch: Seq<Received>,
    n: int,
    init: u32,
    filter: RecipientSpec,
    id: u64,
)
    requires
        n <= batch.len(),
    ensures
        ({
            let (best, best_time) = resolve_upto(batch, n, init, filter, id);
            &&& best_time >= init
            &&& best is None ==> best_time == init
            &&& best matches Option::Some(i) ==> 0 <= i < n && admissible(batch[i], filter, id)
            &&& (best matches Option::Some(i)
                    ==> (batch[i].envelope.send_time matches Option::Some(t)
                        ==> best_time == t && t > init))
        }),
    decreases n,
{
    if n > 0 {
        lemma_resolve_props(batch, n - 1, init, filter, id);
    }
}

/// *Stale rejection*: an entry whose send time is not strictly above the
/// last-applied marker is never selected, even if no newer entry exists in
/// the batch.
pub proof fn lemma_stale_rejected(
    batch: Seq<Received>,
    last_applied: Option<u32>,
    filter: RecipientSpec,
    id: u64,
    j: int,
)
    requires
        0 <= j < batch.len(),
        batch[j].envelope.send_time matches Option::Some(t) && t <= init_time(last_applied),
    ensures
        resolve_spec(batch, last_applied, filter, id).0 != Option::Some(j),
{
    let init = init_time(last_applied);
    let (best, best_time) = resolve_spec(batch, last_applied, filter, id);
    lemma_resolve_props(batch, batch.len() as int, init, filter, id);
}

/// *Filter exclusivity*: an entry whose sender fails the acceptance filter,
/// or that names another entity, is never selected, regardless of its
/// timestamp.
pub proof fn lemma_filter_exclusive(
    batch: Seq<Received>,
    last_applied: Option<u32>,
    filter: RecipientSpec,
    id: u64,
    j: int,
)
    requires
        0 <= j < batch.len(),
        !admissible(batch[j], filter, id),
    ensures
        resolve_spec(batch, last_applied, filter, id).0 != Option::Some(j),
{
    lemma_resolve_props(batch, batch.len() as int, init_time(last_applied), filter, id);
}

/// *Timestamp-less last write wins*: when every admissible entry of the
/// batch is timestamp-less and at least one exists, the last one in batch
/// order is selected and the recency marker is left unchanged, irrespective
/// of its starting value.
pub proof fn lemma_timestampless_last_wins(
    batch: Seq<Received>,
    n: int,
    init: u32,
    filter: RecipientSpec,
    id: u64,
    w: int,
)
    requires
        0 <= w < n <= batch.len(),
        admissible(batch[w], filter, id),
        forall|j: int| 0 <= j < n && admissible(#[trigger] batch[j], filter, id)
            ==> batch[j].envelope.send_time is None,
        forall|j: int| w < j < n ==> !admissible(#[trigger] batch[j], filter, id),
    ensures
        resolve_upto(batch, n, init, filter, id) == (Option::Some(w), init),
    decreases n,
{
    if n - 1 == w {
        lemma_resolve_no_timestamps(batch, n - 1, init, filter, id);
    } else {
        lemma_timestampless_last_wins(batch, n - 1, init, filter, id, w);
    }
}

/// When every admissible entry among the first `n` is timestamp-less, the
/// accepted time stays at its starting value.
pub proof fn lemma_resolve_no_timestamps(
    batch: Seq<Received>,
    n: int,
    init: u32,
    filter: RecipientSpec,
    id: u64,
)
    requires
        n <= batch.len(),
        forall|j: int| 0 <= j < n && admissible(#[trigger] batch[j], filter, id)
            ==> batch[j].envelope.send_time is None,
    ensures
        resolve_upto(batch, n, init, filter, id).1 == init,
    decreases n,
{
    if n > 0 {
        lemma_resolve_no_timestamps(batch, n - 1, init, filter, id);
    }
}

/// When no admissible entry is strictly newer than the starting marker and
/// none is timestamp-less, nothing is selected and the marker is
/// unchanged.
pub proof fn lemma_resolve_nothing_newer(
    batch: Seq<Received>,
    n: int,
    init: u32,
    filter: RecipientSpec,
    id: u64,
)
    requires
        n <= batch.len(),
        forall|j: int| 0 <= j < n && admissible(#[trigger] batch[j], filter, id)
            ==> (batch[j].envelope.send_time matches Option::Some(t) && t <= init),
    ensures
        resolve_upto(batch, n, init, filter, id) == (Option::None::<int>, init),
    decreases n,
{
    if n > 0 {
        lemma_resolve_nothing_newer(batch, n - 1, init, filter, id);
    }
}

/// *Unknown-entity safety*, batch side: entries that are not admissible
/// for this entity and filter never change the outcome; in particular an
/// update naming an unregistered or foreign entity is ignored.
pub proof fn lemma_inadmissible_ignored(
    batch: Seq<Received>,
    extra: Received,
    last_applied: Option<u32>,
    filter: RecipientSpec,
    id: u64,
)
    requires
        !admissible(extra, filter, id),
    ensures
        resolve_spec(batch.push(extra), last_applied, filter, id)
            == resolve_spec(batch, last_applied, filter, id),
{
    let init = init_time(last_applied);
    lemma_resolve_prefix_agree(batch.push(extra), batch, batch.len() as int, init, filter, id);
    assert(batch.push(extra)[batch.len() as int] == extra);
}

/// Resolution over the first `n` entries depends only on those entries.
pub proof fn lemma_resolve_prefix_agree(
    b1: Seq<Received>,
    b2: Seq<Received>,
    n: int,
    init: u32,
    filter: RecipientSpec,
    id: u64,
)
    requires
        n <= b1.len(),
        n <= b2.len(),
        forall|j: int| 0 <= j < n ==> b1[j] == b2[j],
    ensures
        resolve_upto(b1, n, init, filter, id) == resolve_upto(b2, n, init, filter, id),
    decreases n,
{
    if n > 0 {
        lemma_resolve_prefix_agree(b1, b2, n - 1, init, filter, id);
    }
}

/// *Recency wins within a batch*: when the batch holds an admissible entry
/// carrying the strictly greatest send time among admissible entries (the
/// only ties allowed are duplicates bearing the same payload), that time
/// and payload win, wherever in the batch they stand.
pub proof fn lemma_newest_wins(
    batch: Seq<Received>,
    n: int,
    init: u32,
    filter: RecipientSpec,
    id: u64,
    w: int,
)
    requires
        0 <= w < n <= batch.len(),
        admissible(batch[w], filter, id),
        batch[w].envelope.send_time matches Option::Some(t) && t > init,
        forall|j: int| 0 <= j < n && admissible(#[trigger] batch[j], filter, id)
            ==> batch[j].envelope.send_time is Some,
        forall|j: int| 0 <= j < n && admissible(#[trigger] batch[j], filter, id)
            ==> batch[j].envelope.send_time->Some_0 <= batch[w].envelope.send_time->Some_0,
        forall|j: int| 0 <= j < n && admissible(#[trigger] batch[j], filter, id)
                && batch[j].envelope.send_time == batch[w].envelope.send_time
            ==> batch[j].envelope.payload@ == batch[w].envelope.payload@,
    ensures
        ({
            let (best, best_time) = resolve_upto(batch, n, init, filter, id);
            &&& best_time == batch[w].envelope.send_time->Some_0
            &&& best matches Option::Some(k)
            &&& 0 <= best->Some_0 < n
            &&& batch[best->Some_0].envelope.payload@ == batch[w].envelope.payload@
            &&& batch[best->Some_0].envelope.send_time == batch[w].envelope.send_time
        }),
    decreases n,
{
    let tmax = batch[w].envelope.send_time->Some_0;
    if n - 1 == w {
        lemma_newest_bound(batch, n - 1, init, filter, id, tmax, batch[w].envelope.payload@);
    } else {
        if w < n - 1 {
            lemma_newest_wins(batch, n - 1, init, filter, id, w);
        }
    }
}

/// Helper bound: when every admissible timestamped entry among the first
/// `n` has time at most `tmax` (entries at exactly `tmax` all bear the
/// payload `pmax`) and the start marker is below `tmax`, the accepted time
/// stays at most `tmax`, and reaches it only through an entry bearing
/// `pmax`.
pub proof fn lemma_newest_bound(
    batch: Seq<Received>,
    n: int,
    init: u32,
    filter: RecipientSpec,
    id: u64,
    tmax: u32,
    pmax: Seq<u8>,
)
    requires
        0 <= n <= batch.len(),
        init < tmax,
        forall|j: int| 0 <= j < n && admissible(#[trigger] batch[j], filter, id)
            ==> batch[j].envelope.send_time is Some,
        forall|j: int| 0 <= j < n && admissible(#[trigger] batch[j], filter, id)
            ==> batch[j].envelope.send_time->Some_0 <= tmax,
        forall|j: int| 0 <= j < n && admissible(#[trigger] batch[j], filter, id)
                && batch[j].envelope.send_time->Some_0 == tmax
            ==> batch[j].envelope.payload@ == pmax,
    ensures
        ({
            let (best, best_time) = resolve_upto(batch, n, init, filter, id);
            &&& best_time <= tmax
            &&& best_time == tmax ==> {
                &&& best matches Option::Some(k)
                &&& 0 <= best->Some_0 < n
                &&& batch[best->Some_0].envelope.payload@ == pmax
                &&& batch[best->Some_0].envelope.send_time == Option::Some(tmax)
            }
        }),
    decreases n,
{
    if n > 0 {
        lemma_newest_bound(batch, n - 1, init, filter, id, tmax, pmax);
    }
}

} // verus!
