//! The wire-level unit exchanged between peers, and the logical clock that
//! stamps outbound envelopes.

use vstd::prelude::*;

verus! {

/// The transmitted unit: the entity's network identifier, the encoded
/// attribute value, and the sender's logical send time, when its transport
/// carries one.  Envelopes are transient: constructed, transmitted, and
/// discarded.
pub struct Envelope {
    /// Stable network identifier of the entity the update is for.
    pub entity_id: u64,
    /// Encoded attribute value.  The core never inspects its contents.
    pub payload: Vec<u8>,
    /// Logical send time, absent when the transport carries none.
    pub send_time: Option<u32>,
}

/// An inbound envelope together with the identifier of the connection it
/// arrived on, which the transport supplies out of band.
pub struct Received {
    /// The envelope as transmitted.
    pub envelope: Envelope,
    /// Peer-connection identifier of the sender.
    pub sender: u32,
}

/// An outbound envelope together with its target.
pub struct Outgoing {
    /// The peer the envelope goes to; absence means the single authority,
    /// the only counterpart a peer role has.
    pub to: Option<u32>,
    /// The envelope to transmit.
    pub envelope: Envelope,
}

/// A monotonic logical clock.  Stamping outbound envelopes from one such
/// clock keeps `send_time` non-decreasing across ticks for a given sender,
/// which is all that recency resolution needs: no wall-clock
/// synchronization.
pub struct LogicalClock {
    /// The current logical time.
    pub now: u32,
}

impl LogicalClock {
    /// A fresh clock whose first readable time is 1, so that a stamped
    /// envelope is never confused with the minimum sentinel that marks "no
    /// update applied yet".
    pub fn new() -> (r: LogicalClock)
        ensures
            r.now == 1u32,
    {
        LogicalClock { now: 1 }
    }

    /// The current logical time.
    pub fn current(&self) -> (r: u32)
        ensures
            r == self.now,
    {
        self.now
    }

    /// Advances the clock by one tick.
    pub fn advance(&mut self)
        requires
            old(self).now < u32::MAX,
        ensures
            final(self).now == old(self).now + 1,
    {
        self.now = self.now + 1;
    }
}

/// Copies an encoded payload byte for byte.
pub fn copy_payload(v: &Vec<u8>) -> (r: Vec<u8>)
    ensures
        r@ == v@,
{
    let mut r: Vec<u8> = Vec::new();
    let mut i: usize = 0;
    while i < v.len()
        invariant
            i <= v@.len(),
            r@ == v@.take(i as int),
        decreases v@.len() - i,
    {
        r.push(v[i]);
        assert(v@.take(i + 1 as int) == v@.take(i as int).push(v@[i as int]));
        i += 1;
    }
    assert(v@.take(v@.len() as int) == v@);
    r
}

} // verus!
