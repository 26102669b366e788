//! Replication decision logic for mutable entity state shared across a
//! client-server topology.
//!
//! The library decides, per tracked attribute, who sends to whom, which of
//! possibly out-of-order or duplicate network updates should be applied, and
//! when to suppress redundant sends.  The transport and the host entity
//! runtime are external collaborators: the pipelines here work on plain
//! values (identifiers, encoded payloads, logical times) that the host hands
//! in and takes back each tick.

pub mod direction;
pub mod envelope;
pub mod inbound;
pub mod laws;
pub mod outbound;
pub mod recipient;
pub mod record;
pub mod resolve;
pub mod table;
pub mod types;
