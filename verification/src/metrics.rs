//! Monotonic traffic counters. The router task owns them and is their only
//! writer; everyone else sees values through snapshots. The rates derived
//! from successive snapshots are a display concern and live with the
//! surrounding program.

use vstd::prelude::*;

verus! {

/// Counts of frames seen and routed, and of bytes routed. Each counter only
/// ever grows.
#[derive(Debug, Clone, Copy, PartialEq, Eq, Structural)]
pub struct Metrics {
    pub messages_routed: u64,
    pub messages_received: u64,
    pub messages_dropped: u64,
    pub bytes_routed: u64,
}

impl Metrics {
    /// Fresh counters, all zero.
    pub fn new() -> (r: Self)
        ensures
            r.messages_routed == 0,
            r.messages_received == 0,
            r.messages_dropped == 0,
            r.bytes_routed == 0,
    {
        Metrics { messages_routed: 0, messages_received: 0, messages_dropped: 0, bytes_routed: 0 }
    }

    /// Count one frame arriving at the router.
    pub fn record_received(&mut self)
        requires
            old(self).messages_received < u64::MAX,
        ensures
            final(self).messages_received == old(self).messages_received + 1,
            final(self).messages_routed == old(self).messages_routed,
            final(self).messages_dropped == old(self).messages_dropped,
            final(self).bytes_routed == old(self).bytes_routed,
    {
        self.messages_received = self.messages_received + 1;
    }

    /// Count one frame delivered to one destination, and its bytes.
    pub fn record_routed(&mut self, bytes: usize)
        requires
            old(self).messages_routed < u64::MAX,
            old(self).bytes_routed + bytes <= u64::MAX,
        ensures
            final(self).messages_routed == old(self).messages_routed + 1,
            final(self).bytes_routed == old(self).bytes_routed + bytes,
            final(self).messages_received == old(self).messages_received,
            final(self).messages_dropped == old(self).messages_dropped,
    {
        self.messages_routed = self.messages_routed + 1;
        self.bytes_routed = self.bytes_routed + (bytes as u64);
    }

    /// Count one frame discarded because a destination could not accept it.
    pub fn record_dropped(&mut self)
        requires
            old(self).messages_dropped < u64::MAX,
        ensures
            final(self).messages_dropped == old(self).messages_dropped + 1,
            final(self).messages_routed == old(self).messages_routed,
            final(self).messages_received == old(self).messages_received,
            final(self).bytes_routed == old(self).bytes_routed,
    {
        self.messages_dropped = self.messages_dropped + 1;
    }

    /// A snapshot of the counters as they stand.
    pub fn get_stats(&self) -> (r: MetricsSnapshot)
        ensures
            r.messages_received == self.messages_received,
            r.messages_routed == self.messages_routed,
            r.messages_dropped == self.messages_dropped,
            r.bytes_routed == self.bytes_routed,
    {
        MetricsSnapshot {
            messages_received: self.messages_received,
            messages_routed: self.messages_routed,
            messages_dropped: self.messages_dropped,
            bytes_routed: self.bytes_routed,
        }
    }
}

impl Default for Metrics {
    /// Fresh counters, all zero.
    fn default() -> (r: Self)
        ensures
            r.messages_routed == 0,
            r.messages_received == 0,
            r.messages_dropped == 0,
            r.bytes_routed == 0,
    {
        Metrics::new()
    }
}

/// The counters read at one moment.
#[derive(Debug, Clone, Copy, PartialEq, Eq, Structural)]
pub struct MetricsSnapshot {
    pub messages_received: u64,
    pub messages_routed: u64,
    pub messages_dropped: u64,
    pub bytes_routed: u64,
}

} // verus!
