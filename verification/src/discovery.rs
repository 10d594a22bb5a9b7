//! The state behind serial auto-discovery: which device paths already run
//! as endpoints, and the next serial ordinal to hand out. The scanner in the
//! surrounding program enumerates candidate paths, sniffs each unknown one
//! with the frame detector, and promotes positives here. The allocator
//! starts past the statically configured endpoints so ordinals never
//! collide, and promoted paths are never probed twice.

use crate::config::UartDiscoveryConfig;
use vstd::prelude::*;

verus! {

/// Is `p` one of the already-promoted paths?
pub open spec fn spec_active_has(active: Seq<Seq<char>>, p: Seq<char>) -> bool {
    exists|i: int| 0 <= i < active.len() && active[i] == p
}

/// The discovery scanner's state: its configuration, the promoted device
/// paths, and the next serial ordinal.
pub struct UartDiscovery {
    pub config: UartDiscoveryConfig,
    active_devices: Vec<String>,
    next_uart_id: usize,
}

impl UartDiscovery {
    /// The configuration the scanner runs with.
    pub closed spec fn spec_config(self) -> UartDiscoveryConfig {
        self.config
    }

    /// The promoted device paths, in promotion order.
    pub closed spec fn active(self) -> Seq<Seq<char>> {
        self.active_devices@.map_values(|s: String| s@)
    }

    /// The next serial ordinal the scanner will hand out.
    pub closed spec fn next_id(self) -> int {
        self.next_uart_id as int
    }

    /// A scanner with no promoted paths whose first ordinal is
    /// `starting_id` — the count of statically configured serial endpoints,
    /// so the two allocators never overlap.
    pub fn new(config: UartDiscoveryConfig, starting_id: usize) -> (r: Self)
        ensures
            r.spec_config() == config,
            r.active().len() == 0,
            r.next_id() == starting_id,
    {
        UartDiscovery { config, active_devices: Vec::new(), next_uart_id: starting_id }
    }

    /// Has this path already been promoted? A promoted path is skipped on
    /// every later scan.
    pub fn is_active(&self, path: &String) -> (r: bool)
        ensures
            r == spec_active_has(self.active(), path@),
    {
        let mut i: usize = 0;
        while i < self.active_devices.len()
            invariant
                i <= self.active_devices@.len(),
                forall|j: int| 0 <= j < i ==> self.active()[j] != path@,
            decreases self.active_devices@.len() - i,
        {
            proof {
                assert(self.active()[i as int] == self.active_devices@[i as int]@);
            }
            if self.active_devices[i] == *path {
                return true;
            }
            i = i + 1;
        }
        false
    }

    /// The next serial ordinal the scanner will hand out.
    pub fn next_ordinal(&self) -> (r: usize)
        ensures
            r == self.next_id(),
    {
        self.next_uart_id
    }

    /// Promote a device on which MAVLink traffic was detected: hand out the
    /// next serial ordinal and remember the path as active.
    pub fn promote(&mut self, path: String) -> (id: usize)
        requires
            old(self).next_id() < usize::MAX,
        ensures
            id == old(self).next_id(),
            final(self).next_id() == old(self).next_id() + 1,
            final(self).active() == old(self).active().push(path@),
            final(self).spec_config() == old(self).spec_config(),
    {
        let id = self.next_uart_id;
        self.next_uart_id = self.next_uart_id + 1;
        self.active_devices.push(path);
        proof {
            assert(self.active() =~= old(self).active().push(path@));
        }
        id
    }
}

} // verus!
