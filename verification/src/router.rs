//! The router: single owner of the connection registry and the system-id
//! directory. It drains one ingress message at a time and fans frames out to
//! every other eligible endpoint under the policy matrix, counting drops
//! instead of ever blocking on a slow destination.

use crate::buf::bytes_clone;
use crate::channel::try_send_bytes;
use crate::config::RoutingConfig;
use crate::connection::{ConnectionId, ConnectionType, MessageSender};
use crate::mavlink::spec_sys_id;
use crate::mavlink::MavFrame;
use crate::metrics::Metrics;
use vstd::prelude::*;

verus! {

/// One registered endpoint as the router sees it: its egress sink, its
/// transport kind, and the system id bound to it once its first frame has
/// been seen (serial endpoints only).
pub struct Connection {
    tx: MessageSender,
    pub conn_type: ConnectionType,
    pub sysid: Option<u8>,
}

/// What the contracts say about a registry entry: its transport kind and
/// its bound system id. The egress sink itself is opaque.
pub struct ConnInfo {
    pub kind: ConnectionType,
    pub sysid: Option<u8>,
}

/// Does the policy matrix let traffic flow from `src` endpoints to `dst`
/// endpoints?
pub open spec fn spec_should_route(
    cfg: RoutingConfig,
    src: ConnectionType,
    dst: ConnectionType,
) -> bool {
    match (src, dst) {
        (ConnectionType::Uart, ConnectionType::Uart) => cfg.allow_uart_to_uart,
        (ConnectionType::Uart, ConnectionType::Tcp) => cfg.allow_uart_to_tcp,
        (ConnectionType::Tcp, ConnectionType::Uart) => cfg.allow_tcp_to_uart,
        (ConnectionType::Tcp, ConnectionType::Tcp) => cfg.allow_tcp_to_tcp,
    }
}

/// Is some entry for `id` in the registry?
pub open spec fn spec_registered(entries: Seq<(ConnectionId, ConnInfo)>, id: ConnectionId) -> bool {
    exists|i: int| 0 <= i < entries.len() && entries[i].0 == id
}

/// Does the directory hold exactly the pair `sysid -> id`?
pub open spec fn spec_dir_maps(dir: Seq<(u8, ConnectionId)>, sysid: u8, id: ConnectionId) -> bool {
    exists|i: int| 0 <= i < dir.len() && dir[i] == (sysid, id)
}

/// Does the directory hold any entry for `sysid`?
pub open spec fn spec_dir_has(dir: Seq<(u8, ConnectionId)>, sysid: u8) -> bool {
    exists|i: int| 0 <= i < dir.len() && dir[i].0 == sysid
}

/// Is the registry entry `e` a destination for a frame arriving from
/// `source`? It is unless it is the source itself or the policy matrix
/// forbids the edge.
pub open spec fn spec_eligible(
    cfg: RoutingConfig,
    source: ConnectionId,
    e: (ConnectionId, ConnInfo),
) -> bool {
    e.0 != source && spec_should_route(cfg, source.conn_type, e.1.kind)
}

/// How many of the first `n` registry entries are destinations for a frame
/// from `source`.
pub open spec fn count_eligible_upto(
    cfg: RoutingConfig,
    source: ConnectionId,
    entries: Seq<(ConnectionId, ConnInfo)>,
    n: int,
) -> int
    decreases n,
{
    if n <= 0 {
        0
    } else {
        count_eligible_upto(cfg, source, entries, n - 1) + if spec_eligible(
            cfg,
            source,
            entries[n - 1],
        ) {
            1int
        } else {
            0int
        }
    }
}

/// How many registry entries are destinations for a frame from `source`.
pub open spec fn count_eligible(
    cfg: RoutingConfig,
    source: ConnectionId,
    entries: Seq<(ConnectionId, ConnInfo)>,
) -> int {
    count_eligible_upto(cfg, source, entries, entries.len() as int)
}

/// Will a frame from `source` bind a system id: the source is serial,
/// registered, and has no system id bound yet.
pub open spec fn spec_binds(entries: Seq<(ConnectionId, ConnInfo)>, source: ConnectionId) -> bool {
    source.conn_type == ConnectionType::Uart && exists|i: int|
        0 <= i < entries.len() && entries[i].0 == source && entries[i].1.sysid is None
}

/// The eligible count is never negative and never exceeds the prefix length.
pub proof fn lemma_count_eligible_bounds(
    cfg: RoutingConfig,
    source: ConnectionId,
    entries: Seq<(ConnectionId, ConnInfo)>,
    n: int,
)
    ensures
        0 <= count_eligible_upto(cfg, source, entries, n),
        n >= 0 ==> count_eligible_upto(cfg, source, entries, n) <= n,
    decreases n,
{
    if n > 0 {
        lemma_count_eligible_bounds(cfg, source, entries, n - 1);
    }
}

/// The eligible count reads only each entry's identity and kind.
pub proof fn lemma_count_eligible_congruent(
    cfg: RoutingConfig,
    source: ConnectionId,
    a: Seq<(ConnectionId, ConnInfo)>,
    b: Seq<(ConnectionId, ConnInfo)>,
    n: int,
)
    requires
        n <= a.len(),
        n <= b.len(),
        forall|i: int|
            0 <= i < n ==> (#[trigger] a[i]).0 == b[i].0 && a[i].1.kind == b[i].1.kind,
    ensures
        count_eligible_upto(cfg, source, a, n) == count_eligible_upto(cfg, source, b, n),
    decreases n,
{
    if n > 0 {
        lemma_count_eligible_congruent(cfg, source, a, b, n - 1);
    }
}

/// Law: a frame's own source is never an eligible destination for it, so a
/// fan-out that attempts exactly the eligible entries never loops a frame
/// back to where it came from.
pub proof fn lemma_router_self_loop(
    cfg: RoutingConfig,
    source: ConnectionId,
    entry: (ConnectionId, ConnInfo),
)
    ensures
        entry.0 == source ==> !spec_eligible(cfg, source, entry),
{
}

/// Law: the policy matrix is respected cell by cell: an entry on an edge
/// whose cell is off is never an eligible destination.
pub proof fn lemma_router_policy(
    cfg: RoutingConfig,
    source: ConnectionId,
    entry: (ConnectionId, ConnInfo),
)
    ensures
        !cfg.allow_uart_to_uart && source.conn_type == ConnectionType::Uart && entry.1.kind
            == ConnectionType::Uart ==> !spec_eligible(cfg, source, entry),
        !cfg.allow_uart_to_tcp && source.conn_type == ConnectionType::Uart && entry.1.kind
            == ConnectionType::Tcp ==> !spec_eligible(cfg, source, entry),
        !cfg.allow_tcp_to_uart && source.conn_type == ConnectionType::Tcp && entry.1.kind
            == ConnectionType::Uart ==> !spec_eligible(cfg, source, entry),
        !cfg.allow_tcp_to_tcp && source.conn_type == ConnectionType::Tcp && entry.1.kind
            == ConnectionType::Tcp ==> !spec_eligible(cfg, source, entry),
{
}

/// Law: when no prefix entry is eligible, the eligible count of that prefix
/// is zero — nothing at all is attempted for such a frame.
pub proof fn lemma_count_eligible_zero(
    cfg: RoutingConfig,
    source: ConnectionId,
    entries: Seq<(ConnectionId, ConnInfo)>,
    n: int,
)
    requires
        forall|i: int| 0 <= i < n ==> !spec_eligible(cfg, source, #[trigger] entries[i]),
    ensures
        count_eligible_upto(cfg, source, entries, n) == 0,
    decreases n,
{
    if n > 0 {
        lemma_count_eligible_zero(cfg, source, entries, n - 1);
    }
}

/// Law: after a first frame from a serial endpoint binds system id `v`, the
/// directory maps `v` to that endpoint — whichever branch of the routing
/// contract applied, a fresh entry or a last-writer-wins overwrite.
pub proof fn lemma_sysid_binding_established(
    dir0: Seq<(u8, ConnectionId)>,
    dir1: Seq<(u8, ConnectionId)>,
    v: u8,
    source: ConnectionId,
)
    requires
        (exists|j: int| 0 <= j < dir0.len() && dir0[j].0 == v && dir1 == dir0.update(j, (v, source)))
            || dir1 == dir0.push((v, source)),
    ensures
        spec_dir_maps(dir1, v, source),
{
    if exists|j: int| 0 <= j < dir0.len() && dir0[j].0 == v && dir1 == dir0.update(j, (v, source)) {
        let j = choose|j: int|
            0 <= j < dir0.len() && dir0[j].0 == v && dir1 == dir0.update(j, (v, source));
        assert(dir1[j] == (v, source));
    } else {
        assert(dir1[dir0.len() as int] == (v, source));
    }
}

/// Law: removing the directory entry a system id points at leaves the
/// directory without any entry for that id, since keys are unique.
pub proof fn lemma_sysid_binding_removed(
    dir0: Seq<(u8, ConnectionId)>,
    dir1: Seq<(u8, ConnectionId)>,
    v: u8,
    id: ConnectionId,
    j: int,
)
    requires
        forall|a: int, b: int| 0 <= a < b < dir0.len() ==> (#[trigger] dir0[a]).0 != (
        #[trigger] dir0[b]).0,
        0 <= j < dir0.len(),
        dir0[j] == (v, id),
        dir1 == dir0.remove(j),
    ensures
        !spec_dir_has(dir1, v),
{
    assert forall|i: int| 0 <= i < dir1.len() implies (#[trigger] dir1[i]).0 != v by {
        if i < j {
            assert(dir1[i] == dir0[i]);
        } else {
            assert(dir1[i] == dir0[i + 1]);
        }
    }
}

/// How many of the first `n` registry entries have the given kind.
pub open spec fn count_kind_upto(
    entries: Seq<(ConnectionId, ConnInfo)>,
    kind: ConnectionType,
    n: int,
) -> int
    decreases n,
{
    if n <= 0 {
        0
    } else {
        count_kind_upto(entries, kind, n - 1) + if entries[n - 1].1.kind == kind {
            1int
        } else {
            0int
        }
    }
}

/// How many registry entries have the given kind.
pub open spec fn count_kind(entries: Seq<(ConnectionId, ConnInfo)>, kind: ConnectionType) -> int {
    count_kind_upto(entries, kind, entries.len() as int)
}

/// The hub: the only writer of the connection registry and the system-id
/// directory, fed by one ingress channel.
pub struct Router {
    config: RoutingConfig,
    connections: Vec<(ConnectionId, Connection)>,
    sysid_map: Vec<(u8, ConnectionId)>,
    metrics: Metrics,
}

impl Router {
    /// The registry as the contracts see it: identity, kind and bound
    /// system id per entry, in registration order.
    pub closed spec fn entries(self) -> Seq<(ConnectionId, ConnInfo)> {
        self.connections@.map_values(
            |c: (ConnectionId, Connection)|
                (c.0, ConnInfo { kind: c.1.conn_type, sysid: c.1.sysid }),
        )
    }

    /// The system-id directory: `sysid -> connection`, serial endpoints only.
    pub closed spec fn directory(self) -> Seq<(u8, ConnectionId)> {
        self.sysid_map@
    }

    /// The immutable policy matrix the router was started with.
    pub closed spec fn policy(self) -> RoutingConfig {
        self.config
    }

    /// The traffic counters as they stand.
    pub closed spec fn stats(self) -> Metrics {
        self.metrics
    }

    /// Registry identities are unique, each record's kind agrees with its
    /// identity, and directory system ids are unique.
    pub closed spec fn wf(self) -> bool {
        (forall|i: int, j: int|
            0 <= i < j < self.connections@.len() ==> (#[trigger] self.connections@[i]).0 != (
            #[trigger] self.connections@[j]).0) && (forall|i: int|
            0 <= i < self.connections@.len() ==> (#[trigger] self.connections@[i]).1.conn_type
                == self.connections@[i].0.conn_type) && (forall|i: int, j: int|
            0 <= i < j < self.sysid_map@.len() ==> (#[trigger] self.sysid_map@[i]).0 != (
            #[trigger] self.sysid_map@[j]).0)
    }

    /// A router with no connections, an empty directory, and the given
    /// counters.
    pub fn new(config: RoutingConfig, metrics: Metrics) -> (r: Self)
        ensures
            r.wf(),
            r.entries().len() == 0,
            r.directory().len() == 0,
            r.policy() == config,
            r.stats() == metrics,
    {
        Router { config, connections: Vec::new(), sysid_map: Vec::new(), metrics }
    }

    /// Where `id` sits in the registry, if anywhere.
    fn find_connection(&self, id: ConnectionId) -> (r: Option<usize>)
        ensures
            r matches Some(i) ==> i < self.entries().len() && self.entries()[i as int].0 == id,
            r is None ==> !spec_registered(self.entries(), id),
    {
        let mut i: usize = 0;
        while i < self.connections.len()
            invariant
                i <= self.connections@.len(),
                forall|j: int| 0 <= j < i ==> (#[trigger] self.connections@[j]).0 != id,
            decreases self.connections@.len() - i,
        {
            if self.connections[i].0 == id {
                return Some(i);
            }
            i = i + 1;
        }
        None
    }

    /// Where `sysid` sits in the directory, if anywhere.
    fn find_sysid(&self, sysid: u8) -> (r: Option<usize>)
        ensures
            r matches Some(i) ==> i < self.directory().len() && self.directory()[i as int].0
                == sysid,
            r is None ==> !spec_dir_has(self.directory(), sysid),
    {
        let mut i: usize = 0;
        while i < self.sysid_map.len()
            invariant
                i <= self.sysid_map@.len(),
                forall|j: int| 0 <= j < i ==> (#[trigger] self.sysid_map@[j]).0 != sysid,
            decreases self.sysid_map@.len() - i,
        {
            if self.sysid_map[i].0 == sysid {
                return Some(i);
            }
            i = i + 1;
        }
        None
    }

    /// Register an endpoint: a fresh record with the endpoint's kind and no
    /// bound system id. A duplicate identity is an internal invariant
    /// violation; the record is overwritten, matching what a restarted
    /// endpoint would need.
    pub fn handle_new_connection(&mut self, conn_id: ConnectionId, tx: MessageSender)
        requires
            old(self).wf(),
        ensures
            final(self).wf(),
            final(self).policy() == old(self).policy(),
            final(self).stats() == old(self).stats(),
            final(self).directory() == old(self).directory(),
            !spec_registered(old(self).entries(), conn_id) ==> final(self).entries() == old(self).entries().push((conn_id, (ConnInfo { kind: conn_id.conn_type, sysid: None }))),
            spec_registered(old(self).entries(), conn_id) ==> (exists|i: int|
                0 <= i < old(self).entries().len() && old(self).entries()[i].0 == conn_id && final(self).entries() == old(self).entries().update(
                    i,
                    (conn_id, (ConnInfo { kind: conn_id.conn_type, sysid: None })),
                )),
    {
        let record = Connection { tx, conn_type: conn_id.conn_type, sysid: None };
        match self.find_connection(conn_id) {
            Some(i) => {
                proof {
                    assert(old(self).connections@[i as int].0 == conn_id);
                }
                self.connections[i] = (conn_id, record);
                proof {
                    assert(self.entries() =~= old(self).entries().update(
                        i as int,
                        (conn_id, (ConnInfo { kind: conn_id.conn_type, sysid: None })),
                    ));
                }
            },
            None => {
                proof {
                    assert forall|j: int|
                        0 <= j < old(self).connections@.len() implies (#[trigger] old(self).connections@[j]).0 != conn_id by {
                        assert(old(self).entries()[j].0 == old(self).connections@[j].0);
                    }
                }
                self.connections.push((conn_id, record));
                proof {
                    assert(self.entries() =~= old(self).entries().push(
                        (conn_id, (ConnInfo { kind: conn_id.conn_type, sysid: None })),
                    ));
                }
            },
        }
    }

    /// Unregister an endpoint. If its record held a system id and the
    /// directory entry for that id still points at this endpoint, that
    /// entry goes too; a binding that a later endpoint overwrote is left
    /// alone.
    pub fn handle_disconnect(&mut self, conn_id: ConnectionId)
        requires
            old(self).wf(),
        ensures
            final(self).wf(),
            final(self).policy() == old(self).policy(),
            final(self).stats() == old(self).stats(),
            !spec_registered(final(self).entries(), conn_id),
            !spec_registered(old(self).entries(), conn_id) ==> final(self).entries() == old(self).entries() && final(self).directory() == old(self).directory(),
            spec_registered(old(self).entries(), conn_id) ==> (exists|i: int|
                0 <= i < old(self).entries().len() && old(self).entries()[i].0 == conn_id && final(self).entries() == old(self).entries().remove(i) && (match old(self).entries()[i].1.sysid {
                    Some(s) => {
                        if spec_dir_maps(old(self).directory(), s, conn_id) {
                            exists|j: int|
                                0 <= j < old(self).directory().len() && old(self).directory()[j]
                                    == (s, conn_id) && final(self).directory() == old(self).directory().remove(j)
                        } else {
                            final(self).directory() == old(self).directory()
                        }
                    },
                    None => final(self).directory() == old(self).directory(),
                })),
    {
        match self.find_connection(conn_id) {
            Some(i) => {
                let (_, record) = self.connections.remove(i);
                proof {
                    assert(self.entries() =~= old(self).entries().remove(i as int));
                }
                match record.sysid {
                    Some(s) => {
                        match self.find_sysid(s) {
                            Some(j) => {
                                if self.sysid_map[j].1 == conn_id {
                                    self.sysid_map.remove(j);
                                } else {
                                    proof {
                                        assert(!spec_dir_maps(self.directory(), s, conn_id));
                                    }
                                }
                            },
                            None => {
                            },
                        }
                    },
                    None => {
                    },
                }
            },
            None => {
            },
        }
    }

    /// Does the policy matrix let traffic flow from `src` endpoints to
    /// `dst` endpoints?
    pub fn should_route(&self, src_type: ConnectionType, dst_type: ConnectionType) -> (r: bool)
        ensures
            r == spec_should_route(self.policy(), src_type, dst_type),
    {
        match (src_type, dst_type) {
            (ConnectionType::Uart, ConnectionType::Uart) => self.config.allow_uart_to_uart,
            (ConnectionType::Uart, ConnectionType::Tcp) => self.config.allow_uart_to_tcp,
            (ConnectionType::Tcp, ConnectionType::Uart) => self.config.allow_tcp_to_uart,
            (ConnectionType::Tcp, ConnectionType::Tcp) => self.config.allow_tcp_to_tcp,
        }
    }

    /// The endpoint a system id is bound to, if any.
    pub fn get_connection_by_sysid(&self, sysid: u8) -> (r: Option<ConnectionId>)
        ensures
            r matches Some(id) ==> spec_dir_maps(self.directory(), sysid, id),
            r is None ==> !spec_dir_has(self.directory(), sysid),
    {
        match self.find_sysid(sysid) {
            Some(j) => Some(self.sysid_map[j].1),
            None => None,
        }
    }

    /// A snapshot of the traffic counters as they stand.
    pub fn get_stats(&self) -> (r: crate::metrics::MetricsSnapshot)
        ensures
            r.messages_received == self.stats().messages_received,
            r.messages_routed == self.stats().messages_routed,
            r.messages_dropped == self.stats().messages_dropped,
            r.bytes_routed == self.stats().bytes_routed,
    {
        self.metrics.get_stats()
    }

    /// How many endpoints are registered.
    pub fn connection_count(&self) -> (r: usize)
        ensures
            r == self.entries().len(),
    {
        self.connections.len()
    }

    /// How many registered endpoints have the given kind.
    fn count_connections_of(&self, kind: ConnectionType) -> (r: usize)
        ensures
            r == count_kind(self.entries(), kind),
    {
        let mut count: usize = 0;
        let mut i: usize = 0;
        while i < self.connections.len()
            invariant
                i <= self.connections@.len(),
                count <= i,
                count == count_kind_upto(self.entries(), kind, i as int),
            decreases self.connections@.len() - i,
        {
            proof {
                assert(self.entries()[i as int].1.kind == self.connections@[i as int].1.conn_type);
            }
            if self.connections[i].1.conn_type == kind {
                count = count + 1;
            }
            i = i + 1;
        }
        count
    }

    /// How many registered endpoints are TCP clients.
    pub fn tcp_connection_count(&self) -> (r: usize)
        ensures
            r == count_kind(self.entries(), ConnectionType::Tcp),
    {
        self.count_connections_of(ConnectionType::Tcp)
    }

    /// How many registered endpoints are serial links.
    pub fn uart_connection_count(&self) -> (r: usize)
        ensures
            r == count_kind(self.entries(), ConnectionType::Uart),
    {
        self.count_connections_of(ConnectionType::Uart)
    }

    /// Route one frame: count it received; bind the source's system id if
    /// this is the first frame of a serial endpoint; then attempt one
    /// non-blocking send of a shared handle on the frame bytes to every
    /// other eligible endpoint, counting each attempt as routed or dropped.
    /// One refusing destination never stops delivery to the others.
    pub fn route_frame(&mut self, source: ConnectionId, frame: MavFrame)
        requires
            old(self).wf(),
            old(self).stats().messages_received < u64::MAX,
            old(self).stats().messages_routed + old(self).entries().len() <= u64::MAX,
            old(self).stats().messages_dropped + old(self).entries().len() <= u64::MAX,
            old(self).stats().bytes_routed + old(self).entries().len() * frame@.len()
                <= u64::MAX,
        ensures
            final(self).wf(),
            final(self).policy() == old(self).policy(),
            final(self).entries().len() == old(self).entries().len(),
            spec_binds(old(self).entries(), source) ==> (exists|i: int|
                0 <= i < old(self).entries().len() && old(self).entries()[i].0 == source && old(self).entries()[i].1.sysid is None && final(self).entries() == old(self).entries().update(
                    i,
                    (
                        source,
                        (ConnInfo {
                            kind: source.conn_type,
                            sysid: Some(spec_sys_id(frame@)),
                        }),
                    ),
                )) && (if spec_dir_has(old(self).directory(), spec_sys_id(frame@)) {
                exists|j: int|
                    0 <= j < old(self).directory().len() && old(self).directory()[j].0
                        == spec_sys_id(frame@) && final(self).directory() == old(self).directory().update(j, (spec_sys_id(frame@), source))
            } else {
                final(self).directory() == old(self).directory().push(
                    (spec_sys_id(frame@), source),
                )
            }),
            !spec_binds(old(self).entries(), source) ==> final(self).entries() == old(self).entries() && final(self).directory() == old(self).directory(),
            final(self).stats().messages_received == old(self).stats().messages_received + 1,
            final(self).stats().messages_routed >= old(self).stats().messages_routed,
            final(self).stats().messages_dropped >= old(self).stats().messages_dropped,
            final(self).stats().messages_routed + final(self).stats().messages_dropped == old(self).stats().messages_routed + old(self).stats().messages_dropped + count_eligible(
                old(self).policy(),
                source,
                old(self).entries(),
            ),
            final(self).stats().bytes_routed == old(self).stats().bytes_routed + (final(self).stats().messages_routed - old(self).stats().messages_routed) * frame@.len(),
    {
        let ghost old_entries = old(self).entries();
        let sysid = frame.sys_id();
        self.metrics.record_received();

        // First frame from a serial endpoint with no bound system id:
        // bind it and write the directory, overwriting an older binding of
        // the same system id (last writer wins).
        if source.conn_type == ConnectionType::Uart {
            match self.find_connection(source) {
                Some(i) => {
                    if self.connections[i].1.sysid.is_none() {
                        proof {
                            assert(old_entries[i as int].0 == source);
                            assert(old_entries[i as int].1.sysid is None);
                            assert(spec_binds(old_entries, source));
                        }
                        self.connections[i].1.sysid = Some(sysid);
                        proof {
                            assert(self.entries() =~= old_entries.update(
                                i as int,
                                (
                                    source,
                                    (ConnInfo { kind: source.conn_type, sysid: Some(sysid) }),
                                ),
                            ));
                        }
                        match self.find_sysid(sysid) {
                            Some(j) => {
                                self.sysid_map[j] = (sysid, source);
                            },
                            None => {
                                self.sysid_map.push((sysid, source));
                            },
                        }
                    } else {
                        proof {
                            assert forall|j: int|
                                0 <= j < old_entries.len() && old_entries[j].0
                                    == source implies !(old_entries[j].1.sysid is None) by {
                                assert(old(self).connections@[j].0 == old(self).connections@[i as int].0);
                                assert(j == i as int);
                            }
                            assert(!spec_binds(old_entries, source));
                        }
                    }
                },
                None => {
                    proof {
                        assert forall|j: int|
                            0 <= j < old_entries.len() implies (#[trigger] old_entries[j]).0
                            != source by {
                            assert(old_entries[j].0 == old(self).connections@[j].0);
                        }
                        assert(!spec_binds(old_entries, source));
                    }
                },
            }
        }

        // Fan out: one attempt per eligible destination.
        let data = frame.share_bytes();
        let frame_len = frame.len();
        let ghost mid: Router = *self;
        let mut k: usize = 0;
        while k < self.connections.len()
            invariant
                self.connections@ == mid.connections@,
                self.sysid_map@ == mid.sysid_map@,
                self.config == mid.config,
                k <= self.connections@.len(),
                frame_len == frame@.len(),
                self.metrics.messages_received == mid.metrics.messages_received,
                self.metrics.messages_routed >= mid.metrics.messages_routed,
                self.metrics.messages_dropped >= mid.metrics.messages_dropped,
                mid.metrics.messages_routed + mid.entries().len() <= u64::MAX,
                mid.metrics.messages_dropped + mid.entries().len() <= u64::MAX,
                mid.metrics.bytes_routed + mid.entries().len() * frame@.len() <= u64::MAX,
                self.metrics.messages_routed + self.metrics.messages_dropped
                    == mid.metrics.messages_routed + mid.metrics.messages_dropped
                    + count_eligible_upto(self.config, source, mid.entries(), k as int),
                self.metrics.bytes_routed == mid.metrics.bytes_routed + (
                self.metrics.messages_routed - mid.metrics.messages_routed) * frame@.len(),
            decreases self.connections@.len() - k,
        {
            proof {
                lemma_count_eligible_bounds(self.config, source, mid.entries(), k as int);
                assert(mid.entries()[k as int] == (
                    self.connections@[k as int].0,
                    ConnInfo {
                        kind: self.connections@[k as int].1.conn_type,
                        sysid: self.connections@[k as int].1.sysid,
                    },
                ));
            }
            let dest_id = self.connections[k].0;
            let dest_type = self.connections[k].1.conn_type;
            if dest_id != source && self.should_route(source.conn_type, dest_type) {
                proof {
                    assert(spec_eligible(self.config, source, mid.entries()[k as int]));
                    let d = self.metrics.messages_routed - mid.metrics.messages_routed;
                    assert(d <= count_eligible_upto(self.config, source, mid.entries(), k as int));
                    assert((d + 1) * frame@.len() <= mid.entries().len() * frame@.len()) by (nonlinear_arith)
                        requires
                            d + 1 <= mid.entries().len(),
                            frame@.len() >= 0,
                    ;
                    assert((d + 1) * frame@.len() == d * frame@.len() + frame@.len())
                        by (nonlinear_arith);
                }
                let payload = bytes_clone(&data);
                let ok = try_send_bytes(&self.connections[k].1.tx, payload);
                if ok {
                    self.metrics.record_routed(frame_len);
                } else {
                    self.metrics.record_dropped();
                }
            } else {
                proof {
                    assert(!spec_eligible(self.config, source, mid.entries()[k as int]));
                }
            }
            k = k + 1;
        }
        proof {
            lemma_count_eligible_congruent(
                self.config,
                source,
                mid.entries(),
                old_entries,
                old_entries.len() as int,
            );
        }
    }
}

} // verus!
