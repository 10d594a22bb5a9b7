//! Endpoint identities and the control messages endpoints exchange with the
//! router. A `ConnectionId` is assigned when an endpoint is accepted or
//! opened, is unique per kind for the life of the process, and is never
//! reused after a disconnect.

use crate::mavlink::MavFrame;
use bytes::Bytes;
use tokio::sync::mpsc::UnboundedSender;
use vstd::prelude::*;

verus! {

/// The kind of transport behind an endpoint.
#[derive(Debug, Clone, Copy, PartialEq, Eq, Hash, Structural)]
pub enum ConnectionType {
    Tcp,
    Uart,
}

/// The identity of one endpoint: its transport kind and a per-kind ordinal.
#[derive(Debug, Clone, Copy, PartialEq, Eq, Hash, Structural)]
pub struct ConnectionId {
    pub conn_type: ConnectionType,
    pub id: usize,
}

impl ConnectionId {
    /// The identity of the TCP endpoint with the given ordinal.
    pub fn new_tcp(id: usize) -> (r: Self)
        ensures
            r.conn_type == ConnectionType::Tcp,
            r.id == id,
    {
        ConnectionId { conn_type: ConnectionType::Tcp, id }
    }

    /// The identity of the UART endpoint with the given ordinal.
    pub fn new_uart(id: usize) -> (r: Self)
        ensures
            r.conn_type == ConnectionType::Uart,
            r.id == id,
    {
        ConnectionId { conn_type: ConnectionType::Uart, id }
    }
}

/// The egress half handed to the router for each endpoint.
pub type MessageSender = UnboundedSender<Bytes>;

/// A control message on the router's ingress channel. Endpoints emit
/// `NewConnection` before any `Frame`, and `Disconnect` when they close.
pub enum RouterMessage {
    NewConnection { conn_id: ConnectionId, tx: MessageSender },
    Disconnect { conn_id: ConnectionId },
    Frame { source: ConnectionId, frame: MavFrame },
}

/// A serial endpoint as configured or discovered. Its identity is fixed at
/// construction and stays stable across reconnect attempts, so the rest of
/// the system never sees a vehicle flap while its device is being reopened.
pub struct UartConnection {
    pub conn_id: ConnectionId,
    pub path: String,
    pub baud_rate: u32,
    pub name: Option<String>,
}

impl UartConnection {
    /// A serial endpoint with the UART identity of the given ordinal.
    pub fn new(id: usize, path: String, baud_rate: u32, name: Option<String>) -> (r: Self)
        ensures
            r.conn_id.conn_type == ConnectionType::Uart,
            r.conn_id.id == id,
            r.path == path,
            r.baud_rate == baud_rate,
            r.name == name,
    {
        UartConnection { conn_id: ConnectionId::new_uart(id), path, baud_rate, name }
    }
}

} // verus!
