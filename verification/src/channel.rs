//! Trusted view of tokio's unbounded sender, the egress half the router
//! writes into. Producers never block: a send either enqueues or fails at
//! once because the receiving half is gone.

use bytes::Bytes;
use tokio::sync::mpsc::UnboundedSender;
use vstd::prelude::*;

verus! {

#[verifier::external_type_specification]
#[verifier::external_body]
#[verifier::reject_recursive_types(T)]
pub struct ExUnboundedSender<T>(UnboundedSender<T>);

/// Relies on tokio's `UnboundedSender::send`: it enqueues without blocking
/// and fails exactly when the receiver half has been dropped or closed.
/// Whether that has happened is not observable here, so nothing is promised
/// of the outcome.
#[verifier::external_body]
pub(crate) fn try_send_bytes(tx: &UnboundedSender<Bytes>, data: Bytes) -> (ok: bool) {
    tx.send(data).is_ok()
}

} // verus!
