use vstd::prelude::*;
use tokio::sync::{broadcast, mpsc, watch};
use crate::event::QEvent;
use crate::handler::{Handler, SinkClosed};

verus! {

#[verifier::external_type_specification]
#[verifier::external_body]
#[verifier::reject_recursive_types(T)]
pub struct ExBroadcastSender<T>(broadcast::Sender<T>);

#[verifier::external_type_specification]
#[verifier::external_body]
#[verifier::reject_recursive_types(T)]
pub struct ExUnboundedSender<T>(mpsc::UnboundedSender<T>);

#[verifier::external_type_specification]
#[verifier::external_body]
#[verifier::reject_recursive_types(T)]
pub struct ExWatchSender<T>(watch::Sender<T>);

/// Relies on `broadcast::Sender::send`: it fails only when no receiver is
/// subscribed, and then hands the value back in its `SendError`.
#[verifier::external_body]
fn broadcast_send(tx: &broadcast::Sender<QEvent>, msg: QEvent) -> (r: Result<(), QEvent>)
    ensures
        r matches Err(v) ==> v == msg,
{
    match tx.send(msg) {
        Ok(_) => Ok(()),
        Err(e) => Err(e.0),
    }
}

/// Relies on `mpsc::UnboundedSender::send`: it fails only when the receiver
/// is gone, and then hands the value back in its `SendError`.
#[verifier::external_body]
fn unbounded_send(tx: &mpsc::UnboundedSender<QEvent>, msg: QEvent) -> (r: Result<(), QEvent>)
    ensures
        r matches Err(v) ==> v == msg,
{
    match tx.send(msg) {
        Ok(()) => Ok(()),
        Err(e) => Err(e.0),
    }
}

/// Relies on `watch::Sender::send`: it replaces the watched value, fails
/// only when every receiver is gone, and then hands the value back in its
/// `SendError`.
#[verifier::external_body]
fn watch_send(tx: &watch::Sender<QEvent>, msg: QEvent) -> (r: Result<(), QEvent>)
    ensures
        r matches Err(v) ==> v == msg,
{
    match tx.send(msg) {
        Ok(()) => Ok(()),
        Err(e) => Err(e.0),
    }
}

/// The outcome of a send into a sink, with a refused event turned into
/// `SinkClosed`. Every sink adapter reports through it; a send that has to
/// be awaited (a bounded queue waiting for room) is made by the caller, who
/// hands its outcome here.
pub fn closed_on_refusal(sent: Result<(), QEvent>) -> (r: Result<(), SinkClosed>)
    ensures
        sent is Ok <==> r is Ok,
        sent matches Err(v) ==> r matches Err(c) && c.event == v,
{
    match sent {
        Ok(()) => Ok(()),
        Err(event) => Err(SinkClosed { event }),
    }
}

/// Fans every event out to all subscribers of a broadcast channel.
impl Handler for broadcast::Sender<QEvent> {
    fn handle(&self, msg: QEvent) -> (r: Result<(), SinkClosed>) {
        closed_on_refusal(broadcast_send(self, msg))
    }
}

/// Queues every event on an unbounded channel.
impl Handler for mpsc::UnboundedSender<QEvent> {
    fn handle(&self, msg: QEvent) -> (r: Result<(), SinkClosed>) {
        closed_on_refusal(unbounded_send(self, msg))
    }
}

/// Makes every event the latest value of a watch channel.
impl Handler for watch::Sender<QEvent> {
    fn handle(&self, msg: QEvent) -> (r: Result<(), SinkClosed>) {
        closed_on_refusal(watch_send(self, msg))
    }
}

} // verus!
