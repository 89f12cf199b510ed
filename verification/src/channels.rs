//! Trusted declarations of the tokio synchronization primitives the session
//! core holds: one-shot completion slots for request/response correlation,
//! the ordered outbound conduit to the network writer, and the fan-out
//! disconnect broadcast. Only the declarations and the thin wrappers here
//! are taken on trust; everything that decides what travels through them is
//! verified.

use vstd::prelude::*;

verus! {

#[verifier::external_type_specification]
#[verifier::external_body]
#[verifier::reject_recursive_types(T)]
pub struct ExOneshotSender<T>(tokio::sync::oneshot::Sender<T>);

#[verifier::external_type_specification]
#[verifier::external_body]
#[verifier::reject_recursive_types(T)]
pub struct ExOneshotReceiver<T>(tokio::sync::oneshot::Receiver<T>);

#[verifier::external_type_specification]
#[verifier::external_body]
#[verifier::reject_recursive_types(T)]
pub struct ExBroadcastSender<T>(tokio::sync::broadcast::Sender<T>);

#[verifier::external_type_specification]
#[verifier::external_body]
#[verifier::reject_recursive_types(T)]
pub struct ExBroadcastReceiver<T>(tokio::sync::broadcast::Receiver<T>);

#[verifier::external_type_specification]
#[verifier::external_body]
#[verifier::reject_recursive_types(T)]
pub struct ExUnboundedSender<T>(tokio::sync::mpsc::UnboundedSender<T>);

#[verifier::external_type_specification]
#[verifier::external_body]
#[verifier::reject_recursive_types(T)]
pub struct ExUnboundedReceiver<T>(tokio::sync::mpsc::UnboundedReceiver<T>);

#[verifier::external_type_specification]
#[verifier::external_body]
pub struct ExOneshotRecvError(tokio::sync::oneshot::error::RecvError);

/// Relies on tokio::sync::oneshot::channel: returns the two ends of a fresh
/// one-shot channel.
#[verifier::external_body]
pub(crate) fn oneshot_channel<T>() -> (tokio::sync::oneshot::Sender<T>, tokio::sync::oneshot::Receiver<T>) {
    tokio::sync::oneshot::channel()
}

/// Relies on tokio::sync::oneshot::Sender::send: consumes the slot; when
/// the receiving end is already dropped the value comes back unchanged,
/// otherwise it is handed to that end.
#[verifier::external_body]
pub(crate) fn oneshot_send<T>(sender: tokio::sync::oneshot::Sender<T>, value: T) -> (r: Result<
    (),
    T,
>)
    ensures
        r matches Err(v) ==> v == value,
{
    sender.send(value)
}

/// Relies on tokio::sync::broadcast::channel: returns the sending end of a
/// fresh broadcast channel. tokio panics on a capacity of zero or above
/// `usize::MAX / 2`, so those are kept out.
#[verifier::external_body]
pub(crate) fn broadcast_sender(capacity: usize) -> tokio::sync::broadcast::Sender<()>
    requires
        1 <= capacity <= usize::MAX / 2,
{
    tokio::sync::broadcast::channel(capacity).0
}

/// Relies on tokio::sync::broadcast::Sender::subscribe: a fresh receiving
/// end that observes values sent from now on.
#[verifier::external_body]
pub(crate) fn broadcast_subscribe(
    sender: &tokio::sync::broadcast::Sender<()>,
) -> tokio::sync::broadcast::Receiver<()> {
    sender.subscribe()
}

/// Relies on tokio::sync::broadcast::Sender::send: every live subscriber
/// observes the value; the error only reports that no subscriber exists.
#[verifier::external_body]
pub(crate) fn broadcast_send_unit(sender: &tokio::sync::broadcast::Sender<()>) -> Result<
    usize,
    (),
> {
    match sender.send(()) {
        Ok(n) => Ok(n),
        Err(_) => Err(()),
    }
}

/// Relies on tokio::sync::mpsc::unbounded_channel: the two ends of a fresh
/// ordered conduit.
#[verifier::external_body]
pub(crate) fn outbound_channel<T>() -> (tokio::sync::mpsc::UnboundedSender<T>, tokio::sync::mpsc::UnboundedReceiver<T>) {
    tokio::sync::mpsc::unbounded_channel()
}

/// Relies on tokio::sync::mpsc::UnboundedSender::send: queues the value in
/// send order unless the receiving end is gone, in which case the value
/// comes back unchanged.
#[verifier::external_body]
pub(crate) fn outbound_send<T>(sender: &tokio::sync::mpsc::UnboundedSender<T>, value: T) -> (r:
    Result<(), T>)
    ensures
        r matches Err(v) ==> v == value,
{
    match sender.send(value) {
        Ok(()) => Ok(()),
        Err(e) => Err(e.0),
    }
}

} // verus!
