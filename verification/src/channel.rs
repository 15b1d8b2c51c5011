//! The broadcast channel behind a playlist and the cancellation signal of a
//! connection, both taken from `tokio::sync`.
//!
//! Nothing in this file is proved: it declares tokio's handle types and states
//! what the rest of the crate relies on when it calls tokio.

use tokio::sync::broadcast;
use tokio::sync::oneshot;
use vstd::prelude::*;

verus! {

/// The number of messages a playlist channel is asked to retain for slow
/// subscribers.
pub const CHANNEL_CAPACITY: usize = 20;

/// `tokio::sync::broadcast::Sender`: a handle for publishing on a channel.
/// Two handles are equal in contracts when they belong to one channel.
#[verifier::external_type_specification]
#[verifier::external_body]
#[verifier::reject_recursive_types(T)]
pub struct ExBroadcastSender<T>(broadcast::Sender<T>);

/// `tokio::sync::broadcast::Receiver`: one subscription to a channel.
#[verifier::external_type_specification]
#[verifier::external_body]
#[verifier::reject_recursive_types(T)]
pub struct ExBroadcastReceiver<T>(broadcast::Receiver<T>);

/// `tokio::sync::broadcast::error::SendError`: the message that found no
/// subscriber, handed back.
#[verifier::external_type_specification]
#[verifier::external_body]
#[verifier::reject_recursive_types(T)]
pub struct ExBroadcastSendError<T>(broadcast::error::SendError<T>);

/// `tokio::sync::oneshot::Sender`: the side of a signal that fires it.
#[verifier::external_type_specification]
#[verifier::external_body]
#[verifier::reject_recursive_types(T)]
pub struct ExOneshotSender<T>(oneshot::Sender<T>);

/// `tokio::sync::oneshot::Receiver`: the side of a signal that waits for it.
#[verifier::external_type_specification]
#[verifier::external_body]
#[verifier::reject_recursive_types(T)]
pub struct ExOneshotReceiver<T>(oneshot::Receiver<T>);

/// `tokio::sync::oneshot::error::RecvError`: what a waiter gets when the
/// firing side went away without firing.
#[verifier::external_type_specification]
#[verifier::external_body]
pub struct ExOneshotRecvError(oneshot::error::RecvError);

/// The capacity that the channel behind `tx` was opened with.
pub uninterp spec fn requested_capacity(tx: broadcast::Sender<String>) -> nat;

/// Calls `tokio::sync::broadcast::channel` and keeps the sending handle. The
/// receiver that tokio creates along with it is dropped, so the new channel
/// starts without subscribers. tokio panics on a capacity of zero and on one
/// above `usize::MAX / 2`; the `requires` rules both out.
#[verifier::external_body]
pub(crate) fn open_channel(capacity: usize) -> (tx: broadcast::Sender<String>)
    requires
        0 < capacity <= usize::MAX / 2,
    ensures
        requested_capacity(tx) == capacity,
{
    broadcast::channel(capacity).0
}

/// `Clone` for `tokio::sync::broadcast::Sender`: the copy is a handle to the
/// same channel.
pub assume_specification<T>[ <broadcast::Sender<T> as Clone>::clone ](
    tx: &broadcast::Sender<T>,
) -> (copy: broadcast::Sender<T>)
    ensures
        copy == *tx,
;

/// `tokio::sync::broadcast::Sender::receiver_count`: the number of live
/// subscriptions at the moment of the call. Other tasks subscribe and leave
/// at any time, so nothing is promised of the number.
pub assume_specification<T>[ broadcast::Sender::<T>::receiver_count ](
    tx: &broadcast::Sender<T>,
) -> (count: usize)
;

/// The channel that the subscription `rx` belongs to, as a handle for
/// publishing on it.
pub uninterp spec fn subscribed_to(rx: broadcast::Receiver<String>) -> broadcast::Sender<String>;

/// Calls `tokio::sync::broadcast::Sender::subscribe`: a new subscription to
/// the channel of `tx`, which sees the messages sent after this call. tokio
/// panics if the channel already has `usize::MAX >> 2` subscriptions; no
/// contract can rule that out, since the number is not a function of the
/// handle.
#[verifier::external_body]
pub(crate) fn subscribe_to(tx: &broadcast::Sender<String>) -> (rx: broadcast::Receiver<String>)
    ensures
        subscribed_to(rx) == *tx,
{
    tx.subscribe()
}

/// `tokio::sync::broadcast::Sender::send`: hands `value` to every current
/// subscription and returns how many there were; fails when there is none.
pub assume_specification<T>[ broadcast::Sender::<T>::send ](
    tx: &broadcast::Sender<T>,
    value: T,
) -> (sent: Result<usize, broadcast::error::SendError<T>>)
    ensures
        sent matches Ok(n) ==> n >= 1,
;

/// The firing side of the signal that `rx` waits for.
pub uninterp spec fn fired_by(rx: oneshot::Receiver<()>) -> oneshot::Sender<()>;

/// Calls `tokio::sync::oneshot::channel`: a fresh signal, as its two sides.
/// The second waits for what the first fires.
#[verifier::external_body]
pub(crate) fn new_signal() -> (sides: (oneshot::Sender<()>, oneshot::Receiver<()>))
    ensures
        fired_by(sides.1) == sides.0,
{
    oneshot::channel::<()>()
}

/// `tokio::sync::oneshot::Sender::send`: fires the signal. It consumes the
/// sender, so a signal fires at most once; it fails when the waiting side is
/// gone.
pub assume_specification<T>[ oneshot::Sender::<T>::send ](
    tx: oneshot::Sender<T>,
    value: T,
) -> (fired: Result<(), T>)
;

} // verus!
