//! Joining a playlist: what a new connection is given to run its two relays.

use crate::channel::{fired_by, new_signal, subscribe_to, subscribed_to};
use crate::inbound::Inbound;
use crate::outbound::Outbound;
use tokio::sync::broadcast;
use tokio::sync::oneshot;
use vstd::prelude::*;

verus! {

/// The two halves of a joined connection. The outbound half is `feed`,
/// `cancelled` and the state `outbound`; the inbound half is `inbound`. Each
/// half is run by a task of its own.
pub struct Connection {
    /// The subscription to the playlist, from which the outbound relay
    /// receives.
    pub feed: broadcast::Receiver<String>,
    /// The waiting side of the cancellation signal. It is observed by the
    /// outbound relay alone, and fired by the inbound relay when that ends.
    pub cancelled: oneshot::Receiver<()>,
    /// The state in which the outbound relay starts.
    pub outbound: Outbound,
    /// The inbound relay.
    pub inbound: Inbound,
}

/// Joins a user to the playlist behind `pl_tx`.
///
/// Subscribes to the playlist, so that the user counts as joined from this
/// call on and is sent what is published after it, and makes the one
/// cancellation signal that couples the two relays: the inbound relay holds
/// its firing side, and `cancelled` waits for it. The inbound relay publishes
/// on `pl_tx`, the channel that `feed` is subscribed to; the outbound relay
/// starts by receiving. Joining hands nothing to the channel.
pub fn user_connected(pl_tx: broadcast::Sender<String>) -> (connection: Connection)
    ensures
        subscribed_to(connection.feed) == pl_tx,
        connection.inbound.channel() == pl_tx,
        fired_by(connection.cancelled) == connection.inbound.signal(),
        connection.inbound.published() == Seq::<Seq<char>>::empty(),
        connection.outbound == Outbound::Receive,
{
    let feed = subscribe_to(&pl_tx);
    let (cancel, cancelled) = new_signal();
    Connection { feed, cancelled, outbound: Outbound::Receive, inbound: Inbound::new(pl_tx, cancel) }
}

} // verus!
