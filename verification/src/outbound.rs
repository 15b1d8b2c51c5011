//! The outbound relay of a connection: from the playlist to the user.
//!
//! The relay is a state machine. A state names what the task that runs it has
//! to do next; the task does it, reports the outcome as an event, and gets the
//! next state from `playlist_to_user`.

use vstd::prelude::*;

verus! {

/// The state of an outbound relay: what is to be done next.
#[derive(Debug, PartialEq, Eq)]
pub enum Outbound {
    /// Wait for the next message on the playlist or for the cancellation
    /// signal, whichever comes first.
    Receive,
    /// Write this payload to the user.
    Write(String),
    /// Close the user's connection.
    Close,
    /// Nothing: the relay has ended.
    Done,
}

/// What the task that runs an outbound relay reports back.
#[derive(Debug, PartialEq, Eq)]
pub enum OutboundEvent {
    /// The playlist delivered a message.
    Message(String),
    /// The subscriber was too slow: the playlist has dropped this many
    /// messages that it had not read yet.
    Lagged(u64),
    /// The playlist's channel is closed for good.
    ChannelClosed,
    /// The cancellation signal fired, or its firing side went away.
    Cancelled,
    /// The payload was written to the user.
    Written,
    /// The payload could not be written: the user is gone.
    WriteFailed,
    /// The attempt to close the user's connection is over, whether it
    /// succeeded or not.
    Closed,
}

/// Whether `event` reports the outcome of what `state` asks for.
pub open spec fn answers(state: Outbound, event: OutboundEvent) -> bool {
    match state {
        Outbound::Receive => event is Message || event is Lagged || event is ChannelClosed
            || event is Cancelled,
        Outbound::Write(_) => event is Written || event is WriteFailed,
        Outbound::Close => event is Closed,
        Outbound::Done => false,
    }
}

/// The state that follows `state` on `event`.
///
/// While receiving, a message is to be written as it is; a gap in delivery
/// changes nothing; the end of the channel and the cancellation both lead to
/// closing the connection. After a write the relay receives again, unless the
/// write failed, which leads to closing. Once the close was attempted the
/// relay is done, and stays so. An event that does not answer the state
/// changes nothing.
pub open spec fn outbound_next(state: Outbound, event: OutboundEvent) -> Outbound {
    match (state, event) {
        (Outbound::Receive, OutboundEvent::Message(payload)) => Outbound::Write(payload),
        (Outbound::Receive, OutboundEvent::Lagged(_)) => Outbound::Receive,
        (Outbound::Receive, OutboundEvent::ChannelClosed) => Outbound::Close,
        (Outbound::Receive, OutboundEvent::Cancelled) => Outbound::Close,
        (Outbound::Write(_), OutboundEvent::Written) => Outbound::Receive,
        (Outbound::Write(_), OutboundEvent::WriteFailed) => Outbound::Close,
        (Outbound::Close, OutboundEvent::Closed) => Outbound::Done,
        _ => state,
    }
}

/// One step of the outbound relay.
pub fn playlist_to_user(state: Outbound, event: OutboundEvent) -> (next: Outbound)
    ensures
        next == outbound_next(state, event),
{
    match state {
        Outbound::Receive => match event {
            OutboundEvent::Message(payload) => Outbound::Write(payload),
            OutboundEvent::ChannelClosed | OutboundEvent::Cancelled => Outbound::Close,
            _ => Outbound::Receive,
        },
        Outbound::Write(payload) => match event {
            OutboundEvent::Written => Outbound::Receive,
            OutboundEvent::WriteFailed => Outbound::Close,
            _ => Outbound::Write(payload),
        },
        Outbound::Close => match event {
            OutboundEvent::Closed => Outbound::Done,
            _ => Outbound::Close,
        },
        Outbound::Done => Outbound::Done,
    }
}

/// The state reached from `state` after `events`, taken in order.
pub open spec fn outbound_run(state: Outbound, events: Seq<OutboundEvent>) -> Outbound
    decreases events.len(),
{
    if events.len() == 0 {
        state
    } else {
        outbound_next(outbound_run(state, events.drop_last()), events.last())
    }
}

/// Whether each of `events` answers the state that the relay is in when the
/// event comes, on a run from `state`.
pub open spec fn in_step(state: Outbound, events: Seq<OutboundEvent>) -> bool
    decreases events.len(),
{
    events.len() == 0 || (in_step(state, events.drop_last()) && answers(
        outbound_run(state, events.drop_last()),
        events.last(),
    ))
}

/// The payloads of the messages among `events`, in order.
pub open spec fn delivered(events: Seq<OutboundEvent>) -> Seq<String>
    decreases events.len(),
{
    if events.len() == 0 {
        Seq::empty()
    } else {
        match events.last() {
            OutboundEvent::Message(payload) => delivered(events.drop_last()).push(payload),
            _ => delivered(events.drop_last()),
        }
    }
}

/// The payloads that the relay asks to have written on a run from `state`
/// over `events`, in order: one for each step that enters `Write`.
pub open spec fn written(state: Outbound, events: Seq<OutboundEvent>) -> Seq<String>
    decreases events.len(),
{
    if events.len() == 0 {
        Seq::empty()
    } else {
        let before = outbound_run(state, events.drop_last());
        let earlier = written(state, events.drop_last());
        if before is Write {
            earlier
        } else {
            match outbound_next(before, events.last()) {
                Outbound::Write(payload) => earlier.push(payload),
                _ => earlier,
            }
        }
    }
}

/// Whether a run from `state` over `events` is ever in `Close`.
pub open spec fn closes(state: Outbound, events: Seq<OutboundEvent>) -> bool {
    exists|n: int| 0 <= n <= events.len() && #[trigger] outbound_run(state, events.take(n)) is Close
}

/// A relay that is fed the outcome of each thing it asked for asks to have
/// every message that the playlist delivered written to the user, each one
/// unchanged and in the order of delivery, and asks for nothing else to be
/// written.
pub proof fn lemma_writes_what_was_delivered(events: Seq<OutboundEvent>)
    requires
        in_step(Outbound::Receive, events),
    ensures
        written(Outbound::Receive, events) == delivered(events),
    decreases events.len(),
{
    if events.len() > 0 {
        lemma_writes_what_was_delivered(events.drop_last());
    }
}

/// Whether `event` is one of the three that end a relay: the playlist's
/// channel closed, the cancellation signal fired, or a write failed.
pub open spec fn ends_relay(event: OutboundEvent) -> bool {
    event is ChannelClosed || event is Cancelled || event is WriteFailed
}

/// A relay goes on for as long as none of the three events that end it has
/// come. A gap in delivery, in particular, never ends it.
pub proof fn lemma_goes_on_without_cause(events: Seq<OutboundEvent>)
    requires
        forall|i: int| 0 <= i < events.len() ==> !ends_relay(#[trigger] events[i]),
    ensures
        outbound_run(Outbound::Receive, events) is Receive || outbound_run(
            Outbound::Receive,
            events,
        ) is Write,
    decreases events.len(),
{
    if events.len() > 0 {
        lemma_goes_on_without_cause(events.drop_last());
    }
}

/// A relay that has ended has been through `Close`: it never ends without an
/// attempt to close the user's connection.
pub proof fn lemma_done_only_after_close(events: Seq<OutboundEvent>)
    requires
        outbound_run(Outbound::Receive, events) is Done,
    ensures
        closes(Outbound::Receive, events),
    decreases events.len(),
{
    assert(events.len() > 0);
    let before = events.drop_last();
    assert(events.take(before.len() as int) == before);
    if outbound_run(Outbound::Receive, before) is Done {
        lemma_done_only_after_close(before);
        let n = choose|n: int|
            0 <= n <= before.len() && #[trigger] outbound_run(Outbound::Receive, before.take(n))
                is Close;
        assert(events.take(n) == before.take(n));
    } else {
        assert(outbound_run(Outbound::Receive, events.take(before.len() as int)) is Close);
    }
}

/// Once a relay has ended, no event brings it back.
pub proof fn lemma_done_is_final(events: Seq<OutboundEvent>)
    ensures
        outbound_run(Outbound::Done, events) is Done,
    decreases events.len(),
{
    if events.len() > 0 {
        lemma_done_is_final(events.drop_last());
    }
}

} // verus!
