//! The inbound relay of a connection: from the user to the playlist.
//!
//! The relay keeps a record of what it has handed to its channel. The record
//! is ghost: it exists for the contracts alone and costs nothing at run time.

use crate::frame::Incoming;
use tokio::sync::broadcast;
use tokio::sync::oneshot;
use vstd::prelude::*;

verus! {

/// The inbound half of a connection: the channel it publishes on, the signal
/// that releases the outbound half when the user is gone, and the record of
/// the payloads it has handed to the channel so far, in order.
pub struct Inbound {
    channel: broadcast::Sender<String>,
    cancel: oneshot::Sender<()>,
    published: Ghost<Seq<Seq<char>>>,
}

/// How the inbound relay goes on after one read.
pub enum InboundStep {
    /// Read again, with this relay.
    Continue(Inbound),
    /// The user is gone: the relay has ended and has fired the cancellation
    /// signal.
    Done {
        /// Whether the playlist had a single subscriber left at that moment,
        /// which makes its channel a candidate for cleanup.
        last_subscriber: bool,
        /// The signal that the relay fired.
        fired: Ghost<oneshot::Sender<()>>,
        /// What the relay had handed to its channel by then.
        published: Ghost<Seq<Seq<char>>>,
    },
}

/// Whether a subscriber count read when a user leaves shows that nobody else
/// is left on the playlist.
pub fn is_last_subscriber(count: usize) -> (last: bool)
    ensures
        last == (count == 1),
{
    count == 1
}

/// What a relay has handed to its channel after one read, given what it had
/// handed on `before`: the payload of a text message is added at the end,
/// unchanged; any other message adds nothing, and neither does a read that
/// shows that the user is gone.
pub open spec fn handed_on(before: Seq<Seq<char>>, incoming: Incoming) -> Seq<Seq<char>> {
    match incoming.text() {
        Some(text) => before.push(text),
        None => before,
    }
}

impl InboundStep {
    /// What the relay has handed to its channel, up to and with this step.
    pub open spec fn published(self) -> Seq<Seq<char>> {
        match self {
            InboundStep::Continue(inbound) => inbound.published(),
            InboundStep::Done { published, .. } => published@,
        }
    }

    /// The signal that the relay fired in this step, if it ended.
    pub open spec fn fired(self) -> Option<oneshot::Sender<()>> {
        match self {
            InboundStep::Continue(_) => None,
            InboundStep::Done { fired, .. } => Some(fired@),
        }
    }
}

impl Inbound {
    /// The channel this relay publishes on.
    pub closed spec fn channel(self) -> broadcast::Sender<String> {
        self.channel
    }

    /// The firing side of the cancellation signal that this relay holds.
    pub closed spec fn signal(self) -> oneshot::Sender<()> {
        self.cancel
    }

    /// The payloads that this relay has handed to its channel, in order.
    pub closed spec fn published(self) -> Seq<Seq<char>> {
        self.published@
    }

    /// An inbound half that publishes on `channel` and fires `cancel` when it
    /// ends. It has handed nothing to the channel yet.
    pub fn new(channel: broadcast::Sender<String>, cancel: oneshot::Sender<()>) -> (inbound: Self)
        ensures
            inbound.channel() == channel,
            inbound.signal() == cancel,
            inbound.published() == Seq::<Seq<char>>::empty(),
    {
        Inbound { channel, cancel, published: Ghost(Seq::empty()) }
    }

    /// Hands `payload` to the channel and adds it to the record. That the
    /// channel may have no subscriber left to take it is no error.
    fn publish(self, payload: String) -> (next: Self)
        ensures
            next.channel() == self.channel(),
            next.signal() == self.signal(),
            next.published() == self.published().push(payload@),
    {
        let Inbound { channel, cancel, published } = self;
        let record = Ghost(published@.push(payload@));
        let _ = channel.send(payload);
        Inbound { channel, cancel, published: record }
    }

    /// Ends the relay: reads the playlist's subscriber count and fires the
    /// cancellation signal that the relay holds. The relay is consumed, so the
    /// signal fires once. That the outbound half may already be gone is no
    /// error. Nothing is handed to the channel.
    pub fn leave(self) -> (step: InboundStep)
        ensures
            step is Done,
            step.fired() == Some(self.signal()),
            step.published() == self.published(),
    {
        let Inbound { channel, cancel, published } = self;
        let last_subscriber = is_last_subscriber(channel.receiver_count());
        let fired = Ghost(cancel);
        let _ = cancel.send(());
        InboundStep::Done { last_subscriber, fired, published }
    }
}

/// One step of the inbound relay, on what was just read from the user.
///
/// The relay ends when the connection closed or the read failed, and for no
/// other reason; it then fires its signal. A text message is published on the
/// playlist as it is; that the playlist may have no subscriber left to take
/// it is no error and does not end the relay. Any other message is dropped:
/// nothing is handed to the channel for it.
pub fn user_to_playlist(inbound: Inbound, incoming: Incoming) -> (step: InboundStep)
    ensures
        step.published() == handed_on(inbound.published(), incoming),
        incoming.ends() ==> step is Done && step.fired() == Some(inbound.signal()),
        !incoming.ends() ==> (step matches InboundStep::Continue(next) && next.channel()
            == inbound.channel() && next.signal() == inbound.signal()),
{
    if incoming.ends_stream() {
        inbound.leave()
    } else {
        match incoming.publication() {
            Some(payload) => InboundStep::Continue(inbound.publish(payload)),
            None => InboundStep::Continue(inbound),
        }
    }
}

/// The number of reads at the front of `reads` before the first that shows
/// that the user is gone; all of them, if there is none.
pub open spec fn reads_before_end(reads: Seq<Incoming>) -> int
    decreases reads.len(),
{
    if reads.len() == 0 || reads.first().ends() {
        0
    } else {
        1 + reads_before_end(reads.skip(1))
    }
}

/// The payloads of the text messages among `reads`, in order.
pub open spec fn texts(reads: Seq<Incoming>) -> Seq<Seq<char>>
    decreases reads.len(),
{
    if reads.len() == 0 {
        Seq::empty()
    } else {
        handed_on(Seq::empty(), reads.first()) + texts(reads.skip(1))
    }
}

/// What a relay has handed to its channel after a run over `reads`, given
/// what it had handed on `before`. The run takes the reads in order, one step
/// each, and is over with the first that ends the relay.
pub open spec fn handed_on_in_run(before: Seq<Seq<char>>, reads: Seq<Incoming>) -> Seq<Seq<char>>
    decreases reads.len(),
{
    if reads.len() == 0 || reads.first().ends() {
        before
    } else {
        handed_on_in_run(handed_on(before, reads.first()), reads.skip(1))
    }
}

/// What a run hands to the channel is the payloads of the text messages that
/// were read before the user was gone: each of them once, unchanged and in
/// the order in which they were read, and nothing else. What is read after
/// the first end is not handed on.
pub proof fn lemma_hands_on_the_texts_before_the_end(before: Seq<Seq<char>>, reads: Seq<Incoming>)
    ensures
        0 <= reads_before_end(reads) <= reads.len(),
        handed_on_in_run(before, reads) == before + texts(reads.take(reads_before_end(reads))),
    decreases reads.len(),
{
    if reads.len() == 0 || reads.first().ends() {
        assert(reads.take(0) == Seq::<Incoming>::empty());
        assert(before + Seq::<Seq<char>>::empty() == before);
    } else {
        let first = reads.first();
        let rest = reads.skip(1);
        let taken = reads.take(reads_before_end(reads));
        lemma_hands_on_the_texts_before_the_end(handed_on(before, first), rest);
        assert(taken.first() == first);
        assert(taken.skip(1) == rest.take(reads_before_end(rest)));
        assert(handed_on(before, first) == before + handed_on(Seq::empty(), first));
        assert(handed_on(before, first) + texts(taken.skip(1)) == before + (handed_on(
            Seq::empty(),
            first,
        ) + texts(taken.skip(1))));
    }
}

} // verus!
