//! What a user's connection hands to the relay.

use vstd::prelude::*;

verus! {

/// One message read from a user's connection. Only text is ever relayed, so
/// only text keeps its payload.
#[derive(Debug, PartialEq, Eq)]
pub enum Frame {
    Text(String),
    Binary,
    Ping,
    Pong,
    Close,
}

/// The outcome of one read on a user's connection.
#[derive(Debug, PartialEq, Eq)]
pub enum Incoming {
    /// A message arrived.
    Frame(Frame),
    /// The connection was closed: nothing more will arrive.
    End,
    /// The read failed.
    Error,
}

impl Frame {
    /// The payload, if this is a text message.
    pub open spec fn text(self) -> Option<Seq<char>> {
        match self {
            Frame::Text(payload) => Some(payload@),
            _ => None,
        }
    }

    /// Whether this is a text message.
    pub fn is_text(&self) -> (text: bool)
        ensures
            text == self.text().is_some(),
    {
        match self {
            Frame::Text(_) => true,
            _ => false,
        }
    }
}

impl Incoming {
    /// Whether the read shows that the user is gone: the connection closed or
    /// failed.
    pub open spec fn ends(self) -> bool {
        self is End || self is Error
    }

    /// The payload that is to be relayed: that of a text message, and nothing
    /// for anything else.
    pub open spec fn text(self) -> Option<Seq<char>> {
        match self {
            Incoming::Frame(frame) => frame.text(),
            _ => None,
        }
    }

    /// Whether the read shows that the user is gone.
    pub fn ends_stream(&self) -> (gone: bool)
        ensures
            gone == self.ends(),
    {
        match self {
            Incoming::Frame(_) => false,
            _ => true,
        }
    }

    /// The text to publish on the playlist: the payload of a text message,
    /// unchanged. Binary, ping, pong and close messages yield nothing, and
    /// neither does the end of the connection.
    pub fn publication(self) -> (payload: Option<String>)
        ensures
            match self.text() {
                Some(text) => payload matches Some(p) && p@ == text,
                None => payload is None,
            },
    {
        match self {
            Incoming::Frame(Frame::Text(payload)) => Some(payload),
            _ => None,
        }
    }
}

} // verus!
