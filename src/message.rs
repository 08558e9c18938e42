//! Messages flowing between components.

use vstd::prelude::*;
use crate::error::{BtResult, Error};
use crate::event::Event;
use crate::stream::Stream;

verus! {

/// The kind of a message.
#[derive(Clone, Copy, PartialEq, Eq, Structural, PartialOrd, Ord, Hash, Debug)]
pub enum MessageType {
    StreamBeginning,
    StreamEnd,
    Event,
    PacketBeginning,
    PacketEnd,
    DiscardedEvents,
    DiscardedPackets,
    MessageIteratorInactivity,
    /// Another kind, with the engine's code.
    Unknown(u32),
}

impl MessageType {
    /// The kind of message that an engine message type code stands for: the
    /// known kinds are the bits 0 to 7, in declaration order.
    pub open spec fn spec_from_raw(raw: u32) -> MessageType {
        if raw == 1 {
            MessageType::StreamBeginning
        } else if raw == 2 {
            MessageType::StreamEnd
        } else if raw == 4 {
            MessageType::Event
        } else if raw == 8 {
            MessageType::PacketBeginning
        } else if raw == 16 {
            MessageType::PacketEnd
        } else if raw == 32 {
            MessageType::DiscardedEvents
        } else if raw == 64 {
            MessageType::DiscardedPackets
        } else if raw == 128 {
            MessageType::MessageIteratorInactivity
        } else {
            MessageType::Unknown(raw)
        }
    }

    pub fn from_raw(raw: u32) -> (r: MessageType)
        ensures
            r == Self::spec_from_raw(raw),
    {
        match raw {
            1 => MessageType::StreamBeginning,
            2 => MessageType::StreamEnd,
            4 => MessageType::Event,
            8 => MessageType::PacketBeginning,
            16 => MessageType::PacketEnd,
            32 => MessageType::DiscardedEvents,
            64 => MessageType::DiscardedPackets,
            128 => MessageType::MessageIteratorInactivity,
            _ => MessageType::Unknown(raw),
        }
    }
}

/// A message as the engine hands it over: its kind, and what could be
/// borrowed from it (the stream of a stream-beginning message, the event of
/// an event message).
#[derive(Debug)]
pub struct Message {
    pub msg_type: MessageType,
    pub stream: Option<Stream>,
    pub event: Option<Event>,
}

impl Message {
    pub fn from_raw(msg_type: MessageType, stream: Option<Stream>, event: Option<Event>) -> (r: Message)
        ensures
            r.msg_type == msg_type,
            r.stream == stream,
            r.event == event,
    {
        Message { msg_type, stream, event }
    }

    pub fn get_type(&self) -> (r: MessageType)
        ensures
            r == self.msg_type,
    {
        self.msg_type
    }

    /// The stream that a stream-beginning message announces.
    pub fn stream_beginning_borrow_stream(&self) -> (r: BtResult<&Stream>)
        ensures
            r.is_ok() == self.stream.is_some(),
            r.is_ok() ==> *r.unwrap() == self.stream.unwrap(),
            r.is_err() ==> r == Err::<&Stream, Error>(Error::ResourceBorrow),
    {
        match &self.stream {
            None => Err(Error::ResourceBorrow),
            Some(s) => Ok(s),
        }
    }

    /// The event that an event message carries.
    pub fn borrow_event(&self) -> (r: BtResult<&Event>)
        ensures
            r.is_ok() == self.event.is_some(),
            r.is_ok() ==> *r.unwrap() == self.event.unwrap(),
            r.is_err() ==> r == Err::<&Event, Error>(Error::ResourceBorrow),
    {
        match &self.event {
            None => Err(Error::ResourceBorrow),
            Some(e) => Ok(e),
        }
    }
}

/// A batch of messages, in the order the upstream iterator produced them.
#[derive(Debug)]
pub struct MessageArray {
    pub(crate) messages: Vec<Message>,
}

impl View for MessageArray {
    type V = Seq<Message>;

    closed spec fn view(&self) -> Seq<Message> {
        self.messages@
    }
}

impl MessageArray {
    pub fn new(messages: Vec<Message>) -> (r: MessageArray)
        ensures
            r@ == messages@,
    {
        MessageArray { messages }
    }

    /// An empty batch.
    pub fn zero() -> (r: MessageArray)
        ensures
            r@ == Seq::<Message>::empty(),
    {
        MessageArray { messages: Vec::new() }
    }

    pub fn as_slice(&self) -> (r: &[Message])
        ensures
            r@ == self@,
    {
        self.messages.as_slice()
    }
}

} // verus!
