//! What passes between the session and the loop that drives the port.
//!
//! The loop alternates between asking the session what to do and telling it
//! what the port and the sink did. Both directions are plain values.

use vstd::prelude::*;

verus! {

/// How long one read may wait for bytes, in milliseconds. A stop request is
/// seen at the top of the next iteration, so this bounds how long a close
/// takes to be honoured.
pub const READ_TIMEOUT_MILLIS: u64 = 50;

/// Size in bytes of the buffer that one read fills at most.
pub const READ_BUFFER_BYTES: usize = 10240;

/// What the loop has to do at the top of an iteration.
#[derive(Debug, PartialEq, Eq)]
pub enum LoopAction {
    /// A stop was requested: leave the loop and report success.
    Stop,
    /// Hand these bytes to the port in one call, then read.
    Transmit(Vec<u8>),
    /// Nothing is waiting to be sent: read.
    Poll,
}

/// A [`LoopAction`] as mathematics.
pub enum ActionModel {
    Stop,
    Transmit(Seq<u8>),
    Poll,
}

impl View for LoopAction {
    type V = ActionModel;

    open spec fn view(&self) -> ActionModel {
        match self {
            LoopAction::Stop => ActionModel::Stop,
            LoopAction::Transmit(bytes) => ActionModel::Transmit(bytes@),
            LoopAction::Poll => ActionModel::Poll,
        }
    }
}

impl ActionModel {
    /// The bytes that this action puts on the wire.
    pub open spec fn wire_bytes(self) -> Seq<u8> {
        match self {
            ActionModel::Transmit(bytes) => bytes,
            _ => Seq::empty(),
        }
    }
}

/// How the read at the end of an iteration went.
#[derive(Debug, PartialEq, Eq)]
pub enum PortEvent {
    /// The port returned these bytes and the sink accepted them.
    Delivered(Vec<u8>),
    /// The port returned bytes and the sink refused them; the text is the
    /// sink's description of the failure.
    SinkFailed(String),
    /// The read failed in a way the loop recovers from, such as a timeout
    /// with nothing received.
    Idle,
}

/// A [`PortEvent`] as mathematics.
pub enum EventModel {
    Delivered(Seq<u8>),
    SinkFailed(Seq<char>),
    Idle,
}

impl View for PortEvent {
    type V = EventModel;

    open spec fn view(&self) -> EventModel {
        match self {
            PortEvent::Delivered(chunk) => EventModel::Delivered(chunk@),
            PortEvent::SinkFailed(detail) => EventModel::SinkFailed(detail@),
            PortEvent::Idle => EventModel::Idle,
        }
    }
}

impl EventModel {
    /// The bytes that this event adds to the accumulator.
    pub open spec fn kept_bytes(self) -> Seq<u8> {
        match self {
            EventModel::Delivered(chunk) => chunk,
            _ => Seq::empty(),
        }
    }

    /// Whether the loop goes on after this event.
    pub open spec fn survivable(self) -> bool {
        !(self is SinkFailed)
    }
}

} // verus!
