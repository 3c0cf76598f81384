//! Mathematical state of a session and the transitions between states.

use vstd::prelude::*;
use crate::error::SessionError;
use crate::event::ActionModel;
use crate::event::EventModel;

verus! {

/// Largest accumulator length that the usage counter can report.
pub const USAGE_LIMIT: usize = 255;

/// What a session is, as plain mathematics: the run flag and the two byte
/// sequences, each in arrival order.
pub struct SessionModel {
    /// True from a successful open until the next close request.
    pub running: bool,
    /// Bytes accepted for transmission and not yet handed to the port.
    pub queue: Seq<u8>,
    /// Bytes received since the last clear or destructive save.
    pub accumulated: Seq<u8>,
}

impl SessionModel {
    /// The state at process start: not running, both buffers empty.
    pub open spec fn initial() -> SessionModel {
        SessionModel { running: false, queue: Seq::empty(), accumulated: Seq::empty() }
    }

    /// The state after the port was acquired.
    pub open spec fn started(self) -> SessionModel {
        SessionModel { running: true, ..self }
    }

    /// The state after a close request was honoured.
    pub open spec fn stopped(self) -> SessionModel {
        SessionModel { running: false, ..self }
    }

    /// The state after `payload` joined the end of the write queue.
    pub open spec fn enqueued(self, payload: Seq<u8>) -> SessionModel {
        SessionModel { queue: self.queue + payload, ..self }
    }

    /// The state after the loop took the whole write queue.
    pub open spec fn drained(self) -> SessionModel {
        SessionModel { queue: Seq::empty(), ..self }
    }

    /// The state after `chunk` joined the end of the accumulator.
    pub open spec fn received(self, chunk: Seq<u8>) -> SessionModel {
        SessionModel { accumulated: self.accumulated + chunk, ..self }
    }

    /// What a close request is answered: it needs a running session.
    pub open spec fn close_result(self) -> Result<(), SessionError> {
        if self.running {
            Ok(())
        } else {
            Err(SessionError::NotRunning)
        }
    }

    /// The state after a close request: the run flag is lowered if it was
    /// up, and nothing else changes.
    pub open spec fn close_requested(self) -> SessionModel {
        if self.running {
            self.stopped()
        } else {
            self
        }
    }

    /// What a write request is answered: it needs a running session.
    pub open spec fn write_result(self) -> Result<(), SessionError> {
        if self.running {
            Ok(())
        } else {
            Err(SessionError::NotRunning)
        }
    }

    /// The state after a write request: the payload is queued if the
    /// session is running, and dropped otherwise.
    pub open spec fn write_requested(self, payload: Seq<u8>) -> SessionModel {
        if self.running {
            self.enqueued(payload)
        } else {
            self
        }
    }

    /// What a save reports once its write ended as `written` says.
    pub open spec fn save_result(written: bool) -> Result<u8, SessionError> {
        if written {
            Ok(1u8)
        } else {
            Err(SessionError::WriteFailed)
        }
    }

    /// The state after the accumulator was emptied.
    pub open spec fn cleared(self) -> SessionModel {
        SessionModel { accumulated: Seq::empty(), ..self }
    }

    /// The state after a save whose write ended as `written` says: the
    /// accumulator is emptied only when the write succeeded and a dump was
    /// asked for.
    pub open spec fn saved(self, written: bool, dump_after: bool) -> SessionModel {
        if written && dump_after {
            self.cleared()
        } else {
            self
        }
    }

    /// What the loop is told at the top of an iteration: to stop once the run
    /// flag is down, to transmit the whole queue when it holds anything, to
    /// read otherwise.
    pub open spec fn next_action(self) -> ActionModel {
        if !self.running {
            ActionModel::Stop
        } else if self.queue.len() > 0 {
            ActionModel::Transmit(self.queue)
        } else {
            ActionModel::Poll
        }
    }

    /// The state after the top of an iteration: the queue is given up
    /// exactly when its bytes were handed out for transmission.
    pub open spec fn begun(self) -> SessionModel {
        if self.running {
            self.drained()
        } else {
            self
        }
    }

    /// The state after the read of an iteration: delivered bytes join the
    /// accumulator, anything else leaves the state alone.
    pub open spec fn ended(self, event: EventModel) -> SessionModel {
        self.received(event.kept_bytes())
    }

    /// What a usage query reports: the accumulator's length, if the counter
    /// can express it.
    pub open spec fn usage_result(self) -> Result<u8, SessionError> {
        if self.accumulated.len() <= USAGE_LIMIT {
            Ok(self.accumulated.len() as u8)
        } else {
            Err(SessionError::Overflow)
        }
    }
}

} // verus!
