//! The session state object and the commands on it.

use vstd::prelude::*;
use vstd::string::StringSliceAdditionalSpecFns;
use vstd::utf8::encode_utf8;
use crate::error::SessionError;
use crate::event::LoopAction;
use crate::event::PortEvent;
use crate::model::SessionModel;
use crate::model::USAGE_LIMIT;
use crate::pattern::match_spans;
use crate::pattern::pattern_compiles;
use crate::search::models;
use crate::search::search_outcome;
use crate::search::search_text;
use crate::search::RegexMatchResult;
use crate::text::decode_lossy;
use crate::text::lossy_text;

verus! {

/// Shared state of one serial session. Created once, it outlives every
/// open-to-close cycle; the buffers keep their content across a close.
pub struct Session {
    running: bool,
    write_queue: Vec<u8>,
    read_accumulator: Vec<u8>,
}

impl View for Session {
    type V = SessionModel;

    closed spec fn view(&self) -> SessionModel {
        SessionModel {
            running: self.running,
            queue: self.write_queue@,
            accumulated: self.read_accumulator@,
        }
    }
}

impl Default for Session {
    /// A session that is not running and holds no bytes.
    fn default() -> (session: Session)
        ensures
            session@ == SessionModel::initial(),
    {
        Session::new()
    }
}

impl Session {
    /// A session that is not running and holds no bytes.
    pub fn new() -> (session: Session)
        ensures
            session@ == SessionModel::initial(),
    {
        Session { running: false, write_queue: Vec::new(), read_accumulator: Vec::new() }
    }

    /// Whether the loop is asked to keep going.
    pub fn is_running(&self) -> (running: bool)
        ensures
            running == self@.running,
    {
        self.running
    }

    /// Records the outcome of acquiring the port. On success the run flag
    /// goes up and the buffers stay as they are; on failure nothing changes
    /// and the transport's description comes back inside `OpenFailed`.
    pub fn start(&mut self, acquired: Result<(), String>) -> (result: Result<(), SessionError>)
        ensures
            match acquired {
                Ok(_) => result == Ok::<(), SessionError>(())
                    && final(self)@ == old(self)@.started(),
                Err(detail) => result == Err::<(), SessionError>(SessionError::OpenFailed(detail))
                    && final(self)@ == old(self)@,
            },
    {
        match acquired {
            Ok(_) => {
                self.running = true;
                Ok(())
            },
            Err(detail) => Err(SessionError::OpenFailed(detail)),
        }
    }

    /// Top of a loop iteration. Tells the loop to stop once a close was
    /// requested; otherwise hands out the whole write queue, if it holds
    /// anything, and forgets it whatever the port will make of the bytes.
    pub fn begin_iteration(&mut self) -> (action: LoopAction)
        ensures
            action@ == old(self)@.next_action(),
            final(self)@ == old(self)@.begun(),
    {
        if !self.running {
            LoopAction::Stop
        } else if self.write_queue.len() > 0 {
            let mut pending: Vec<u8> = Vec::new();
            std::mem::swap(&mut pending, &mut self.write_queue);
            LoopAction::Transmit(pending)
        } else {
            assert(self.write_queue@ =~= Seq::<u8>::empty());
            LoopAction::Poll
        }
    }

    /// End of a loop iteration. Bytes that the sink accepted join the end of
    /// the accumulator; a recoverable read failure changes nothing. Both let
    /// the loop go on. A sink failure changes nothing either and ends the
    /// loop with `OpenFailed` carrying the sink's description.
    pub fn end_iteration(&mut self, event: PortEvent) -> (result: Result<(), SessionError>)
        ensures
            final(self)@ == old(self)@.ended(event@),
            match event {
                PortEvent::SinkFailed(detail) => result == Err::<(), SessionError>(
                    SessionError::OpenFailed(detail),
                ),
                _ => result == Ok::<(), SessionError>(()),
            },
    {
        match event {
            PortEvent::Delivered(chunk) => {
                self.read_accumulator.extend_from_slice(chunk.as_slice());
                assert(self.read_accumulator@ =~= old(self).read_accumulator@ + chunk@);
                Ok(())
            },
            PortEvent::SinkFailed(detail) => {
                assert(self.read_accumulator@ =~= old(self).read_accumulator@ + Seq::<u8>::empty());
                Err(SessionError::OpenFailed(detail))
            },
            PortEvent::Idle => {
                assert(self.read_accumulator@ =~= old(self).read_accumulator@ + Seq::<u8>::empty());
                Ok(())
            },
        }
    }

    /// Asks the loop to stop. Fails with `NotRunning`, changing nothing, when
    /// no session is active; otherwise lowers the run flag and leaves both
    /// buffers as they are.
    pub fn close(&mut self) -> (result: Result<(), SessionError>)
        ensures
            result == old(self)@.close_result(),
            final(self)@ == old(self)@.close_requested(),
    {
        if !self.running {
            Err(SessionError::NotRunning)
        } else {
            self.running = false;
            Ok(())
        }
    }

    /// Queues `payload` for transmission. Fails with `NotRunning`, changing
    /// nothing, when no session is active; otherwise the payload's UTF-8
    /// bytes join the end of the write queue. The caller is not told when, or
    /// whether, they reach the port.
    pub fn write(&mut self, payload: &str) -> (result: Result<(), SessionError>)
        ensures
            result == old(self)@.write_result(),
            final(self)@ == old(self)@.write_requested(encode_utf8(payload@)),
    {
        if !self.running {
            Err(SessionError::NotRunning)
        } else {
            let bytes = payload.as_bytes();
            self.write_queue.extend_from_slice(bytes);
            assert(self.write_queue@ =~= old(self).write_queue@ + bytes@);
            Ok(())
        }
    }

    /// Number of bytes in the accumulator, or `Overflow` when there are more
    /// than the counter can express.
    pub fn usage(&self) -> (result: Result<u8, SessionError>)
        ensures
            result == self@.usage_result(),
    {
        let len: usize = self.read_accumulator.len();
        if len <= USAGE_LIMIT {
            Ok(len as u8)
        } else {
            Err(SessionError::Overflow)
        }
    }

    /// The accumulator's bytes, as a save writes them to storage. The
    /// binary-mode flag of the save command selects no other form: both
    /// modes write the raw bytes.
    pub fn save_payload(&self, binary_mode: bool) -> (payload: &[u8])
        ensures
            payload@ == self@.accumulated,
    {
        self.read_accumulator.as_slice()
    }

    /// Concludes a save once the write to storage has ended. A write that
    /// succeeded reports the success marker 1 and, if a dump was asked for,
    /// empties the accumulator. A write that failed reports `WriteFailed` and
    /// leaves the accumulator untouched, dump or not.
    pub fn finish_save(&mut self, written: bool, dump_after: bool) -> (result: Result<
        u8,
        SessionError,
    >)
        ensures
            result == SessionModel::save_result(written),
            final(self)@ == old(self)@.saved(written, dump_after),
    {
        if written {
            if dump_after {
                self.read_accumulator.clear();
            }
            Ok(1)
        } else {
            Err(SessionError::WriteFailed)
        }
    }

    /// Searches the accumulator, decoded lossily as text, for `pattern`.
    /// See [`search_text`] for what is reported. The session is not changed.
    pub fn search(&self, pattern: &str) -> (result: Result<Vec<RegexMatchResult>, SessionError>)
        ensures
            result.is_ok() == pattern_compiles(pattern@),
            result matches Ok(found) ==> models(found@) == search_outcome(
                lossy_text(self@.accumulated),
                match_spans(pattern@, lossy_text(self@.accumulated)),
            ),
            result matches Err(error) ==> error == SessionError::InvalidPattern,
    {
        let text = decode_lossy(self.read_accumulator.as_slice());
        search_text(text.as_str(), pattern)
    }

    /// Empties the accumulator, whatever the run flag says.
    pub fn clear(&mut self)
        ensures
            final(self)@ == old(self)@.cleared(),
    {
        self.read_accumulator.clear();
    }
}

} // verus!
