//! The life cycle of an export session as a state machine.
//!
//! The session itself never touches an encoder or a file. It decides: every
//! step takes the outcome of the last command and gives the next command,
//! which the caller carries out on the encoder and the container writer it
//! owns. This module holds the states, the events, the commands and the
//! transition function, together with what holds of every run.

use crate::error::ExportError;
use vstd::prelude::*;

verus! {

/// Index of the one video stream of the container.
pub const VIDEO_STREAM: usize = 0;

/// Where a session stands.
#[derive(Clone, Copy, Debug, PartialEq, Eq, Structural)]
pub enum Phase {
    /// Created, not started yet.
    Unconfigured,
    /// The encoder and the writer are being set up.
    Opening,
    /// Started, and idle between two operations.
    Active,
    /// A frame has been handed to the encoder.
    Submitting,
    /// The encoder has been asked for the next packet of a pushed frame.
    Draining,
    /// A packet of a pushed frame has been handed to the writer.
    Writing,
    /// The end of the stream has been signalled to the encoder.
    Flushing,
    /// The encoder has been asked for the next trailing packet.
    DrainingTail,
    /// A trailing packet has been handed to the writer.
    WritingTail,
    /// The writer has been told to finalize the container.
    Finalizing,
    /// Ended, or failed: nothing more can be done with the session.
    Closed,
}

/// What went wrong when a command could not be carried out.
#[derive(Clone, Copy, Debug, PartialEq, Eq, Structural)]
pub enum Fault {
    /// A name could not be resolved to a codec, pixel format or container.
    Unresolved,
    /// The output file could not be created or written.
    Io,
    /// The encoder or the writer refused what it was given.
    Rejected,
}

/// Error number of the operating system for a failed read or write.
pub const EIO: i32 = 5;

/// Error number of the operating system for a device without space left.
pub const ENOSPC: i32 = 28;

impl Fault {
    /// The fault behind an error of the encoder or the writer, given the
    /// operating system's error number where the error carries one: a failed
    /// write and a full device are faults of the file, everything else is a
    /// refusal.
    pub fn from_os_error(code: Option<i32>) -> (fault: Fault)
        ensures
            fault == (if code == Some(EIO) || code == Some(ENOSPC) {
                Fault::Io
            } else {
                Fault::Rejected
            }),
    {
        match code {
            Some(number) => if number == EIO || number == ENOSPC {
                Fault::Io
            } else {
                Fault::Rejected
            },
            None => Fault::Rejected,
        }
    }
}

/// The outcome of the last command, as the caller reports it.
#[derive(Clone, Copy, Debug, PartialEq, Eq, Structural)]
pub enum Event {
    /// The command was carried out.
    Done,
    /// The encoder handed out a packet with this presentation timestamp.
    Packet { pts: i64 },
    /// The encoder has no packet available right now.
    NoPacket,
    /// The command failed.
    Failed(Fault),
}

/// What the caller has to do next.
#[derive(Clone, Copy, Debug, PartialEq, Eq, Structural)]
pub enum Command {
    /// Ask the encoder for its next packet.
    Take,
    /// Hand the packet just taken to the writer, for the given stream.
    Write { stream_index: usize, pts: i64 },
    /// Signal the end of the stream to the encoder.
    Flush,
    /// Finalize the container and close the output.
    Finalize,
    /// The operation has succeeded; there is nothing more to do for it.
    Complete,
    /// The operation has failed and the session is closed: release the
    /// encoder and the writer, and report the error.
    Abort(ExportError),
    /// The step is not valid in the session's state: nothing has changed,
    /// report the error.
    Refuse(ExportError),
}

/// The state of a session: its phase, what it was started with, and its clock.
#[derive(Clone, Copy, Debug, PartialEq, Eq, Structural)]
pub struct Session {
    pub phase: Phase,
    pub width: u32,
    pub height: u32,
    /// Microseconds from one frame to the next.
    pub frame_duration: i64,
    /// Presentation timestamp of the next frame, in microseconds.
    pub timestamp: i64,
    /// Number of frames pushed and drained so far.
    pub frames: u64,
}

/// The error an abort reports, given the phase in which the command failed.
pub open spec fn error_of(phase: Phase, fault: Fault) -> ExportError {
    if fault == Fault::Io {
        ExportError::Io
    } else {
        match phase {
            Phase::Opening => ExportError::Configuration,
            Phase::Writing | Phase::WritingTail | Phase::Finalizing => ExportError::Mux,
            _ => ExportError::Encoding,
        }
    }
}

impl Phase {
    /// A command is outstanding: the session waits for its outcome.
    pub open spec fn is_waiting(self) -> bool {
        !(self == Phase::Unconfigured || self == Phase::Active || self == Phase::Closed)
    }

    /// The session is in the middle of pushing a frame.
    pub open spec fn is_pushing(self) -> bool {
        self == Phase::Submitting || self == Phase::Draining || self == Phase::Writing
    }

    /// The session is in the middle of ending.
    pub open spec fn is_ending(self) -> bool {
        self == Phase::Flushing || self == Phase::DrainingTail || self == Phase::WritingTail
            || self == Phase::Finalizing
    }
}

impl Session {
    /// The clock is consistent: the next timestamp is the number of frames
    /// pushed times the frame duration, and while a frame is being pushed
    /// there is room to advance both.
    pub open spec fn wf(self) -> bool {
        &&& self.frame_duration >= 0
        &&& self.timestamp == self.frames * self.frame_duration
        &&& self.phase.is_pushing() ==> self.timestamp + self.frame_duration <= i64::MAX
            && self.frames < u64::MAX
    }

    /// Number of bytes of one frame buffer: four per pixel.
    pub open spec fn frame_bytes(self) -> int {
        self.width * self.height * 4
    }

    /// The event is one the session waits for in its phase.
    pub open spec fn expects(self, event: Event) -> bool {
        match self.phase {
            Phase::Opening | Phase::Submitting | Phase::Writing | Phase::Flushing
            | Phase::WritingTail | Phase::Finalizing => event is Done || event is Failed,
            Phase::Draining | Phase::DrainingTail => event is Packet || event is NoPacket
                || event is Failed,
            Phase::Unconfigured | Phase::Active | Phase::Closed => false,
        }
    }

    /// The same session in another phase.
    pub open spec fn in_phase(self, phase: Phase) -> Session {
        Session { phase, ..self }
    }

    /// The session after one more frame has been pushed and drained.
    pub open spec fn advanced(self) -> Session {
        Session {
            phase: Phase::Active,
            timestamp: (self.timestamp + self.frame_duration) as i64,
            frames: (self.frames + 1) as u64,
            ..self
        }
    }

    /// The state after an event.
    pub open spec fn after(self, event: Event) -> Session {
        if !self.expects(event) {
            self
        } else {
            match (self.phase, event) {
                (_, Event::Failed(_)) => self.in_phase(Phase::Closed),
                (Phase::Opening, _) => self.in_phase(Phase::Active),
                (Phase::Submitting, _) => self.in_phase(Phase::Draining),
                (Phase::Draining, Event::Packet { .. }) => self.in_phase(Phase::Writing),
                (Phase::Draining, _) => self.advanced(),
                (Phase::Writing, _) => self.in_phase(Phase::Draining),
                (Phase::Flushing, _) => self.in_phase(Phase::DrainingTail),
                (Phase::DrainingTail, Event::Packet { .. }) => self.in_phase(Phase::WritingTail),
                (Phase::DrainingTail, _) => self.in_phase(Phase::Finalizing),
                (Phase::WritingTail, _) => self.in_phase(Phase::DrainingTail),
                (_, _) => self.in_phase(Phase::Closed),
            }
        }
    }

    /// The command that answers an event.
    pub open spec fn answer(self, event: Event) -> Command {
        if !self.expects(event) {
            Command::Refuse(ExportError::InvalidState)
        } else {
            match (self.phase, event) {
                (phase, Event::Failed(fault)) => Command::Abort(error_of(phase, fault)),
                (Phase::Opening, _) => Command::Complete,
                (Phase::Submitting, _) => Command::Take,
                (Phase::Draining, Event::Packet { pts }) => Command::Write {
                    stream_index: VIDEO_STREAM,
                    pts,
                },
                (Phase::Draining, _) => Command::Complete,
                (Phase::Writing, _) => Command::Take,
                (Phase::Flushing, _) => Command::Take,
                (Phase::DrainingTail, Event::Packet { pts }) => Command::Write {
                    stream_index: VIDEO_STREAM,
                    pts,
                },
                (Phase::DrainingTail, _) => Command::Finalize,
                (Phase::WritingTail, _) => Command::Take,
                (_, _) => Command::Complete,
            }
        }
    }

    /// The state after a sequence of events, one after the other.
    pub open spec fn run(self, events: Seq<Event>) -> Session
        decreases events.len(),
    {
        if events.len() == 0 {
            self
        } else {
            self.after(events[0]).run(events.drop_first())
        }
    }

    /// No event of the sequence is refused when the events come one after
    /// the other.
    pub open spec fn accepts(self, events: Seq<Event>) -> bool
        decreases events.len(),
    {
        events.len() == 0 || (self.expects(events[0]) && self.after(events[0]).accepts(
            events.drop_first(),
        ))
    }

    /// The timestamps of the packets that the session hands to the writer
    /// over a sequence of events, in the order of the commands.
    pub open spec fn written(self, events: Seq<Event>) -> Seq<i64>
        decreases events.len(),
    {
        if events.len() == 0 {
            Seq::empty()
        } else {
            let rest = self.after(events[0]).written(events.drop_first());
            match self.answer(events[0]) {
                Command::Write { pts, .. } => seq![pts] + rest,
                _ => rest,
            }
        }
    }
}

/// The timestamps of the packets that the encoder hands out over a sequence
/// of events, in the order of emission.
pub open spec fn emitted(events: Seq<Event>) -> Seq<i64>
    decreases events.len(),
{
    if events.len() == 0 {
        Seq::empty()
    } else {
        let rest = emitted(events.drop_first());
        match events[0] {
            Event::Packet { pts } => seq![pts] + rest,
            _ => rest,
        }
    }
}

/// No element of the sequence is smaller than one before it.
pub open spec fn non_decreasing(stamps: Seq<i64>) -> bool {
    forall|i: int, j: int| 0 <= i <= j < stamps.len() ==> stamps[i] <= stamps[j]
}

/// A consistent clock stays consistent over every event.
pub proof fn step_keeps_clock(session: Session, event: Event)
    requires
        session.wf(),
    ensures
        session.after(event).wf(),
        session.after(event).frame_duration == session.frame_duration,
        session.after(event).width == session.width,
        session.after(event).height == session.height,
{
    if session.phase == Phase::Draining && event == Event::NoPacket {
        assert((session.frames + 1) * session.frame_duration == session.frames
            * session.frame_duration + session.frame_duration) by (nonlinear_arith);
    }
}

/// The clock advances once for each frame: when the push of a frame
/// completes, the count of frames grows by one and the timestamp by one frame
/// duration, so that the next frame is stamped with the number of frames
/// before it times the frame duration. No other event moves the clock.
pub proof fn clock_advances_once_per_frame(session: Session, event: Event)
    requires
        session.wf(),
    ensures
        session.phase == Phase::Draining && event == Event::NoPacket ==> {
            &&& session.after(event).frames == session.frames + 1
            &&& session.after(event).timestamp == session.timestamp + session.frame_duration
            &&& session.after(event).timestamp == crate::clock::timestamp_of_frame(
                session.frames + 1,
                session.frame_duration as int,
            )
        },
        !(session.phase == Phase::Draining && event == Event::NoPacket) ==> {
            &&& session.after(event).frames == session.frames
            &&& session.after(event).timestamp == session.timestamp
        },
        session.timestamp == crate::clock::timestamp_of_frame(
            session.frames as int,
            session.frame_duration as int,
        ),
{
    step_keeps_clock(session, event);
}

/// A session with no command outstanding waits for no event. An event that
/// the session does not wait for changes nothing and is refused; every other
/// event is answered by a command to go on, by completion or by an abort.
pub proof fn unexpected_events_are_refused(session: Session, event: Event)
    ensures
        !session.phase.is_waiting() ==> !session.expects(event),
        !session.expects(event) ==> session.after(event) == session && session.answer(event)
            == Command::Refuse(ExportError::InvalidState),
        session.expects(event) ==> !(session.answer(event) is Refuse),
        session.answer(event) is Abort <==> session.expects(event) && event is Failed,
        session.answer(event) is Abort ==> session.after(event).phase == Phase::Closed,
{
}

/// The push of a frame completes only when the encoder reports that it has
/// no packet available: when control returns to the caller the encoder has
/// been drained. Until then every packet taken is written before the next
/// one is asked for.
pub proof fn push_completes_only_when_drained(session: Session, event: Event)
    requires
        session.phase.is_pushing(),
    ensures
        session.answer(event) == Command::Complete <==> session.phase == Phase::Draining && event
            == Event::NoPacket,
        session.after(event).phase == Phase::Active <==> session.phase == Phase::Draining && event
            == Event::NoPacket,
        session.phase == Phase::Draining ==> forall|pts: i64|
            session.answer(Event::Packet { pts }) == (Command::Write {
                stream_index: VIDEO_STREAM,
                pts,
            }) && (#[trigger] session.after(Event::Packet { pts })).phase == Phase::Writing,
        session.phase == Phase::Writing ==> (session.answer(event) == Command::Take <==> event
            == Event::Done),
{
}

/// The container is finalized only when, after the end of the stream was
/// signalled, the encoder reports that it has no packet left; and the session
/// is closed without error only when the container has been finalized.
pub proof fn end_finalizes_only_when_drained(session: Session, event: Event)
    requires
        session.phase.is_ending(),
    ensures
        session.answer(event) == Command::Finalize <==> session.phase == Phase::DrainingTail
            && event == Event::NoPacket,
        session.answer(event) == Command::Complete <==> session.phase == Phase::Finalizing
            && event == Event::Done,
        session.answer(event) == Command::Complete ==> session.after(event).phase
            == Phase::Closed,
        session.after(event).phase != Phase::Active,
{
}

/// A configuration error is only ever reported while the session is being
/// opened: never while a frame is pushed, and never while the session ends.
pub proof fn configuration_errors_only_when_opening(session: Session, event: Event)
    ensures
        session.answer(event) == Command::Abort(ExportError::Configuration) ==> session.phase
            == Phase::Opening,
        session.answer(event) != Command::Refuse(ExportError::Configuration),
        session.phase == Phase::Opening && event is Failed ==> session.answer(event)
            == Command::Abort(
            if event == Event::Failed(Fault::Io) {
                ExportError::Io
            } else {
                ExportError::Configuration
            },
        ),
{
}

/// Nothing can be done with a closed session: every event is refused and
/// the session stays closed.
pub proof fn closed_is_final(session: Session, events: Seq<Event>)
    requires
        session.phase == Phase::Closed,
    ensures
        session.run(events) == session,
        session.written(events) == Seq::<i64>::empty(),
    decreases events.len(),
{
    if events.len() > 0 {
        closed_is_final(session, events.drop_first());
    }
}

/// Every packet handed to the writer goes to the one video stream.
pub proof fn writes_go_to_the_video_stream(session: Session, event: Event)
    ensures
        session.answer(event) matches Command::Write { stream_index, pts } ==> stream_index
            == VIDEO_STREAM && event == (Event::Packet { pts }),
{
}

/// Over a run in which no event is refused, the packets reach the writer
/// exactly as the encoder handed them out: the same packets in the same
/// order.
pub proof fn packets_written_in_emission_order(session: Session, events: Seq<Event>)
    requires
        session.accepts(events),
    ensures
        session.written(events) == emitted(events),
    decreases events.len(),
{
    if events.len() > 0 {
        packets_written_in_emission_order(session.after(events[0]), events.drop_first());
    }
}

/// When the push of a frame has run its course and the session is active
/// again, the last the encoder said was that it has no packet available, and
/// every packet it handed out for the frame has been written.
pub proof fn push_returns_with_encoder_drained(session: Session, events: Seq<Event>)
    requires
        session.phase.is_pushing(),
        session.accepts(events),
        session.run(events).phase == Phase::Active,
    ensures
        events.len() > 0,
        events.last() == Event::NoPacket,
        session.written(events) == emitted(events),
    decreases events.len(),
{
    packets_written_in_emission_order(session, events);
    if events.len() > 0 {
        let next = session.after(events[0]);
        let rest = events.drop_first();
        if next.phase.is_pushing() {
            push_returns_with_encoder_drained(next, rest);
            assert(events.last() == rest.last());
        } else if next.phase == Phase::Closed {
            closed_is_final(next, rest);
        } else {
            assert(next.phase == Phase::Active);
            assert(next.accepts(rest));
            assert(rest.len() == 0) by {
                if rest.len() > 0 {
                    assert(!next.expects(rest[0]));
                }
            }
            assert(events[0] == Event::NoPacket);
        }
    }
}

/// Where the encoder hands out its packets in non-decreasing order of their
/// timestamps, they reach the writer in non-decreasing order.
pub proof fn writes_are_non_decreasing(session: Session, events: Seq<Event>)
    requires
        session.accepts(events),
        non_decreasing(emitted(events)),
    ensures
        non_decreasing(session.written(events)),
{
    packets_written_in_emission_order(session, events);
}

} // verus!
