//! The export session: configuration, frame conversion and timing, and the
//! commands it gives to whoever owns the encoder and the container writer.

use crate::clock::VideoSettings;
use crate::color::ChannelOrder;
use crate::error::ExportError;
use crate::planes::{convert_frame, Planes};
use crate::session::{error_of, Command, Event, Fault, Phase, Session, VIDEO_STREAM};
use vstd::prelude::*;
use vstd::utf8::encode_utf8;

verus! {

/// Width of the resolution a session has before it is started.
pub const DEFAULT_WIDTH: u32 = 1920;

/// Height of the resolution a session has before it is started.
pub const DEFAULT_HEIGHT: u32 = 1080;

/// Ticks of the encoder's time base in one second: one tick is one
/// microsecond.
pub const TIME_BASE_TICKS: u32 = 1_000_000;

/// A name can be handed to the native libraries: none of the bytes of its
/// UTF-8 encoding is NUL.
pub open spec fn is_passable(name: Seq<char>) -> bool {
    forall|i: int| 0 <= i < encode_utf8(name).len() ==> encode_utf8(name)[i] != 0u8
}

/// Whether a name can be handed to the native libraries.
pub fn passable(name: &str) -> (ok: bool)
    ensures
        ok == is_passable(name@),
{
    let bytes = name.as_bytes();
    let mut i: usize = 0;
    while i < bytes.len()
        invariant
            0 <= i <= bytes@.len(),
            bytes@ == encode_utf8(name@),
            forall|k: int| 0 <= k < i ==> bytes@[k] != 0u8,
        decreases bytes@.len() - i,
    {
        if bytes[i] == 0 {
            return false;
        }
        i += 1;
    }
    true
}

/// What the encoder and the container writer are to be set up with.
#[derive(Clone, Copy, Debug, PartialEq, Eq, Structural)]
pub struct OpenPlan {
    pub width: u32,
    pub height: u32,
    /// Numerator of the encoder's time base, a fraction of a second.
    pub time_base_numerator: u32,
    /// Denominator of the encoder's time base.
    pub time_base_denominator: u32,
    /// Number of elementary streams of the container.
    pub streams: usize,
}

/// One converted frame, ready for the encoder.
#[derive(Debug)]
pub struct Frame {
    pub planes: Planes,
    /// Presentation timestamp in microseconds.
    pub pts: i64,
}

/// An export session for one output file with one video stream.
///
/// The session owns neither the encoder nor the writer. `begin`,
/// `push_frame` and `end` start an operation and say what to do first;
/// `advance` takes the outcome of each command and gives the next, until the
/// operation is complete, aborted or refused.
#[derive(Debug)]
pub struct FFmpegExporter {
    output: String,
    container: String,
    video_coding: String,
    pixel_formatting: String,
    audio_coding: Option<String>,
    order: ChannelOrder,
    session: Session,
}

impl FFmpegExporter {
    #[verifier::type_invariant]
    spec fn clock_is_consistent(self) -> bool {
        self.session.wf()
    }

    /// The state of the session.
    pub closed spec fn session(&self) -> Session {
        self.session
    }

    /// The order of the channels in the frame buffers pushed.
    pub closed spec fn order(&self) -> ChannelOrder {
        self.order
    }

    /// The path of the output file.
    pub closed spec fn output_name(&self) -> Seq<char> {
        self.output@
    }

    /// The name of the container format.
    pub closed spec fn container_name(&self) -> Seq<char> {
        self.container@
    }

    /// The name of the video codec.
    pub closed spec fn codec_name(&self) -> Seq<char> {
        self.video_coding@
    }

    /// The name of the pixel format.
    pub closed spec fn pixel_format_name(&self) -> Seq<char> {
        self.pixel_formatting@
    }

    /// The name of the audio codec, if one was given.
    pub closed spec fn audio_codec_name(&self) -> Option<Seq<char>> {
        match self.audio_coding {
            Some(name) => Some(name@),
            None => None,
        }
    }

    /// The names that are resolved when the session starts can all be
    /// handed to the native libraries.
    pub closed spec fn names_passable(&self) -> bool {
        &&& is_passable(self.video_coding@)
        &&& is_passable(self.pixel_formatting@)
        &&& is_passable(self.output@)
    }

    /// Nothing but the state of the session differs between the two.
    pub open spec fn same_configuration(&self, other: &FFmpegExporter) -> bool {
        &&& self.output_name() == other.output_name()
        &&& self.container_name() == other.container_name()
        &&& self.codec_name() == other.codec_name()
        &&& self.pixel_format_name() == other.pixel_format_name()
        &&& self.audio_codec_name() == other.audio_codec_name()
        &&& self.order() == other.order()
        &&& self.names_passable() == other.names_passable()
    }

    /// A session that is not started yet. The names are kept as they are
    /// and resolved only when the session starts; the audio codec is kept
    /// and not used. Frame buffers are read as red, green, blue, alpha.
    pub fn new(
        output: &str,
        container: &str,
        video_coding: &str,
        pixel_format: &str,
        audio_coding: Option<String>,
    ) -> (exporter: Self)
        ensures
            exporter.output_name() == output@,
            exporter.container_name() == container@,
            exporter.codec_name() == video_coding@,
            exporter.pixel_format_name() == pixel_format@,
            exporter.audio_codec_name() == (match audio_coding {
                Some(name) => Some(name@),
                None => None,
            }),
            exporter.order() == ChannelOrder::Rgba,
            exporter.names_passable() == (is_passable(video_coding@) && is_passable(pixel_format@)
                && is_passable(output@)),
            exporter.session() == (Session {
                phase: Phase::Unconfigured,
                width: DEFAULT_WIDTH,
                height: DEFAULT_HEIGHT,
                frame_duration: 0,
                timestamp: 0,
                frames: 0,
            }),
    {
        FFmpegExporter {
            output: output.to_owned(),
            container: container.to_owned(),
            video_coding: video_coding.to_owned(),
            pixel_formatting: pixel_format.to_owned(),
            audio_coding,
            order: ChannelOrder::Rgba,
            session: Session {
                phase: Phase::Unconfigured,
                width: DEFAULT_WIDTH,
                height: DEFAULT_HEIGHT,
                frame_duration: 0,
                timestamp: 0,
                frames: 0,
            },
        }
    }

    /// The same exporter reading its frame buffers in another channel order.
    pub fn with_channel_order(self, order: ChannelOrder) -> (exporter: Self)
        ensures
            exporter.order() == order,
            exporter.session() == self.session(),
            exporter.output_name() == self.output_name(),
            exporter.container_name() == self.container_name(),
            exporter.codec_name() == self.codec_name(),
            exporter.pixel_format_name() == self.pixel_format_name(),
            exporter.audio_codec_name() == self.audio_codec_name(),
            exporter.names_passable() == self.names_passable(),
    {
        proof {
            use_type_invariant(&self);
        }
        FFmpegExporter {
            output: self.output,
            container: self.container,
            video_coding: self.video_coding,
            pixel_formatting: self.pixel_formatting,
            audio_coding: self.audio_coding,
            order,
            session: self.session,
        }
    }

    /// The path of the output file.
    pub fn output(&self) -> (name: &str)
        ensures
            name@ == self.output_name(),
    {
        self.output.as_str()
    }

    /// The name of the container format.
    pub fn container(&self) -> (name: &str)
        ensures
            name@ == self.container_name(),
    {
        self.container.as_str()
    }

    /// The name of the video codec.
    pub fn video_coding(&self) -> (name: &str)
        ensures
            name@ == self.codec_name(),
    {
        self.video_coding.as_str()
    }

    /// The name of the pixel format.
    pub fn pixel_format(&self) -> (name: &str)
        ensures
            name@ == self.pixel_format_name(),
    {
        self.pixel_formatting.as_str()
    }

    /// The name of the audio codec, if one was given. No audio is written.
    pub fn audio_coding(&self) -> (name: Option<&str>)
        ensures
            match name {
                Some(n) => self.audio_codec_name() == Some(n@),
                None => self.audio_codec_name().is_none(),
            },
    {
        match &self.audio_coding {
            Some(name) => Some(name.as_str()),
            None => None,
        }
    }

    /// The order of the channels in the frame buffers pushed.
    pub fn channel_order(&self) -> (order: ChannelOrder)
        ensures
            order == self.order(),
    {
        self.order
    }

    /// The state of the session. Its clock is always consistent.
    pub fn state(&self) -> (session: Session)
        ensures
            session == self.session(),
            session.wf(),
    {
        proof {
            use_type_invariant(self);
        }
        self.session
    }

    /// Where the session stands.
    pub fn phase(&self) -> (phase: Phase)
        ensures
            phase == self.session().phase,
    {
        self.session.phase
    }

    /// The resolution as (width, height) in pixels.
    pub fn resolution(&self) -> (resolution: (u32, u32))
        ensures
            resolution == (self.session().width, self.session().height),
    {
        (self.session.width, self.session.height)
    }

    /// Microseconds from one frame to the next.
    pub fn frame_duration(&self) -> (duration: i64)
        ensures
            duration == self.session().frame_duration,
            duration >= 0,
    {
        proof {
            use_type_invariant(self);
        }
        self.session.frame_duration
    }

    /// The presentation timestamp of the next frame, in microseconds: the
    /// number of frames pushed so far times the frame duration.
    pub fn current_timestamp(&self) -> (timestamp: i64)
        ensures
            timestamp == self.session().timestamp,
            timestamp == crate::clock::timestamp_of_frame(
                self.session().frames as int,
                self.session().frame_duration as int,
            ),
    {
        proof {
            use_type_invariant(self);
        }
        self.session.timestamp
    }

    /// Number of frames pushed and drained so far.
    pub fn frames_pushed(&self) -> (frames: u64)
        ensures
            frames == self.session().frames,
    {
        self.session.frames
    }

    /// Whether the names resolved at the start can be handed to the native
    /// libraries.
    pub fn names_are_passable(&self) -> (ok: bool)
        ensures
            ok == self.names_passable(),
    {
        passable(self.video_coding.as_str()) && passable(self.pixel_formatting.as_str())
            && passable(self.output.as_str())
    }

    /// Starts the session.
    ///
    /// In a session that is not started yet, with names that can be handed
    /// on and a valid frame rate, this fixes resolution and frame duration,
    /// sets the clock to zero and returns what the encoder and the writer
    /// are to be opened with: the resolution, a time base of one microsecond
    /// and exactly one stream. The session then waits in `Phase::Opening`
    /// for the outcome. Otherwise nothing changes and the error says why:
    /// `InvalidState` where the session was started before, and else
    /// `Configuration`.
    pub fn begin(&mut self, settings: VideoSettings) -> (result: Result<OpenPlan, ExportError>)
        ensures
            final(self).same_configuration(old(self)),
            old(self).session().phase != Phase::Unconfigured ==> result == Err::<
                OpenPlan,
                ExportError,
            >(ExportError::InvalidState),
            old(self).session().phase == Phase::Unconfigured && !(old(self).names_passable()
                && settings.frame_rate.is_valid()) ==> result == Err::<OpenPlan, ExportError>(
                ExportError::Configuration,
            ),
            old(self).session().phase == Phase::Unconfigured && old(self).names_passable()
                && settings.frame_rate.is_valid() ==> result == Ok::<OpenPlan, ExportError>(
                OpenPlan {
                    width: settings.resolution.0,
                    height: settings.resolution.1,
                    time_base_numerator: 1,
                    time_base_denominator: TIME_BASE_TICKS,
                    streams: 1,
                },
            ),
            result.is_err() ==> final(self).session() == old(self).session(),
            result.is_ok() ==> final(self).session() == (Session {
                phase: Phase::Opening,
                width: settings.resolution.0,
                height: settings.resolution.1,
                frame_duration: settings.frame_rate.duration_micros() as i64,
                timestamp: 0,
                frames: 0,
            }),
    {
        proof {
            use_type_invariant(&*self);
        }
        match self.session.phase {
            Phase::Unconfigured => {},
            _ => {
                return Err(ExportError::InvalidState);
            },
        }
        if !self.names_are_passable() {
            return Err(ExportError::Configuration);
        }
        match settings.frame_rate.frame_duration() {
            None => Err(ExportError::Configuration),
            Some(duration) => {
                self.session = Session {
                    phase: Phase::Opening,
                    width: settings.resolution.0,
                    height: settings.resolution.1,
                    frame_duration: duration,
                    timestamp: 0,
                    frames: 0,
                };
                Ok(
                    OpenPlan {
                        width: settings.resolution.0,
                        height: settings.resolution.1,
                        time_base_numerator: 1,
                        time_base_denominator: TIME_BASE_TICKS,
                        streams: 1,
                    },
                )
            },
        }
    }

    /// A frame buffer has the size of one frame of the session: four bytes
    /// for each pixel of the resolution.
    pub fn fits(&self, buffer: &[u8]) -> (ok: bool)
        ensures
            ok == (buffer@.len() == self.session().frame_bytes()),
    {
        let width = self.session.width as u64;
        let height = self.session.height as u64;
        assert(width * height <= 0xffff_ffff * 0xffff_ffff) by (nonlinear_arith)
            requires
                0 <= width <= 0xffff_ffff,
                0 <= height <= 0xffff_ffff,
        ;
        let pixels: u64 = width * height;
        let bytes: u128 = pixels as u128 * 4;
        buffer.len() as u128 == bytes
    }

    /// Whether the clock can take one more frame: the timestamp after it
    /// and the count of frames both still fit.
    pub open spec fn has_room(&self) -> bool {
        self.session().timestamp + self.session().frame_duration <= i64::MAX
            && self.session().frames < u64::MAX
    }

    /// Takes one frame.
    ///
    /// In an active session, for a buffer of exactly `width * height * 4`
    /// bytes, this converts the buffer into its three planes, stamps them
    /// with the current timestamp and returns them for submission to the
    /// encoder; the session then waits in `Phase::Submitting`. The
    /// timestamp advances when the push completes. The keyframe hint is
    /// accepted and has no effect.
    ///
    /// Otherwise nothing changes: a session that is not active gives
    /// `InvalidState`; a buffer of another size gives `Encoding` and leaves
    /// the session active for further frames, as does a clock that has no
    /// room for another frame.
    pub fn push_frame(&mut self, keyframe: bool, buffer: &[u8]) -> (result: Result<
        Frame,
        ExportError,
    >)
        ensures
            final(self).same_configuration(old(self)),
            result.is_ok() <==> {
                &&& old(self).session().phase == Phase::Active
                &&& buffer@.len() == old(self).session().frame_bytes()
                &&& old(self).has_room()
            },
            result matches Err(error) ==> {
                &&& final(self).session() == old(self).session()
                &&& error == (if old(self).session().phase != Phase::Active {
                    ExportError::InvalidState
                } else {
                    ExportError::Encoding
                })
            },
            result matches Ok(frame) ==> {
                &&& final(self).session() == old(self).session().in_phase(Phase::Submitting)
                &&& frame.pts == old(self).session().timestamp
                &&& frame.pts == crate::clock::timestamp_of_frame(
                    old(self).session().frames as int,
                    old(self).session().frame_duration as int,
                )
                &&& frame.planes.well_formed()
                &&& frame.planes.is_conversion_of(buffer@, old(self).order())
                &&& frame.planes.sample_count() == old(self).session().width
                    * old(self).session().height
            },
    {
        proof {
            use_type_invariant(&*self);
        }
        match self.session.phase {
            Phase::Active => {},
            _ => {
                return Err(ExportError::InvalidState);
            },
        }
        if !self.fits(buffer) {
            return Err(ExportError::Encoding);
        }
        if self.session.timestamp.checked_add(self.session.frame_duration).is_none()
            || self.session.frames == u64::MAX {
            return Err(ExportError::Encoding);
        }
        let planes = convert_frame(buffer, self.order);
        let pts = self.session.timestamp;
        self.session.phase = Phase::Submitting;
        Ok(Frame { planes, pts })
    }

    /// Ends the session.
    ///
    /// In an active session this returns `Command::Flush`, to signal the end
    /// of the stream to the encoder, and the session waits in
    /// `Phase::Flushing`. In any other state nothing changes and the step is
    /// refused with `InvalidState`.
    pub fn end(&mut self) -> (command: Command)
        ensures
            final(self).same_configuration(old(self)),
            old(self).session().phase == Phase::Active ==> command == Command::Flush
                && final(self).session() == old(self).session().in_phase(Phase::Flushing),
            old(self).session().phase != Phase::Active ==> command == Command::Refuse(
                ExportError::InvalidState,
            ) && final(self).session() == old(self).session(),
    {
        proof {
            use_type_invariant(&*self);
        }
        match self.session.phase {
            Phase::Active => {
                self.session.phase = Phase::Flushing;
                Command::Flush
            },
            _ => Command::Refuse(ExportError::InvalidState),
        }
    }

    /// Takes the outcome of the last command and gives the next command.
    ///
    /// The session moves as `Session::after` says and the command is the
    /// one `Session::answer` gives: an event the session does not wait for
    /// is refused and changes nothing; a failure closes the session and
    /// aborts the operation with the error that belongs to the failed
    /// command; every packet the encoder hands out is written to the video
    /// stream before the next is asked for; a push completes, and the clock
    /// advances by one frame, when the encoder has no packet available; the
    /// container is finalized when, after the flush, the encoder has none
    /// left.
    pub fn advance(&mut self, event: Event) -> (command: Command)
        ensures
            final(self).same_configuration(old(self)),
            final(self).session() == old(self).session().after(event),
            command == old(self).session().answer(event),
    {
        proof {
            use_type_invariant(&*self);
            crate::session::step_keeps_clock(self.session, event);
        }
        let phase = self.session.phase;
        match (phase, event) {
            (Phase::Unconfigured, _) | (Phase::Active, _) | (Phase::Closed, _) => Command::Refuse(
                ExportError::InvalidState,
            ),
            (Phase::Draining, Event::Done) | (Phase::DrainingTail, Event::Done) => Command::Refuse(
                ExportError::InvalidState,
            ),
            (Phase::Draining, Event::Packet { pts }) => {
                self.session.phase = Phase::Writing;
                Command::Write { stream_index: VIDEO_STREAM, pts }
            },
            (Phase::DrainingTail, Event::Packet { pts }) => {
                self.session.phase = Phase::WritingTail;
                Command::Write { stream_index: VIDEO_STREAM, pts }
            },
            (_, Event::Packet { .. }) => Command::Refuse(ExportError::InvalidState),
            (Phase::Draining, Event::NoPacket) => {
                let next = Session {
                    phase: Phase::Active,
                    width: self.session.width,
                    height: self.session.height,
                    frame_duration: self.session.frame_duration,
                    timestamp: self.session.timestamp + self.session.frame_duration,
                    frames: self.session.frames + 1,
                };
                assert(next == self.session.after(event));
                self.session = next;
                Command::Complete
            },
            (Phase::DrainingTail, Event::NoPacket) => {
                self.session.phase = Phase::Finalizing;
                Command::Finalize
            },
            (_, Event::NoPacket) => Command::Refuse(ExportError::InvalidState),
            (_, Event::Failed(fault)) => {
                self.session.phase = Phase::Closed;
                Command::Abort(failure(phase, fault))
            },
            (Phase::Opening, Event::Done) => {
                self.session.phase = Phase::Active;
                Command::Complete
            },
            (Phase::Submitting, Event::Done) | (Phase::Writing, Event::Done) => {
                self.session.phase = Phase::Draining;
                Command::Take
            },
            (Phase::Flushing, Event::Done) | (Phase::WritingTail, Event::Done) => {
                self.session.phase = Phase::DrainingTail;
                Command::Take
            },
            (Phase::Finalizing, Event::Done) => {
                self.session.phase = Phase::Closed;
                Command::Complete
            },
        }
    }
}

/// The error that an abort reports when a command fails in a given phase: a
/// failed read or write of the file is an i/o error whatever the phase;
/// otherwise opening fails with a configuration error, writing and
/// finalizing with a mux error, and everything else with an encoding error.
pub fn failure(phase: Phase, fault: Fault) -> (error: ExportError)
    ensures
        error == error_of(phase, fault),
{
    match fault {
        Fault::Io => ExportError::Io,
        _ => match phase {
            Phase::Opening => ExportError::Configuration,
            Phase::Writing | Phase::WritingTail | Phase::Finalizing => ExportError::Mux,
            _ => ExportError::Encoding,
        },
    }
}

} // verus!
