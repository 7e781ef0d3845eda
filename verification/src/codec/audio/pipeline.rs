//! The pipeline as a state machine.
//!
//! A packet that is pushed runs through three engines: the decoder makes
//! frames of it, the resampler makes frames of another form of those, and
//! the encoder makes packets of these. Each engine takes its input when it
//! is pushed and gives its output when it is asked, none, one or many pieces
//! at a time. So after every push the engine is drained: it is asked until
//! it has nothing more, and each piece it gives goes down the pipeline
//! before the next is asked for. Flushing does the same with what the
//! engines still hold, one engine after the other.
//!
//! The transcoder makes none of these calls. It says which [`Call`] comes
//! next, the caller makes it and reports the [`Event`] that came of it, and
//! the transcoder says what follows. This module holds the words of that
//! conversation and, as functions of a [`State`], what the transcoder
//! answers.

use vstd::prelude::*;
use crate::codec::AudioCodecParametersView;
use crate::codec::CodecError;
use crate::codec::CodecErrorView;
use crate::codec::ErrorKind;
use crate::codec::audio::AudioFormat;
use crate::codec::audio::AudioFrame;
use crate::packet::Packet;
use crate::packet::PacketView;
use crate::time::convertible;
use crate::time::micros;

verus! {

/// The message of the error for a push while output waits.
pub const PUSH_PENDING: &'static str =
    "take all transcoded packets before pushing another packet for transcoding";

/// The message of the error for a flush while output waits.
pub const FLUSH_PENDING: &'static str =
    "take all transcoded packets before flushing the transcoder";

/// The message of the error for a push while an operation is under way.
pub const PUSH_BUSY: &'static str =
    "finish the operation under way before pushing another packet for transcoding";

/// The message of the error for a flush while an operation is under way.
pub const FLUSH_BUSY: &'static str =
    "finish the operation under way before flushing the transcoder";

/// What the transcoder is working through.
#[derive(Clone, Copy, Debug, PartialEq, Eq, Structural)]
pub enum Routine {
    /// A packet was pushed: the decoder is drained.
    Push,
    /// The first part of a flush: the decoder was flushed and is drained.
    FlushDecoder,
    /// The second part of a flush: the resampler was flushed and is drained.
    FlushResampler,
    /// The last part of a flush: the encoder was flushed and is drained.
    FlushEncoder,
}

/// A call to one of the three engines.
#[derive(Clone, Copy, Debug, PartialEq, Eq, Structural)]
pub enum Call {
    /// Push the packet that is being transcoded to the decoder.
    DecoderPush,
    /// Flush the decoder.
    DecoderFlush,
    /// Take the next frame from the decoder.
    DecoderTake,
    /// Push the frame that the decoder gave last to the resampler. The call
    /// holds the timing of that frame.
    ResamplerPush(AudioFrame),
    /// Flush the resampler.
    ResamplerFlush,
    /// Take the next frame from the resampler.
    ResamplerTake,
    /// Give the frame that the resampler gave last the timestamp that the
    /// call holds, and push it to the encoder.
    EncoderPush(AudioFrame),
    /// Flush the encoder.
    EncoderFlush,
    /// Take the next packet from the encoder.
    EncoderTake,
}

/// Where the transcoder stands.
#[derive(Clone, Copy, Debug, PartialEq, Eq, Structural)]
pub enum Mode {
    /// Nothing is under way and no output waits: a packet can be pushed, or
    /// the transcoder flushed.
    Idle,
    /// An operation is under way: the transcoder waits to hear how `call`
    /// went.
    Running {
        /// What the transcoder is working through.
        routine: Routine,
        /// The call that it asked for last.
        call: Call,
    },
    /// Output waits to be taken. Nothing else can be done before the last
    /// packet is taken.
    OutputPending,
}

/// What came of a call.
#[derive(Debug, PartialEq, Eq)]
pub enum Event {
    /// The engine took what was pushed, or was flushed.
    Accepted,
    /// The decoder or the resampler was asked for a frame, and gave this
    /// one, or had none.
    Frame(Option<AudioFrame>),
    /// The encoder was asked for a packet, and gave this one, or had none.
    Packet(Option<Packet>),
    /// The engine failed.
    Failed(CodecError),
}

/// What an event holds.
pub enum EventView {
    /// The engine took what was pushed, or was flushed.
    Accepted,
    /// The decoder or the resampler gave this frame, or had none.
    Frame(Option<AudioFrame>),
    /// The encoder gave this packet, or had none.
    Packet(Option<PacketView>),
    /// The engine failed.
    Failed(CodecErrorView),
}

impl View for Event {
    type V = EventView;

    open spec fn view(&self) -> EventView {
        match *self {
            Event::Accepted => EventView::Accepted,
            Event::Frame(frame) => EventView::Frame(frame),
            Event::Packet(Some(packet)) => EventView::Packet(Some(packet@)),
            Event::Packet(None) => EventView::Packet(None),
            Event::Failed(error) => EventView::Failed(error@),
        }
    }
}

/// What the caller is to do next.
#[derive(Debug, PartialEq, Eq)]
pub enum Action {
    /// Make this call and report what came of it.
    Call(Call),
    /// The operation is over, with this result.
    Return(Result<(), CodecError>),
}

/// What an action holds.
pub enum ActionView {
    /// Make this call and report what came of it.
    Call(Call),
    /// The operation is over, with this result.
    Return(Result<(), CodecErrorView>),
}

impl View for Action {
    type V = ActionView;

    open spec fn view(&self) -> ActionView {
        match *self {
            Action::Call(call) => ActionView::Call(call),
            Action::Return(Ok(())) => ActionView::Return(Ok(())),
            Action::Return(Err(error)) => ActionView::Return(Err(error@)),
        }
    }
}

/// Whether `call` can be asked for while `routine` is worked through:
/// whether it belongs to the engine that the routine drains or to one
/// further down the pipeline, and is no push or flush of another routine.
pub open spec fn admits(routine: Routine, call: Call) -> bool {
    match routine {
        Routine::Push => !(call is DecoderFlush || call is ResamplerFlush || call is EncoderFlush),
        Routine::FlushDecoder => !(call is DecoderPush || call is ResamplerFlush
            || call is EncoderFlush),
        Routine::FlushResampler => call is ResamplerFlush || call is ResamplerTake
            || call is EncoderPush || call is EncoderTake,
        Routine::FlushEncoder => call is EncoderFlush || call is EncoderTake,
    }
}

/// Whether `event` is something that can come of `call`.
pub open spec fn answers(call: Call, event: EventView) -> bool {
    match event {
        EventView::Accepted => !(call is DecoderTake || call is ResamplerTake
            || call is EncoderTake),
        EventView::Frame(_) => call is DecoderTake || call is ResamplerTake,
        EventView::Packet(_) => call is EncoderTake,
        EventView::Failed(_) => true,
    }
}

/// The packet that goes out for a packet of the encoder, which counts time
/// in samples at `rate` samples per second: the same bytes in stream 0, with
/// both timestamps at the presentation timestamp in microseconds.
pub open spec fn output(packet: PacketView, rate: int) -> PacketView {
    PacketView {
        data: packet.data,
        pts: micros(packet.pts, rate),
        dts: micros(packet.pts, rate),
        stream_index: 0,
    }
}

/// The timestamp of a frame that follows `samples` samples: that number as
/// a signed number of 64 bits. Up to the largest of those it is the number
/// itself; a larger one keeps its lower 64 bits.
pub open spec fn stamp(samples: nat) -> i64 {
    samples as u64 as i64
}

/// The error for a push or a flush that has to wait.
pub open spec fn again(message: &str) -> CodecErrorView {
    CodecErrorView { kind: ErrorKind::Again, message: message@ }
}

/// All that a transcoder holds.
pub struct State {
    /// The form of the samples that go in.
    pub source: AudioFormat,
    /// The form of the samples that come out.
    pub target: AudioFormat,
    /// The parameters of the stream that comes out.
    pub parameters: AudioCodecParametersView,
    /// The number of samples that went to the encoder so far.
    pub samples: nat,
    /// The packets that wait to be taken, oldest first.
    pub ready: Seq<PacketView>,
    /// Where the transcoder stands.
    pub mode: Mode,
}

impl State {
    /// The number of samples per second at which the encoder counts time.
    pub open spec fn rate(self) -> int {
        self.target.sample_rate as int
    }

    /// What holds of every state that a transcoder is ever in.
    pub open spec fn wf(self) -> bool {
        &&& self.samples <= u64::MAX
        &&& match self.mode {
            Mode::Idle => self.ready.len() == 0,
            Mode::OutputPending => self.ready.len() > 0,
            Mode::Running { routine, call } => {
                &&& admits(routine, call)
                &&& call matches Call::ResamplerPush(frame) ==> frame.pts >= 0
                &&& call matches Call::EncoderPush(frame) ==> {
                    &&& frame.pts == stamp(self.samples)
                    &&& self.samples + frame.samples <= u64::MAX
                }
            },
        }
    }

    /// The state of a new transcoder from `source` to `target` whose output
    /// has the given parameters.
    pub open spec fn initial(
        source: AudioFormat,
        target: AudioFormat,
        parameters: AudioCodecParametersView,
    ) -> State {
        State { source, target, parameters, samples: 0, ready: Seq::empty(), mode: Mode::Idle }
    }

    /// The state in which `call` was asked for on behalf of `routine`, and
    /// the action that asks for it.
    pub open spec fn ask(self, routine: Routine, call: Call) -> (State, ActionView) {
        (State { mode: Mode::Running { routine, call }, ..self }, ActionView::Call(call))
    }

    /// The state after the operation under way has ended, and the action
    /// that ends it with `result`. Output that the operation made now waits
    /// to be taken.
    pub open spec fn finish(self, result: Result<(), CodecErrorView>) -> (State, ActionView) {
        let mode = if self.ready.len() > 0 {
            Mode::OutputPending
        } else {
            Mode::Idle
        };
        (State { mode, ..self }, ActionView::Return(result))
    }

    /// What a push does: it starts the routine of that name, unless the
    /// transcoder is not idle, which leaves everything as it is.
    pub open spec fn push(self) -> (State, Result<Call, CodecErrorView>) {
        match self.mode {
            Mode::Idle => (
                State {
                    mode: Mode::Running { routine: Routine::Push, call: Call::DecoderPush },
                    ..self
                },
                Ok(Call::DecoderPush),
            ),
            Mode::OutputPending => (self, Err(again(PUSH_PENDING))),
            Mode::Running { .. } => (self, Err(again(PUSH_BUSY))),
        }
    }

    /// What a flush does: it starts the first of the three flushing
    /// routines, unless the transcoder is not idle, which leaves everything
    /// as it is.
    pub open spec fn flush(self) -> (State, Result<Call, CodecErrorView>) {
        match self.mode {
            Mode::Idle => (
                State {
                    mode: Mode::Running {
                        routine: Routine::FlushDecoder,
                        call: Call::DecoderFlush,
                    },
                    ..self
                },
                Ok(Call::DecoderFlush),
            ),
            Mode::OutputPending => (self, Err(again(FLUSH_PENDING))),
            Mode::Running { .. } => (self, Err(again(FLUSH_BUSY))),
        }
    }

    /// What taking a packet does: the oldest packet that waits leaves the
    /// queue, and where it was the last that output was pending for, the
    /// transcoder is idle again. With no packet waiting nothing changes.
    pub open spec fn take(self) -> (State, Option<PacketView>) {
        if self.ready.len() > 0 {
            let ready = self.ready.drop_first();
            let mode = if self.mode is OutputPending && ready.len() == 0 {
                Mode::Idle
            } else {
                self.mode
            };
            (State { ready, mode, ..self }, Some(self.ready.first()))
        } else {
            (self, None)
        }
    }

    /// Whether the transcoder takes `event`: an operation is under way, the
    /// event can have come of the call that was asked for last, and what it
    /// brings can be counted. A frame of the resampler has to leave the
    /// number of samples that went to the encoder within 64 bits. A packet
    /// needs an output with a sample rate, and a timestamp whose
    /// microseconds have 64 bits.
    pub open spec fn accepts(self, event: EventView) -> bool {
        &&& self.mode matches Mode::Running { routine, call }
        &&& answers(call, event)
        &&& call is ResamplerTake ==> (event matches EventView::Frame(Some(frame))
            ==> self.samples + frame.samples <= u64::MAX)
        &&& event matches EventView::Packet(Some(packet)) ==> self.rate() > 0 && convertible(
            packet.pts,
        )
    }

    /// What follows when the decoder has no more frames: a push is over; a
    /// flush goes on to the resampler.
    pub open spec fn decoder_drained(self, routine: Routine) -> (State, ActionView) {
        match routine {
            Routine::FlushDecoder => self.ask(Routine::FlushResampler, Call::ResamplerFlush),
            _ => self.finish(Ok(())),
        }
    }

    /// What follows when the resampler has no more frames: where the decoder
    /// is being drained, its next frame; in a flush that has come to the
    /// resampler, the encoder.
    pub open spec fn resampler_drained(self, routine: Routine) -> (State, ActionView) {
        match routine {
            Routine::FlushResampler => self.ask(Routine::FlushEncoder, Call::EncoderFlush),
            _ => self.ask(routine, Call::DecoderTake),
        }
    }

    /// What follows when the encoder has no more packets: where the
    /// resampler is being drained, its next frame; in a flush that has come
    /// to the encoder, the end.
    pub open spec fn encoder_drained(self, routine: Routine) -> (State, ActionView) {
        match routine {
            Routine::FlushEncoder => self.finish(Ok(())),
            _ => self.ask(routine, Call::ResamplerTake),
        }
    }

    /// What follows when an engine took what was pushed, or was flushed: it
    /// is drained. A frame that the encoder took is counted first.
    pub open spec fn accepted(self, routine: Routine, call: Call) -> (State, ActionView) {
        match call {
            Call::DecoderPush | Call::DecoderFlush => self.ask(routine, Call::DecoderTake),
            Call::ResamplerPush(_) | Call::ResamplerFlush => self.ask(routine, Call::ResamplerTake),
            Call::EncoderPush(frame) => State {
                samples: self.samples + frame.samples as nat,
                ..self
            }.ask(routine, Call::EncoderTake),
            _ => self.ask(routine, Call::EncoderTake),
        }
    }

    /// What follows when an engine gave a frame. A frame of the decoder goes
    /// to the resampler, unless its timestamp is negative: such a frame is
    /// padding, and is dropped. A frame of the resampler goes to the encoder
    /// with the number of samples that went there before as its timestamp.
    pub open spec fn frame_taken(self, routine: Routine, call: Call, frame: AudioFrame) -> (
        State,
        ActionView,
    ) {
        match call {
            Call::DecoderTake => if frame.pts >= 0 {
                self.ask(routine, Call::ResamplerPush(frame))
            } else {
                self.ask(routine, Call::DecoderTake)
            },
            _ => self.ask(
                routine,
                Call::EncoderPush(AudioFrame { pts: stamp(self.samples), samples: frame.samples }),
            ),
        }
    }

    /// What follows when the encoder gave a packet: the packet goes out, and
    /// the encoder is asked for the next.
    pub open spec fn packet_taken(self, routine: Routine, packet: PacketView) -> (
        State,
        ActionView,
    ) {
        State { ready: self.ready.push(output(packet, self.rate())), ..self }.ask(
            routine,
            Call::EncoderTake,
        )
    }

    /// What the transcoder does with an event that it accepts.
    pub open spec fn resume(self, event: EventView) -> (State, ActionView)
        recommends
            self.accepts(event),
    {
        match self.mode {
            Mode::Running { routine, call } => match event {
                EventView::Accepted => self.accepted(routine, call),
                EventView::Frame(Some(frame)) => self.frame_taken(routine, call, frame),
                EventView::Frame(None) => match call {
                    Call::DecoderTake => self.decoder_drained(routine),
                    _ => self.resampler_drained(routine),
                },
                EventView::Packet(Some(packet)) => self.packet_taken(routine, packet),
                EventView::Packet(None) => self.encoder_drained(routine),
                EventView::Failed(error) => self.finish(Err(error)),
            },
            _ => (self, ActionView::Return(Ok(()))),
        }
    }
}

/// Every step keeps a state well formed.
pub proof fn lemma_steps_keep_wf(state: State, event: EventView)
    requires
        state.wf(),
    ensures
        state.push().0.wf(),
        state.flush().0.wf(),
        state.take().0.wf(),
        state.accepts(event) ==> state.resume(event).0.wf(),
{
}

} // verus!
