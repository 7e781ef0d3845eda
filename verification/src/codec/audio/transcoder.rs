//! The transcoder.

use std::collections::VecDeque;
use vstd::prelude::*;
use crate::Error;
use crate::codec::AudioCodecParameters;
use crate::codec::CodecError;
use crate::codec::ErrorKind;
use crate::codec::audio::AudioFormat;
use crate::codec::audio::AudioFrame;
use crate::codec::audio::ResamplerSettings;
use crate::codec::audio::TimeBase;
use crate::codec::audio::pipeline::Action;
use crate::codec::audio::pipeline::Call;
use crate::codec::audio::pipeline::Event;
use crate::codec::audio::pipeline::Mode;
use crate::codec::audio::pipeline::Routine;
use crate::codec::audio::pipeline::State;
use crate::codec::audio::pipeline::output;
use crate::codec::audio::pipeline::stamp;
use crate::codec::audio::pipeline::FLUSH_BUSY;
use crate::codec::audio::pipeline::FLUSH_PENDING;
use crate::codec::audio::pipeline::PUSH_BUSY;
use crate::codec::audio::pipeline::PUSH_PENDING;
use crate::packet::Packet;
use crate::time::to_micros;

verus! {

/// Audio transcoder.
///
/// # Transcoder operation
/// 1. Push a packet to the transcoder.
/// 2. Take all packets from the transcoder until you get None.
/// 3. If there are more packets to be transcoded, continue with 1.
/// 4. Flush the transcoder.
/// 5. Take all packets from the transcoder until you get None.
///
/// Pushing and flushing are operations of many steps. Each starts with a
/// [`Call`] for the caller to make, and goes on with
/// [`resume`](AudioTranscoder::resume), which is told what came of the call
/// and names the next, until it returns the result of the operation.
///
/// The timestamps of the output are in microseconds and start from 0, as far
/// as the timestamps of the encoder start from 0: some codecs start with
/// padding, at a negative timestamp. Timestamps of input packets must be set
/// and are expected to start from zero, but for padding, which is skipped
/// after decoding.
pub struct AudioTranscoder {
    source: AudioFormat,
    target: AudioFormat,
    parameters: AudioCodecParameters,
    output_samples: u64,
    ready: VecDeque<Packet>,
    mode: Mode,
}

impl View for AudioTranscoder {
    type V = State;

    closed spec fn view(&self) -> State {
        State {
            source: self.source,
            target: self.target,
            parameters: self.parameters@,
            samples: self.output_samples as nat,
            ready: self.ready@.map_values(|packet: Packet| packet@),
            mode: self.mode,
        }
    }
}

impl AudioTranscoder {
    /// What holds of a transcoder at all times.
    pub open spec fn wf(&self) -> bool {
        self@.wf()
    }

    /// Create a new transcoder for a given input and output.
    ///
    /// The transcoder is idle, holds no output and has counted no samples.
    /// Nothing is asked of the parameters, and no pair of them fails: it is
    /// for the engines to refuse what they cannot work with.
    pub fn new(input: &AudioCodecParameters, output: &AudioCodecParameters) -> (made: Result<
        AudioTranscoder,
        Error,
    >)
        ensures
            made matches Ok(transcoder) && transcoder.wf() && transcoder@ == State::initial(
                input@.format,
                output@.format,
                output@,
            ),
    {
        let res = AudioTranscoder {
            source: input.format(),
            target: output.format(),
            parameters: output.clone(),
            output_samples: 0,
            ready: VecDeque::new(),
            mode: Mode::Idle,
        };
        assert(res@.ready =~= Seq::empty());
        Ok(res)
    }

    /// The time base that the encoder is to be built with: one sample of the
    /// output.
    pub fn encoder_time_base(&self) -> (time_base: TimeBase)
        ensures
            time_base == (TimeBase { num: 1, den: self@.target.sample_rate }),
    {
        TimeBase { num: 1, den: self.target.sample_rate }
    }

    /// The settings that the resampler is to be built with, for an encoder
    /// that takes frames of `frame_samples` samples: from the form of the
    /// input to the form of the output, in frames of that size.
    pub fn resampler_settings(&self, frame_samples: usize) -> (settings: ResamplerSettings)
        ensures
            settings == (ResamplerSettings {
                source: self@.source,
                target: self@.target,
                target_frame_samples: frame_samples,
            }),
    {
        ResamplerSettings {
            source: self.source,
            target: self.target,
            target_frame_samples: frame_samples,
        }
    }

    /// Records the parameters of the output as the encoder has completed
    /// them. Nothing else changes.
    pub fn set_codec_parameters(&mut self, parameters: AudioCodecParameters)
        ensures
            final(self)@ == (State { parameters: parameters@, ..old(self)@ }),
            old(self).wf() ==> final(self).wf(),
    {
        self.parameters = parameters;
    }

    /// Get codec parameters of the transcoded stream: those that the
    /// transcoder was made with, or those that were recorded since.
    pub fn codec_parameters(&self) -> (parameters: AudioCodecParameters)
        ensures
            parameters@ == self@.parameters,
    {
        self.parameters.clone()
    }

    /// The number of samples per second of the output.
    pub fn output_sample_rate(&self) -> (rate: u32)
        ensures
            rate == self@.target.sample_rate,
    {
        self.target.sample_rate
    }

    /// The number of samples that went to the encoder so far.
    pub fn output_samples(&self) -> (samples: u64)
        ensures
            samples == self@.samples,
    {
        self.output_samples
    }

    /// Where the transcoder stands.
    pub fn mode(&self) -> (mode: Mode)
        ensures
            mode == self@.mode,
    {
        self.mode
    }

    /// The number of packets that wait to be taken.
    pub fn pending(&self) -> (packets: usize)
        ensures
            packets == self@.ready.len(),
    {
        self.ready.len()
    }

    /// Push a packet to the transcoder.
    ///
    /// An idle transcoder starts on the packet: the call to make is to push
    /// it to the decoder. A transcoder that is not idle fails with an error
    /// of the kind `Again` and stays as it is: while output waits, it has to
    /// be taken first; while an operation is under way, that has to end
    /// first.
    pub fn push(&mut self) -> (started: Result<Call, CodecError>)
        requires
            old(self).wf(),
        ensures
            final(self).wf(),
            final(self)@ == old(self)@.push().0,
            match started {
                Ok(call) => old(self)@.push().1 == Ok::<Call, crate::codec::CodecErrorView>(call),
                Err(error) => old(self)@.push().1 == Err::<Call, crate::codec::CodecErrorView>(
                    error@,
                ),
            },
            started is Ok <==> old(self)@.mode is Idle,
            started matches Err(error) ==> error@.kind == ErrorKind::Again && final(self)@ == old(
                self,
            )@,
    {
        match self.mode {
            Mode::Idle => Ok(self.push_to_decoder()),
            Mode::OutputPending => Err(CodecError::new(ErrorKind::Again, PUSH_PENDING)),
            Mode::Running { .. } => Err(CodecError::new(ErrorKind::Again, PUSH_BUSY)),
        }
    }

    /// Flush the transcoder.
    ///
    /// An idle transcoder starts to flush: the call to make is to flush the
    /// decoder. A transcoder that is not idle fails with an error of the
    /// kind `Again` and stays as it is: while output waits, it has to be
    /// taken first; while an operation is under way, that has to end first.
    pub fn flush(&mut self) -> (started: Result<Call, CodecError>)
        requires
            old(self).wf(),
        ensures
            final(self).wf(),
            final(self)@ == old(self)@.flush().0,
            match started {
                Ok(call) => old(self)@.flush().1 == Ok::<Call, crate::codec::CodecErrorView>(call),
                Err(error) => old(self)@.flush().1 == Err::<Call, crate::codec::CodecErrorView>(
                    error@,
                ),
            },
            started is Ok <==> old(self)@.mode is Idle,
            started matches Err(error) ==> error@.kind == ErrorKind::Again && final(self)@ == old(
                self,
            )@,
    {
        match self.mode {
            Mode::Idle => Ok(self.flush_decoder()),
            Mode::OutputPending => Err(CodecError::new(ErrorKind::Again, FLUSH_PENDING)),
            Mode::Running { .. } => Err(CodecError::new(ErrorKind::Again, FLUSH_BUSY)),
        }
    }

    /// Take the next packet from the transcoder.
    ///
    /// The oldest packet that waits is returned. With the last packet that
    /// output was pending for, the transcoder is idle again. With no packet
    /// waiting the result is `None` and nothing changes. Taking never fails.
    pub fn take(&mut self) -> (taken: Result<Option<Packet>, CodecError>)
        requires
            old(self).wf(),
        ensures
            final(self).wf(),
            final(self)@ == old(self)@.take().0,
            match taken {
                Ok(Some(packet)) => old(self)@.take().1 == Some(packet@),
                Ok(None) => old(self)@.take().1 is None,
                Err(_) => false,
            },
    {
        let ghost before = self.ready@;
        let packet = self.ready.pop_front();
        if self.ready.len() == 0 {
            match self.mode {
                Mode::OutputPending => {
                    self.mode = Mode::Idle;
                },
                _ => {},
            }
        }
        proof {
            if before.len() > 0 {
                assert(self@.ready =~= old(self)@.ready.drop_first());
            } else {
                assert(self@.ready =~= old(self)@.ready);
            }
        }
        Ok(packet)
    }

    /// Whether the transcoder takes `event`: an operation is under way, the
    /// event can have come of the call that was asked for last, and what it
    /// brings can be counted.
    pub fn accepts(&self, event: &Event) -> (accepted: bool)
        ensures
            accepted == self@.accepts(event@),
    {
        match self.mode {
            Mode::Running { routine: _, call } => match event {
                Event::Accepted => match call {
                    Call::DecoderTake | Call::ResamplerTake | Call::EncoderTake => false,
                    _ => true,
                },
                Event::Frame(frame) => match call {
                    Call::DecoderTake => true,
                    Call::ResamplerTake => match frame {
                        Some(frame) => {
                            let room: u64 = u64::MAX - self.output_samples;
                            frame.samples() as u64 <= room
                        },
                        None => true,
                    },
                    _ => false,
                },
                Event::Packet(packet) => match call {
                    Call::EncoderTake => match packet {
                        Some(packet) => to_micros(packet.pts(), self.target.sample_rate).is_some(),
                        None => true,
                    },
                    _ => false,
                },
                Event::Failed(_) => true,
            },
            _ => false,
        }
    }

    /// Tells the transcoder what came of the call that it asked for last,
    /// and returns what is to be done next.
    ///
    /// An event that the transcoder does not accept comes back as it is, and
    /// nothing changes. Of one that it accepts, the state and the action
    /// that follow are those of [`State::resume`].
    pub fn resume(&mut self, event: Event) -> (next: Result<Action, Event>)
        requires
            old(self).wf(),
        ensures
            final(self).wf(),
            match next {
                Ok(action) => {
                    &&& old(self)@.accepts(event@)
                    &&& final(self)@ == old(self)@.resume(event@).0
                    &&& action@ == old(self)@.resume(event@).1
                },
                Err(back) => {
                    &&& !old(self)@.accepts(event@)
                    &&& back == event
                    &&& final(self)@ == old(self)@
                },
            },
    {
        if !self.accepts(&event) {
            return Err(event);
        }
        match self.mode {
            Mode::Running { routine, call } => {
                let action = match event {
                    Event::Accepted => self.accepted(routine, call),
                    Event::Frame(Some(frame)) => match call {
                        Call::DecoderTake => if frame.pts() >= 0 {
                            self.push_to_resampler(routine, frame)
                        } else {
                            self.ask(routine, Call::DecoderTake)
                        },
                        _ => self.push_to_encoder(routine, frame),
                    },
                    Event::Frame(None) => match call {
                        Call::DecoderTake => self.decoder_drained(routine),
                        _ => self.resampler_drained(routine),
                    },
                    Event::Packet(Some(packet)) => {
                        self.push_to_output(packet);
                        self.ask(routine, Call::EncoderTake)
                    },
                    Event::Packet(None) => self.encoder_drained(routine),
                    Event::Failed(error) => self.finish(Err(error)),
                };
                Ok(action)
            },
            _ => Err(event),
        }
    }

    /// Starts on a pushed packet: it goes to the decoder.
    fn push_to_decoder(&mut self) -> (call: Call)
        requires
            old(self)@.mode is Idle,
        ensures
            call == Call::DecoderPush,
            final(self)@ == old(self)@.push().0,
    {
        self.mode = Mode::Running { routine: Routine::Push, call: Call::DecoderPush };
        Call::DecoderPush
    }

    /// Has a frame of the decoder pushed to the resampler.
    fn push_to_resampler(&mut self, routine: Routine, frame: AudioFrame) -> (action: Action)
        ensures
            (final(self)@, action@) == old(self)@.ask(routine, Call::ResamplerPush(frame)),
    {
        self.ask(routine, Call::ResamplerPush(frame))
    }

    /// Has a frame of the resampler pushed to the encoder, with the number
    /// of samples that went there before as its timestamp.
    fn push_to_encoder(&mut self, routine: Routine, frame: AudioFrame) -> (action: Action)
        ensures
            (final(self)@, action@) == old(self)@.ask(
                routine,
                Call::EncoderPush(
                    AudioFrame { pts: stamp(old(self)@.samples), samples: frame.samples },
                ),
            ),
    {
        let pts: i64 = #[verifier::truncate]
        (self.output_samples as i64);
        let frame = frame.with_pts(pts);
        self.ask(routine, Call::EncoderPush(frame))
    }

    /// Push a given packet to the output buffer, in stream 0 and with both
    /// timestamps at its presentation timestamp in microseconds.
    fn push_to_output(&mut self, packet: Packet)
        requires
            old(self)@.rate() > 0,
            crate::time::convertible(packet@.pts),
        ensures
            final(self)@ == (State {
                ready: old(self)@.ready.push(output(packet@, old(self)@.rate())),
                ..old(self)@
            }),
    {
        let ts: i64 = match to_micros(packet.pts(), self.target.sample_rate) {
            Some(ts) => ts,
            // not reached: the timestamp can be converted
            None => packet.pts(),
        };
        let packet = packet.with_stream_index(0).with_pts(ts).with_dts(ts);
        self.ready.push_back(packet);
        assert(self@.ready =~= old(self)@.ready.push(packet@));
    }

    /// Starts to flush: the decoder comes first.
    fn flush_decoder(&mut self) -> (call: Call)
        requires
            old(self)@.mode is Idle,
        ensures
            call == Call::DecoderFlush,
            final(self)@ == old(self)@.flush().0,
    {
        self.mode = Mode::Running { routine: Routine::FlushDecoder, call: Call::DecoderFlush };
        Call::DecoderFlush
    }

    /// Goes on to flush the resampler.
    fn flush_resampler(&mut self) -> (action: Action)
        ensures
            (final(self)@, action@) == old(self)@.ask(
                Routine::FlushResampler,
                Call::ResamplerFlush,
            ),
    {
        self.ask(Routine::FlushResampler, Call::ResamplerFlush)
    }

    /// Goes on to flush the encoder.
    fn flush_encoder(&mut self) -> (action: Action)
        ensures
            (final(self)@, action@) == old(self)@.ask(Routine::FlushEncoder, Call::EncoderFlush),
    {
        self.ask(Routine::FlushEncoder, Call::EncoderFlush)
    }

    /// Asks for `call` on behalf of `routine`.
    fn ask(&mut self, routine: Routine, call: Call) -> (action: Action)
        ensures
            (final(self)@, action@) == old(self)@.ask(routine, call),
    {
        self.mode = Mode::Running { routine, call };
        Action::Call(call)
    }

    /// Ends the operation under way with `result`.
    fn finish(&mut self, result: Result<(), CodecError>) -> (action: Action)
        ensures
            (final(self)@, action@) == old(self)@.finish(
                match result {
                    Ok(_) => Ok(()),
                    Err(error) => Err(error@),
                },
            ),
    {
        if self.ready.len() > 0 {
            self.mode = Mode::OutputPending;
        } else {
            self.mode = Mode::Idle;
        }
        Action::Return(result)
    }

    /// Goes on after an engine took what was pushed, or was flushed.
    fn accepted(&mut self, routine: Routine, call: Call) -> (action: Action)
        requires
            call matches Call::EncoderPush(frame) ==> old(self)@.samples + frame.samples
                <= u64::MAX,
        ensures
            (final(self)@, action@) == old(self)@.accepted(routine, call),
    {
        match call {
            Call::DecoderPush | Call::DecoderFlush => self.ask(routine, Call::DecoderTake),
            Call::ResamplerPush(_) | Call::ResamplerFlush => self.ask(routine, Call::ResamplerTake),
            Call::EncoderPush(frame) => {
                self.output_samples += frame.samples() as u64;
                self.ask(routine, Call::EncoderTake)
            },
            _ => self.ask(routine, Call::EncoderTake),
        }
    }

    /// Goes on after the decoder had no more frames.
    fn decoder_drained(&mut self, routine: Routine) -> (action: Action)
        ensures
            (final(self)@, action@) == old(self)@.decoder_drained(routine),
    {
        match routine {
            Routine::FlushDecoder => self.flush_resampler(),
            _ => self.finish(Ok(())),
        }
    }

    /// Goes on after the resampler had no more frames.
    fn resampler_drained(&mut self, routine: Routine) -> (action: Action)
        ensures
            (final(self)@, action@) == old(self)@.resampler_drained(routine),
    {
        match routine {
            Routine::FlushResampler => self.flush_encoder(),
            _ => self.ask(routine, Call::DecoderTake),
        }
    }

    /// Goes on after the encoder had no more packets.
    fn encoder_drained(&mut self, routine: Routine) -> (action: Action)
        ensures
            (final(self)@, action@) == old(self)@.encoder_drained(routine),
    {
        match routine {
            Routine::FlushEncoder => self.finish(Ok(())),
            _ => self.ask(routine, Call::ResamplerTake),
        }
    }
}

} // verus!
