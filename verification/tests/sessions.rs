use std::collections::VecDeque;

use audio_transcoder::codec::audio::pipeline::Action;
use audio_transcoder::codec::audio::pipeline::Call;
use audio_transcoder::codec::audio::pipeline::Event;
use audio_transcoder::codec::audio::pipeline::Mode;
use audio_transcoder::codec::audio::AudioFormat;
use audio_transcoder::codec::audio::AudioFrame;
use audio_transcoder::codec::audio::AudioTranscoder;
use audio_transcoder::codec::audio::ChannelLayout;
use audio_transcoder::codec::audio::SampleFormat;
use audio_transcoder::codec::AudioCodecParameters;
use audio_transcoder::codec::CodecError;
use audio_transcoder::codec::ErrorKind;
use audio_transcoder::packet::Packet;

/// A decoder that makes of every packet the frames that its bytes name: one
/// frame for each byte, of that many samples times 8. The first `padding`
/// samples stand before zero.
struct Decoder {
    next_pts: i64,
    frames: VecDeque<AudioFrame>,
    held: Option<AudioFrame>,
    pushed: usize,
    fail_on_push: Option<usize>,
}

impl Decoder {
    fn new(padding: i64) -> Decoder {
        Decoder { next_pts: -padding, frames: VecDeque::new(), held: None, pushed: 0, fail_on_push: None }
    }

    fn push(&mut self, packet: &Packet) -> Result<(), CodecError> {
        self.pushed += 1;
        if self.fail_on_push == Some(self.pushed) {
            return Err(CodecError::new(ErrorKind::Error, "invalid data"));
        }
        for byte in packet.data() {
            let samples = *byte as usize * 8;
            // the decoder is one frame behind
            if let Some(frame) = self.held.replace(AudioFrame::new(self.next_pts, samples)) {
                self.frames.push_back(frame);
            }
            self.next_pts += samples as i64;
        }
        Ok(())
    }

    fn flush(&mut self) -> Result<(), CodecError> {
        if let Some(frame) = self.held.take() {
            self.frames.push_back(frame);
        }
        Ok(())
    }

    fn take(&mut self) -> Result<Option<AudioFrame>, CodecError> {
        Ok(self.frames.pop_front())
    }
}

/// A resampler that turns `from` samples into `to`, and gives frames of
/// `size` samples, but for a last, shorter one when it is flushed.
struct Resampler {
    from: u64,
    to: u64,
    size: usize,
    taken_in: u64,
    given_out: u64,
    buffered: usize,
    flushed: bool,
    seen: Vec<AudioFrame>,
}

impl Resampler {
    fn new(from: u32, to: u32, size: usize) -> Resampler {
        Resampler {
            from: from as u64,
            to: to as u64,
            size,
            taken_in: 0,
            given_out: 0,
            buffered: 0,
            flushed: false,
            seen: Vec::new(),
        }
    }

    fn push(&mut self, frame: &AudioFrame) -> Result<(), CodecError> {
        self.seen.push(*frame);
        self.taken_in += frame.samples() as u64;
        let total = self.taken_in * self.to / self.from;
        self.buffered += (total - self.given_out) as usize;
        self.given_out = total;
        Ok(())
    }

    fn flush(&mut self) -> Result<(), CodecError> {
        self.flushed = true;
        Ok(())
    }

    fn take(&mut self) -> Result<Option<AudioFrame>, CodecError> {
        // the timestamps of this resampler are of no use to anyone
        if self.buffered >= self.size {
            self.buffered -= self.size;
            Ok(Some(AudioFrame::new(-99, self.size)))
        } else if self.flushed && self.buffered > 0 {
            let rest = self.buffered;
            self.buffered = 0;
            Ok(Some(AudioFrame::new(-99, rest)))
        } else {
            Ok(None)
        }
    }
}

/// An encoder that makes one packet of every frame, with the timestamp of
/// the frame and its number of samples as the only byte pair, and keeps
/// `delay` packets back until it is flushed.
struct Encoder {
    delay: usize,
    held: VecDeque<Packet>,
    packets: VecDeque<Packet>,
    seen: Vec<AudioFrame>,
    fail_on_push: Option<usize>,
}

impl Encoder {
    fn new(delay: usize) -> Encoder {
        Encoder { delay, held: VecDeque::new(), packets: VecDeque::new(), seen: Vec::new(), fail_on_push: None }
    }

    fn push(&mut self, frame: &AudioFrame) -> Result<(), CodecError> {
        if self.fail_on_push == Some(self.seen.len() + 1) {
            return Err(CodecError::new(ErrorKind::Error, "encoder broke"));
        }
        self.seen.push(*frame);
        let samples = frame.samples() as u16;
        let packet = Packet::new(samples.to_be_bytes().to_vec(), frame.pts()).with_stream_index(9);
        self.held.push_back(packet);
        while self.held.len() > self.delay {
            let packet = self.held.pop_front().unwrap();
            self.packets.push_back(packet);
        }
        Ok(())
    }

    fn flush(&mut self) -> Result<(), CodecError> {
        while let Some(packet) = self.held.pop_front() {
            self.packets.push_back(packet);
        }
        Ok(())
    }

    fn take(&mut self) -> Result<Option<Packet>, CodecError> {
        Ok(self.packets.pop_front())
    }
}

/// A transcoder with the engines that it names calls for.
struct Rig {
    transcoder: AudioTranscoder,
    decoder: Decoder,
    resampler: Resampler,
    encoder: Encoder,
    calls: Vec<Call>,
}

fn mono(rate: u32) -> AudioFormat {
    AudioFormat {
        channel_layout: ChannelLayout { mask: 4 },
        sample_format: SampleFormat::S16,
        sample_rate: rate,
    }
}

impl Rig {
    fn new(input_rate: u32, output_rate: u32, frame_size: usize) -> Rig {
        let input = AudioCodecParameters::new("pcm", mono(input_rate));
        let output = AudioCodecParameters::new("pcm", mono(output_rate));
        let transcoder = AudioTranscoder::new(&input, &output).unwrap();
        let settings = transcoder.resampler_settings(frame_size);
        Rig {
            transcoder,
            decoder: Decoder::new(0),
            resampler: Resampler::new(
                settings.source.sample_rate,
                settings.target.sample_rate,
                settings.target_frame_samples,
            ),
            encoder: Encoder::new(0),
            calls: Vec::new(),
        }
    }

    fn report(result: Result<(), CodecError>) -> Event {
        match result {
            Ok(()) => Event::Accepted,
            Err(error) => Event::Failed(error),
        }
    }

    fn frame(result: Result<Option<AudioFrame>, CodecError>) -> Event {
        match result {
            Ok(frame) => Event::Frame(frame),
            Err(error) => Event::Failed(error),
        }
    }

    /// Makes the calls that the transcoder asks for until the operation is
    /// over.
    fn run(&mut self, first: Call, packet: Option<&Packet>) -> Result<(), CodecError> {
        let mut call = first;
        loop {
            self.calls.push(call);
            let event = match call {
                Call::DecoderPush => Rig::report(self.decoder.push(packet.unwrap())),
                Call::DecoderFlush => Rig::report(self.decoder.flush()),
                Call::DecoderTake => Rig::frame(self.decoder.take()),
                Call::ResamplerPush(frame) => Rig::report(self.resampler.push(&frame)),
                Call::ResamplerFlush => Rig::report(self.resampler.flush()),
                Call::ResamplerTake => Rig::frame(self.resampler.take()),
                Call::EncoderPush(frame) => Rig::report(self.encoder.push(&frame)),
                Call::EncoderFlush => Rig::report(self.encoder.flush()),
                Call::EncoderTake => match self.encoder.take() {
                    Ok(packet) => Event::Packet(packet),
                    Err(error) => Event::Failed(error),
                },
            };
            match self.transcoder.resume(event) {
                Ok(Action::Call(next)) => call = next,
                Ok(Action::Return(result)) => return result,
                Err(event) => panic!("{:?} was not accepted after {:?}", event, call),
            }
        }
    }

    fn push(&mut self, packet: &Packet) -> Result<(), CodecError> {
        let first = self.transcoder.push()?;
        self.run(first, Some(packet))
    }

    fn flush(&mut self) -> Result<(), CodecError> {
        let first = self.transcoder.flush()?;
        self.run(first, None)
    }

    fn drain(&mut self) -> Vec<Packet> {
        let mut packets = Vec::new();
        while let Some(packet) = self.transcoder.take().unwrap() {
            packets.push(packet);
        }
        assert_eq!(self.transcoder.mode(), Mode::Idle);
        packets
    }

    /// Pushes every packet, flushes, and takes all output after each.
    fn transcode(&mut self, input: &[Packet]) -> Vec<Packet> {
        let mut output = Vec::new();
        for packet in input {
            assert_eq!(self.transcoder.mode(), Mode::Idle);
            assert_eq!(self.transcoder.pending(), 0);
            self.push(packet).unwrap();
            output.extend(self.drain());
        }
        assert_eq!(self.transcoder.pending(), 0);
        self.flush().unwrap();
        output.extend(self.drain());
        output
    }
}

/// A packet that decodes to one frame for each number, of that many
/// samples times 8.
fn packet_of(frames: &[u8]) -> Packet {
    Packet::new(frames.to_vec(), 0)
}

fn samples_of(packet: &Packet) -> usize {
    u16::from_be_bytes([packet.data()[0], packet.data()[1]]) as usize
}

#[test]
fn from_44_1_to_48_khz_the_first_packet_goes_out_at_zero() {
    let mut rig = Rig::new(44_100, 48_000, 1024);
    let mut output = Vec::new();
    let mut pushes = 0;
    // frames of 1152 samples, until the encoder had a full frame
    while output.is_empty() {
        rig.push(&packet_of(&[144])).unwrap();
        pushes += 1;
        output.extend(rig.drain());
    }
    // the decoder is a frame behind: 1152 samples at 44.1 kHz are 1253 at 48 kHz
    assert_eq!(pushes, 2);
    assert_eq!(output.len(), 1);
    assert_eq!(output[0].pts(), 0);
    assert_eq!(output[0].dts(), 0);
    assert_eq!(output[0].stream_index(), 0);
    assert_eq!(samples_of(&output[0]), 1024);
    assert_eq!(rig.transcoder.output_samples(), 1024);
    assert_eq!(rig.encoder.seen, vec![AudioFrame::new(0, 1024)]);
}

#[test]
fn timestamps_of_the_output_start_at_zero_and_never_decrease() {
    let mut rig = Rig::new(44_100, 48_000, 960);
    let input: Vec<Packet> = (0..40).map(|i| packet_of(&[144, (i % 7) as u8 * 20])).collect();
    let output = rig.transcode(&input);
    assert!(output.len() > 40);
    assert_eq!(output[0].pts(), 0);
    let mut last = 0;
    for packet in &output {
        assert!(packet.pts() >= last);
        assert_eq!(packet.dts(), packet.pts());
        assert_eq!(packet.stream_index(), 0);
        last = packet.pts();
    }
    // frames of 960 samples at 48 kHz are 20 ms apart
    for (i, packet) in output.iter().enumerate() {
        assert_eq!(packet.pts(), i as i64 * 20_000);
    }
}

#[test]
fn the_count_of_samples_grows_by_each_frame_that_goes_to_the_encoder() {
    let mut rig = Rig::new(32_000, 48_000, 1000);
    let mut counted = 0;
    for i in 0..25u8 {
        let seen = rig.encoder.seen.len();
        rig.push(&packet_of(&[i * 10, 100])).unwrap();
        for frame in &rig.encoder.seen[seen..] {
            assert_eq!(frame.pts(), counted as i64);
            counted += frame.samples() as u64;
        }
        assert_eq!(rig.transcoder.output_samples(), counted);
        rig.drain();
        assert_eq!(rig.transcoder.output_samples(), counted);
    }
    let seen = rig.encoder.seen.len();
    rig.flush().unwrap();
    for frame in &rig.encoder.seen[seen..] {
        assert_eq!(frame.pts(), counted as i64);
        counted += frame.samples() as u64;
    }
    assert_eq!(rig.transcoder.output_samples(), counted);
    // 25 * 800 + (0 + 10 + .. + 240) * 8 samples at 32 kHz, at 48 kHz
    assert_eq!(counted, (25 * 800 + 3000 * 8) * 3 / 2);
}

#[test]
fn padding_of_the_decoder_never_reaches_the_resampler() {
    let mut rig = Rig::new(48_000, 48_000, 100);
    rig.decoder = Decoder::new(2 * 96);
    // frames of 96 samples; the first two stand before zero
    let input: Vec<Packet> = (0..5).map(|_| packet_of(&[12, 12])).collect();
    let output = rig.transcode(&input);
    assert_eq!(rig.resampler.seen.len(), 8);
    for (i, frame) in rig.resampler.seen.iter().enumerate() {
        assert_eq!(*frame, AudioFrame::new(i as i64 * 96, 96));
    }
    assert_eq!(rig.transcoder.output_samples(), 8 * 96);
    assert_eq!(output.len(), 8);
    assert_eq!(output[0].pts(), 0);
}

#[test]
fn the_same_parameters_on_both_sides_keep_the_samples_and_their_order() {
    let mut rig = Rig::new(48_000, 48_000, 1024);
    // 30 packets of two frames of 800 and 400 samples: 36000 samples
    let input: Vec<Packet> = (0..30).map(|_| packet_of(&[100, 50])).collect();
    let output = rig.transcode(&input);

    // 36000 / 1024 = 35 full frames, and one of 160 samples from the flush
    assert_eq!(output.len(), 36);
    let mut samples = 0;
    for (i, packet) in output.iter().enumerate() {
        assert_eq!(packet.pts(), (samples as i64) * 1_000_000 / 48_000);
        assert_eq!(samples_of(packet), if i < 35 { 1024 } else { 160 });
        samples += samples_of(packet);
    }
    assert_eq!(samples, 36_000);
    assert_eq!(rig.transcoder.output_samples(), 36_000);
}

#[test]
fn a_second_push_without_taking_fails_and_leaves_the_output() {
    let mut rig = Rig::new(48_000, 48_000, 400);
    rig.push(&packet_of(&[100])).unwrap();
    assert_eq!(rig.transcoder.pending(), 0);
    rig.push(&packet_of(&[100])).unwrap();
    assert_eq!(rig.transcoder.pending(), 2);
    let calls = rig.calls.len();

    let error = rig.push(&packet_of(&[100])).unwrap_err();
    assert_eq!(error.kind(), ErrorKind::Again);
    assert_eq!(
        error.message(),
        "take all transcoded packets before pushing another packet for transcoding"
    );
    // no engine was called, and the output of the push before still waits
    assert_eq!(rig.calls.len(), calls);
    assert_eq!(rig.decoder.pushed, 2);
    assert_eq!(rig.transcoder.pending(), 2);
    assert_eq!(rig.transcoder.mode(), Mode::OutputPending);
    let output = rig.drain();
    assert_eq!(output.len(), 2);
    assert_eq!(output[0].pts(), 0);
    assert_eq!(output[1].pts(), 8_333);
    rig.push(&packet_of(&[100])).unwrap();
}

#[test]
fn a_second_flush_gives_nothing_new() {
    let mut rig = Rig::new(44_100, 48_000, 1024);
    rig.encoder = Encoder::new(2);
    let input: Vec<Packet> = (0..10).map(|_| packet_of(&[144])).collect();
    let output = rig.transcode(&input);
    assert!(!output.is_empty());
    let samples = rig.transcoder.output_samples();

    rig.flush().unwrap();
    assert_eq!(rig.transcoder.mode(), Mode::Idle);
    assert_eq!(rig.transcoder.pending(), 0);
    assert_eq!(rig.transcoder.take(), Ok(None));
    assert_eq!(rig.transcoder.output_samples(), samples);
}

#[test]
fn a_flush_brings_out_what_the_engines_held_back() {
    let mut rig = Rig::new(48_000, 48_000, 500);
    rig.encoder = Encoder::new(3);
    rig.push(&packet_of(&[125, 125, 125])).unwrap();
    // the decoder holds the last of three frames of 1000 samples back; of
    // the four frames that went to the encoder it holds three packets back
    let mut output = rig.drain();
    assert_eq!(output.len(), 1);
    assert_eq!(rig.transcoder.output_samples(), 2000);
    rig.flush().unwrap();
    output.extend(rig.drain());
    let timestamps: Vec<i64> = output.iter().map(|packet| packet.pts()).collect();
    assert_eq!(timestamps, vec![0, 10_416, 20_833, 31_250, 41_666, 52_083]);
    assert_eq!(rig.transcoder.output_samples(), 3000);
}

#[test]
fn a_flush_makes_its_calls_in_the_order_of_the_pipeline() {
    let mut rig = Rig::new(48_000, 48_000, 500);
    rig.flush().unwrap();
    assert_eq!(
        rig.calls,
        vec![
            Call::DecoderFlush,
            Call::DecoderTake,
            Call::ResamplerFlush,
            Call::ResamplerTake,
            Call::EncoderFlush,
            Call::EncoderTake,
        ]
    );
}

#[test]
fn a_push_makes_its_calls_in_the_order_of_the_pipeline() {
    let mut rig = Rig::new(48_000, 48_000, 800);
    rig.decoder.held = Some(AudioFrame::new(0, 800));
    rig.decoder.next_pts = 800;
    rig.push(&packet_of(&[100])).unwrap();
    assert_eq!(
        rig.calls,
        vec![
            Call::DecoderPush,
            Call::DecoderTake,
            Call::ResamplerPush(AudioFrame::new(0, 800)),
            Call::ResamplerTake,
            Call::EncoderPush(AudioFrame::new(0, 800)),
            Call::EncoderTake,
            Call::EncoderTake,
            Call::ResamplerTake,
            Call::DecoderTake,
        ]
    );
}

#[test]
fn an_error_of_the_decoder_comes_back_from_the_push() {
    let mut rig = Rig::new(48_000, 48_000, 800);
    rig.decoder.fail_on_push = Some(2);
    rig.push(&packet_of(&[100])).unwrap();
    let error = rig.push(&packet_of(&[100])).unwrap_err();
    assert_eq!(error, CodecError::new(ErrorKind::Error, "invalid data"));
    assert_eq!(rig.transcoder.mode(), Mode::Idle);
    // the transcoder goes on with the next packet
    rig.push(&packet_of(&[100])).unwrap();
    assert_eq!(rig.drain().len(), 1);
}

#[test]
fn an_error_of_the_encoder_leaves_what_went_out_before() {
    let mut rig = Rig::new(48_000, 48_000, 400);
    rig.decoder.held = Some(AudioFrame::new(0, 1200));
    rig.encoder.fail_on_push = Some(3);
    let error = rig.push(&packet_of(&[1])).unwrap_err();
    assert_eq!(error, CodecError::new(ErrorKind::Error, "encoder broke"));
    assert_eq!(rig.transcoder.output_samples(), 800);
    assert_eq!(rig.transcoder.mode(), Mode::OutputPending);
    let output = rig.drain();
    assert_eq!(output.len(), 2);
    assert_eq!(output[1].pts(), 8_333);
}
