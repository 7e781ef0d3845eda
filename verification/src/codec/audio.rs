//! Audio: the form of samples, frames, and the transcoder.

use vstd::prelude::*;

pub mod pipeline;
pub mod session;
pub mod transcoder;

pub use crate::codec::audio::transcoder::AudioTranscoder;

verus! {

/// The type of a sample. Formats whose name ends in `p` are planar: each
/// channel has a plane of its own.
#[derive(Clone, Copy, Debug, PartialEq, Eq, Structural)]
pub enum SampleFormat {
    /// Unsigned, 8 bits.
    U8,
    /// Signed, 16 bits.
    S16,
    /// Signed, 32 bits.
    S32,
    /// Signed, 64 bits.
    S64,
    /// Floating point, 32 bits.
    Flt,
    /// Floating point, 64 bits.
    Dbl,
    /// Unsigned, 8 bits, planar.
    U8p,
    /// Signed, 16 bits, planar.
    S16p,
    /// Signed, 32 bits, planar.
    S32p,
    /// Signed, 64 bits, planar.
    S64p,
    /// Floating point, 32 bits, planar.
    Fltp,
    /// Floating point, 64 bits, planar.
    Dblp,
}

/// The channels of a stream, one bit of the mask for each speaker position
/// that has a channel.
#[derive(Clone, Copy, Debug, PartialEq, Eq, Structural)]
pub struct ChannelLayout {
    /// The speaker positions.
    pub mask: u64,
}

/// The form in which a stream carries its samples.
#[derive(Clone, Copy, Debug, PartialEq, Eq, Structural)]
pub struct AudioFormat {
    /// The channels.
    pub channel_layout: ChannelLayout,
    /// The type of a sample.
    pub sample_format: SampleFormat,
    /// The number of samples per second.
    pub sample_rate: u32,
}

/// The unit in which an engine counts time, as a fraction of a second.
#[derive(Clone, Copy, Debug, PartialEq, Eq, Structural)]
pub struct TimeBase {
    /// The numerator.
    pub num: u32,
    /// The denominator.
    pub den: u32,
}

/// What a resampler is built from.
#[derive(Clone, Copy, Debug, PartialEq, Eq, Structural)]
pub struct ResamplerSettings {
    /// The form of the frames that go in.
    pub source: AudioFormat,
    /// The form of the frames that come out.
    pub target: AudioFormat,
    /// The number of samples in each frame that comes out.
    pub target_frame_samples: usize,
}

/// The timing of a decoded frame. The samples themselves stay with the
/// engines: the transcoder reads and decides nothing else of a frame than
/// this.
#[derive(Clone, Copy, Debug, PartialEq, Eq, Structural)]
pub struct AudioFrame {
    /// The presentation timestamp, counted in samples.
    pub pts: i64,
    /// The number of samples in the frame, per channel.
    pub samples: usize,
}

impl AudioFrame {
    /// The timing of a frame of `samples` samples that is presented at
    /// `pts`.
    pub fn new(pts: i64, samples: usize) -> (frame: AudioFrame)
        ensures
            frame == (AudioFrame { pts, samples }),
    {
        AudioFrame { pts, samples }
    }

    /// The presentation timestamp, counted in samples.
    pub fn pts(&self) -> (pts: i64)
        ensures
            pts == self.pts,
    {
        self.pts
    }

    /// The number of samples in the frame, per channel.
    pub fn samples(&self) -> (samples: usize)
        ensures
            samples == self.samples,
    {
        self.samples
    }

    /// The same frame with another presentation timestamp.
    pub fn with_pts(self, pts: i64) -> (frame: AudioFrame)
        ensures
            frame == (AudioFrame { pts, ..self }),
    {
        AudioFrame { pts, ..self }
    }
}

} // verus!
