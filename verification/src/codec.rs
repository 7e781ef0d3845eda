//! What codecs have in common: their errors and the parameters of a stream.

use vstd::prelude::*;
use crate::codec::audio::AudioFormat;
use crate::codec::audio::ChannelLayout;
use crate::codec::audio::SampleFormat;

pub mod audio;

verus! {

/// The two kinds of codec error.
#[derive(Clone, Copy, Debug, PartialEq, Eq, Structural)]
pub enum ErrorKind {
    /// The operation failed.
    Error,
    /// Something else has to be done first; the operation can then be tried
    /// again.
    Again,
}

/// An error of a codec or of the transcoder.
#[derive(Debug, PartialEq, Eq)]
pub struct CodecError {
    kind: ErrorKind,
    msg: String,
}

/// What a codec error holds.
pub struct CodecErrorView {
    /// The kind of the error.
    pub kind: ErrorKind,
    /// Its message.
    pub message: Seq<char>,
}

impl View for CodecError {
    type V = CodecErrorView;

    closed spec fn view(&self) -> CodecErrorView {
        CodecErrorView { kind: self.kind, message: self.msg@ }
    }
}

impl Clone for CodecError {
    fn clone(&self) -> (copy: CodecError)
        ensures
            copy@ == self@,
    {
        CodecError { kind: self.kind, msg: self.msg.clone() }
    }
}

impl CodecError {
    /// An error of the given kind with the given message.
    pub fn new(kind: ErrorKind, msg: &str) -> (error: CodecError)
        ensures
            error@ == (CodecErrorView { kind, message: msg@ }),
    {
        CodecError { kind, msg: msg.to_owned() }
    }

    /// The kind of the error.
    pub fn kind(&self) -> (kind: ErrorKind)
        ensures
            kind == self@.kind,
    {
        self.kind
    }

    /// Whether the operation can be tried again once something else was
    /// done.
    pub fn is_again(&self) -> (again: bool)
        ensures
            again == (self@.kind == ErrorKind::Again),
    {
        match self.kind {
            ErrorKind::Again => true,
            ErrorKind::Error => false,
        }
    }

    /// The message of the error.
    pub fn message(&self) -> (msg: &str)
        ensures
            msg@ == self@.message,
    {
        self.msg.as_str()
    }

    /// The message of the error, as an owned string.
    pub fn to_string(&self) -> (msg: String)
        ensures
            msg@ == self@.message,
    {
        self.msg.clone()
    }
}

/// The parameters of an audio stream: which codec it is in and in which form
/// it carries its samples.
#[derive(Debug, PartialEq, Eq)]
pub struct AudioCodecParameters {
    codec: String,
    format: AudioFormat,
    extradata: Vec<u8>,
}

/// What the parameters of an audio stream hold.
pub struct AudioCodecParametersView {
    /// The name of the codec.
    pub codec: Seq<char>,
    /// The form of the samples.
    pub format: AudioFormat,
    /// Data that the codec keeps beside the stream, such as headers that an
    /// encoder derived.
    pub extradata: Seq<u8>,
}

impl View for AudioCodecParameters {
    type V = AudioCodecParametersView;

    closed spec fn view(&self) -> AudioCodecParametersView {
        AudioCodecParametersView {
            codec: self.codec@,
            format: self.format,
            extradata: self.extradata@,
        }
    }
}

impl Clone for AudioCodecParameters {
    fn clone(&self) -> (copy: AudioCodecParameters)
        ensures
            copy@ == self@,
    {
        AudioCodecParameters {
            codec: self.codec.clone(),
            format: self.format,
            extradata: self.extradata.clone(),
        }
    }
}

impl AudioCodecParameters {
    /// Parameters of a stream in the named codec with samples of the given
    /// form, and no extradata.
    pub fn new(codec: &str, format: AudioFormat) -> (parameters: AudioCodecParameters)
        ensures
            parameters@ == (AudioCodecParametersView {
                codec: codec@,
                format,
                extradata: Seq::empty(),
            }),
    {
        AudioCodecParameters { codec: codec.to_owned(), format, extradata: Vec::new() }
    }

    /// The same parameters with other extradata.
    pub fn with_extradata(self, extradata: Vec<u8>) -> (parameters: AudioCodecParameters)
        ensures
            parameters@ == (AudioCodecParametersView { extradata: extradata@, ..self@ }),
    {
        AudioCodecParameters { extradata, ..self }
    }

    /// The name of the codec.
    pub fn codec(&self) -> (codec: &str)
        ensures
            codec@ == self@.codec,
    {
        self.codec.as_str()
    }

    /// The form of the samples.
    pub fn format(&self) -> (format: AudioFormat)
        ensures
            format == self@.format,
    {
        self.format
    }

    /// The number of samples per second.
    pub fn sample_rate(&self) -> (rate: u32)
        ensures
            rate == self@.format.sample_rate,
    {
        self.format.sample_rate
    }

    /// The type of a sample.
    pub fn sample_format(&self) -> (format: SampleFormat)
        ensures
            format == self@.format.sample_format,
    {
        self.format.sample_format
    }

    /// The channels of the stream.
    pub fn channel_layout(&self) -> (layout: ChannelLayout)
        ensures
            layout == self@.format.channel_layout,
    {
        self.format.channel_layout
    }

    /// The extradata.
    pub fn extradata(&self) -> (extradata: &[u8])
        ensures
            extradata@ == self@.extradata,
    {
        self.extradata.as_slice()
    }
}

} // verus!
