//! The core of an audio transcoder.
//!
//! A transcoder turns the packets of one audio stream into the packets of
//! another: it decodes, resamples and encodes again, and puts the output on a
//! gapless timeline of microseconds that starts at zero. The three engines
//! that do the signal work are not part of this crate. What is here is
//! everything that is decided around them: in which order they are called,
//! which frames are dropped, which timestamps frames and packets get, and
//! when the caller has to collect the output before it may go on. The
//! transcoder never calls an engine; it names the next call to make and is
//! told how the call went.

use vstd::prelude::*;

pub mod codec;
pub mod packet;
pub mod time;

verus! {

/// Why a transcoder could not be made.
#[derive(Debug, PartialEq, Eq)]
pub struct Error {
    msg: String,
}

impl View for Error {
    type V = Seq<char>;

    /// The message of the error.
    closed spec fn view(&self) -> Seq<char> {
        self.msg@
    }
}

impl Clone for Error {
    fn clone(&self) -> (copy: Error)
        ensures
            copy@ == self@,
    {
        Error { msg: self.msg.clone() }
    }
}

impl Error {
    /// An error with the given message.
    pub fn new(msg: &str) -> (error: Error)
        ensures
            error@ == msg@,
    {
        Error { msg: msg.to_owned() }
    }

    /// The message of the error.
    pub fn message(&self) -> (msg: &str)
        ensures
            msg@ == self@,
    {
        self.msg.as_str()
    }

    /// The message of the error, as an owned string.
    pub fn to_string(&self) -> (msg: String)
        ensures
            msg@ == self@,
    {
        self.msg.clone()
    }
}

} // verus!
