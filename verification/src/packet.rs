//! Encoded packets.

use vstd::prelude::*;

verus! {

/// A packet of encoded audio: the bytes, and where the packet stands in its
/// stream.
#[derive(Debug, PartialEq, Eq)]
pub struct Packet {
    data: Vec<u8>,
    pts: i64,
    dts: i64,
    stream_index: usize,
}

/// What a packet holds.
pub struct PacketView {
    /// The encoded bytes.
    pub data: Seq<u8>,
    /// The presentation timestamp.
    pub pts: int,
    /// The decoding timestamp.
    pub dts: int,
    /// The index of the stream that the packet belongs to.
    pub stream_index: nat,
}

impl View for Packet {
    type V = PacketView;

    closed spec fn view(&self) -> PacketView {
        PacketView {
            data: self.data@,
            pts: self.pts as int,
            dts: self.dts as int,
            stream_index: self.stream_index as nat,
        }
    }
}

impl Clone for Packet {
    fn clone(&self) -> (copy: Packet)
        ensures
            copy@ == self@,
    {
        Packet {
            data: self.data.clone(),
            pts: self.pts,
            dts: self.dts,
            stream_index: self.stream_index,
        }
    }
}

impl Packet {
    /// A packet of stream 0 that holds `data`, with both timestamps at
    /// `pts`.
    pub fn new(data: Vec<u8>, pts: i64) -> (packet: Packet)
        ensures
            packet@ == (PacketView { data: data@, pts: pts as int, dts: pts as int, stream_index: 0 }),
    {
        Packet { data, pts, dts: pts, stream_index: 0 }
    }

    /// The encoded bytes.
    pub fn data(&self) -> (data: &[u8])
        ensures
            data@ == self@.data,
    {
        self.data.as_slice()
    }

    /// The presentation timestamp.
    pub fn pts(&self) -> (pts: i64)
        ensures
            pts == self@.pts,
    {
        self.pts
    }

    /// The decoding timestamp.
    pub fn dts(&self) -> (dts: i64)
        ensures
            dts == self@.dts,
    {
        self.dts
    }

    /// The index of the stream that the packet belongs to.
    pub fn stream_index(&self) -> (index: usize)
        ensures
            index == self@.stream_index,
    {
        self.stream_index
    }

    /// The same packet with another presentation timestamp.
    pub fn with_pts(self, pts: i64) -> (packet: Packet)
        ensures
            packet@ == (PacketView { pts: pts as int, ..self@ }),
    {
        Packet { pts, ..self }
    }

    /// The same packet with another decoding timestamp.
    pub fn with_dts(self, dts: i64) -> (packet: Packet)
        ensures
            packet@ == (PacketView { dts: dts as int, ..self@ }),
    {
        Packet { dts, ..self }
    }

    /// The same packet in another stream.
    pub fn with_stream_index(self, index: usize) -> (packet: Packet)
        ensures
            packet@ == (PacketView { stream_index: index as nat, ..self@ }),
    {
        Packet { stream_index: index, ..self }
    }
}

} // verus!
