//! Per-frame metadata and the mathematical model of a captured frame.
use vstd::prelude::*;

verus! {

/// Capture time as reported by the driver: seconds and microseconds since an
/// epoch that the producer chooses.
#[derive(Clone, Copy, Debug, PartialEq, Eq, Structural)]
pub struct Timestamp {
    pub sec: i64,
    pub usec: i64,
}

impl Timestamp {
    /// Returns a timestamp of `sec` seconds and `usec` microseconds.
    pub fn new(sec: i64, usec: i64) -> (r: Self)
        ensures
            r.sec == sec,
            r.usec == usec,
    {
        Timestamp { sec, usec }
    }
}

/// Buffer state flags as set by the driver. The bits are stored and handed
/// back as they are; their meaning belongs to the device layer.
#[derive(Clone, Copy, Debug, PartialEq, Eq, Structural)]
pub struct BufferFlags {
    bits: u32,
}

impl BufferFlags {
    /// The raw bits, as a plain value for contracts.
    pub closed spec fn spec_bits(self) -> u32 {
        self.bits
    }

    /// Returns the flag set holding exactly `bits`.
    pub fn from_bits(bits: u32) -> (r: Self)
        ensures
            r.spec_bits() == bits,
    {
        BufferFlags { bits }
    }

    /// Returns the raw bits.
    pub fn bits(&self) -> (r: u32)
        ensures
            r == self.spec_bits(),
    {
        self.bits
    }
}

impl From<u32> for BufferFlags {
    fn from(bits: u32) -> (r: Self)
        ensures
            r.spec_bits() == bits,
    {
        BufferFlags { bits }
    }
}

impl vstd::std_specs::convert::FromSpecImpl<u32> for BufferFlags {
    open spec fn obeys_from_spec() -> bool {
        true
    }

    closed spec fn from_spec(bits: u32) -> Self {
        BufferFlags { bits }
    }
}

/// What a buffer presents to its readers: the bytes of the frame and the
/// metadata the driver attached to it.
pub struct Frame {
    pub bytes: Seq<u8>,
    pub sequence: u32,
    pub timestamp: Timestamp,
    pub flags: BufferFlags,
}

impl Frame {
    /// The frame captured into `bytes`, with sequence number `sequence`,
    /// capture time `timestamp` and driver flags `flags`.
    pub open spec fn captured(
        bytes: Seq<u8>,
        sequence: u32,
        timestamp: Timestamp,
        flags: BufferFlags,
    ) -> Frame {
        Frame { bytes, sequence, timestamp, flags }
    }
}

} // verus!
