//! A buffer over memory that the camera device or the kernel maps for reading.
use vstd::prelude::*;

use crate::buffer::Buffer;
use crate::frame::{BufferFlags, Frame, Timestamp};

verus! {

/// Memory mapped buffer.
///
/// The bytes belong to the device or the kernel; this value only borrows them,
/// for reading, for as long as `'a` lasts. A caller that wants to change them
/// copies them first.
pub struct MappedBuffer<'a> {
    flags: BufferFlags,
    timestamp: Timestamp,
    sequence: u32,
    view: &'a [u8],
}

impl<'a> MappedBuffer<'a> {
    /// Returns a view of `view` carrying the metadata the driver reported:
    /// sequence number `seq`, capture time `ts` and flags `flags`.
    pub fn new(view: &'a [u8], seq: u32, ts: Timestamp, flags: BufferFlags) -> (r: Self)
        ensures
            r.frame() == Frame::captured(view@, seq, ts, flags),
    {
        MappedBuffer { flags, timestamp: ts, sequence: seq, view }
    }
}

impl<'a> Buffer for MappedBuffer<'a> {
    closed spec fn frame(&self) -> Frame {
        Frame::captured(self.view@, self.sequence, self.timestamp, self.flags)
    }

    fn data(&self) -> (r: &[u8]) {
        self.view
    }

    fn len(&self) -> (r: usize) {
        self.view.len()
    }

    fn is_empty(&self) -> (r: bool) {
        self.view.len() == 0
    }

    fn seq(&self) -> (r: u32) {
        self.sequence
    }

    fn timestamp(&self) -> (r: Timestamp) {
        self.timestamp
    }

    fn flags(&self) -> (r: BufferFlags) {
        self.flags
    }
}

} // verus!
