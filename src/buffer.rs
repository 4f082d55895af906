//! The capability that every buffer backing offers to pipeline code.
use vstd::prelude::*;

use crate::frame::{BufferFlags, Frame, Timestamp};

verus! {

/// Read access to one captured frame, whatever memory backs it.
///
/// Every operation takes `&self` and reports the frame as it was when the
/// buffer was made: the bytes and the metadata never change through this
/// interface.
pub trait Buffer {
    /// The frame this buffer presents.
    spec fn frame(&self) -> Frame;

    /// The bytes of the frame, without a copy.
    fn data(&self) -> (r: &[u8])
        ensures
            r@ == self.frame().bytes,
    ;

    /// The number of bytes in the frame.
    fn len(&self) -> (r: usize)
        ensures
            r == self.frame().bytes.len(),
    ;

    /// Whether the frame holds no bytes.
    fn is_empty(&self) -> (r: bool)
        ensures
            r == (self.frame().bytes.len() == 0),
    ;

    /// The sequence number the driver gave the frame.
    fn seq(&self) -> (r: u32)
        ensures
            r == self.frame().sequence,
    ;

    /// The capture time the driver gave the frame.
    fn timestamp(&self) -> (r: Timestamp)
        ensures
            r == self.frame().timestamp,
    ;

    /// The flags the driver set on the frame.
    fn flags(&self) -> (r: BufferFlags)
        ensures
            r == self.frame().flags,
    ;
}

/// A buffer of any backing that presents the frame captured into `bytes` with
/// metadata `(sequence, timestamp, flags)` reads back exactly that: the same
/// sequence number, capture time and flags, the same bytes, a length equal to
/// their count, and emptiness exactly when there are none.
pub proof fn lemma_reads_match_capture<B: Buffer>(
    buf: &B,
    bytes: Seq<u8>,
    sequence: u32,
    timestamp: Timestamp,
    flags: BufferFlags,
)
    requires
        buf.frame() == Frame::captured(bytes, sequence, timestamp, flags),
    ensures
        buf.frame().sequence == sequence,
        buf.frame().timestamp == timestamp,
        buf.frame().flags == flags,
        buf.frame().bytes == bytes,
        buf.frame().bytes.len() == bytes.len(),
        (buf.frame().bytes.len() == 0) <==> (bytes.len() == 0),
{
}

} // verus!
