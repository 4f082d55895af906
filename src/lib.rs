//! Read-only views over frame memory that a capture device owns, with the
//! metadata the driver reports for each frame.
pub mod buffer;
pub mod frame;
pub mod mmap;

pub use buffer::Buffer;
pub use frame::{BufferFlags, Frame, Timestamp};
pub use mmap::MappedBuffer;
