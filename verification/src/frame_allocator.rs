//! The interface to whatever manages physical memory.

use std::convert::Infallible;
use vstd::prelude::*;

verus! {

/// Size in bytes of a frame of physical memory.
pub const FRAME_SIZE: usize = 0x1000;

/// A frame of physical memory, by the address of its first byte.
#[derive(Clone, Copy, Debug, PartialEq, Eq, Structural)]
pub struct Frame {
    pub start: usize,
}

/// The interface to the manager of physical memory. It leaves open how
/// allocated frames are tracked, so that the same code runs where boot
/// services manage memory and where the kernel does.
///
/// The methods take `&self`: an allocator keeps its books behind a lock or
/// the like, so that structures can hold a shared reference to it and give
/// their frames back when they are dropped.
pub trait FrameAllocator {
    /// Allocates a frame. An allocator that runs out of frames may free
    /// memory by other means or halt the kernel; it does not return without
    /// a frame, so the result can always be unwrapped.
    fn allocate(&self) -> Result<Frame, Infallible>;

    /// Frees a frame that was allocated before, so that it can be allocated
    /// again.
    fn free(&self, frame: Frame);
}

} // verus!
