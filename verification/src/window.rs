//! The memory-mapped window onto PCI configuration space.

use crate::address::{PciFunctionAddress, FUNCTION_SPACE};
use vstd::prelude::*;

verus! {

/// Width in bytes of one configuration register.
pub const REGISTER_WIDTH: u16 = 4;

/// An enhanced configuration window: `size` bytes of address space from
/// `base`, in which every function of the buses it spans has a 4 KiB slice.
#[derive(Clone, Copy, Debug, PartialEq, Eq, Structural)]
pub struct ConfigSpaceWindow {
    pub base: usize,
    pub size: usize,
}

impl ConfigSpaceWindow {
    /// The window does not wrap round the end of the address space.
    pub open spec fn wf(self) -> bool {
        self.base + self.size <= usize::MAX
    }

    /// The function is valid and its whole slice lies inside the window. A
    /// window that wraps covers nothing.
    pub open spec fn covers(self, function: PciFunctionAddress) -> bool {
        self.wf() && function.wf() && function.ecam_offset() + FUNCTION_SPACE <= self.size
    }

    /// A register offset is a multiple of four inside the function's slice.
    pub open spec fn register_offset_ok(offset: u16) -> bool {
        offset % REGISTER_WIDTH == 0 && offset < FUNCTION_SPACE
    }

    /// The address of the function's slice.
    pub open spec fn function_address(self, function: PciFunctionAddress) -> int {
        self.base + function.ecam_offset()
    }

    /// Describes the window of `size` bytes at `base`, or gives `None` where
    /// it would reach past the end of the address space.
    pub fn new(base: usize, size: usize) -> (r: Option<ConfigSpaceWindow>)
        ensures
            r == if base + size <= usize::MAX {
                Some(ConfigSpaceWindow { base, size })
            } else {
                None
            },
    {
        if size <= usize::MAX - base {
            Some(ConfigSpaceWindow { base, size })
        } else {
            None
        }
    }

    /// Whether the function's slice lies inside the window.
    pub fn contains(&self, function: PciFunctionAddress) -> (r: bool)
        ensures
            r == self.covers(function),
    {
        self.size <= usize::MAX - self.base && function.is_valid() && self.size
            >= FUNCTION_SPACE as usize && function.function_offset() as usize <= self.size
            - FUNCTION_SPACE as usize
    }

    /// The address of the function's slice, or `None` where the window does
    /// not cover the function.
    pub fn address_for(&self, function: PciFunctionAddress) -> (r: Option<usize>)
        ensures
            r == if self.covers(function) {
                Some(self.function_address(function) as usize)
            } else {
                None
            },
            r matches Some(address) ==> self.base <= address && address + FUNCTION_SPACE
                <= self.base + self.size,
    {
        if self.contains(function) {
            Some(self.base + function.function_offset() as usize)
        } else {
            None
        }
    }

    /// The address of the register at `offset` in the function's slice, or
    /// `None` where the function is not covered or the offset is not that of
    /// a register.
    pub fn register_address(&self, function: PciFunctionAddress, offset: u16) -> (r: Option<usize>)
        ensures
            r == if self.covers(function) && Self::register_offset_ok(offset) {
                Some((self.function_address(function) + offset) as usize)
            } else {
                None
            },
            r matches Some(address) ==> self.base <= address && address + REGISTER_WIDTH
                <= self.base + self.size,
    {
        if offset % REGISTER_WIDTH == 0 && offset < FUNCTION_SPACE as u16 {
            match self.address_for(function) {
                Some(address) => Some(address + offset as usize),
                None => None,
            }
        } else {
            None
        }
    }
}

/// Inside a window that covers them, every register of every valid function
/// has an address within the window.
pub proof fn lemma_register_inside_window(
    window: ConfigSpaceWindow,
    function: PciFunctionAddress,
    offset: u16,
)
    requires
        window.covers(function),
        ConfigSpaceWindow::register_offset_ok(offset),
    ensures
        0 <= function.ecam_offset() + offset < window.size,
        window.base <= window.function_address(function) + offset,
        window.function_address(function) + offset + REGISTER_WIDTH <= window.base + window.size,
{
}

/// A window of 256 MiB covers every valid function.
pub proof fn lemma_full_window_covers_all(window: ConfigSpaceWindow, function: PciFunctionAddress)
    requires
        window.wf(),
        function.wf(),
        window.size >= 0x1000_0000,
    ensures
        window.covers(function),
{
    crate::address::lemma_ecam_offset_bounds(function);
}

/// A window that spans the bus of a valid function covers the function.
pub proof fn lemma_bus_window_covers(window: ConfigSpaceWindow, function: PciFunctionAddress)
    requires
        window.wf(),
        function.wf(),
        window.size >= (function.bus + 1) * 0x10_0000,
    ensures
        window.covers(function),
        function.ecam_offset() < window.size,
{
    crate::address::lemma_ecam_offset_bounds(function);
}

/// Inside one window, two valid functions never share an address.
pub proof fn lemma_function_address_unique(
    window: ConfigSpaceWindow,
    a: PciFunctionAddress,
    b: PciFunctionAddress,
)
    requires
        a.wf(),
        b.wf(),
        window.function_address(a) == window.function_address(b),
    ensures
        a == b,
{
    crate::address::lemma_ecam_offset_unique(a, b);
}

} // verus!
