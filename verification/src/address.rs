//! Addresses of PCI functions and their place in configuration space.

use crate::bits::{bit_range_u32, get_bits_u32};
use vstd::prelude::*;

verus! {

/// Number of device slots on one PCI bus.
pub const DEVICES_PER_BUS: u8 = 32;

/// Number of functions of one PCI device.
pub const FUNCTIONS_PER_DEVICE: u8 = 8;

/// Bytes of configuration space that belong to one function.
pub const FUNCTION_SPACE: u32 = 0x1000;

/// Bytes of configuration space that belong to one bus.
pub const BUS_SPACE: u32 = 0x10_0000;

/// Identifies one PCI function by its bus, device and function numbers.
#[derive(Clone, Copy, Debug, PartialEq, Eq, Structural)]
pub struct PciFunctionAddress {
    pub bus: u8,
    pub device: u8,
    pub function: u8,
}

impl PciFunctionAddress {
    /// A device number is below 32 and a function number below 8.
    pub open spec fn wf(self) -> bool {
        self.device < DEVICES_PER_BUS && self.function < FUNCTIONS_PER_DEVICE
    }

    /// The offset of the function's 4 KiB slice from the start of an enhanced
    /// configuration window: the bus number from bit 20, the device number
    /// from bit 15 and the function number from bit 12.
    pub open spec fn ecam_offset(self) -> u32 {
        (self.bus as u32) << 20 | (self.device as u32) << 15 | (self.function as u32) << 12
    }

    /// The high word of the function's unit address as firmware writes it in
    /// an interrupt map: the bus number from bit 16, the device number from
    /// bit 11 and the function number from bit 8.
    pub open spec fn child_address(self) -> u32 {
        (self.bus as u32) << 16 | (self.device as u32) << 11 | (self.function as u32) << 8
    }

    /// The function that the high word of a unit address names: the bus in
    /// bits 16 to 24, the device in bits 11 to 16, the function in bits 8 to 11.
    pub open spec fn decode(child_address_hi: u32) -> PciFunctionAddress {
        PciFunctionAddress {
            bus: bit_range_u32(child_address_hi, 16, 24) as u8,
            device: bit_range_u32(child_address_hi, 11, 16) as u8,
            function: bit_range_u32(child_address_hi, 8, 11) as u8,
        }
    }

    /// Builds the address of a function, or `None` where the device or the
    /// function number is out of range.
    pub fn new(bus: u8, device: u8, function: u8) -> (r: Option<PciFunctionAddress>)
        ensures
            r == if device < DEVICES_PER_BUS && function < FUNCTIONS_PER_DEVICE {
                Some(PciFunctionAddress { bus, device, function })
            } else {
                None
            },
    {
        if device < DEVICES_PER_BUS && function < FUNCTIONS_PER_DEVICE {
            Some(PciFunctionAddress { bus, device, function })
        } else {
            None
        }
    }

    /// Whether the device and function numbers are in range.
    pub fn is_valid(&self) -> (r: bool)
        ensures
            r == self.wf(),
    {
        self.device < DEVICES_PER_BUS && self.function < FUNCTIONS_PER_DEVICE
    }

    /// Decodes the high word of a unit address from a firmware interrupt map.
    /// Bits outside the three fields are ignored.
    pub fn from_child_address(child_address_hi: u32) -> (r: PciFunctionAddress)
        ensures
            r == Self::decode(child_address_hi),
            r.wf(),
    {
        let bus: u32 = get_bits_u32(child_address_hi, 16, 24);
        let device: u32 = get_bits_u32(child_address_hi, 11, 16);
        let function: u32 = get_bits_u32(child_address_hi, 8, 11);
        assert(bit_range_u32(child_address_hi, 16, 24) < 256) by (bit_vector);
        assert(bit_range_u32(child_address_hi, 11, 16) < 32) by (bit_vector);
        assert(bit_range_u32(child_address_hi, 8, 11) < 8) by (bit_vector);
        PciFunctionAddress { bus: bus as u8, device: device as u8, function: function as u8 }
    }

    /// The high word of the unit address that names this function.
    pub fn to_child_address(&self) -> (r: u32)
        ensures
            r == self.child_address(),
    {
        let bus: u32 = self.bus as u32;
        let device: u32 = self.device as u32;
        let function: u32 = self.function as u32;
        (bus << 16) | (device << 11) | (function << 8)
    }

    /// The offset of the function's slice of configuration space from the
    /// start of the window.
    pub fn function_offset(&self) -> (r: u32)
        ensures
            r == self.ecam_offset(),
    {
        let bus: u32 = self.bus as u32;
        let device: u32 = self.device as u32;
        let function: u32 = self.function as u32;
        (bus << 20) | (device << 15) | (function << 12)
    }
}

/// The offset of a valid function is the sum of its three fields, each scaled
/// by the size of what it counts: 1 MiB for a bus, 32 KiB for a device and
/// 4 KiB for a function.
pub proof fn lemma_ecam_offset_sum(a: PciFunctionAddress)
    requires
        a.wf(),
    ensures
        a.ecam_offset() == a.bus * 0x10_0000 + a.device * 0x8000 + a.function * 0x1000,
{
    let b = a.bus;
    let d = a.device;
    let f = a.function;
    assert(d < 32 && f < 8 ==> ((b as u32) << 20 | (d as u32) << 15 | (f as u32) << 12) == b
        * 0x10_0000 + d * 0x8000 + f * 0x1000) by (bit_vector);
}

/// The slice of a valid function lies inside the 1 MiB of its bus, and so
/// inside the 256 MiB that 256 buses take.
pub proof fn lemma_ecam_offset_bounds(a: PciFunctionAddress)
    requires
        a.wf(),
    ensures
        a.bus * BUS_SPACE <= a.ecam_offset(),
        a.ecam_offset() + FUNCTION_SPACE <= (a.bus + 1) * BUS_SPACE,
        a.ecam_offset() + FUNCTION_SPACE <= 0x1000_0000,
        a.ecam_offset() % 0x1000 == 0,
{
    lemma_ecam_offset_sum(a);
}

/// Two valid functions with the same offset are the same function.
pub proof fn lemma_ecam_offset_unique(a: PciFunctionAddress, b: PciFunctionAddress)
    requires
        a.wf(),
        b.wf(),
        a.ecam_offset() == b.ecam_offset(),
    ensures
        a == b,
{
    lemma_ecam_offset_sum(a);
    lemma_ecam_offset_sum(b);
}

/// Decoding the unit address of a valid function gives the function back.
pub proof fn lemma_decode_child_address(a: PciFunctionAddress)
    requires
        a.wf(),
    ensures
        PciFunctionAddress::decode(a.child_address()) == a,
{
    let b = a.bus;
    let d = a.device;
    let f = a.function;
    assert(d < 32 && f < 8 ==> bit_range_u32(
        (b as u32) << 16 | (d as u32) << 11 | (f as u32) << 8,
        16,
        24,
    ) == b as u32) by (bit_vector);
    assert(d < 32 && f < 8 ==> bit_range_u32(
        (b as u32) << 16 | (d as u32) << 11 | (f as u32) << 8,
        11,
        16,
    ) == d as u32) by (bit_vector);
    assert(d < 32 && f < 8 ==> bit_range_u32(
        (b as u32) << 16 | (d as u32) << 11 | (f as u32) << 8,
        8,
        11,
    ) == f as u32) by (bit_vector);
}

/// Every word decodes to a valid function, whatever its other bits hold.
pub proof fn lemma_decode_wf(child_address_hi: u32)
    ensures
        PciFunctionAddress::decode(child_address_hi).wf(),
{
    assert(bit_range_u32(child_address_hi, 11, 16) < 32) by (bit_vector);
    assert(bit_range_u32(child_address_hi, 8, 11) < 8) by (bit_vector);
}

} // verus!
