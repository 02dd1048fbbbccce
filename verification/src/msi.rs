//! Message-signalled interrupts: what is written to a device to arm them.

use crate::bits::{bit_range_u64, get_bits_u64};
use crate::error::ConfigureError;
use vstd::prelude::*;

verus! {

/// Size in bytes of one entry of an MSI-X table.
pub const TABLE_ENTRY_SIZE: usize = 16;

/// A base address register of a PCI function.
#[allow(inconsistent_fields)]
#[derive(Clone, Copy, Debug, PartialEq, Eq, Structural)]
pub enum Bar {
    /// Memory, addressed with 32 bits.
    Memory32 { address: u32, size: u32, prefetchable: bool },
    /// Memory, addressed with 64 bits.
    Memory64 { address: u64, size: u64, prefetchable: bool },
    /// I/O ports.
    Io { port: u32 },
}

/// The message and the delivery state of the MSI capability of a function.
#[derive(Clone, Copy, Debug, PartialEq, Eq, Structural)]
pub struct MsiCapability {
    /// The address that the device writes its message to.
    pub message_address: u64,
    /// The message that the device writes.
    pub message_data: u32,
    /// Whether the function delivers its interrupts as messages.
    pub enabled: bool,
}

/// The MSI-X capability of a function, as far as arming it is concerned.
#[derive(Clone, Copy, Debug, PartialEq, Eq, Structural)]
pub struct MsixCapability {
    /// Offset in bytes of the MSI-X table inside its BAR.
    pub table_offset: u32,
    /// Whether the function delivers its interrupts through the table.
    pub enabled: bool,
}

/// One entry of an MSI-X table.
#[derive(Clone, Copy, Debug, PartialEq, Eq, Structural)]
pub struct MsixTableEntry {
    /// Bits 0 to 31 of the message address.
    pub message_address_low: u32,
    /// Bits 32 to 63 of the message address.
    pub message_address_high: u32,
    /// The message.
    pub message_data: u32,
    /// Vector control; bit 0 masks the entry.
    pub vector_control: u32,
}

/// One 32-bit store into an MSI-X table entry.
#[derive(Clone, Copy, Debug, PartialEq, Eq, Structural)]
pub struct TableStore {
    /// Offset in bytes from the start of the entry.
    pub offset: usize,
    /// The value to store.
    pub value: u32,
}

/// The physical address of the MSI-X table at `table_offset` inside `bar`:
/// the sum of the BAR's address and the offset, which has to fit in the width
/// of the BAR's addresses. An I/O BAR holds no table.
pub open spec fn table_base_of(bar: Bar, table_offset: u32) -> Result<u64, ConfigureError> {
    match bar {
        Bar::Memory32 { address, .. } => if address + table_offset <= u32::MAX {
            Ok((address + table_offset) as u64)
        } else {
            Err(ConfigureError::TableOutOfRange)
        },
        Bar::Memory64 { address, .. } => if address + table_offset <= u64::MAX {
            Ok((address + table_offset) as u64)
        } else {
            Err(ConfigureError::TableOutOfRange)
        },
        Bar::Io { .. } => Err(ConfigureError::UnsupportedBar),
    }
}

/// The unmasked table entry that delivers `vector` by a write to
/// `message_address`.
pub open spec fn table_entry_for(message_address: u64, vector: u32) -> MsixTableEntry {
    MsixTableEntry {
        message_address_low: bit_range_u64(message_address, 0, 32) as u32,
        message_address_high: bit_range_u64(message_address, 32, 64) as u32,
        message_data: vector,
        vector_control: 0,
    }
}

/// Locates the MSI-X table at `table_offset` inside `bar`.
pub fn table_base(bar: &Bar, table_offset: u32) -> (r: Result<u64, ConfigureError>)
    ensures
        r == table_base_of(*bar, table_offset),
{
    match bar {
        Bar::Memory32 { address, .. } => match address.checked_add(table_offset) {
            Some(base) => Ok(base as u64),
            None => Err(ConfigureError::TableOutOfRange),
        },
        Bar::Memory64 { address, .. } => match address.checked_add(table_offset as u64) {
            Some(base) => Ok(base),
            None => Err(ConfigureError::TableOutOfRange),
        },
        Bar::Io { .. } => Err(ConfigureError::UnsupportedBar),
    }
}

impl MsixTableEntry {
    /// The unmasked entry that delivers `vector` by a write to
    /// `message_address`.
    pub fn new(message_address: u64, vector: u32) -> (r: MsixTableEntry)
        ensures
            r == table_entry_for(message_address, vector),
    {
        let low: u64 = get_bits_u64(message_address, 0, 32);
        let high: u64 = get_bits_u64(message_address, 32, 64);
        assert(bit_range_u64(message_address, 0, 32) <= 0xffff_ffff) by (bit_vector);
        assert(bit_range_u64(message_address, 32, 64) <= 0xffff_ffff) by (bit_vector);
        MsixTableEntry {
            message_address_low: low as u32,
            message_address_high: high as u32,
            message_data: vector,
            vector_control: 0,
        }
    }

    /// The four stores that write the entry, in the order in which they are
    /// to be made: message address low at offset 0, message address high at
    /// offset 4, message data at offset 8 and vector control at offset 12.
    pub open spec fn stores_of(self) -> Seq<TableStore> {
        seq![
            TableStore { offset: 0x0, value: self.message_address_low },
            TableStore { offset: 0x4, value: self.message_address_high },
            TableStore { offset: 0x8, value: self.message_data },
            TableStore { offset: 0xc, value: self.vector_control },
        ]
    }

    /// The stores that write the entry, in order.
    pub fn stores(&self) -> (r: Vec<TableStore>)
        ensures
            r@ == self.stores_of(),
    {
        let mut stores: Vec<TableStore> = Vec::new();
        stores.push(TableStore { offset: 0x0, value: self.message_address_low });
        stores.push(TableStore { offset: 0x4, value: self.message_address_high });
        stores.push(TableStore { offset: 0x8, value: self.message_data });
        stores.push(TableStore { offset: 0xc, value: self.vector_control });
        stores
    }
}

/// The entry for an address below 4 GiB has that address as its low word and
/// zero as its high word.
pub proof fn lemma_table_entry_below_4g(message_address: u64, vector: u32)
    requires
        message_address <= u32::MAX,
    ensures
        table_entry_for(message_address, vector) == (MsixTableEntry {
            message_address_low: message_address as u32,
            message_address_high: 0,
            message_data: vector,
            vector_control: 0,
        }),
{
    assert(message_address <= 0xffff_ffff ==> bit_range_u64(message_address, 0, 32)
        == message_address && bit_range_u64(message_address, 32, 64) == 0) by (bit_vector);
}

/// The low and the high word of an entry make up the message address.
pub proof fn lemma_table_entry_address(message_address: u64, vector: u32)
    ensures
        ({
            let entry = table_entry_for(message_address, vector);
            entry.message_address_low + entry.message_address_high * 0x1_0000_0000
                == message_address
        }),
{
    assert(bit_range_u64(message_address, 0, 32) <= 0xffff_ffff) by (bit_vector);
    assert(bit_range_u64(message_address, 32, 64) <= 0xffff_ffff) by (bit_vector);
    assert(bit_range_u64(message_address, 0, 32) + bit_range_u64(message_address, 32, 64)
        * 0x1_0000_0000 == message_address) by (bit_vector);
}

} // verus!
