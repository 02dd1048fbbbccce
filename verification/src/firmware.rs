//! What firmware describes of the PCI host bridge: reading it out of the
//! properties of device-tree nodes.

use crate::error::InitError;
use crate::legacy::{InterruptMapMask, InterruptMapRecord};
use crate::text::text_is;
use vstd::prelude::*;

verus! {

/// Bytes in one cell of a device-tree property.
pub const CELL: usize = 4;

/// Cells of a PCI unit address.
pub const CHILD_ADDRESS_CELLS: usize = 3;

/// Cells of a record of an interrupt map up to and including the handle of
/// the interrupt parent: the child unit address, the child interrupt
/// specifier and the handle.
pub const RECORD_HEAD_CELLS: usize = 5;

/// Cells of a parent interrupt specifier that carries a vector.
pub const PARENT_INTERRUPT_CELLS: u32 = 2;

/// A region of physical address space, from the `reg` property of a node.
#[derive(Clone, Copy, Debug, PartialEq, Eq, Structural)]
pub struct MemoryRegion {
    pub starting_address: usize,
    pub size: Option<usize>,
}

/// How an interrupt controller is addressed in interrupt maps: the handle
/// that names it, and how many cells its unit addresses and its interrupt
/// specifiers take.
#[derive(Clone, Copy, Debug, PartialEq, Eq, Structural)]
pub struct InterruptParent {
    pub phandle: u32,
    pub address_cells: u32,
    pub interrupt_cells: u32,
}

/// What firmware says of one node of the device tree, as far as PCI is
/// concerned.
#[derive(Debug)]
pub struct FirmwareNode {
    /// The strings of the `compatible` property; none where it is absent.
    pub compatible: Vec<String>,
    /// The regions of the `reg` property; none where it is absent.
    pub reg: Vec<MemoryRegion>,
    /// The bytes of the `interrupt-map` property.
    pub interrupt_map: Option<Vec<u8>>,
    /// The bytes of the `interrupt-map-mask` property.
    pub interrupt_map_mask: Option<Vec<u8>>,
}

/// The configuration window and the legacy interrupt wiring of a PCI host
/// bridge.
#[derive(Debug)]
pub struct HostBridge {
    /// Physical address of the configuration window.
    pub window_address: usize,
    /// Size in bytes of the configuration window.
    pub window_size: usize,
    /// The records of the interrupt map.
    pub records: Vec<InterruptMapRecord>,
    /// The mask of the interrupt map.
    pub mask: InterruptMapMask,
}

/// What a host bridge holds.
pub struct HostBridgeModel {
    pub window_address: usize,
    pub window_size: usize,
    pub records: Seq<InterruptMapRecord>,
    pub mask: InterruptMapMask,
}

impl View for HostBridge {
    type V = HostBridgeModel;

    open spec fn view(&self) -> HostBridgeModel {
        HostBridgeModel {
            window_address: self.window_address,
            window_size: self.window_size,
            records: self.records@,
            mask: self.mask,
        }
    }
}

/// Whether a `compatible` string names a PCI host bridge with a generic
/// memory-mapped configuration window.
pub open spec fn recognised(compatible: Seq<char>) -> bool {
    compatible == "pci-host-ecam-generic"@ || compatible == "pci-host-cam-generic"@
}

/// Whether one of the `compatible` strings of a node names a host bridge.
pub open spec fn is_host_bridge(compatible: Seq<String>) -> bool {
    exists|i: int| 0 <= i < compatible.len() && recognised(#[trigger] compatible[i]@)
}

/// The big-endian cell that starts at byte `at`.
pub open spec fn cell_at(bytes: Seq<u8>, at: int) -> u32 {
    (bytes[at] as u32) << 24 | (bytes[at + 1] as u32) << 16 | (bytes[at + 2] as u32) << 8
        | bytes[at + 3] as u32
}

/// The first interrupt parent with the handle `phandle`, looked for from
/// index `from` on.
pub open spec fn parent_from(parents: Seq<InterruptParent>, phandle: u32, from: int) -> Option<
    InterruptParent,
>
    decreases parents.len() - from,
{
    if from < 0 || from >= parents.len() {
        None
    } else if parents[from].phandle == phandle {
        Some(parents[from])
    } else {
        parent_from(parents, phandle, from + 1)
    }
}

/// The record of an interrupt map that starts at byte `at`, and the byte at
/// which the next one starts. A record is three cells of child unit address,
/// of which the first is kept; one cell of child interrupt specifier; one
/// cell with the handle of the interrupt parent; the parent's unit address,
/// as many cells as the parent says; and two cells of parent interrupt
/// specifier, read as one number. There is none where the bytes end inside
/// it, where the parent is unknown, or where the parent's specifiers are not
/// two cells wide.
pub open spec fn record_at(bytes: Seq<u8>, parents: Seq<InterruptParent>, at: int) -> Option<
    (InterruptMapRecord, int),
> {
    if at + RECORD_HEAD_CELLS * CELL > bytes.len() {
        None
    } else {
        match parent_from(parents, cell_at(bytes, at + 16), 0) {
            None => None,
            Some(parent) => {
                let specifier_at = at + RECORD_HEAD_CELLS * CELL + parent.address_cells * CELL;
                let end = specifier_at + PARENT_INTERRUPT_CELLS * CELL;
                if parent.interrupt_cells != PARENT_INTERRUPT_CELLS || end > bytes.len() {
                    None
                } else {
                    Some(
                        (
                            InterruptMapRecord {
                                child_unit_address_hi: cell_at(bytes, at),
                                child_interrupt_specifier: cell_at(bytes, at + 12),
                                parent_interrupt_specifier: (cell_at(bytes, specifier_at) as u64)
                                    << 32 | cell_at(bytes, specifier_at + 4) as u64,
                            },
                            end,
                        ),
                    )
                }
            },
        }
    }
}

/// The records that the bytes of an interrupt map hold from byte `at` on, or
/// `None` where they do not divide into whole records.
pub open spec fn records_from(bytes: Seq<u8>, parents: Seq<InterruptParent>, at: int) -> Option<
    Seq<InterruptMapRecord>,
>
    decreases bytes.len() - at,
{
    if at >= bytes.len() {
        Some(Seq::empty())
    } else {
        match record_at(bytes, parents, at) {
            None => None,
            Some((record, end)) => if end <= at {
                None
            } else {
                match records_from(bytes, parents, end) {
                    None => None,
                    Some(rest) => Some(seq![record] + rest),
                }
            },
        }
    }
}

/// The mask that the bytes of an `interrupt-map-mask` property hold: four
/// cells, of which the first masks the high word of the child unit address
/// and the last the child interrupt specifier.
pub open spec fn mask_of(bytes: Seq<u8>) -> Option<InterruptMapMask> {
    if bytes.len() == (CHILD_ADDRESS_CELLS + 1) * CELL {
        Some(
            InterruptMapMask {
                address_mask_hi: cell_at(bytes, 0),
                interrupt_mask: cell_at(bytes, 12),
            },
        )
    } else {
        None
    }
}

/// Reads the big-endian cell that starts at byte `at`.
fn read_cell(bytes: &Vec<u8>, at: usize) -> (r: u32)
    requires
        at + CELL <= bytes.len(),
    ensures
        r == cell_at(bytes@, at as int),
{
    let b0: u32 = bytes[at] as u32;
    let b1: u32 = bytes[at + 1] as u32;
    let b2: u32 = bytes[at + 2] as u32;
    let b3: u32 = bytes[at + 3] as u32;
    (b0 << 24) | (b1 << 16) | (b2 << 8) | b3
}

/// Looks up the interrupt parent with the handle `phandle`.
fn find_parent(parents: &Vec<InterruptParent>, phandle: u32) -> (r: Option<InterruptParent>)
    ensures
        r == parent_from(parents@, phandle, 0),
{
    let mut i: usize = 0;
    while i < parents.len()
        invariant
            i <= parents.len(),
            parent_from(parents@, phandle, i as int) == parent_from(parents@, phandle, 0),
        decreases parents.len() - i,
    {
        if parents[i].phandle == phandle {
            return Some(parents[i]);
        }
        i += 1;
    }
    None
}

/// Reads the record of an interrupt map that starts at byte `at`.
fn read_record(bytes: &Vec<u8>, parents: &Vec<InterruptParent>, at: usize) -> (r: Option<
    (InterruptMapRecord, usize),
>)
    requires
        at < bytes.len(),
    ensures
        match r {
            Some((record, end)) => record_at(bytes@, parents@, at as int) == Some(
                (record, end as int),
            ) && at < end <= bytes.len(),
            None => record_at(bytes@, parents@, at as int).is_none(),
        },
{
    let remaining: usize = bytes.len() - at;
    if remaining < RECORD_HEAD_CELLS * CELL {
        return None;
    }
    let parent = match find_parent(parents, read_cell(bytes, at + 16)) {
        Some(parent) => parent,
        None => {
            return None;
        },
    };
    if parent.interrupt_cells != PARENT_INTERRUPT_CELLS {
        return None;
    }
    let behind_head: usize = remaining - RECORD_HEAD_CELLS * CELL;
    let tail_cells: usize = behind_head / CELL;
    if tail_cells < PARENT_INTERRUPT_CELLS as usize || parent.address_cells as usize > tail_cells
        - PARENT_INTERRUPT_CELLS as usize {
        return None;
    }
    let specifier_at: usize = at + RECORD_HEAD_CELLS * CELL + parent.address_cells as usize * CELL;
    let high: u64 = read_cell(bytes, specifier_at) as u64;
    let low: u64 = read_cell(bytes, specifier_at + 4) as u64;
    let record = InterruptMapRecord {
        child_unit_address_hi: read_cell(bytes, at),
        child_interrupt_specifier: read_cell(bytes, at + 12),
        parent_interrupt_specifier: (high << 32) | low,
    };
    Some((record, specifier_at + PARENT_INTERRUPT_CELLS as usize * CELL))
}

/// What is read where `records` have been read and `rest` follows.
pub open spec fn read_then(records: Seq<InterruptMapRecord>, rest: Option<Seq<InterruptMapRecord>>) -> Option<
    Seq<InterruptMapRecord>,
> {
    match rest {
        Some(rest) => Some(records + rest),
        None => None,
    }
}

/// Reads the records out of the bytes of an `interrupt-map` property. The
/// interrupt parents that the records name are looked up in `parents`.
pub fn parse_interrupt_map(bytes: &Vec<u8>, parents: &Vec<InterruptParent>) -> (r: Result<
    Vec<InterruptMapRecord>,
    InitError,
>)
    ensures
        match r {
            Ok(records) => records_from(bytes@, parents@, 0) == Some(records@),
            Err(error) => records_from(bytes@, parents@, 0).is_none() && error
                == InitError::MalformedInterruptMap,
        },
{
    let mut records: Vec<InterruptMapRecord> = Vec::new();
    let mut at: usize = 0;
    while at < bytes.len()
        invariant
            at <= bytes.len(),
            records_from(bytes@, parents@, 0) == read_then(
                records@,
                records_from(bytes@, parents@, at as int),
            ),
        decreases bytes.len() - at,
    {
        match read_record(bytes, parents, at) {
            Some((record, end)) => {
                proof {
                    let rest = records_from(bytes@, parents@, end as int);
                    if rest.is_some() {
                        assert(records@.push(record) + rest.unwrap() =~= records@ + (seq![record]
                            + rest.unwrap()));
                    }
                }
                records.push(record);
                at = end;
            },
            None => {
                return Err(InitError::MalformedInterruptMap);
            },
        }
    }
    proof {
        assert(records@ + Seq::<InterruptMapRecord>::empty() =~= records@);
    }
    Ok(records)
}

/// Reads the mask out of the bytes of an `interrupt-map-mask` property.
pub fn parse_interrupt_map_mask(bytes: &Vec<u8>) -> (r: Result<InterruptMapMask, InitError>)
    ensures
        match r {
            Ok(mask) => mask_of(bytes@) == Some(mask),
            Err(error) => mask_of(bytes@).is_none() && error == InitError::MalformedInterruptMapMask,
        },
{
    if bytes.len() == (CHILD_ADDRESS_CELLS + 1) * CELL {
        Ok(
            InterruptMapMask {
                address_mask_hi: read_cell(bytes, 0),
                interrupt_mask: read_cell(bytes, 12),
            },
        )
    } else {
        Err(InitError::MalformedInterruptMapMask)
    }
}

impl FirmwareNode {
    /// Whether the node is a PCI host bridge of a recognised kind.
    pub fn is_host_bridge(&self) -> (r: bool)
        ensures
            r == is_host_bridge(self.compatible@),
    {
        let mut i: usize = 0;
        while i < self.compatible.len()
            invariant
                i <= self.compatible.len(),
                forall|j: int| 0 <= j < i ==> !recognised(#[trigger] self.compatible@[j]@),
            decreases self.compatible.len() - i,
        {
            if text_is(&self.compatible[i], "pci-host-ecam-generic") || text_is(
                &self.compatible[i],
                "pci-host-cam-generic",
            ) {
                return true;
            }
            i += 1;
        }
        false
    }
}

/// The index of the first node from index `from` on that is a PCI host
/// bridge of a recognised kind.
pub open spec fn host_bridge_from(nodes: Seq<FirmwareNode>, from: int) -> Option<int>
    decreases nodes.len() - from,
{
    if from < 0 || from >= nodes.len() {
        None
    } else if is_host_bridge(nodes[from].compatible@) {
        Some(from)
    } else {
        host_bridge_from(nodes, from + 1)
    }
}

/// Finds the first node that is a PCI host bridge of a recognised kind.
pub fn find_host_bridge(nodes: &Vec<FirmwareNode>) -> (r: Option<usize>)
    ensures
        match r {
            Some(index) => index < nodes.len() && host_bridge_from(nodes@, 0) == Some(index as int),
            None => host_bridge_from(nodes@, 0).is_none(),
        },
{
    let mut i: usize = 0;
    while i < nodes.len()
        invariant
            i <= nodes.len(),
            host_bridge_from(nodes@, i as int) == host_bridge_from(nodes@, 0),
        decreases nodes.len() - i,
    {
        if nodes[i].is_host_bridge() {
            return Some(i);
        }
        i += 1;
    }
    None
}

/// What a host-bridge node describes: its first region is the configuration
/// window and needs a size; its interrupt map and the mask of the map have to
/// be there and to be well formed. What is missing is reported before what is
/// malformed, and the map before its mask.
pub open spec fn host_bridge_of(node: FirmwareNode, parents: Seq<InterruptParent>) -> Result<
    HostBridgeModel,
    InitError,
> {
    if node.reg@.len() == 0 || node.reg@[0].size.is_none() {
        Err(InitError::MissingWindow)
    } else if node.interrupt_map.is_none() {
        Err(InitError::MissingInterruptMap)
    } else if node.interrupt_map_mask.is_none() {
        Err(InitError::MissingInterruptMapMask)
    } else {
        match records_from(node.interrupt_map.unwrap()@, parents, 0) {
            None => Err(InitError::MalformedInterruptMap),
            Some(records) => match mask_of(node.interrupt_map_mask.unwrap()@) {
                None => Err(InitError::MalformedInterruptMapMask),
                Some(mask) => Ok(
                    HostBridgeModel {
                        window_address: node.reg@[0].starting_address,
                        window_size: node.reg@[0].size.unwrap(),
                        records,
                        mask,
                    },
                ),
            },
        }
    }
}

/// What a result of reading a host bridge says.
pub open spec fn bridge_outcome(result: Result<HostBridge, InitError>) -> Result<
    HostBridgeModel,
    InitError,
> {
    match result {
        Ok(bridge) => Ok(bridge@),
        Err(error) => Err(error),
    }
}

impl FirmwareNode {
    /// Reads the configuration window and the legacy interrupt wiring out of
    /// the properties of a host-bridge node.
    pub fn host_bridge(&self, parents: &Vec<InterruptParent>) -> (r: Result<HostBridge, InitError>)
        ensures
            bridge_outcome(r) == host_bridge_of(*self, parents@),
    {
        if self.reg.len() == 0 {
            return Err(InitError::MissingWindow);
        }
        let window = self.reg[0];
        let window_size = match window.size {
            Some(size) => size,
            None => {
                return Err(InitError::MissingWindow);
            },
        };
        let map = match &self.interrupt_map {
            Some(map) => map,
            None => {
                return Err(InitError::MissingInterruptMap);
            },
        };
        let mask = match &self.interrupt_map_mask {
            Some(mask) => mask,
            None => {
                return Err(InitError::MissingInterruptMapMask);
            },
        };
        let records = match parse_interrupt_map(map, parents) {
            Ok(records) => records,
            Err(error) => {
                return Err(error);
            },
        };
        match parse_interrupt_map_mask(mask) {
            Ok(mask) => Ok(
                HostBridge { window_address: window.starting_address, window_size, records, mask },
            ),
            Err(error) => Err(error),
        }
    }
}

/// What firmware describes of the PCI host bridge: what the first node that
/// is a host bridge of a recognised kind describes. Where no node is one, the
/// host bridge is not found.
pub open spec fn located(nodes: Seq<FirmwareNode>, parents: Seq<InterruptParent>) -> Result<
    HostBridgeModel,
    InitError,
> {
    match host_bridge_from(nodes, 0) {
        Some(index) => host_bridge_of(nodes[index], parents),
        None => Err(InitError::NotFound),
    }
}

impl HostBridge {
    /// Finds the first node among `nodes` that is a PCI host bridge of a
    /// recognised kind, and reads what it describes.
    pub fn locate(nodes: &Vec<FirmwareNode>, parents: &Vec<InterruptParent>) -> (r: Result<
        HostBridge,
        InitError,
    >)
        ensures
            bridge_outcome(r) == located(nodes@, parents@),
    {
        match find_host_bridge(nodes) {
            Some(index) => nodes[index].host_bridge(parents),
            None => Err(InitError::NotFound),
        }
    }
}

/// The first host bridge is a host bridge, and no node before it is one;
/// where there is none, no node is a host bridge.
pub proof fn lemma_first_host_bridge(nodes: Seq<FirmwareNode>, from: int)
    requires
        0 <= from,
    ensures
        match host_bridge_from(nodes, from) {
            Some(index) => from <= index < nodes.len() && is_host_bridge(nodes[index].compatible@)
                && forall|j: int|
                from <= j < index ==> !is_host_bridge(#[trigger] nodes[j].compatible@),
            None => forall|j: int|
                from <= j < nodes.len() ==> !is_host_bridge(#[trigger] nodes[j].compatible@),
        },
    decreases nodes.len() - from,
{
    if from < nodes.len() && !is_host_bridge(nodes[from].compatible@) {
        lemma_first_host_bridge(nodes, from + 1);
    }
}

/// The four bytes of a cell, the most significant first.
pub open spec fn cell_bytes(value: u32) -> Seq<u8> {
    seq![
        (value >> 24) as u8,
        ((value >> 16) & 0xff) as u8,
        ((value >> 8) & 0xff) as u8,
        (value & 0xff) as u8,
    ]
}

/// The bytes of a record for an interrupt parent that has the handle
/// `phandle` and no unit address: seven cells, of which the second and the
/// third, the rest of the child unit address, are zero.
pub open spec fn record_bytes(record: InterruptMapRecord, phandle: u32) -> Seq<u8> {
    cell_bytes(record.child_unit_address_hi) + cell_bytes(0) + cell_bytes(0) + cell_bytes(
        record.child_interrupt_specifier,
    ) + cell_bytes(phandle) + cell_bytes((record.parent_interrupt_specifier >> 32) as u32)
        + cell_bytes((record.parent_interrupt_specifier & 0xffff_ffff) as u32)
}

/// The bytes of an interrupt map that holds `records`, all for the interrupt
/// parent with the handle `phandle`.
pub open spec fn map_bytes(records: Seq<InterruptMapRecord>, phandle: u32) -> Seq<u8>
    decreases records.len(),
{
    if records.len() == 0 {
        Seq::empty()
    } else {
        record_bytes(records[0], phandle) + map_bytes(records.skip(1), phandle)
    }
}

/// Reading a cell gives back the value that its bytes were written for.
pub proof fn lemma_cell_round_trip(value: u32)
    ensures
        cell_bytes(value).len() == 4,
        cell_at(cell_bytes(value), 0) == value,
{
    assert(((((value >> 24) as u8) as u32) << 24) | (((((value >> 16) & 0xff) as u8) as u32) << 16)
        | (((((value >> 8) & 0xff) as u8) as u32) << 8) | (((value & 0xff) as u8) as u32) == value)
        by (bit_vector);
}

/// What is read from bytes does not change where other bytes are put in
/// front of them, but for the positions, which move along.
pub proof fn lemma_records_from_shift(
    prefix: Seq<u8>,
    rest: Seq<u8>,
    parents: Seq<InterruptParent>,
    at: int,
)
    requires
        0 <= at,
    ensures
        records_from(prefix + rest, parents, prefix.len() + at) == records_from(rest, parents, at),
    decreases rest.len() - at,
{
    let whole = prefix + rest;
    let shift = prefix.len() as int;
    if at < rest.len() {
        if at + RECORD_HEAD_CELLS * CELL <= rest.len() {
            assert(cell_at(whole, shift + at) == cell_at(rest, at));
            assert(cell_at(whole, shift + at + 12) == cell_at(rest, at + 12));
            assert(cell_at(whole, shift + at + 16) == cell_at(rest, at + 16));
            match parent_from(parents, cell_at(rest, at + 16), 0) {
                None => {},
                Some(parent) => {
                    let specifier_at = at + RECORD_HEAD_CELLS * CELL + parent.address_cells * CELL;
                    let end = specifier_at + PARENT_INTERRUPT_CELLS * CELL;
                    if parent.interrupt_cells == PARENT_INTERRUPT_CELLS && end <= rest.len() {
                        assert(cell_at(whole, shift + specifier_at) == cell_at(rest, specifier_at));
                        assert(cell_at(whole, shift + specifier_at + 4) == cell_at(
                            rest,
                            specifier_at + 4,
                        ));
                        lemma_records_from_shift(prefix, rest, parents, end);
                    }
                },
            }
        }
    }
}

/// Reading the bytes that were written for a sequence of records gives the
/// records back, where their interrupt parent is known, has no unit address
/// and takes interrupt specifiers of two cells.
pub proof fn lemma_map_round_trip(
    records: Seq<InterruptMapRecord>,
    phandle: u32,
    parents: Seq<InterruptParent>,
)
    requires
        parent_from(parents, phandle, 0) matches Some(parent) && parent.address_cells == 0
            && parent.interrupt_cells == PARENT_INTERRUPT_CELLS,
    ensures
        records_from(map_bytes(records, phandle), parents, 0) == Some(records),
        map_bytes(records, phandle).len() == 28 * records.len(),
    decreases records.len(),
{
    if records.len() > 0 {
        let record = records[0];
        let head = record_bytes(record, phandle);
        let tail = map_bytes(records.skip(1), phandle);
        let bytes = head + tail;
        let high = (record.parent_interrupt_specifier >> 32) as u32;
        let low = (record.parent_interrupt_specifier & 0xffff_ffff) as u32;
        lemma_map_round_trip(records.skip(1), phandle, parents);
        lemma_cell_round_trip(record.child_unit_address_hi);
        lemma_cell_round_trip(0);
        lemma_cell_round_trip(record.child_interrupt_specifier);
        lemma_cell_round_trip(phandle);
        lemma_cell_round_trip(high);
        lemma_cell_round_trip(low);
        assert(head.len() == 28);
        assert(cell_at(bytes, 0) == cell_at(cell_bytes(record.child_unit_address_hi), 0));
        assert(cell_at(bytes, 12) == cell_at(cell_bytes(record.child_interrupt_specifier), 0));
        assert(cell_at(bytes, 16) == cell_at(cell_bytes(phandle), 0));
        assert(cell_at(bytes, 20) == cell_at(cell_bytes(high), 0));
        assert(cell_at(bytes, 24) == cell_at(cell_bytes(low), 0));
        let specifier = record.parent_interrupt_specifier;
        assert((((specifier >> 32) as u32) as u64) << 32 | ((specifier & 0xffff_ffff) as u32) as u64
            == specifier) by (bit_vector);
        assert(record_at(bytes, parents, 0) == Some((record, 28int)));
        lemma_records_from_shift(head, tail, parents, 0);
        assert(records_from(bytes, parents, 28) == Some(records.skip(1)));
        assert(seq![record] + records.skip(1) =~= records);
    }
}

} // verus!
