use pci_interrupts::address::PciFunctionAddress;
use pci_interrupts::configurator::{PciAccess, MESSAGE_ADDRESS, MSIX_VECTOR, MSI_VECTOR};
use pci_interrupts::error::ConfigureError;
use pci_interrupts::legacy::{InterruptMapMask, InterruptMapRecord};
use pci_interrupts::msi::{table_base, Bar, MsiCapability, MsixCapability, MsixTableEntry, TableStore};
use pci_interrupts::routing::{pci_interrupt_handler, WaitObject};
use pci_interrupts::window::ConfigSpaceWindow;

fn function(bus: u8, device: u8, function: u8) -> PciFunctionAddress {
    PciFunctionAddress::new(bus, device, function).unwrap()
}

fn record(child: u32, pin: u32, vector: u32) -> InterruptMapRecord {
    InterruptMapRecord {
        child_unit_address_hi: child,
        child_interrupt_specifier: pin,
        parent_interrupt_specifier: (vector as u64) << 32 | 4,
    }
}

const MASK: InterruptMapMask = InterruptMapMask { address_mask_hi: 0xf800, interrupt_mask: 7 };

fn window() -> ConfigSpaceWindow {
    ConfigSpaceWindow::new(0x3000_0000, 0x1000_0000).unwrap()
}

fn access(records: Vec<InterruptMapRecord>) -> PciAccess {
    PciAccess::new(window(), &records, &MASK).0
}

#[test]
fn one_record_resolves_and_preregisters_its_vector() {
    let records = vec![record(0x1800, 1, 0x2a)];
    let (access, vectors) = PciAccess::new(window(), &records, &MASK);
    assert_eq!(access.legacy().resolve(function(0, 3, 0), 1), Some(0x2a));
    assert!(access.routing().contains_vector(0x2a));
    assert_eq!(access.routing().signal_all(0x2a), Some(&vec![]));
    assert_eq!(vectors, vec![0x2a]);
    assert_eq!(access.issued_count(), 0);
    assert_eq!(access.window(), window());
}

#[test]
fn new_registers_each_vector_once() {
    let records = vec![
        record(0x0800, 1, 0x21),
        record(0x0800, 2, 0x22),
        record(0x1000, 1, 0x22),
        record(0x1000, 2, 0x21),
    ];
    let (access, vectors) = PciAccess::new(window(), &records, &MASK);
    assert_eq!(vectors, vec![0x21, 0x22]);
    assert!(access.routing().contains_vector(0x21));
    assert!(access.routing().contains_vector(0x22));
    assert!(!access.routing().contains_vector(0x23));
    assert!(!access.routing().contains_vector(MSI_VECTOR));
}

#[test]
fn address_for_goes_by_the_window() {
    let access = access(vec![]);
    assert_eq!(access.address_for(function(0, 3, 0)), Some(0x3001_8000));
    assert_eq!(access.address_for(PciFunctionAddress { bus: 0, device: 40, function: 0 }), None);
}

#[test]
fn register_address_goes_by_the_window() {
    let access = access(vec![]);
    assert_eq!(access.register_address(function(0, 3, 0), 0x10), Some(0x3001_8010));
    assert_eq!(access.register_address(function(0, 3, 0), 0x11), None);
    assert_eq!(access.register_address(function(0, 3, 0), 0x1000), None);
}

#[test]
fn configure_legacy_registers_under_the_resolved_vector() {
    let mut access = access(vec![record(0x1800, 1, 0x2a), record(0x1000, 2, 0x2b)]);
    let waiter = access.configure_legacy(function(0, 3, 0), 1).unwrap();
    assert_eq!(waiter, WaitObject { id: 0 });
    assert_eq!(access.routing().signal_all(0x2a), Some(&vec![waiter]));
    assert_eq!(access.routing().signal_all(0x2b), Some(&vec![]));
    assert_eq!(access.issued_count(), 1);
}

#[test]
fn configure_legacy_fails_for_undescribed_pin() {
    let mut access = access(vec![record(0x1800, 1, 0x2a)]);
    assert_eq!(access.configure_legacy(function(0, 3, 0), 2), Err(ConfigureError::UnroutedPin));
    assert_eq!(access.configure_legacy(function(0, 4, 0), 1), Err(ConfigureError::UnroutedPin));
    assert_eq!(
        access.configure_legacy(PciFunctionAddress { bus: 0, device: 35, function: 0 }, 1),
        Err(ConfigureError::UnroutedPin)
    );
    assert_eq!(access.issued_count(), 0);
    assert_eq!(access.routing().signal_all(0x2a), Some(&vec![]));
}

#[test]
fn every_call_returns_a_wait_object_of_its_own() {
    let mut access = access(vec![record(0x1800, 1, 0x2a), record(0x1000, 1, 0x2b)]);
    let mut msi = MsiCapability { message_address: 0, message_data: 0, enabled: false };
    let mut msix = MsixCapability { table_offset: 0, enabled: false };
    let bar = Bar::Memory32 { address: 0x4000_0000, size: 0x4000, prefetchable: false };
    let a = access.configure_legacy(function(0, 3, 0), 1).unwrap();
    let b = access.configure_legacy(function(0, 3, 0), 1).unwrap();
    let c = access.configure_msi(function(0, 5, 0), &mut msi);
    let d = access.configure_msix(function(0, 6, 0), bar, &mut msix).unwrap().wait_object;
    let e = access.configure_legacy(function(0, 2, 0), 1).unwrap();
    let all = [a, b, c, d, e];
    for i in 0..all.len() {
        for j in 0..i {
            assert_ne!(all[i], all[j]);
        }
    }
    assert_eq!(access.issued_count(), 5);
}

#[test]
fn dispatch_signals_exactly_the_waiters_of_the_vector() {
    let mut access = access(vec![
        record(0x0800, 1, 0x2a),
        record(0x1000, 1, 0x2a),
        record(0x1800, 1, 0x2b),
    ]);
    let first = access.configure_legacy(function(0, 1, 0), 1).unwrap();
    let other = access.configure_legacy(function(0, 3, 0), 1).unwrap();
    let second = access.configure_legacy(function(0, 2, 0), 1).unwrap();
    assert_eq!(pci_interrupt_handler(access.routing(), 0x2a), Some(&vec![first, second]));
    assert_eq!(pci_interrupt_handler(access.routing(), 0x2b), Some(&vec![other]));
    assert!(pci_interrupt_handler(access.routing(), 0x2c).is_none());
}

#[test]
fn configure_msi_programs_address_vector_and_enable() {
    let mut access = access(vec![record(0x1800, 1, 0x2a)]);
    let mut msi = MsiCapability { message_address: 0xdead, message_data: 0xbeef, enabled: false };
    let waiter = access.configure_msi(function(0, 4, 0), &mut msi);
    assert_eq!(waiter, WaitObject { id: 0 });
    assert_eq!(
        msi,
        MsiCapability { message_address: 0x2800_0000, message_data: 2, enabled: true }
    );
    assert_eq!(MSI_VECTOR, 2);
    assert_eq!(MESSAGE_ADDRESS, 0x2800_0000);
    assert_eq!(access.routing().signal_all(2), Some(&vec![waiter]));
    assert_eq!(access.routing().signal_all(0x2a), Some(&vec![]));
}

#[test]
fn configure_msi_twice_keeps_both_waiters() {
    let mut access = access(vec![]);
    let mut msi = MsiCapability { message_address: 0, message_data: 0, enabled: false };
    let first = access.configure_msi(function(0, 4, 0), &mut msi);
    let second = access.configure_msi(function(0, 5, 0), &mut msi);
    assert_eq!(access.routing().signal_all(MSI_VECTOR), Some(&vec![first, second]));
}

#[test]
fn configure_msix_with_64_bit_bar() {
    let mut access = access(vec![]);
    let mut msix = MsixCapability { table_offset: 0x1000, enabled: false };
    let bar = Bar::Memory64 { address: 0x4000_0000, size: 0x4000, prefetchable: false };
    let configuration = access.configure_msix(function(0, 4, 0), bar, &mut msix).unwrap();
    assert_eq!(configuration.table_base, 0x4000_1000);
    assert_eq!(configuration.entry.message_data, MSIX_VECTOR);
    assert_eq!(configuration.entry.message_data, 3);
    assert_eq!(configuration.entry.vector_control, 0);
    assert_eq!(configuration.entry.message_address_low, 0x2800_0000);
    assert_eq!(configuration.entry.message_address_high, 0);
    assert_eq!(msix, MsixCapability { table_offset: 0x1000, enabled: true });
    assert_eq!(configuration.wait_object, WaitObject { id: 0 });
    assert_eq!(access.routing().signal_all(3), Some(&vec![configuration.wait_object]));
}

#[test]
fn configure_msix_with_32_bit_bar() {
    let mut access = access(vec![]);
    let mut msix = MsixCapability { table_offset: 0x2000, enabled: false };
    let bar = Bar::Memory32 { address: 0xfebd_0000, size: 0x4000, prefetchable: true };
    let configuration = access.configure_msix(function(0, 4, 0), bar, &mut msix).unwrap();
    assert_eq!(configuration.table_base, 0xfebd_2000);
    assert!(msix.enabled);
}

#[test]
fn configure_msix_rejects_io_bar() {
    let mut access = access(vec![]);
    let mut msix = MsixCapability { table_offset: 0x1000, enabled: false };
    let r = access.configure_msix(function(0, 4, 0), Bar::Io { port: 0xc000 }, &mut msix);
    assert_eq!(r, Err(ConfigureError::UnsupportedBar));
    assert_eq!(msix, MsixCapability { table_offset: 0x1000, enabled: false });
    assert_eq!(access.issued_count(), 0);
    assert!(access.routing().signal_all(MSIX_VECTOR).is_none());
}

#[test]
fn configure_msix_rejects_table_past_the_bar_width() {
    let mut access = access(vec![]);
    let mut msix = MsixCapability { table_offset: 0x2000, enabled: false };
    let bar = Bar::Memory32 { address: 0xffff_f000, size: 0x4000, prefetchable: false };
    let r = access.configure_msix(function(0, 4, 0), bar, &mut msix);
    assert_eq!(r, Err(ConfigureError::TableOutOfRange));
    let bar = Bar::Memory64 { address: u64::MAX - 0xfff, size: 0x4000, prefetchable: false };
    let r = access.configure_msix(function(0, 4, 0), bar, &mut msix);
    assert_eq!(r, Err(ConfigureError::TableOutOfRange));
    assert!(!msix.enabled);
    assert_eq!(access.issued_count(), 0);
}

#[test]
fn table_base_adds_offset_to_bar_address() {
    let bar = Bar::Memory64 { address: 0x4000_0000, size: 0, prefetchable: false };
    assert_eq!(table_base(&bar, 0x1000), Ok(0x4000_1000));
    let bar = Bar::Memory64 { address: 0x1_0000_0000, size: 0, prefetchable: false };
    assert_eq!(table_base(&bar, 0xffff_fff8), Ok(0x1_ffff_fff8));
    let bar = Bar::Memory32 { address: 0xffff_0000, size: 0, prefetchable: false };
    assert_eq!(table_base(&bar, 0xffff), Ok(0xffff_ffff));
    assert_eq!(table_base(&bar, 0x1_0000), Err(ConfigureError::TableOutOfRange));
    assert_eq!(table_base(&Bar::Io { port: 1 }, 0), Err(ConfigureError::UnsupportedBar));
}

#[test]
fn table_entry_splits_the_message_address() {
    let entry = MsixTableEntry::new(0x0000_0012_3456_7890, 0x41);
    assert_eq!(
        entry,
        MsixTableEntry {
            message_address_low: 0x3456_7890,
            message_address_high: 0x12,
            message_data: 0x41,
            vector_control: 0,
        }
    );
    let entry = MsixTableEntry::new(0x2800_0000, 3);
    assert_eq!(entry.message_address_low, 0x2800_0000);
    assert_eq!(entry.message_address_high, 0);
}

#[test]
fn table_entry_is_written_by_four_ordered_stores() {
    let entry = MsixTableEntry::new(0x0000_0012_3456_7890, 0x41);
    assert_eq!(
        entry.stores(),
        vec![
            TableStore { offset: 0x0, value: 0x3456_7890 },
            TableStore { offset: 0x4, value: 0x12 },
            TableStore { offset: 0x8, value: 0x41 },
            TableStore { offset: 0xc, value: 0 },
        ]
    );
}
