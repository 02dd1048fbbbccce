use pci_interrupts::routing::{pci_interrupt_handler, InterruptRoutingTable, WaitObject};

#[test]
fn new_table_knows_no_vector() {
    let table = InterruptRoutingTable::new();
    assert!(!table.contains_vector(0));
    assert!(!table.contains_vector(0x2a));
    assert!(table.signal_all(0x2a).is_none());
    assert_eq!(table.waiter_count(0x2a), 0);
}

#[test]
fn ensure_vector_adds_an_empty_entry() {
    let mut table = InterruptRoutingTable::new();
    table.ensure_vector(0x2a);
    assert!(table.contains_vector(0x2a));
    assert!(!table.contains_vector(0x2b));
    assert_eq!(table.signal_all(0x2a), Some(&vec![]));
    assert_eq!(table.waiter_count(0x2a), 0);
}

#[test]
fn ensure_vector_keeps_waiters() {
    let mut table = InterruptRoutingTable::new();
    table.register_waiter(7, WaitObject { id: 1 });
    table.ensure_vector(7);
    assert_eq!(table.signal_all(7), Some(&vec![WaitObject { id: 1 }]));
}

#[test]
fn register_waiter_creates_the_entry() {
    let mut table = InterruptRoutingTable::new();
    table.register_waiter(9, WaitObject { id: 4 });
    assert!(table.contains_vector(9));
    assert_eq!(table.signal_all(9), Some(&vec![WaitObject { id: 4 }]));
    assert_eq!(table.waiter_count(9), 1);
}

#[test]
fn dispatch_without_waiters_signals_nothing() {
    let mut table = InterruptRoutingTable::new();
    table.ensure_vector(0x2a);
    table.register_waiter(5, WaitObject { id: 0 });
    assert!(pci_interrupt_handler(&table, 0x30).is_none());
    assert_eq!(pci_interrupt_handler(&table, 0x2a), Some(&vec![]));
    assert!(table.contains_vector(0x2a));
    assert!(!table.contains_vector(0x30));
    assert_eq!(table.signal_all(5), Some(&vec![WaitObject { id: 0 }]));
}

#[test]
fn shared_vector_signals_all_waiters_once_in_order() {
    let mut table = InterruptRoutingTable::new();
    table.ensure_vector(0x2a);
    table.register_waiter(0x2a, WaitObject { id: 0 });
    table.register_waiter(0x2b, WaitObject { id: 1 });
    table.register_waiter(0x2a, WaitObject { id: 2 });
    let signalled = pci_interrupt_handler(&table, 0x2a).unwrap();
    assert_eq!(signalled, &vec![WaitObject { id: 0 }, WaitObject { id: 2 }]);
    assert_eq!(pci_interrupt_handler(&table, 0x2b), Some(&vec![WaitObject { id: 1 }]));
    assert_eq!(table.waiter_count(0x2a), 2);
}

#[test]
fn handler_widens_the_vector_number() {
    let mut table = InterruptRoutingTable::new();
    table.register_waiter(0xffff, WaitObject { id: 3 });
    table.register_waiter(0x1_ffff, WaitObject { id: 4 });
    assert_eq!(pci_interrupt_handler(&table, 0xffff), Some(&vec![WaitObject { id: 3 }]));
}
