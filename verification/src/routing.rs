//! The table that routes platform interrupt vectors to wait-objects.

use std::collections::BTreeMap;
use vstd::prelude::*;

verus! {

/// A handle on a signalable wait-object. Signalling it wakes every task that
/// blocks on it.
#[derive(Clone, Copy, Debug, PartialEq, Eq, Structural)]
pub struct WaitObject {
    pub id: usize,
}

/// The wait-objects that an interrupt on `vector` signals, in the order of
/// their registration: those of the vector's entry, and none where the vector
/// has no entry.
pub open spec fn signalled(table: Map<u32, Seq<WaitObject>>, vector: u32) -> Seq<WaitObject> {
    if table.contains_key(vector) {
        table[vector]
    } else {
        Seq::empty()
    }
}

/// The table after `waiter` is registered under `vector`: the waiter comes
/// last in the vector's entry, and every other entry stays as it is.
pub open spec fn registered(
    table: Map<u32, Seq<WaitObject>>,
    vector: u32,
    waiter: WaitObject,
) -> Map<u32, Seq<WaitObject>> {
    table.insert(vector, signalled(table, vector).push(waiter))
}

/// Maps each known platform vector to the wait-objects registered under it,
/// in the order of their registration.
pub struct InterruptRoutingTable {
    entries: BTreeMap<u32, Vec<WaitObject>>,
}

impl View for InterruptRoutingTable {
    type V = Map<u32, Seq<WaitObject>>;

    closed spec fn view(&self) -> Map<u32, Seq<WaitObject>> {
        self.entries@.map_values(|waiters: Vec<WaitObject>| waiters@)
    }
}

impl InterruptRoutingTable {
    /// A table that knows no vector.
    pub fn new() -> (r: InterruptRoutingTable)
        ensures
            r@ == Map::<u32, Seq<WaitObject>>::empty(),
    {
        InterruptRoutingTable { entries: BTreeMap::new() }
    }

    /// Whether the table has an entry for the vector.
    pub fn contains_vector(&self, vector: u32) -> (r: bool)
        ensures
            r == self@.contains_key(vector),
    {
        self.entries.contains_key(&vector)
    }

    /// Gives the vector an entry without waiters unless it has an entry.
    pub fn ensure_vector(&mut self, vector: u32)
        ensures
            final(self)@ == if old(self)@.contains_key(vector) {
                old(self)@
            } else {
                old(self)@.insert(vector, Seq::empty())
            },
    {
        if !self.entries.contains_key(&vector) {
            self.entries.insert(vector, Vec::new());
        }
    }

    /// Registers the waiter under the vector, behind those registered there
    /// before. A vector without an entry gets one.
    pub fn register_waiter(&mut self, vector: u32, waiter: WaitObject)
        ensures
            final(self)@ == registered(old(self)@, vector, waiter),
    {
        let mut waiters = match self.entries.remove(&vector) {
            Some(waiters) => waiters,
            None => Vec::new(),
        };
        waiters.push(waiter);
        self.entries.insert(vector, waiters);
    }

    /// The wait-objects to signal for an interrupt on the vector, in the
    /// order of their registration; `None` where the vector has no entry, in
    /// which case the interrupt is dropped.
    pub fn signal_all(&self, vector: u32) -> (r: Option<&Vec<WaitObject>>)
        ensures
            r.is_some() == self@.contains_key(vector),
            r matches Some(waiters) ==> waiters@ == self@[vector],
            signalled(self@, vector) == match r {
                Some(waiters) => waiters@,
                None => Seq::empty(),
            },
    {
        self.entries.get(&vector)
    }

    /// The number of wait-objects registered under the vector.
    pub fn waiter_count(&self, vector: u32) -> (r: usize)
        ensures
            r == signalled(self@, vector).len(),
    {
        match self.entries.get(&vector) {
            Some(waiters) => waiters.len(),
            None => 0,
        }
    }
}

/// Answers an interrupt on vector `number`: gives the wait-objects to signal,
/// each once and in the order of registration, or `None` where the table has
/// no entry for the vector. The table is left as it is.
pub fn pci_interrupt_handler(routing: &InterruptRoutingTable, number: u16) -> (r: Option<
    &Vec<WaitObject>,
>)
    ensures
        r.is_some() == routing@.contains_key(number as u32),
        signalled(routing@, number as u32) == match r {
            Some(waiters) => waiters@,
            None => Seq::empty(),
        },
{
    routing.signal_all(number as u32)
}

/// Two wait-objects registered under one vector are both signalled by an
/// interrupt on that vector, behind those registered before them and in the
/// order of their registration.
pub proof fn lemma_shared_vector_signals_both(
    table: Map<u32, Seq<WaitObject>>,
    vector: u32,
    first: WaitObject,
    second: WaitObject,
)
    ensures
        signalled(registered(registered(table, vector, first), vector, second), vector)
            == signalled(table, vector).push(first).push(second),
        signalled(registered(registered(table, vector, first), vector, second), vector).contains(
            first,
        ),
        signalled(registered(registered(table, vector, first), vector, second), vector).contains(
            second,
        ),
{
    let after = signalled(registered(registered(table, vector, first), vector, second), vector);
    let n = signalled(table, vector).len() as int;
    assert(after[n] == first);
    assert(after[n + 1] == second);
}

/// Registering a waiter takes no entry away and leaves the waiters of every
/// other vector as they are.
pub proof fn lemma_registered_grows(table: Map<u32, Seq<WaitObject>>, vector: u32, waiter: WaitObject)
    ensures
        table.dom().subset_of(registered(table, vector, waiter).dom()),
        registered(table, vector, waiter).contains_key(vector),
        forall|other: u32|
            other != vector ==> #[trigger] signalled(registered(table, vector, waiter), other)
                == signalled(table, other),
{
}

/// An interrupt on a vector without an entry, or with an entry without
/// waiters, signals nothing.
pub proof fn lemma_no_waiters_nothing_signalled(table: Map<u32, Seq<WaitObject>>, vector: u32)
    requires
        !table.contains_key(vector) || table[vector].len() == 0,
    ensures
        signalled(table, vector) == Seq::<WaitObject>::empty(),
{
}

} // verus!
