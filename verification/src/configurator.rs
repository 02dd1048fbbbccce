//! Binding the interrupts of PCI functions to wait-objects.

use crate::address::{PciFunctionAddress, FUNCTION_SPACE};
use crate::error::ConfigureError;
use crate::legacy::{
    routes_of, vectors_of, InterruptMapMask, InterruptMapRecord, LegacyInterruptKey,
    LegacyInterruptResolver,
};
use crate::msi::{
    table_base, table_base_of, table_entry_for, Bar, MsiCapability, MsixCapability, MsixTableEntry,
};
use crate::routing::{registered, signalled, InterruptRoutingTable, WaitObject};
use crate::window::{ConfigSpaceWindow, REGISTER_WIDTH};
use vstd::prelude::*;

verus! {

/// The platform vector that message-signalled interrupts are delivered on.
pub const MSI_VECTOR: u32 = 2;

/// The platform vector that the first entry of an MSI-X table is delivered on.
pub const MSIX_VECTOR: u32 = 3;

/// The address that a device writes its interrupt message to.
pub const MESSAGE_ADDRESS: u64 = 0x2800_0000;

/// What arming MSI-X on a function comes to: the wait-object that its
/// interrupt signals, where its table lies, and the entry to write there.
#[derive(Clone, Copy, Debug, PartialEq, Eq, Structural)]
pub struct MsixConfiguration {
    /// The wait-object that the interrupt signals.
    pub wait_object: WaitObject,
    /// Physical address of the first entry of the MSI-X table.
    pub table_base: u64,
    /// What to write to that entry.
    pub entry: MsixTableEntry,
}

/// The state of a subsystem: what its window, its two tables and the record
/// of the wait-objects it has issued hold.
pub struct PciAccessView {
    /// The window onto configuration space.
    pub window: ConfigSpaceWindow,
    /// The vector that each described pin is wired to.
    pub legacy: Map<LegacyInterruptKey, u32>,
    /// The wait-objects registered under each known vector.
    pub routing: Map<u32, Seq<WaitObject>>,
    /// For each wait-object issued so far, by its id, the vector that it was
    /// registered under.
    pub issued: Seq<u32>,
}

impl PciAccessView {
    /// The state is consistent: every vector that a pin is wired to has an
    /// entry in the routing table; the routing table holds exactly the
    /// wait-objects issued so far, each once and under the vector it was
    /// issued for.
    pub open spec fn wf(self) -> bool {
        &&& forall|key: LegacyInterruptKey| #[trigger]
            self.legacy.contains_key(key) ==> self.routing.contains_key(self.legacy[key])
        &&& forall|vector: u32, i: int|
            self.routing.contains_key(vector) && 0 <= i < self.routing[vector].len() ==> {
                let waiter = #[trigger] self.routing[vector][i];
                waiter.id < self.issued.len() && self.issued[waiter.id as int] == vector
            }
        &&& forall|vector: u32, i: int, j: int|
            self.routing.contains_key(vector) && 0 <= i < j < self.routing[vector].len()
                ==> #[trigger] self.routing[vector][i] != #[trigger] self.routing[vector][j]
        &&& forall|id: int|
            0 <= id < self.issued.len() ==> {
                let vector = #[trigger] self.issued[id];
                self.routing.contains_key(vector) && self.routing[vector].contains(
                    WaitObject { id: id as usize },
                )
            }
    }

    /// The wait-object that the next configuration will issue.
    pub open spec fn next_wait_object(self) -> WaitObject {
        WaitObject { id: self.issued.len() as usize }
    }

    /// The state after a fresh wait-object is issued and registered under
    /// `vector`.
    pub open spec fn issue(self, vector: u32) -> PciAccessView {
        PciAccessView {
            routing: registered(self.routing, vector, self.next_wait_object()),
            issued: self.issued.push(vector),
            ..self
        }
    }
}

/// The interrupt routing and device-configuration subsystem of one PCI host
/// bridge.
pub struct PciAccess {
    window: ConfigSpaceWindow,
    legacy: LegacyInterruptResolver,
    routing: InterruptRoutingTable,
    issued: Vec<u32>,
}

impl View for PciAccess {
    type V = PciAccessView;

    closed spec fn view(&self) -> PciAccessView {
        PciAccessView {
            window: self.window,
            legacy: self.legacy@,
            routing: self.routing@,
            issued: self.issued@,
        }
    }
}

impl PciAccess {
    /// Sets the subsystem up for the window `window` and the legacy wiring
    /// that the records of a firmware interrupt map describe under `mask`.
    /// Every vector that the records name gets an entry without waiters in
    /// the routing table. The second result lists those vectors, each once:
    /// the caller binds each of them to the interrupt handler.
    pub fn new(
        window: ConfigSpaceWindow,
        records: &Vec<InterruptMapRecord>,
        mask: &InterruptMapMask,
    ) -> (r: (PciAccess, Vec<u32>))
        ensures
            r.0@.wf(),
            r.0@.window == window,
            r.0@.legacy == routes_of(records@, *mask),
            r.0@.routing == Map::new(
                |vector: u32| vectors_of(records@, *mask).contains(vector),
                |vector: u32| Seq::<WaitObject>::empty(),
            ),
            r.0@.issued == Seq::<u32>::empty(),
            r.1@ == vectors_of(records@, *mask),
    {
        let (legacy, vectors) = LegacyInterruptResolver::build(records, mask);
        let mut routing = InterruptRoutingTable::new();
        let mut i: usize = 0;
        while i < vectors.len()
            invariant
                i <= vectors.len(),
                routing@ == Map::new(
                    |vector: u32| vectors@.take(i as int).contains(vector),
                    |vector: u32| Seq::<WaitObject>::empty(),
                ),
            decreases vectors.len() - i,
        {
            routing.ensure_vector(vectors[i]);
            proof {
                let before = vectors@.take(i as int);
                let after = vectors@.take(i + 1);
                assert(after == before.push(vectors@[i as int]));
                assert forall|vector: u32|
                    after.contains(vector) <==> (before.contains(vector) || vector == vectors@[i as int]) by {
                    if before.contains(vector) {
                        let k = choose|k: int| 0 <= k < before.len() && before[k] == vector;
                        assert(after[k] == vector);
                    }
                    if vector == vectors@[i as int] {
                        assert(after[i as int] == vector);
                    }
                }
                assert(routing@ =~= Map::new(
                    |vector: u32| after.contains(vector),
                    |vector: u32| Seq::<WaitObject>::empty(),
                ));
            }
            i += 1;
        }
        proof {
            assert(vectors@.take(i as int) == vectors@);
            crate::legacy::lemma_routes_name_vectors(records@, *mask);
        }
        let access = PciAccess { window, legacy, routing, issued: Vec::new() };
        (access, vectors)
    }

    /// The window onto configuration space.
    pub fn window(&self) -> (r: ConfigSpaceWindow)
        ensures
            r == self@.window,
    {
        self.window
    }

    /// The address of the function's slice of configuration space, or `None`
    /// where the window does not cover the function.
    pub fn address_for(&self, function: PciFunctionAddress) -> (r: Option<usize>)
        ensures
            r == if self@.window.covers(function) {
                Some(self@.window.function_address(function) as usize)
            } else {
                None
            },
            r matches Some(address) ==> self@.window.base <= address && address + FUNCTION_SPACE
                <= self@.window.base + self@.window.size,
    {
        self.window.address_for(function)
    }

    /// The address of the configuration register at `offset` of the
    /// function, or `None` where the window does not cover the function or
    /// the offset is not that of a register.
    pub fn register_address(&self, function: PciFunctionAddress, offset: u16) -> (r: Option<usize>)
        ensures
            r == if self@.window.covers(function) && ConfigSpaceWindow::register_offset_ok(offset) {
                Some((self@.window.function_address(function) + offset) as usize)
            } else {
                None
            },
            r matches Some(address) ==> self@.window.base <= address && address + REGISTER_WIDTH
                <= self@.window.base + self@.window.size,
    {
        self.window.register_address(function, offset)
    }

    /// The routing table.
    pub fn routing(&self) -> (r: &InterruptRoutingTable)
        ensures
            r@ == self@.routing,
    {
        &self.routing
    }

    /// The table of legacy interrupt wiring.
    pub fn legacy(&self) -> (r: &LegacyInterruptResolver)
        ensures
            r@ == self@.legacy,
    {
        &self.legacy
    }

    /// The number of wait-objects issued so far.
    pub fn issued_count(&self) -> (r: usize)
        ensures
            r == self@.issued.len(),
    {
        self.issued.len()
    }

    /// Issues a fresh wait-object and registers it under `vector`.
    fn issue(&mut self, vector: u32) -> (r: WaitObject)
        requires
            old(self)@.wf(),
        ensures
            r == old(self)@.next_wait_object(),
            final(self)@ == old(self)@.issue(vector),
            final(self)@.wf(),
    {
        let waiter = WaitObject { id: self.issued.len() };
        proof {
            lemma_issue_keeps_wf(self@, vector);
        }
        self.routing.register_waiter(vector, waiter);
        self.issued.push(vector);
        waiter
    }

    /// Binds the legacy interrupt pin `pin` of `function` to a fresh
    /// wait-object. The pin must be one that firmware has described; for any
    /// other the call fails and changes nothing. No register of the device
    /// needs writing.
    pub fn configure_legacy(&mut self, function: PciFunctionAddress, pin: u8) -> (r: Result<
        WaitObject,
        ConfigureError,
    >)
        requires
            old(self)@.wf(),
        ensures
            final(self)@.wf(),
            match r {
                Ok(waiter) => {
                    &&& old(self)@.legacy.contains_key((function, pin))
                    &&& waiter == old(self)@.next_wait_object()
                    &&& final(self)@ == old(self)@.issue(old(self)@.legacy[(function, pin)])
                },
                Err(error) => {
                    &&& !old(self)@.legacy.contains_key((function, pin))
                    &&& error == ConfigureError::UnroutedPin
                    &&& final(self)@ == old(self)@
                },
            },
    {
        match self.legacy.resolve(function, pin) {
            Some(vector) => Ok(self.issue(vector)),
            None => Err(ConfigureError::UnroutedPin),
        }
    }

    /// Binds the message-signalled interrupt of `function` to a fresh
    /// wait-object, registered under the vector for such interrupts. `msi`
    /// comes back holding what the function's MSI capability is to be
    /// programmed with: the message address, the vector as the message, and
    /// delivery enabled. The caller binds the vector to the interrupt handler
    /// and programs the capability.
    pub fn configure_msi(&mut self, function: PciFunctionAddress, msi: &mut MsiCapability) -> (r:
        WaitObject)
        requires
            old(self)@.wf(),
        ensures
            final(self)@.wf(),
            r == old(self)@.next_wait_object(),
            final(self)@ == old(self)@.issue(MSI_VECTOR),
            *final(msi) == (MsiCapability {
                message_address: MESSAGE_ADDRESS,
                message_data: MSI_VECTOR,
                enabled: true,
            }),
    {
        let waiter = self.issue(MSI_VECTOR);
        msi.message_address = MESSAGE_ADDRESS;
        msi.message_data = MSI_VECTOR;
        msi.enabled = true;
        waiter
    }

    /// Binds the first MSI-X interrupt of `function` to a fresh wait-object,
    /// registered under the vector for such interrupts. The table of the
    /// capability lies in `table_bar`, which has to be a memory BAR that can
    /// address the table; otherwise the call fails and changes nothing. On
    /// success `msix` comes back enabled, and the result says where the table
    /// lies and what to write to its first entry: the message address, the
    /// vector as the message, and the entry unmasked. The caller binds the
    /// vector to the interrupt handler, enables the capability and writes the
    /// entry.
    pub fn configure_msix(
        &mut self,
        function: PciFunctionAddress,
        table_bar: Bar,
        msix: &mut MsixCapability,
    ) -> (r: Result<MsixConfiguration, ConfigureError>)
        requires
            old(self)@.wf(),
        ensures
            final(self)@.wf(),
            match r {
                Ok(configuration) => {
                    &&& table_base_of(table_bar, old(msix).table_offset) == Ok::<
                        u64,
                        ConfigureError,
                    >(configuration.table_base)
                    &&& configuration.wait_object == old(self)@.next_wait_object()
                    &&& configuration.entry == table_entry_for(MESSAGE_ADDRESS, MSIX_VECTOR)
                    &&& final(self)@ == old(self)@.issue(MSIX_VECTOR)
                    &&& *final(msix) == (MsixCapability { enabled: true, ..*old(msix) })
                },
                Err(error) => {
                    &&& table_base_of(table_bar, old(msix).table_offset) == Err::<
                        u64,
                        ConfigureError,
                    >(error)
                    &&& final(self)@ == old(self)@
                    &&& *final(msix) == *old(msix)
                },
            },
    {
        match table_base(&table_bar, msix.table_offset) {
            Ok(base) => {
                let wait_object = self.issue(MSIX_VECTOR);
                msix.enabled = true;
                Ok(
                    MsixConfiguration {
                        wait_object,
                        table_base: base,
                        entry: MsixTableEntry::new(MESSAGE_ADDRESS, MSIX_VECTOR),
                    },
                )
            },
            Err(error) => Err(error),
        }
    }
}

/// Issuing a wait-object keeps a consistent state consistent.
pub proof fn lemma_issue_keeps_wf(state: PciAccessView, vector: u32)
    requires
        state.wf(),
        state.issued.len() <= usize::MAX,
    ensures
        state.issue(vector).wf(),
{
    let next = state.issue(vector);
    let fresh = state.next_wait_object();
    assert forall|v: u32, i: int|
        next.routing.contains_key(v) && 0 <= i < next.routing[v].len() implies {
        let waiter = #[trigger] next.routing[v][i];
        waiter.id < next.issued.len() && next.issued[waiter.id as int] == v
    } by {
        if v == vector && i == next.routing[v].len() - 1 {
        } else {
            assert(state.routing.contains_key(v));
            assert(next.routing[v][i] == state.routing[v][i]);
        }
    }
    assert forall|v: u32, i: int, j: int|
        next.routing.contains_key(v) && 0 <= i < j < next.routing[v].len() implies #[trigger]
        next.routing[v][i] != #[trigger] next.routing[v][j] by {
        if v == vector {
            if j == next.routing[v].len() - 1 {
                assert(next.routing[v][j] == fresh);
                assert(state.routing.contains_key(v));
                assert(next.routing[v][i] == state.routing[v][i]);
            } else {
                assert(next.routing[v][i] == state.routing[v][i]);
                assert(next.routing[v][j] == state.routing[v][j]);
            }
        } else {
            assert(next.routing[v][i] == state.routing[v][i]);
            assert(next.routing[v][j] == state.routing[v][j]);
        }
    }
    assert forall|id: int| 0 <= id < next.issued.len() implies {
        let v = #[trigger] next.issued[id];
        next.routing.contains_key(v) && next.routing[v].contains(WaitObject { id: id as usize })
    } by {
        let v = next.issued[id];
        if id == state.issued.len() {
            let last = next.routing[v].len() - 1;
            assert(next.routing[v][last] == fresh);
        } else {
            assert(v == state.issued[id]);
            let w = WaitObject { id: id as usize };
            let k = choose|k: int| 0 <= k < state.routing[v].len() && state.routing[v][k] == w;
            assert(next.routing[v][k] == w);
        }
    }
}

/// The wait-object that a configuration issues is none of those issued
/// before, and the one issued after it is another again: every call returns a
/// wait-object of its own.
pub proof fn lemma_wait_objects_distinct(state: PciAccessView, first: u32, second: u32)
    requires
        state.wf(),
        state.issued.len() < usize::MAX,
    ensures
        forall|vector: u32|
            !(#[trigger] signalled(state.routing, vector)).contains(state.next_wait_object()),
        state.issue(first).next_wait_object() != state.next_wait_object(),
        state.issue(first).issue(second).wf(),
{
    let fresh = state.next_wait_object();
    assert forall|vector: u32| !(#[trigger] signalled(state.routing, vector)).contains(fresh) by {
        if signalled(state.routing, vector).contains(fresh) {
            let i = choose|i: int|
                0 <= i < state.routing[vector].len() && state.routing[vector][i] == fresh;
            assert(state.routing[vector][i].id < state.issued.len());
        }
    }
    lemma_issue_keeps_wf(state, first);
    lemma_issue_keeps_wf(state.issue(first), second);
}

/// An interrupt on a vector signals a wait-object if and only if the
/// wait-object was registered under that vector, and then signals it once.
pub proof fn lemma_signalled_iff_registered(state: PciAccessView, waiter: WaitObject, vector: u32)
    requires
        state.wf(),
        waiter.id < state.issued.len(),
    ensures
        signalled(state.routing, vector).contains(waiter) <==> state.issued[waiter.id as int]
            == vector,
        signalled(state.routing, vector).no_duplicates(),
{
    let home = state.issued[waiter.id as int];
    assert(state.routing[home].contains(WaitObject { id: waiter.id as int as usize }));
    if signalled(state.routing, vector).contains(waiter) {
        let i = choose|i: int|
            0 <= i < state.routing[vector].len() && state.routing[vector][i] == waiter;
        assert(state.issued[state.routing[vector][i].id as int] == vector);
    }
    if state.routing.contains_key(vector) {
        let waiters = state.routing[vector];
        assert forall|i: int, j: int|
            0 <= i < waiters.len() && 0 <= j < waiters.len() && i != j implies waiters[i]
            != waiters[j] by {
            if i < j {
                assert(state.routing[vector][i] != state.routing[vector][j]);
            } else {
                assert(state.routing[vector][j] != state.routing[vector][i]);
            }
        }
    }
}

/// Issuing a wait-object under a vector adds it behind the waiters of that
/// vector and changes the waiters of no other vector; no vector loses its
/// entry, and the legacy wiring stays as firmware described it.
pub proof fn lemma_issue_effect(state: PciAccessView, vector: u32)
    ensures
        signalled(state.issue(vector).routing, vector) == signalled(state.routing, vector).push(
            state.next_wait_object(),
        ),
        forall|other: u32|
            other != vector ==> #[trigger] signalled(state.issue(vector).routing, other)
                == signalled(state.routing, other),
        state.routing.dom().subset_of(state.issue(vector).routing.dom()),
        state.issue(vector).legacy == state.legacy,
        state.issue(vector).window == state.window,
{
}

} // verus!
