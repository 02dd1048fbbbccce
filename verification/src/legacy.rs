//! Routing of legacy interrupt pins, as firmware describes it.

use crate::address::PciFunctionAddress;
use crate::bits::{bit_range_u64, get_bits_u64};
use std::collections::BTreeMap;
use vstd::prelude::*;

verus! {

/// One record of a firmware interrupt map.
#[derive(Clone, Copy, Debug, PartialEq, Eq, Structural)]
pub struct InterruptMapRecord {
    /// High word of the child unit address; it carries bus, device and
    /// function.
    pub child_unit_address_hi: u32,
    /// The child interrupt specifier: the interrupt pin.
    pub child_interrupt_specifier: u32,
    /// The parent interrupt specifier; its upper 32 bits are the platform
    /// vector.
    pub parent_interrupt_specifier: u64,
}

/// The masks that firmware gives for the child side of an interrupt map.
#[derive(Clone, Copy, Debug, PartialEq, Eq, Structural)]
pub struct InterruptMapMask {
    /// Mask for the high word of the child unit address.
    pub address_mask_hi: u32,
    /// Mask for the child interrupt specifier.
    pub interrupt_mask: u32,
}

/// What one record of an interrupt map says: the pin `pin` of `function` is
/// wired to the platform vector `vector`.
#[derive(Clone, Copy, Debug, PartialEq, Eq, Structural)]
pub struct LegacyRoute {
    pub function: PciFunctionAddress,
    pub pin: u8,
    pub vector: u32,
}

/// A function together with one of its interrupt pins.
pub type LegacyInterruptKey = (PciFunctionAddress, u8);

/// The route that a record describes under a mask: the function is decoded
/// from the masked high word of the child address, the pin is the low byte of
/// the masked child specifier, and the vector is the upper half of the parent
/// specifier.
pub open spec fn decode_route(record: InterruptMapRecord, mask: InterruptMapMask) -> LegacyRoute {
    LegacyRoute {
        function: PciFunctionAddress::decode(record.child_unit_address_hi & mask.address_mask_hi),
        pin: ((record.child_interrupt_specifier & mask.interrupt_mask) & 0xff) as u8,
        vector: bit_range_u64(record.parent_interrupt_specifier, 32, 64) as u32,
    }
}

/// The routes that a sequence of records describes. Where two records name
/// the same pin of the same function, the later one counts.
pub open spec fn routes_of(records: Seq<InterruptMapRecord>, mask: InterruptMapMask) -> Map<
    LegacyInterruptKey,
    u32,
>
    decreases records.len(),
{
    if records.len() == 0 {
        Map::empty()
    } else {
        let route = decode_route(records.last(), mask);
        routes_of(records.drop_last(), mask).insert((route.function, route.pin), route.vector)
    }
}

/// The vectors that a sequence of records names, each once, in the order in
/// which the records first name them.
pub open spec fn vectors_of(records: Seq<InterruptMapRecord>, mask: InterruptMapMask) -> Seq<u32>
    decreases records.len(),
{
    if records.len() == 0 {
        Seq::empty()
    } else {
        let earlier = vectors_of(records.drop_last(), mask);
        let vector = decode_route(records.last(), mask).vector;
        if earlier.contains(vector) {
            earlier
        } else {
            earlier.push(vector)
        }
    }
}

/// A record that is written for a pin of a valid function and for a vector
/// decodes to that pin, that function and that vector, under every mask that
/// lets the bits of the function and of the pin through. What the lower half
/// of the parent specifier holds plays no part.
pub proof fn lemma_decode_route_round_trip(
    function: PciFunctionAddress,
    pin: u8,
    vector: u32,
    detail: u32,
    mask: InterruptMapMask,
)
    requires
        function.wf(),
        function.child_address() & mask.address_mask_hi == function.child_address(),
        pin as u32 & mask.interrupt_mask == pin as u32,
    ensures
        decode_route(
            InterruptMapRecord {
                child_unit_address_hi: function.child_address(),
                child_interrupt_specifier: pin as u32,
                parent_interrupt_specifier: (vector as u64) << 32 | detail as u64,
            },
            mask,
        ) == (LegacyRoute { function, pin, vector }),
{
    crate::address::lemma_decode_child_address(function);
    assert((pin as u32) & 0xff == pin as u32) by (bit_vector);
    assert(bit_range_u64((vector as u64) << 32 | detail as u64, 32, 64) == vector as u64)
        by (bit_vector);
}

/// The pin of a function that a record speaks of under a mask.
pub open spec fn key_of(record: InterruptMapRecord, mask: InterruptMapMask) -> LegacyInterruptKey {
    (decode_route(record, mask).function, decode_route(record, mask).pin)
}

/// The table has an entry for the pin that each record speaks of, and the
/// entry holds the vector of that record unless a later record speaks of the
/// same pin.
pub proof fn lemma_routes_hold_records(
    records: Seq<InterruptMapRecord>,
    mask: InterruptMapMask,
    i: int,
)
    requires
        0 <= i < records.len(),
    ensures
        routes_of(records, mask).contains_key(key_of(records[i], mask)),
        (forall|j: int| i < j < records.len() ==> key_of(#[trigger] records[j], mask) != key_of(records[i], mask))
            ==> routes_of(records, mask)[key_of(records[i], mask)] == decode_route(
            records[i],
            mask,
        ).vector,
    decreases records.len(),
{
    let earlier = records.drop_last();
    if i < records.len() - 1 {
        lemma_routes_hold_records(earlier, mask, i);
        assert(earlier[i] == records[i]);
        if forall|j: int| i < j < records.len() ==> key_of(#[trigger] records[j], mask) != key_of(records[i], mask) {
            assert(key_of(records[records.len() - 1], mask) != key_of(records[i], mask));
            assert forall|j: int| i < j < earlier.len() implies key_of(#[trigger] earlier[j], mask)
                != key_of(earlier[i], mask) by {
                assert(earlier[j] == records[j]);
            }
        }
    }
}

/// Every entry of the table comes from a record: one that speaks of the
/// entry's pin and names the entry's vector.
pub proof fn lemma_routes_come_from_records(
    records: Seq<InterruptMapRecord>,
    mask: InterruptMapMask,
    key: LegacyInterruptKey,
)
    requires
        routes_of(records, mask).contains_key(key),
    ensures
        exists|i: int|
            0 <= i < records.len() && key_of(#[trigger] records[i], mask) == key && routes_of(
                records,
                mask,
            )[key] == decode_route(records[i], mask).vector,
        key.0.wf(),
    decreases records.len(),
{
    let earlier = records.drop_last();
    let last = records.len() - 1;
    if key_of(records[last], mask) == key {
        crate::address::lemma_decode_wf(records[last].child_unit_address_hi & mask.address_mask_hi);
    } else {
        lemma_routes_come_from_records(earlier, mask, key);
        let i = choose|i: int|
            0 <= i < earlier.len() && key_of(#[trigger] earlier[i], mask) == key && routes_of(
                earlier,
                mask,
            )[key] == decode_route(earlier[i], mask).vector;
        assert(records[i] == earlier[i]);
    }
}

/// Every vector that a route leads to is among the vectors that the records
/// name.
pub proof fn lemma_routes_name_vectors(records: Seq<InterruptMapRecord>, mask: InterruptMapMask)
    ensures
        forall|key: LegacyInterruptKey| #[trigger]
            routes_of(records, mask).contains_key(key) ==> vectors_of(records, mask).contains(
                routes_of(records, mask)[key],
            ),
    decreases records.len(),
{
    if records.len() > 0 {
        let earlier = records.drop_last();
        lemma_routes_name_vectors(earlier, mask);
        let route = decode_route(records.last(), mask);
        let before = vectors_of(earlier, mask);
        let after = vectors_of(records, mask);
        assert forall|key: LegacyInterruptKey| #[trigger]
            routes_of(records, mask).contains_key(key) implies after.contains(
            routes_of(records, mask)[key],
        ) by {
            let vector = routes_of(records, mask)[key];
            if key == (route.function, route.pin) {
                if before.contains(vector) {
                } else {
                    assert(after[after.len() - 1] == vector);
                }
            } else {
                assert(routes_of(earlier, mask).contains_key(key));
                let k = choose|k: int| 0 <= k < before.len() && before[k] == vector;
                assert(after[k] == vector);
            }
        }
    }
}

/// Decodes one record of an interrupt map under the map's mask.
pub fn decode_record(record: &InterruptMapRecord, mask: &InterruptMapMask) -> (r: LegacyRoute)
    ensures
        r == decode_route(*record, *mask),
        r.function.wf(),
{
    let child_address_hi: u32 = record.child_unit_address_hi & mask.address_mask_hi;
    let function = PciFunctionAddress::from_child_address(child_address_hi);
    let masked_pin: u32 = record.child_interrupt_specifier & mask.interrupt_mask;
    let pin: u32 = masked_pin & 0xff;
    assert(masked_pin & 0xff < 256) by (bit_vector);
    let vector: u64 = get_bits_u64(record.parent_interrupt_specifier, 32, 64);
    let specifier: u64 = record.parent_interrupt_specifier;
    assert(bit_range_u64(specifier, 32, 64) <= 0xffff_ffff) by (bit_vector);
    LegacyRoute { function, pin: pin as u8, vector: vector as u32 }
}

/// The integer under which the routes are stored: the unit address of the
/// function with the pin in its low byte.
pub open spec fn route_key(function: PciFunctionAddress, pin: u8) -> u32 {
    function.child_address() | pin as u32
}

/// Two pins of valid functions with the same key are the same pin of the
/// same function.
pub proof fn lemma_route_key_unique(a: PciFunctionAddress, p: u8, b: PciFunctionAddress, q: u8)
    requires
        a.wf(),
        b.wf(),
        route_key(a, p) == route_key(b, q),
    ensures
        a == b,
        p == q,
{
    let (ab, ad, af) = (a.bus, a.device, a.function);
    let (bb, bd, bf) = (b.bus, b.device, b.function);
    assert(ad < 32 && af < 8 && bd < 32 && bf < 8 && ((ab as u32) << 16 | (ad as u32) << 11 | (
    af as u32) << 8) | p as u32 == ((bb as u32) << 16 | (bd as u32) << 11 | (bf as u32) << 8)
        | q as u32 ==> ab == bb && ad == bd && af == bf && p == q) by (bit_vector);
}

/// The table from a pin of a function to the platform vector that the pin is
/// wired to. It is built once and only read afterwards.
pub struct LegacyInterruptResolver {
    routes: BTreeMap<u32, u32>,
}

impl View for LegacyInterruptResolver {
    type V = Map<LegacyInterruptKey, u32>;

    closed spec fn view(&self) -> Map<LegacyInterruptKey, u32> {
        Map::new(
            |key: LegacyInterruptKey| key.0.wf() && self.routes@.contains_key(route_key(key.0, key.1)),
            |key: LegacyInterruptKey| self.routes@[route_key(key.0, key.1)],
        )
    }
}

impl LegacyInterruptResolver {
    /// Every key of the table names a valid function.
    pub proof fn lemma_keys_valid(&self, function: PciFunctionAddress, pin: u8)
        requires
            self@.contains_key((function, pin)),
        ensures
            function.wf(),
    {
    }

    fn empty() -> (r: LegacyInterruptResolver)
        ensures
            r@ == Map::<LegacyInterruptKey, u32>::empty(),
    {
        let r = LegacyInterruptResolver { routes: BTreeMap::new() };
        assert(r@ =~= Map::<LegacyInterruptKey, u32>::empty());
        r
    }

    fn insert(&mut self, route: LegacyRoute)
        requires
            route.function.wf(),
        ensures
            final(self)@ == old(self)@.insert((route.function, route.pin), route.vector),
    {
        let key: u32 = route.function.to_child_address() | route.pin as u32;
        self.routes.insert(key, route.vector);
        proof {
            assert forall|other: LegacyInterruptKey|
                other.0.wf() && other != (route.function, route.pin) implies route_key(
                other.0,
                other.1,
            ) != key by {
                if route_key(other.0, other.1) == key {
                    lemma_route_key_unique(other.0, other.1, route.function, route.pin);
                }
            }
            assert(final(self)@ =~= old(self)@.insert((route.function, route.pin), route.vector));
        }
    }

    /// Builds the table from the records of a firmware interrupt map and the
    /// map's mask. Also gives the distinct vectors that the records name, in
    /// the order of their first appearance.
    pub fn build(records: &Vec<InterruptMapRecord>, mask: &InterruptMapMask) -> (r: (
        LegacyInterruptResolver,
        Vec<u32>,
    ))
        ensures
            r.0@ == routes_of(records@, *mask),
            r.1@ == vectors_of(records@, *mask),
    {
        let mut resolver = Self::empty();
        let mut vectors: Vec<u32> = Vec::new();
        let mut i: usize = 0;
        while i < records.len()
            invariant
                i <= records.len(),
                resolver@ == routes_of(records@.take(i as int), *mask),
                vectors@ == vectors_of(records@.take(i as int), *mask),
            decreases records.len() - i,
        {
            let route = decode_record(&records[i], mask);
            proof {
                assert(records@.take(i + 1).drop_last() == records@.take(i as int));
                assert(records@.take(i + 1).last() == records@[i as int]);
            }
            resolver.insert(route);
            if !contains_vector(&vectors, route.vector) {
                vectors.push(route.vector);
            }
            i += 1;
        }
        proof {
            assert(records@.take(i as int) == records@);
        }
        (resolver, vectors)
    }

    /// The vector that the pin of the function is wired to, or `None` where
    /// firmware has not described the pin.
    pub fn resolve(&self, function: PciFunctionAddress, pin: u8) -> (r: Option<u32>)
        ensures
            r == if self@.contains_key((function, pin)) {
                Some(self@[(function, pin)])
            } else {
                None
            },
    {
        if !function.is_valid() {
            return None;
        }
        let key: u32 = function.to_child_address() | pin as u32;
        match self.routes.get(&key) {
            Some(vector) => Some(*vector),
            None => None,
        }
    }
}

/// Whether `vector` occurs in `vectors`.
fn contains_vector(vectors: &Vec<u32>, vector: u32) -> (r: bool)
    ensures
        r == vectors@.contains(vector),
{
    let mut i: usize = 0;
    while i < vectors.len()
        invariant
            i <= vectors.len(),
            forall|j: int| 0 <= j < i ==> vectors@[j] != vector,
        decreases vectors.len() - i,
    {
        if vectors[i] == vector {
            return true;
        }
        i += 1;
    }
    false
}

} // verus!
