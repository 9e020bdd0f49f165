//! Identifiers of network resources with a listener bit: the top bit tells a
//! listener, the seven bits below hold the adapter id, and the low bits hold
//! a counter value.
use vstd::prelude::*;
use std::sync::atomic::{AtomicUsize, Ordering};

verus! {

/// Information about the type of resource
#[derive(Clone, Copy, PartialEq, Eq, Debug, Structural)]
pub enum ResourceType {
    Listener,
    Remote,
}

/// The bit that marks a listener.
pub const RESOURCE_TYPE_BIT: u64 = 0x8000_0000_0000_0000;

/// The raw identifier of a resource made from a counter value.
pub open spec fn pack(id: u64, resource_type: ResourceType, adapter_id: u8) -> u64 {
    match resource_type {
        ResourceType::Listener => id | RESOURCE_TYPE_BIT | ((adapter_id as u64) << 56u64),
        ResourceType::Remote => id | ((adapter_id as u64) << 56u64),
    }
}

/// The raw identifier of a resource made from a `usize` counter value.
pub open spec fn pack_counter(last: usize, resource_type: ResourceType, adapter_id: u8) -> u64 {
    pack(last as u64, resource_type, adapter_id)
}

/// The resource type held in a raw identifier: its top bit.
pub open spec fn resource_type_of(raw: u64) -> ResourceType {
    if raw >= 0x8000_0000_0000_0000 {
        ResourceType::Listener
    } else {
        ResourceType::Remote
    }
}

/// The adapter id held in a raw identifier: the seven bits below the top one.
pub open spec fn adapter_id_of(raw: u64) -> u8 {
    ((raw / 0x0100_0000_0000_0000) % 128) as u8
}

/// Identifier of the network resource. each network resource has an unique id.
#[derive(Clone, Copy, PartialEq, Eq, Hash, Debug, Structural)]
pub struct ResourceId {
    id: u64,
}

impl View for ResourceId {
    type V = u64;

    /// The raw identifier.
    closed spec fn view(&self) -> u64 {
        self.id
    }
}

impl ResourceId {
    /// Makes the identifier of a resource from a counter value: it gets the
    /// adapter id, and a listener also gets the listener bit.
    fn new(id: usize, resource_type: ResourceType, adapter_id: u8) -> (resource_id: Self)
        requires
            adapter_id <= 0x7f,
        ensures
            resource_id@ == pack(id as u64, resource_type, adapter_id),
    {
        let wide = id as u64;
        let raw = match resource_type {
            ResourceType::Listener => wide | RESOURCE_TYPE_BIT | ((adapter_id as u64) << 56u64),
            ResourceType::Remote => wide | ((adapter_id as u64) << 56u64),
        };
        ResourceId { id: raw }
    }

    /// The identifier whose raw value is `raw`.
    pub closed spec fn spec_from(raw: u64) -> Self {
        ResourceId { id: raw }
    }

    /// Creates a [ResourceId] from an id
    pub fn from(raw: usize) -> (resource_id: Self)
        ensures
            resource_id@ == raw as u64,
            resource_id == Self::spec_from(raw as u64),
    {
        Self { id: raw as u64 }
    }

    /// Returns the internal representation of this id
    pub fn raw(&self) -> (raw: usize)
        ensures
            raw == self@ as usize,
    {
        self.id as usize
    }

    /// Returns the ResourceType of this id
    pub fn resource_type(&self) -> (resource_type: ResourceType)
        ensures
            resource_type == resource_type_of(self@),
    {
        let id = self.id;
        let bit = id & RESOURCE_TYPE_BIT;
        assert(bit != 0 <==> id >= 0x8000_0000_0000_0000) by (bit_vector)
            requires
                bit == id & 0x8000_0000_0000_0000u64,
        ;
        if bit != 0 {
            ResourceType::Listener
        } else {
            ResourceType::Remote
        }
    }

    /// Returns the associated transport adapter id.
    pub fn adapter_id(&self) -> (adapter_id: u8)
        ensures
            adapter_id == adapter_id_of(self@),
    {
        let id = self.id;
        let bits = (id & (0x7fu64 << 56u64)) >> 56u64;
        assert(bits == (id / 0x0100_0000_0000_0000) % 128 && bits < 128) by (bit_vector)
            requires
                bits == (id & (0x7fu64 << 56u64)) >> 56u64,
        ;
        bits as u8
    }
}

/// An identifier is determined by its raw value.
pub proof fn lemma_view_determines(a: ResourceId, b: ResourceId)
    requires
        a@ == b@,
    ensures
        a == b,
{
}

/// Reading back the raw value of an identifier made from a `usize` gives that
/// value; an identifier whose raw value fits in a `usize` (every identifier
/// on 64-bit targets) is the one made from its raw value.
pub proof fn lemma_raw_roundtrip(raw: usize, id: ResourceId)
    ensures
        ((ResourceId::spec_from(raw as u64))@ as usize) == raw,
        id@ <= usize::MAX ==> ResourceId::spec_from((id@ as usize) as u64) == id,
{
}

/// The identifier made from a raw value holds that value.
pub proof fn lemma_spec_from(raw: u64)
    ensures
        ResourceId::spec_from(raw)@ == raw,
{
}

/// An identifier made from a counter value below the adapter bits reads back
/// as a resource of its type and adapter, and keeps the counter value in its
/// low bits.
pub proof fn lemma_pack_roundtrip(id: u64, resource_type: ResourceType, adapter_id: u8)
    requires
        id < 0x0100_0000_0000_0000,
        adapter_id <= 0x7f,
    ensures
        resource_type_of(pack(id, resource_type, adapter_id)) == resource_type,
        adapter_id_of(pack(id, resource_type, adapter_id)) == adapter_id,
        pack(id, resource_type, adapter_id) % 0x0100_0000_0000_0000 == id,
{
    let raw = pack(id, resource_type, adapter_id);
    let a = adapter_id as u64;
    if resource_type == ResourceType::Listener {
        assert(raw >= 0x8000_0000_0000_0000 && (raw / 0x0100_0000_0000_0000) % 128 == a && raw
            % 0x0100_0000_0000_0000 == id) by (bit_vector)
            requires
                raw == id | 0x8000_0000_0000_0000u64 | (a << 56u64),
                id < 0x0100_0000_0000_0000,
                a <= 0x7f,
        ;
    } else {
        assert(raw < 0x8000_0000_0000_0000 && (raw / 0x0100_0000_0000_0000) % 128 == a && raw
            % 0x0100_0000_0000_0000 == id) by (bit_vector)
            requires
                raw == id | (a << 56u64),
                id < 0x0100_0000_0000_0000,
                a <= 0x7f,
        ;
    }
}

/// [`lemma_pack_roundtrip`] for a `usize` counter value.
proof fn lemma_counter_roundtrip(last: usize, resource_type: ResourceType, adapter_id: u8)
    requires
        adapter_id <= 0x7f,
    ensures
        last < 0x0100_0000_0000_0000 ==> {
            &&& resource_type_of(pack_counter(last, resource_type, adapter_id)) == resource_type
            &&& adapter_id_of(pack_counter(last, resource_type, adapter_id)) == adapter_id
            &&& pack_counter(last, resource_type, adapter_id) % 0x0100_0000_0000_0000 == last
        },
{
    if last < 0x0100_0000_0000_0000 {
        lemma_pack_roundtrip(last as u64, resource_type, adapter_id);
    }
}

/// Used by the adapters in order to create unique ids for their resources.
pub struct ResourceIdGenerator {
    last: AtomicUsize,
    adapter_id: u8,
}

impl ResourceIdGenerator {
    /// The adapter id of the identifiers this generator makes.
    pub closed spec fn spec_adapter_id(self) -> u8 {
        self.adapter_id
    }

    /// Creates a generator whose counter starts at 0.
    pub fn new(adapter_id: u8) -> (generator: Self)
        ensures
            generator.spec_adapter_id() == adapter_id,
    {
        Self { last: AtomicUsize::new(0), adapter_id }
    }

    /// Generates a new id.
    /// This id will contain information about the [ResourceType] and the associated adapter.
    /// It is made from the value the shared counter held, which is then incremented.
    pub fn generate(&self, resource_type: ResourceType) -> (id: ResourceId)
        requires
            self.spec_adapter_id() <= 0x7f,
        ensures
            exists|last: usize|
                {
                    &&& id@ == pack_counter(last, resource_type, self.spec_adapter_id())
                    &&& last < 0x0100_0000_0000_0000 ==> {
                        &&& resource_type_of(id@) == resource_type
                        &&& adapter_id_of(id@) == self.spec_adapter_id()
                        &&& id@ % 0x0100_0000_0000_0000 == last
                    }
                },
    {
        let last = self.last.fetch_add(1, Ordering::SeqCst);
        let id = ResourceId::new(last, resource_type, self.adapter_id);
        proof {
            lemma_counter_roundtrip(last, resource_type, self.adapter_id);
        }
        assert(id@ == pack_counter(last, resource_type, self.spec_adapter_id()));
        id
    }
}

} // verus!
