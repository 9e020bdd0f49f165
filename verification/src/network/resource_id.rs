//! Identifiers of network resources: an adapter id, a resource type and a
//! base value packed in one integer.
use vstd::prelude::*;
use std::sync::atomic::{AtomicUsize, Ordering};
use vstd::string::StringExecFns;
use crate::util::text::{decimal, push_decimal};

verus! {

/// Information about the type of resource
#[derive(Clone, Copy, PartialEq, Eq, Hash, Debug, Structural)]
pub enum ResourceType {
    Local,
    Remote,
}

/// The adapter id held in a raw identifier: its lowest seven bits.
pub open spec fn adapter_id_of(raw: u64) -> u8 {
    (raw % 128) as u8
}

/// The resource type held in a raw identifier: its eighth bit.
pub open spec fn resource_type_of(raw: u64) -> ResourceType {
    if (raw / 128) % 2 == 1 {
        ResourceType::Local
    } else {
        ResourceType::Remote
    }
}

/// The base value held in a raw identifier: its upper seven bytes.
pub open spec fn base_value_of(raw: u64) -> u64 {
    (raw / 256) as u64
}

/// The raw identifier made of an adapter id, a resource type and a base value.
pub open spec fn compose(adapter_id: u8, resource_type: ResourceType, base_value: u64) -> int {
    adapter_id + 128 * (if resource_type == ResourceType::Local { 1int } else { 0int }) + 256
        * base_value
}

/// Unique identifier of a network resource in your system.
/// The identifier wrap 3 values,
/// - The type, that can be a value of [ResourceType].
/// - The adapter id, that represents the adapter that creates this id
/// - The base value: that is an unique identifier of the resource inside of its adapter.
#[derive(Clone, Copy, PartialEq, Eq, Hash, Debug, Structural)]
pub struct ResourceId {
    id: u64,
}

impl View for ResourceId {
    type V = u64;

    /// The raw identifier.
    closed spec fn view(&self) -> u64 {
        self.id
    }
}

impl ResourceId {
    /// The greatest base value an identifier can hold (seven bytes).
    pub const MAX_BASE_VALUE: u64 = 0x00FF_FFFF_FFFF_FFFF;

    /// The greatest adapter id an identifier can hold (seven bits).
    pub const MAX_ADAPTER_ID: u8 = 127;

    /// The number of adapter ids.
    pub const MAX_ADAPTERS: usize = 128;

    /// Packs an adapter id, a resource type and a base value.
    pub fn new(adapter_id: u8, resource_type: ResourceType, base_value: u64) -> (id: Self)
        requires
            adapter_id <= Self::MAX_ADAPTER_ID,
            base_value <= Self::MAX_BASE_VALUE,
        ensures
            id@ == compose(adapter_id, resource_type, base_value),
            adapter_id_of(id@) == adapter_id,
            resource_type_of(id@) == resource_type,
            base_value_of(id@) == base_value,
    {
        let type_bit: u64 = match resource_type {
            ResourceType::Local => 1u64 << 7u64,
            ResourceType::Remote => 0,
        };
        let a = adapter_id as u64;
        let id = a | type_bit | (base_value << 8u64);
        proof {
            let t: u64 = if resource_type == ResourceType::Local { 1 } else { 0 };
            assert(type_bit == t * 128) by (bit_vector)
                requires
                    type_bit == (if t == 1 { 1u64 << 7u64 } else { 0u64 }),
                    t == 0 || t == 1,
            ;
            assert(id == a + 128 * t + 256 * base_value) by (bit_vector)
                requires
                    id == a | type_bit | (base_value << 8u64),
                    type_bit == t * 128,
                    t <= 1,
                    a <= 127,
                    base_value <= 0x00FF_FFFF_FFFF_FFFF,
            ;
            lemma_compose_roundtrip(adapter_id, resource_type, base_value);
        }
        ResourceId { id }
    }

    /// The raw identifier, as a 64-bit value.
    pub fn raw_id(&self) -> (raw: u64)
        ensures
            raw == self@,
    {
        self.id
    }

    /// Returns the internal representation of this id
    pub fn raw(&self) -> (raw: usize)
        ensures
            raw == self@ as usize,
    {
        self.id as usize
    }

    /// Returns the [ResourceType] of this resource
    pub fn resource_type(&self) -> (resource_type: ResourceType)
        ensures
            resource_type == resource_type_of(self@),
    {
        let id = self.id;
        let bit = id & (1u64 << 7u64);
        assert(bit != 0 <==> (id / 128) % 2 == 1) by (bit_vector)
            requires
                bit == id & (1u64 << 7u64),
        ;
        if bit != 0 {
            ResourceType::Local
        } else {
            ResourceType::Remote
        }
    }

    /// Tells if the id preresents a local resource.
    pub fn is_local(&self) -> (local: bool)
        ensures
            local == (resource_type_of(self@) == ResourceType::Local),
    {
        self.resource_type() == ResourceType::Local
    }

    /// Tells if the id preresents a remote resource.
    pub fn is_remote(&self) -> (remote: bool)
        ensures
            remote == (resource_type_of(self@) == ResourceType::Remote),
    {
        self.resource_type() == ResourceType::Remote
    }

    /// Returns the associated adapter id.
    /// Note that this returned value is the same as the value of [`crate::network::Transport::id()`]
    /// if that transport uses the same adapter.
    pub fn adapter_id(&self) -> (adapter_id: u8)
        ensures
            adapter_id == adapter_id_of(self@),
            adapter_id <= Self::MAX_ADAPTER_ID,
    {
        let id = self.id;
        let low = id & 0x7fu64;
        assert(low == id % 128 && low < 128) by (bit_vector)
            requires
                low == id & 0x7fu64,
        ;
        low as u8
    }

    /// Returns the unique resource identifier inside the associated adapter.
    pub fn base_value(&self) -> (base_value: u64)
        ensures
            base_value == base_value_of(self@),
            base_value <= Self::MAX_BASE_VALUE,
    {
        let id = self.id;
        let base = (id & 0xFFFF_FFFF_FFFF_FF00u64) >> 8u64;
        assert(base == id / 256 && base <= 0x00FF_FFFF_FFFF_FFFF) by (bit_vector)
            requires
                base == (id & 0xFFFF_FFFF_FFFF_FF00u64) >> 8u64,
        ;
        base
    }

    /// The text of the identifier: its adapter id, `L` for a local or `R` for a
    /// remote resource, and its base value, between brackets and separated by
    /// dots, such as `[3.R.42]`.
    pub fn to_string(&self) -> (text: String)
        ensures
            text@ == seq!['['] + decimal(adapter_id_of(self@) as nat) + seq!['.'] + (
            if resource_type_of(self@) == ResourceType::Local {
                seq!['L']
            } else {
                seq!['R']
            }) + seq!['.'] + decimal(base_value_of(self@) as nat) + seq![']'],
    {
        let mut text = String::new();
        text.append("[");
        push_decimal(&mut text, self.adapter_id() as u64);
        text.append(".");
        match self.resource_type() {
            ResourceType::Local => text.append("L"),
            ResourceType::Remote => text.append("R"),
        }
        text.append(".");
        push_decimal(&mut text, self.base_value());
        text.append("]");
        proof {
            reveal_strlit("[");
            reveal_strlit(".");
            reveal_strlit("L");
            reveal_strlit("R");
            reveal_strlit("]");
        }
        assert(text@ =~= seq!['['] + decimal(adapter_id_of(self@) as nat) + seq!['.'] + (
        if resource_type_of(self@) == ResourceType::Local {
            seq!['L']
        } else {
            seq!['R']
        }) + seq!['.'] + decimal(base_value_of(self@) as nat) + seq![']']);
        text
    }

    /// The identifier whose raw value is `raw`.
    pub closed spec fn spec_from_raw(raw: u64) -> Self {
        ResourceId { id: raw }
    }

    /// Creates a [`ResourceId`] from its internal representation.
    pub fn from_raw(raw: usize) -> (id: Self)
        ensures
            id@ == raw as u64,
            id == Self::spec_from_raw(raw as u64),
    {
        ResourceId { id: raw as u64 }
    }
}

impl From<usize> for ResourceId {
    fn from(raw: usize) -> (id: Self) {
        ResourceId { id: raw as u64 }
    }
}

impl vstd::std_specs::convert::FromSpecImpl<usize> for ResourceId {
    open spec fn obeys_from_spec() -> bool {
        true
    }

    open spec fn from_spec(raw: usize) -> Self {
        Self::spec_from_raw(raw as u64)
    }
}

/// An identifier is determined by its raw value.
pub proof fn lemma_view_determines(a: ResourceId, b: ResourceId)
    requires
        a@ == b@,
    ensures
        a == b,
{
}

/// The identifier made from a raw value holds that value.
pub proof fn lemma_spec_from_raw(raw: u64)
    ensures
        ResourceId::spec_from_raw(raw)@ == raw,
{
}

/// Reading back the raw value of an identifier made from a `usize` gives that
/// value; an identifier whose raw value fits in a `usize` (every identifier
/// on 64-bit targets) is the one made from its raw value.
pub proof fn lemma_raw_roundtrip(raw: usize, id: ResourceId)
    ensures
        ((ResourceId::spec_from_raw(raw as u64))@ as usize) == raw,
        id@ <= usize::MAX ==> ResourceId::spec_from_raw((id@ as usize) as u64) == id,
{
}

/// Any raw identifier is the packing of the adapter id, resource type and
/// base value that it holds.
pub proof fn lemma_raw_decomposes(raw: u64)
    ensures
        compose(adapter_id_of(raw), resource_type_of(raw), base_value_of(raw)) == raw,
        adapter_id_of(raw) <= ResourceId::MAX_ADAPTER_ID,
        base_value_of(raw) <= ResourceId::MAX_BASE_VALUE,
{
    assert(raw == raw % 128 + 128 * ((raw / 128) % 2) + 256 * (raw / 256)) by (nonlinear_arith);
    assert(raw / 256 <= 0x00FF_FFFF_FFFF_FFFF) by (nonlinear_arith)
        requires
            raw <= 0xffff_ffff_ffff_ffff,
    ;
}

/// Packing then reading back gives the same parts.
pub proof fn lemma_compose_roundtrip(adapter_id: u8, resource_type: ResourceType, base_value: u64)
    requires
        adapter_id <= ResourceId::MAX_ADAPTER_ID,
        base_value <= ResourceId::MAX_BASE_VALUE,
    ensures
        0 <= compose(adapter_id, resource_type, base_value) <= u64::MAX,
        adapter_id_of(compose(adapter_id, resource_type, base_value) as u64) == adapter_id,
        resource_type_of(compose(adapter_id, resource_type, base_value) as u64) == resource_type,
        base_value_of(compose(adapter_id, resource_type, base_value) as u64) == base_value,
{
    let t: int = if resource_type == ResourceType::Local { 1 } else { 0 };
    let raw = compose(adapter_id, resource_type, base_value);
    assert(raw == adapter_id + 128 * t + 256 * base_value);
    assert((adapter_id + 128 * t + 256 * base_value) % 128 == adapter_id) by (nonlinear_arith)
        requires
            adapter_id < 128,
            0 <= t <= 1,
            base_value >= 0,
    ;
    assert(((adapter_id + 128 * t + 256 * base_value) / 128) % 2 == t) by (nonlinear_arith)
        requires
            adapter_id < 128,
            0 <= t <= 1,
            base_value >= 0,
    ;
    assert((adapter_id + 128 * t + 256 * base_value) / 256 == base_value) by (nonlinear_arith)
        requires
            adapter_id < 128,
            0 <= t <= 1,
            base_value >= 0,
    ;
}

/// Used by the adapters in order to create unique ids for their resources.
pub struct ResourceIdGenerator {
    last: AtomicUsize,
    adapter_id: u8,
    resource_type: ResourceType,
}

impl ResourceIdGenerator {
    /// The adapter id of the identifiers this generator makes.
    pub closed spec fn spec_adapter_id(self) -> u8 {
        self.adapter_id
    }

    /// The resource type of the identifiers this generator makes.
    pub closed spec fn spec_resource_type(self) -> ResourceType {
        self.resource_type
    }

    /// Creates a generator whose counter starts at 0.
    pub fn new(adapter_id: u8, resource_type: ResourceType) -> (generator: Self)
        ensures
            generator.spec_adapter_id() == adapter_id,
            generator.spec_resource_type() == resource_type,
    {
        Self { last: AtomicUsize::new(0), adapter_id, resource_type }
    }

    /// Generates a new id.
    /// This id will contain information about the [`ResourceType`] and the associated adapter.
    /// Its base value is the value the shared counter held, which is then
    /// incremented; a counter above [`ResourceId::MAX_BASE_VALUE`] keeps its
    /// low seven bytes.
    pub fn generate(&self) -> (id: ResourceId)
        requires
            self.spec_adapter_id() <= ResourceId::MAX_ADAPTER_ID,
        ensures
            adapter_id_of(id@) == self.spec_adapter_id(),
            resource_type_of(id@) == self.spec_resource_type(),
    {
        let last = self.last.fetch_add(1, Ordering::SeqCst);
        let base = Self::base_value_from_counter(last);
        ResourceId::new(self.adapter_id, self.resource_type, base)
    }

    /// The base value given to the identifier generated when the counter holds `last`.
    fn base_value_from_counter(last: usize) -> (base: u64)
        ensures
            base == (last as u64) % 0x0100_0000_0000_0000,
            base <= ResourceId::MAX_BASE_VALUE,
    {
        let wide = last as u64;
        let base = wide & 0x00FF_FFFF_FFFF_FFFFu64;
        assert(base == wide % 0x0100_0000_0000_0000 && base <= 0x00FF_FFFF_FFFF_FFFF) by (
        bit_vector)
            requires
                base == wide & 0x00FF_FFFF_FFFF_FFFFu64,
        ;
        base
    }
}

} // verus!
