//! Tables and references: the funcref slot encoding with its lazy-init bit,
//! reference representations, and table descriptors.
use vstd::prelude::*;
use crate::memory::{HeapPtr, IntWidth, pointer_bytes};

verus! {

/// Bit 0 of a funcref slot: set once the slot has been initialised.
pub const FUNCREF_INIT_BIT: u64 = 1;

/// Mask that clears the init bit of a funcref slot (`-2`).
pub const FUNCREF_MASK: u64 = 0xffff_ffff_ffff_fffe;

/// The element type of a table, or the type of a reference.
#[derive(Clone, Copy, Debug, PartialEq, Eq, Structural)]
pub enum RefKind {
    /// `funcref` and typed function references: raw pointers to a function
    /// record, alive as long as the store.
    Func,
    /// `externref`: a host reference under reference counting.
    Extern,
}

/// What the emitted funcref read does with a raw slot value.
#[derive(Clone, Copy, Debug, PartialEq, Eq, Structural)]
pub enum FuncrefRead {
    /// The slot was never initialised: the cold block calls the lazy-init
    /// builtin.
    LazyInit,
    /// The slot holds a pointer, handed on with the init bit masked off.
    Ready { ptr: u64 },
}

pub open spec fn funcref_read_of(raw: u64) -> FuncrefRead {
    if raw == 0 {
        FuncrefRead::LazyInit
    } else {
        FuncrefRead::Ready { ptr: raw & FUNCREF_MASK }
    }
}

/// The emitted funcref read: load the slot, mask off the init bit, and
/// branch on the raw value to the lazy-init block (zero) or on.
pub fn funcref_read(raw: u64) -> (r: FuncrefRead)
    ensures
        r == funcref_read_of(raw),
{
    let masked = raw & FUNCREF_MASK;
    if raw != 0 {
        FuncrefRead::Ready { ptr: masked }
    } else {
        FuncrefRead::LazyInit
    }
}

/// The value a funcref `table.get` produces: the masked slot, or what the
/// lazy-init builtin returned for an uninitialised slot.
pub open spec fn funcref_get_of(raw: u64, lazy_init_result: u64) -> u64 {
    match funcref_read_of(raw) {
        FuncrefRead::LazyInit => lazy_init_result,
        FuncrefRead::Ready { ptr } => ptr,
    }
}

/// What the emitted `table.get` on a funcref table computes, given the raw
/// slot and the result the lazy-init builtin would return.
pub fn funcref_table_get(raw: u64, lazy_init_result: u64) -> (r: u64)
    ensures
        r == funcref_get_of(raw, lazy_init_result),
{
    match funcref_read(raw) {
        FuncrefRead::LazyInit => lazy_init_result,
        FuncrefRead::Ready { ptr } => ptr,
    }
}

/// What the emitted `table.set` on a funcref table stores: the value with
/// the init bit set.
pub fn funcref_table_set(value: u64) -> (r: u64)
    ensures
        r == value | FUNCREF_INIT_BIT,
        r != 0,
{
    assert(value | 1u64 != 0) by (bit_vector);
    value | FUNCREF_INIT_BIT
}

/// A `table.set v` followed by `table.get` on the same funcref slot yields
/// `v` with its low bit cleared, and never calls the lazy-init builtin.
pub proof fn lemma_funcref_set_then_get(v: u64, lazy_init_result: u64)
    ensures
        funcref_read_of(v | FUNCREF_INIT_BIT) is Ready,
        funcref_get_of(v | FUNCREF_INIT_BIT, lazy_init_result) == v & !1u64,
{
    assert(v | 1u64 != 0) by (bit_vector);
    assert((v | 1u64) & 0xffff_ffff_ffff_fffeu64 == v & !1u64) by (bit_vector);
}

/// Where the table's definition lies.
#[derive(Clone, Copy, Debug, PartialEq, Eq, Structural)]
pub enum TablePlace {
    /// Defined here: base and element count are fields of the context.
    Defined { base_offset: i32, current_elements_offset: i32 },
    /// Imported: the context holds a pointer to the definition.
    Imported { from_offset: i32 },
}

/// Offsets and sizes inside a table definition record.
#[derive(Clone, Copy, Debug, PartialEq, Eq, Structural)]
pub struct TableDefLayout {
    pub base: i32,
    pub current_elements: i32,
    /// Bytes of the element-count field.
    pub current_elements_size: u8,
}

/// A table descriptor: where the emitted code finds the elements, the bound,
/// and the size of one element.
#[derive(Clone, Copy, Debug, PartialEq, Eq, Structural)]
pub struct TableDescriptor {
    pub ptr: HeapPtr,
    pub base_offset: i32,
    pub bound_offset: i32,
    /// Bits of the element-count field.
    pub bound_bits: u16,
    pub element_size: u64,
    pub index_type: IntWidth,
}

pub open spec fn table_descriptor(place: TablePlace, def: TableDefLayout, ptr: IntWidth) -> TableDescriptor {
    let (p, base, bound) = match place {
        TablePlace::Defined { base_offset, current_elements_offset } => (
            HeapPtr::Vmctx,
            base_offset,
            current_elements_offset,
        ),
        TablePlace::Imported { from_offset } => (
            HeapPtr::Loaded { offset: from_offset },
            def.base,
            def.current_elements,
        ),
    };
    TableDescriptor {
        ptr: p,
        base_offset: base,
        bound_offset: bound,
        bound_bits: (def.current_elements_size * 8) as u16,
        element_size: pointer_bytes(ptr),
        index_type: IntWidth::I32,
    }
}

/// The IR type of a reference: a plain pointer for funcrefs, a reference
/// type tracked in stack maps for externrefs; both pointer-sized.
#[derive(Clone, Copy, Debug, PartialEq, Eq, Structural)]
pub enum RefRepr {
    Pointer(IntWidth),
    Reference(IntWidth),
}

pub fn reference_type(kind: RefKind, ptr: IntWidth) -> (r: RefRepr)
    ensures
        r == (match kind {
            RefKind::Func => RefRepr::Pointer(ptr),
            RefKind::Extern => RefRepr::Reference(ptr),
        }),
{
    match kind {
        RefKind::Func => RefRepr::Pointer(ptr),
        RefKind::Extern => RefRepr::Reference(ptr),
    }
}

/// Builds the descriptor of a table. Elements of either kind are one
/// pointer wide; indices are 32-bit.
pub fn make_table(place: TablePlace, def: TableDefLayout, kind: RefKind, ptr: IntWidth) -> (r: TableDescriptor)
    requires
        def.current_elements_size == 1 || def.current_elements_size == 2 || def.current_elements_size == 4
            || def.current_elements_size == 8 || def.current_elements_size == 16,
    ensures
        r == table_descriptor(place, def, ptr),
{
    let (p, base, bound) = match place {
        TablePlace::Defined { base_offset, current_elements_offset } => (
            HeapPtr::Vmctx,
            base_offset,
            current_elements_offset,
        ),
        TablePlace::Imported { from_offset } => (
            HeapPtr::Loaded { offset: from_offset },
            def.base,
            def.current_elements,
        ),
    };
    let bound_bits: u16 = def.current_elements_size as u16 * 8;
    let element_size: u64 = match reference_type(kind, ptr) {
        RefRepr::Pointer(w) => match w {
            IntWidth::I32 => 4,
            IntWidth::I64 => 8,
        },
        RefRepr::Reference(w) => match w {
            IntWidth::I32 => 4,
            IntWidth::I64 => 8,
        },
    };
    TableDescriptor {
        ptr: p,
        base_offset: base,
        bound_offset: bound,
        bound_bits,
        element_size,
        index_type: IntWidth::I32,
    }
}

/// What `ref.is_null` produces: 1 for a null reference, else 0, as an i32.
pub fn ref_is_null(v: u64) -> (r: u32)
    ensures
        r == (if v == 0 { 1u32 } else { 0u32 }),
{
    if v == 0 { 1 } else { 0 }
}

} // verus!
