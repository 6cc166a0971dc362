//! Linear memories: heap descriptors, `memory.size`, `memory.grow` and the
//! width casts between pointers, memory indices and the 64-bit builtin ABI.
use vstd::prelude::*;

verus! {

/// Size in bytes of one WebAssembly page.
pub const WASM_PAGE_SIZE: u64 = 65536;

/// Largest page count of a 64-bit memory.
pub const WASM64_MAX_PAGES: u64 = 0x1_0000_0000_0000;

/// Width of an integer in the emitted code: the target's pointer type, or
/// the index type of a memory.
#[derive(Clone, Copy, Debug, PartialEq, Eq, Structural)]
pub enum IntWidth {
    I32,
    I64,
}

/// Largest value of the width, as an unsigned bit pattern.
pub open spec fn width_max(w: IntWidth) -> int {
    match w {
        IntWidth::I32 => 0xffff_ffff,
        IntWidth::I64 => 0xffff_ffff_ffff_ffff,
    }
}

/// `v` is a bit pattern of width `w`.
pub open spec fn fits(v: u64, w: IntWidth) -> bool {
    v <= width_max(w)
}

/// The bit pattern of width `w` with all bits set: `-1` in that width.
pub open spec fn all_ones(w: IntWidth) -> u64 {
    match w {
        IntWidth::I32 => 0xffff_ffff,
        IntWidth::I64 => 0xffff_ffff_ffff_ffff,
    }
}

/// Sign-extension of a 32-bit pattern to 64 bits.
pub open spec fn sext32(v: u64) -> u64 {
    if v >= 0x8000_0000 {
        (v + 0xffff_ffff_0000_0000) as u64
    } else {
        v
    }
}

/// How a memory is reached from the instance context.
#[derive(Clone, Copy, Debug, PartialEq, Eq, Structural)]
pub enum MemoryPlace {
    /// Defined and owned by this instance: its definition lies inside the
    /// context at these offsets.
    Owned { base_offset: i32, length_offset: i32 },
    /// Defined here but shared between threads: the context holds a pointer
    /// to its definition at `pointer_offset`.
    SharedDefined { pointer_offset: i32 },
    /// Imported: the context holds a pointer to its definition at
    /// `from_offset`.
    Imported { from_offset: i32 },
}

/// Offsets of the fields of a memory definition record.
#[derive(Clone, Copy, Debug, PartialEq, Eq, Structural)]
pub struct DefinitionLayout {
    pub base: i32,
    pub current_length: i32,
}

/// How the runtime lays out a memory.
#[derive(Clone, Copy, Debug, PartialEq, Eq, Structural)]
pub enum MemoryStyle {
    /// Base and length may change at run time.
    Dynamic,
    /// Reserved once, `bound_pages` pages, never moved.
    Static { bound_pages: u64 },
}

/// What the module and the runtime configuration say of one memory.
#[derive(Clone, Copy, Debug, PartialEq, Eq, Structural)]
pub struct MemoryPlan {
    /// Minimum size in pages.
    pub minimum: u64,
    /// Maximum size in pages, if declared.
    pub maximum: Option<u64>,
    pub memory64: bool,
    pub shared: bool,
    pub style: MemoryStyle,
    /// Bytes of unmapped guard region after the memory.
    pub offset_guard_size: u64,
}

/// Where the heap's base and length are loaded from.
#[derive(Clone, Copy, Debug, PartialEq, Eq, Structural)]
pub enum HeapPtr {
    /// Fields of the context itself.
    Vmctx,
    /// Fields of a record whose address is loaded, read-only, from the
    /// context at `offset`.
    Loaded { offset: i32 },
}

/// The bounds-check strategy of a heap.
#[derive(Clone, Copy, Debug, PartialEq, Eq, Structural)]
pub enum HeapStyle {
    /// The bound is reloaded from the length field at each check.
    Dynamic,
    /// The bound is a constant number of bytes.
    Static { bound: u64 },
}

/// The memory-type record that proof-carrying code attaches to the data of
/// a heap.
#[derive(Clone, Copy, Debug, PartialEq, Eq, Structural)]
pub enum DataMemType {
    /// A region bounded by the length field, followed by `guard` bytes.
    Dynamic { guard: u64 },
    /// A region of `size` bytes.
    Static { size: u64 },
}

/// A heap descriptor: everything the memory-access lowering needs to know of
/// one memory in one function.
#[derive(Clone, Copy, Debug, PartialEq, Eq, Structural)]
pub struct HeapDescriptor {
    pub ptr: HeapPtr,
    pub base_offset: i32,
    pub length_offset: i32,
    /// Minimum size in bytes.
    pub min_size: u64,
    /// Maximum size in bytes, if declared and representable.
    pub max_size: Option<u64>,
    pub offset_guard_size: u64,
    pub style: HeapStyle,
    /// The base pointer never changes, so its load may be marked read-only.
    pub readonly_base: bool,
    pub index_type: IntWidth,
    pub memtype: Option<DataMemType>,
}

/// What the fact on a field of the context describes.
#[derive(Clone, Copy, Debug, PartialEq, Eq, Structural)]
pub enum FieldFact {
    /// Base pointer of a heap whose data type is `memtype`.
    HeapBase { memtype: DataMemType },
    /// Length of a dynamic heap.
    HeapLength,
}

/// A field of the context's memory type, as proof-carrying code sees it.
#[derive(Clone, Copy, Debug, PartialEq, Eq, Structural)]
pub struct MemTypeField {
    pub offset: u64,
    pub readonly: bool,
    pub fact: FieldFact,
}

/// The context's memory type: its known size and fields, appended as heaps
/// are created.
#[derive(Debug)]
pub struct VmctxMemType {
    pub size: u64,
    pub fields: Vec<MemTypeField>,
}

/// Minimum heap size in bytes: the page count times the page size, or
/// `u64::MAX` where that product does not fit (a 64-bit memory of 2^48
/// pages).
pub open spec fn heap_min_size(pages: u64) -> u64 {
    if pages * WASM_PAGE_SIZE <= u64::MAX {
        (pages * WASM_PAGE_SIZE) as u64
    } else {
        u64::MAX
    }
}

/// Maximum heap size in bytes, where declared and representable.
pub open spec fn heap_max_size(pages: Option<u64>) -> Option<u64> {
    match pages {
        Some(p) => if p * WASM_PAGE_SIZE <= u64::MAX {
            Some((p * WASM_PAGE_SIZE) as u64)
        } else {
            None
        },
        None => None,
    }
}

pub open spec fn memory_index_type_of(plan: MemoryPlan) -> IntWidth {
    if plan.memory64 { IntWidth::I64 } else { IntWidth::I32 }
}

/// Bytes in a pointer of width `w`.
pub open spec fn pointer_bytes(w: IntWidth) -> u64 {
    match w {
        IntWidth::I32 => 4,
        IntWidth::I64 => 8,
    }
}

/// The record that holds the heap's base and length, and their offsets in it.
pub open spec fn heap_fields(place: MemoryPlace, def: DefinitionLayout) -> (HeapPtr, i32, i32) {
    match place {
        MemoryPlace::Owned { base_offset, length_offset } => (HeapPtr::Vmctx, base_offset, length_offset),
        MemoryPlace::SharedDefined { pointer_offset } => (
            HeapPtr::Loaded { offset: pointer_offset },
            def.base,
            def.current_length,
        ),
        MemoryPlace::Imported { from_offset } => (
            HeapPtr::Loaded { offset: from_offset },
            def.base,
            def.current_length,
        ),
    }
}

/// The size a static heap's data memory type covers: bound and guard.
pub open spec fn static_region_size(bound_pages: u64, guard: u64) -> int {
    bound_pages * WASM_PAGE_SIZE + guard
}

/// A plan that a heap can be described for: a static bound in bytes fits
/// in 64 bits, and so does its sum with the guard where that sum becomes the
/// size of a memory type (`with_memtype`).
pub open spec fn plan_representable(plan: MemoryPlan, with_memtype: bool) -> bool {
    match plan.style {
        MemoryStyle::Static { bound_pages } => {
            &&& bound_pages * WASM_PAGE_SIZE <= u64::MAX
            &&& with_memtype ==> static_region_size(bound_pages, plan.offset_guard_size) <= u64::MAX
        },
        MemoryStyle::Dynamic => true,
    }
}

/// The data memory type a heap gets where proof-carrying code is on and
/// its definition lives in the context.
pub open spec fn heap_data_memtype(plan: MemoryPlan) -> DataMemType {
    match plan.style {
        MemoryStyle::Dynamic => DataMemType::Dynamic { guard: plan.offset_guard_size },
        MemoryStyle::Static { bound_pages } => DataMemType::Static {
            size: static_region_size(bound_pages, plan.offset_guard_size) as u64,
        },
    }
}

/// The fields that a heap adds to the context's memory type.
pub open spec fn heap_vmctx_fields(plan: MemoryPlan, base_offset: i32, length_offset: i32) -> Seq<MemTypeField> {
    let base = MemTypeField {
        offset: base_offset as u64,
        readonly: true,
        fact: FieldFact::HeapBase { memtype: heap_data_memtype(plan) },
    };
    match plan.style {
        MemoryStyle::Dynamic => seq![base, MemTypeField {
            offset: length_offset as u64,
            readonly: true,
            fact: FieldFact::HeapLength,
        }],
        MemoryStyle::Static { .. } => seq![base],
    }
}

pub open spec fn max_int(a: int, b: int) -> int {
    if a >= b { a } else { b }
}

/// The context's memory-type size after a heap's fields are added: large
/// enough to hold every added pointer field.
pub open spec fn grown_size(size: u64, plan: MemoryPlan, base_offset: i32, length_offset: i32, ptr: IntWidth) -> int {
    let base_end = base_offset + pointer_bytes(ptr);
    match plan.style {
        MemoryStyle::Dynamic => max_int(size as int, max_int(base_end, length_offset + pointer_bytes(ptr))),
        MemoryStyle::Static { .. } => max_int(size as int, base_end),
    }
}

/// The descriptor of a heap for `plan`, reached through `place`.
pub open spec fn heap_descriptor(
    plan: MemoryPlan,
    place: MemoryPlace,
    def: DefinitionLayout,
    with_memtype: bool,
) -> HeapDescriptor {
    let (ptr, base_offset, length_offset) = heap_fields(place, def);
    HeapDescriptor {
        ptr,
        base_offset,
        length_offset,
        min_size: heap_min_size(plan.minimum),
        max_size: heap_max_size(plan.maximum),
        offset_guard_size: plan.offset_guard_size,
        style: match plan.style {
            MemoryStyle::Dynamic => HeapStyle::Dynamic,
            MemoryStyle::Static { bound_pages } => HeapStyle::Static {
                bound: (bound_pages * WASM_PAGE_SIZE) as u64,
            },
        },
        readonly_base: plan.style is Static,
        index_type: memory_index_type_of(plan),
        memtype: if with_memtype { Some(heap_data_memtype(plan)) } else { None },
    }
}

pub fn memory_index_type(plan: &MemoryPlan) -> (r: IntWidth)
    ensures
        r == memory_index_type_of(*plan),
{
    if plan.memory64 { IntWidth::I64 } else { IntWidth::I32 }
}

fn page_bytes(pages: u64) -> (r: Option<u64>)
    ensures
        r == (if pages * WASM_PAGE_SIZE <= u64::MAX {
            Some((pages * WASM_PAGE_SIZE) as u64)
        } else {
            None::<u64>
        }),
{
    pages.checked_mul(WASM_PAGE_SIZE)
}

/// Builds the heap descriptor of a memory. Where proof-carrying code is on
/// (`vmctx_memtype` is `Some`) every heap's data gets a memory type, which
/// the fact on its base pointer names; where the memory's definition lies in
/// the context, the context's memory type also gets read-only fields for the
/// base (and, for a dynamic heap, the length).
pub fn make_heap(
    plan: &MemoryPlan,
    place: MemoryPlace,
    def: DefinitionLayout,
    ptr: IntWidth,
    vmctx_memtype: &mut Option<VmctxMemType>,
) -> (r: HeapDescriptor)
    requires
        plan_representable(*plan, (*old(vmctx_memtype)) is Some),
        place is Owned ==> {
            &&& place->base_offset >= 0
            &&& place->length_offset >= 0
        },
    ensures
        ({
            let with = (*old(vmctx_memtype)) is Some && place is Owned;
            &&& r == heap_descriptor(*plan, place, def, (*old(vmctx_memtype)) is Some)
            &&& with ==> {
                let m = (*old(vmctx_memtype))->0;
                &&& (*final(vmctx_memtype)) is Some
                &&& (*final(vmctx_memtype))->0.fields@ == m.fields@ + heap_vmctx_fields(
                    *plan,
                    r.base_offset,
                    r.length_offset,
                )
                &&& (*final(vmctx_memtype))->0.size == grown_size(
                    m.size,
                    *plan,
                    r.base_offset,
                    r.length_offset,
                    ptr,
                )
            }
            &&& !with ==> *final(vmctx_memtype) == *old(vmctx_memtype)
        }),
{
    let min_size = match page_bytes(plan.minimum) {
        Some(b) => b,
        None => u64::MAX,
    };
    let max_size = match plan.maximum {
        Some(p) => page_bytes(p),
        None => None,
    };
    let (hptr, base_offset, length_offset, in_vmctx) = match place {
        MemoryPlace::Owned { base_offset, length_offset } => (HeapPtr::Vmctx, base_offset, length_offset, true),
        MemoryPlace::SharedDefined { pointer_offset } => (
            HeapPtr::Loaded { offset: pointer_offset },
            def.base,
            def.current_length,
            false,
        ),
        MemoryPlace::Imported { from_offset } => (
            HeapPtr::Loaded { offset: from_offset },
            def.base,
            def.current_length,
            false,
        ),
    };
    let pbytes: u64 = match ptr {
        IntWidth::I32 => 4,
        IntWidth::I64 => 8,
    };
    let (style, readonly_base) = match plan.style {
        MemoryStyle::Dynamic => (HeapStyle::Dynamic, false),
        MemoryStyle::Static { bound_pages } => (HeapStyle::Static { bound: bound_pages * WASM_PAGE_SIZE }, true),
    };
    let mut memtype: Option<DataMemType> = None;
    match vmctx_memtype {
        Some(m) => {
            let data_mt = match plan.style {
                MemoryStyle::Dynamic => DataMemType::Dynamic { guard: plan.offset_guard_size },
                MemoryStyle::Static { bound_pages } => DataMemType::Static {
                    size: bound_pages * WASM_PAGE_SIZE + plan.offset_guard_size,
                },
            };
            if in_vmctx {
                let base_at = base_offset as u64;
                m.fields.push(
                    MemTypeField {
                        offset: base_at,
                        readonly: true,
                        fact: FieldFact::HeapBase { memtype: data_mt },
                    },
                );
                let mut end = base_at + pbytes;
                if let MemoryStyle::Dynamic = plan.style {
                    let length_at = length_offset as u64;
                    m.fields.push(
                        MemTypeField { offset: length_at, readonly: true, fact: FieldFact::HeapLength },
                    );
                    if length_at + pbytes > end {
                        end = length_at + pbytes;
                    }
                }
                if end > m.size {
                    m.size = end;
                }
            }
            memtype = Some(data_mt);
        },
        None => {},
    }
    HeapDescriptor {
        ptr: hptr,
        base_offset,
        length_offset,
        min_size,
        max_size,
        offset_guard_size: plan.offset_guard_size,
        style,
        readonly_base,
        index_type: memory_index_type(plan),
        memtype,
    }
}

/// A place that agrees with the plan: a shared memory is never owned
/// inline, and one defined as shared is shared.
/// The width of the load of a memory's current length: 64 bits when atomic,
/// else the pointer width.
pub open spec fn length_width_of(load: LengthLoad, ptr: IntWidth) -> IntWidth {
    match load {
        LengthLoad::Indirect { atomic: true, .. } => IntWidth::I64,
        _ => ptr,
    }
}

pub fn length_load_width(load: LengthLoad, ptr: IntWidth) -> (r: IntWidth)
    ensures
        r == length_width_of(load, ptr),
        load is Indirect && load->atomic ==> r == IntWidth::I64,
{
    match load {
        LengthLoad::Indirect { atomic: true, .. } => IntWidth::I64,
        _ => ptr,
    }
}

pub open spec fn place_consistent(plan: MemoryPlan, place: MemoryPlace) -> bool {
    match place {
        MemoryPlace::Owned { .. } => !plan.shared,
        MemoryPlace::SharedDefined { .. } => plan.shared,
        MemoryPlace::Imported { .. } => true,
    }
}

/// How the emitted code reads a memory's current length in bytes.
#[derive(Clone, Copy, Debug, PartialEq, Eq, Structural)]
pub enum LengthLoad {
    /// A plain load from the context at `offset`.
    Vmctx { offset: i32 },
    /// Load the definition's address from the context at `pointer_offset`,
    /// then its length field at `field_offset`; when other threads may grow
    /// the memory, with one 64-bit atomic load (`atomic`), else with a plain
    /// load of pointer width.
    Indirect { pointer_offset: i32, field_offset: i32, atomic: bool },
}

pub open spec fn length_load_of(plan: MemoryPlan, place: MemoryPlace, def: DefinitionLayout) -> LengthLoad {
    match place {
        MemoryPlace::Owned { length_offset, .. } => LengthLoad::Vmctx { offset: length_offset },
        MemoryPlace::SharedDefined { pointer_offset } => LengthLoad::Indirect {
            pointer_offset,
            field_offset: def.current_length,
            atomic: true,
        },
        MemoryPlace::Imported { from_offset } => LengthLoad::Indirect {
            pointer_offset: from_offset,
            field_offset: def.current_length,
            atomic: plan.shared,
        },
    }
}

/// The load that `memory.size` emits for the current length.
pub fn memory_length_load(plan: &MemoryPlan, place: MemoryPlace, def: DefinitionLayout) -> (r: LengthLoad)
    requires
        place_consistent(*plan, place),
    ensures
        r == length_load_of(*plan, place, def),
        plan.shared ==> (r is Indirect && r->atomic),
        !plan.shared ==> !(r is Indirect && r->atomic),
{
    match place {
        MemoryPlace::Owned { length_offset, .. } => LengthLoad::Vmctx { offset: length_offset },
        MemoryPlace::SharedDefined { pointer_offset } => LengthLoad::Indirect {
            pointer_offset,
            field_offset: def.current_length,
            atomic: true,
        },
        MemoryPlace::Imported { from_offset } => LengthLoad::Indirect {
            pointer_offset: from_offset,
            field_offset: def.current_length,
            atomic: plan.shared,
        },
    }
}

/// The conversion emitted from a pointer-width value to a memory index.
#[derive(Clone, Copy, Debug, PartialEq, Eq, Structural)]
pub enum PointerCast {
    /// The widths agree.
    Same,
    /// Truncate to the narrower index.
    Reduce,
    /// Sign-extend to the wider index, so that `-1` stays `-1`.
    SignExtend,
}

pub open spec fn pointer_cast_of(ptr: IntWidth, index: IntWidth) -> PointerCast {
    if ptr == index {
        PointerCast::Same
    } else if ptr == IntWidth::I64 {
        PointerCast::Reduce
    } else {
        PointerCast::SignExtend
    }
}

/// The value of a pointer-width bit pattern `v` read as a memory index.
pub open spec fn pointer_to_index(v: u64, ptr: IntWidth, index: IntWidth) -> u64 {
    match pointer_cast_of(ptr, index) {
        PointerCast::Same => v,
        PointerCast::Reduce => (v % 0x1_0000_0000) as u64,
        PointerCast::SignExtend => sext32(v),
    }
}

/// Which conversion turns a pointer-width result (a page count, or the
/// failure code of `memory.grow`) into the memory's index type.
pub fn pointer_cast(ptr: IntWidth, index: IntWidth) -> (r: PointerCast)
    ensures
        r == pointer_cast_of(ptr, index),
{
    match (ptr, index) {
        (IntWidth::I32, IntWidth::I32) => PointerCast::Same,
        (IntWidth::I64, IntWidth::I64) => PointerCast::Same,
        (IntWidth::I64, IntWidth::I32) => PointerCast::Reduce,
        (IntWidth::I32, IntWidth::I64) => PointerCast::SignExtend,
    }
}

/// What the emitted conversion computes on a pointer-width bit pattern.
pub fn cast_pointer_to_memory_index(v: u64, ptr: IntWidth, index: IntWidth) -> (r: u64)
    requires
        fits(v, ptr),
    ensures
        r == pointer_to_index(v, ptr, index),
        fits(r, index),
{
    match pointer_cast(ptr, index) {
        PointerCast::Same => v,
        PointerCast::Reduce => {
            assert(v & 0xffff_ffff == v % 0x1_0000_0000 && v & 0xffff_ffff <= 0xffff_ffff)
                by (bit_vector);
            v & 0xffff_ffff
        },
        PointerCast::SignExtend => {
            if v >= 0x8000_0000 {
                v + 0xffff_ffff_0000_0000
            } else {
                v
            }
        },
    }
}

/// Whether a memory-index operand is zero-extended to the 64-bit builtin
/// ABI (a 32-bit memory), or passed as it is (a 64-bit memory).
pub fn index_needs_extend(index: IntWidth) -> (r: bool)
    ensures
        r == (index == IntWidth::I32),
{
    match index {
        IntWidth::I32 => true,
        IntWidth::I64 => false,
    }
}

/// What the emitted widening computes: the index's value, unchanged, as a
/// 64-bit operand.
pub fn cast_memory_index_to_i64(v: u64, index: IntWidth) -> (r: u64)
    requires
        fits(v, index),
    ensures
        r == v,
{
    if index_needs_extend(index) {
        assert(v <= 0xffff_ffff ==> v & 0xffff_ffff == v) by (bit_vector);
        v & 0xffff_ffff
    } else {
        v
    }
}

/// Whether the length operand of `memory.copy` is zero-extended: it is
/// 64 bits only when both memories are 64-bit.
pub fn copy_len_needs_extend(dst: IntWidth, src: IntWidth) -> (r: bool)
    ensures
        r == !(dst == IntWidth::I64 && src == IntWidth::I64),
{
    !(dst == IntWidth::I64 && src == IntWidth::I64)
}

/// The value `memory.size` produces from the current length in bytes: the
/// whole pages, in the memory's index type.
pub fn memory_size_pages(length: u64, ptr: IntWidth, index: IntWidth) -> (r: u64)
    requires
        fits(length, ptr),
        index == IntWidth::I32 ==> length <= 0x1_0000_0000,
    ensures
        r == pointer_to_index(length / WASM_PAGE_SIZE, ptr, index),
        r == length / WASM_PAGE_SIZE,
{
    let pages = length / WASM_PAGE_SIZE;
    cast_pointer_to_memory_index(pages, ptr, index)
}

/// The value `memory.grow` produces from the pointer-width result of the
/// grow builtin: the previous size in pages, or `-1` on failure.
pub fn memory_grow_result(ret: u64, ptr: IntWidth, index: IntWidth) -> (r: u64)
    requires
        fits(ret, ptr),
    ensures
        r == pointer_to_index(ret, ptr, index),
        ret == all_ones(ptr) ==> r == all_ones(index),
{
    cast_pointer_to_memory_index(ret, ptr, index)
}

/// The failure code of `memory.grow`, `-1` in pointer width, is `-1` in
/// the memory's index type for every pair of widths: it is sign-extended,
/// never zero-extended.
pub proof fn lemma_grow_failure_sign_extended(ptr: IntWidth, index: IntWidth)
    ensures
        pointer_to_index(all_ones(ptr), ptr, index) == all_ones(index),
{
}

} // verus!
