use func_environ::memory::{
    length_load_width, cast_memory_index_to_i64, cast_pointer_to_memory_index, copy_len_needs_extend, make_heap,
    memory_grow_result, memory_length_load, memory_size_pages, pointer_cast, DataMemType,
    DefinitionLayout, FieldFact, HeapPtr, HeapStyle, IntWidth, LengthLoad, MemoryPlace, MemoryPlan,
    MemoryStyle, PointerCast, VmctxMemType, WASM64_MAX_PAGES,
};

const DEF: DefinitionLayout = DefinitionLayout { base: 0, current_length: 8 };

fn plan(minimum: u64, maximum: Option<u64>, memory64: bool, shared: bool, style: MemoryStyle) -> MemoryPlan {
    MemoryPlan { minimum, maximum, memory64, shared, style, offset_guard_size: 0x1000 }
}

#[test]
fn shared_memory_size_uses_atomic_load() {
    let p = plan(1, Some(4), false, true, MemoryStyle::Static { bound_pages: 4 });
    let load = memory_length_load(&p, MemoryPlace::SharedDefined { pointer_offset: 96 }, DEF);
    assert_eq!(load, LengthLoad::Indirect { pointer_offset: 96, field_offset: 8, atomic: true });
    assert_eq!(memory_size_pages(3 * 65536, IntWidth::I64, IntWidth::I32), 3);
}

#[test]
fn imported_memory_size_is_atomic_only_when_shared() {
    let shared = plan(1, Some(4), false, true, MemoryStyle::Dynamic);
    let plain = plan(1, Some(4), false, false, MemoryStyle::Dynamic);
    let place = MemoryPlace::Imported { from_offset: 40 };
    assert_eq!(
        memory_length_load(&shared, place, DEF),
        LengthLoad::Indirect { pointer_offset: 40, field_offset: 8, atomic: true }
    );
    assert_eq!(
        memory_length_load(&plain, place, DEF),
        LengthLoad::Indirect { pointer_offset: 40, field_offset: 8, atomic: false }
    );
    let owned = MemoryPlace::Owned { base_offset: 64, length_offset: 72 };
    assert_eq!(memory_length_load(&plain, owned, DEF), LengthLoad::Vmctx { offset: 72 });
}

#[test]
fn memory64_grow_failure_is_all_ones() {
    assert_eq!(memory_grow_result(u64::MAX, IntWidth::I64, IntWidth::I64), 0xFFFF_FFFF_FFFF_FFFF);
    assert_eq!(memory_grow_result(0xffff_ffff, IntWidth::I32, IntWidth::I64), 0xFFFF_FFFF_FFFF_FFFF);
}

#[test]
fn grow_failure_is_sign_extended_not_zero_extended() {
    let r = memory_grow_result(0xffff_ffff, IntWidth::I32, IntWidth::I64);
    assert_ne!(r, 0xffff_ffff);
    assert_eq!(r, u64::MAX);
    assert_eq!(memory_grow_result(u64::MAX, IntWidth::I64, IntWidth::I32), 0xffff_ffff);
    assert_eq!(memory_grow_result(0xffff_ffff, IntWidth::I32, IntWidth::I32), 0xffff_ffff);
    assert_eq!(memory_grow_result(7, IntWidth::I32, IntWidth::I64), 7);
}

#[test]
fn pointer_casts_by_width() {
    assert_eq!(pointer_cast(IntWidth::I64, IntWidth::I64), PointerCast::Same);
    assert_eq!(pointer_cast(IntWidth::I64, IntWidth::I32), PointerCast::Reduce);
    assert_eq!(pointer_cast(IntWidth::I32, IntWidth::I64), PointerCast::SignExtend);
    assert_eq!(cast_pointer_to_memory_index(0x1_0000_0005, IntWidth::I64, IntWidth::I32), 5);
    assert_eq!(cast_pointer_to_memory_index(0x8000_0000, IntWidth::I32, IntWidth::I64), 0xffff_ffff_8000_0000);
}

#[test]
fn index_widening_keeps_value() {
    assert_eq!(cast_memory_index_to_i64(0xffff_ffff, IntWidth::I32), 0xffff_ffff);
    assert_eq!(cast_memory_index_to_i64(u64::MAX, IntWidth::I64), u64::MAX);
    assert!(copy_len_needs_extend(IntWidth::I32, IntWidth::I64));
    assert!(copy_len_needs_extend(IntWidth::I64, IntWidth::I32));
    assert!(!copy_len_needs_extend(IntWidth::I64, IntWidth::I64));
}

#[test]
fn memory_size_divides_by_page() {
    assert_eq!(memory_size_pages(0, IntWidth::I64, IntWidth::I64), 0);
    assert_eq!(memory_size_pages(65535, IntWidth::I64, IntWidth::I64), 0);
    assert_eq!(memory_size_pages(0x1_0000_0000, IntWidth::I64, IntWidth::I32), 65536);
}

#[test]
fn static_heap_without_pcc() {
    let p = plan(2, Some(10), false, false, MemoryStyle::Static { bound_pages: 65536 });
    let mut mt: Option<VmctxMemType> = None;
    let owned = MemoryPlace::Owned { base_offset: 64, length_offset: 72 };
    let h = make_heap(&p, owned, DEF, IntWidth::I64, &mut mt);
    assert_eq!(h.ptr, HeapPtr::Vmctx);
    assert_eq!(h.base_offset, 64);
    assert_eq!(h.length_offset, 72);
    assert_eq!(h.min_size, 2 * 65536);
    assert_eq!(h.max_size, Some(10 * 65536));
    assert_eq!(h.style, HeapStyle::Static { bound: 0x1_0000_0000 });
    assert!(h.readonly_base);
    assert_eq!(h.index_type, IntWidth::I32);
    assert_eq!(h.memtype, None);
    assert!(mt.is_none());
}

#[test]
fn dynamic_heap_with_pcc_adds_fields() {
    let p = plan(1, None, true, false, MemoryStyle::Dynamic);
    let mut mt = Some(VmctxMemType { size: 0, fields: Vec::new() });
    let owned = MemoryPlace::Owned { base_offset: 64, length_offset: 72 };
    let h = make_heap(&p, owned, DEF, IntWidth::I64, &mut mt);
    assert_eq!(h.style, HeapStyle::Dynamic);
    assert!(!h.readonly_base);
    assert_eq!(h.index_type, IntWidth::I64);
    assert_eq!(h.max_size, None);
    assert_eq!(h.memtype, Some(DataMemType::Dynamic { guard: 0x1000 }));
    let m = mt.unwrap();
    assert_eq!(m.size, 80);
    assert_eq!(m.fields.len(), 2);
    assert_eq!(m.fields[0].offset, 64);
    assert_eq!(m.fields[0].fact, FieldFact::HeapBase { memtype: DataMemType::Dynamic { guard: 0x1000 } });
    assert_eq!(m.fields[1].offset, 72);
    assert_eq!(m.fields[1].fact, FieldFact::HeapLength);
    assert!(m.fields[1].readonly);
}

#[test]
fn static_heap_with_pcc_covers_guard() {
    let p = plan(1, Some(1), false, false, MemoryStyle::Static { bound_pages: 2 });
    let mut mt = Some(VmctxMemType { size: 100, fields: Vec::new() });
    let owned = MemoryPlace::Owned { base_offset: 16, length_offset: 24 };
    let h = make_heap(&p, owned, DEF, IntWidth::I32, &mut mt);
    assert_eq!(h.memtype, Some(DataMemType::Static { size: 2 * 65536 + 0x1000 }));
    let m = mt.unwrap();
    assert_eq!(m.size, 100);
    assert_eq!(m.fields.len(), 1);
}

#[test]
fn shared_heap_goes_through_pointer_and_gets_a_memtype() {
    let p = plan(1, Some(2), false, true, MemoryStyle::Static { bound_pages: 2 });
    let mut mt = Some(VmctxMemType { size: 0, fields: Vec::new() });
    let h = make_heap(&p, MemoryPlace::SharedDefined { pointer_offset: 48 }, DEF, IntWidth::I64, &mut mt);
    assert_eq!(h.ptr, HeapPtr::Loaded { offset: 48 });
    assert_eq!(h.base_offset, 0);
    assert_eq!(h.length_offset, 8);
    assert_eq!(h.memtype, Some(DataMemType::Static { size: 2 * 65536 + 0x1000 }));
    // The context's own memory type gains no fields for a memory it does not hold.
    assert_eq!(mt.unwrap().fields.len(), 0);
}

#[test]
fn largest_memory64_minimum_saturates() {
    let p = plan(WASM64_MAX_PAGES, Some(WASM64_MAX_PAGES), true, false, MemoryStyle::Dynamic);
    let mut mt: Option<VmctxMemType> = None;
    let h = make_heap(&p, MemoryPlace::Imported { from_offset: 8 }, DEF, IntWidth::I64, &mut mt);
    assert_eq!(h.min_size, u64::MAX);
    assert_eq!(h.max_size, None);
}

#[test]
fn atomic_length_load_is_64_bits() {
    let atomic = LengthLoad::Indirect { pointer_offset: 8, field_offset: 8, atomic: true };
    let plain = LengthLoad::Indirect { pointer_offset: 8, field_offset: 8, atomic: false };
    assert_eq!(length_load_width(atomic, IntWidth::I32), IntWidth::I64);
    assert_eq!(length_load_width(plain, IntWidth::I32), IntWidth::I32);
    assert_eq!(length_load_width(LengthLoad::Vmctx { offset: 4 }, IntWidth::I64), IntWidth::I64);
}
