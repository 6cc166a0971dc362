use func_environ::externref::{ExternRefs, ReadPath};
use func_environ::memory::{HeapPtr, IntWidth};
use func_environ::table::{
    funcref_read, funcref_table_get, funcref_table_set, make_table, ref_is_null, reference_type,
    FuncrefRead, RefKind, RefRepr, TableDefLayout, TablePlace, FUNCREF_INIT_BIT, FUNCREF_MASK,
};

#[test]
fn funcref_lazy_init_then_fast_path() {
    let p: u64 = 0x7f00_1230;
    // An uninitialised slot takes the cold path to the lazy-init builtin.
    assert_eq!(funcref_read(0), FuncrefRead::LazyInit);
    assert_eq!(funcref_table_get(0, p), p);
    // Once the slot holds `P|1`, the fast path masks and returns `P`.
    let slot = p | 1;
    assert_eq!(funcref_read(slot), FuncrefRead::Ready { ptr: p });
    assert_eq!(funcref_table_get(slot, 0xdead), p);
}

#[test]
fn funcref_set_then_get_clears_low_bit() {
    for v in [0u64, 1, 0x1000, 0x1001, u64::MAX] {
        let slot = funcref_table_set(v);
        assert_eq!(slot, v | FUNCREF_INIT_BIT);
        assert_eq!(funcref_table_get(slot, 0xdead), v & !1);
    }
    assert_eq!(FUNCREF_MASK as i64, -2);
}

#[test]
fn null_funcref_set_reads_back_null() {
    let slot = funcref_table_set(0);
    assert_eq!(slot, 1);
    assert_eq!(funcref_read(slot), FuncrefRead::Ready { ptr: 0 });
}

fn state(table: Vec<u64>, refcounts: Vec<u64>, capacity: usize) -> ExternRefs {
    ExternRefs {
        table,
        globals: vec![0],
        activations: Vec::new(),
        bump_used: 0,
        bump_capacity: capacity,
        refcounts,
        dropped: Vec::new(),
    }
}

#[test]
fn externref_write_then_read_through_gc_builtin() {
    // Reference 1 is `r`; the bump region is full (`next == end`).
    let mut s = state(vec![0], vec![0, 0], 0);
    assert!(!s.table_set(0, 1));
    assert_eq!(s.refcounts[1], 1);
    let (r, path) = s.table_get(0);
    assert_eq!(r, 1);
    assert_eq!(path, ReadPath::InsertWithGc);
    assert_eq!(s.bump_used, 0);
    assert_eq!(s.refcounts[1], 2);
    assert_eq!(s.activations, vec![1]);
}

#[test]
fn externref_read_through_bump_region() {
    let mut s = state(vec![2, 0], vec![0, 0, 1], 4);
    let (r, path) = s.table_get(0);
    assert_eq!((r, path), (2, ReadPath::Bump));
    assert_eq!(s.bump_used, 1);
    assert_eq!(s.refcounts[2], 2);
    let (r, path) = s.table_get(1);
    assert_eq!((r, path), (0, ReadPath::Null));
    assert_eq!(s.bump_used, 1);
    assert_eq!(s.activations, vec![2]);
}

#[test]
fn externref_set_drops_last_reference_after_store() {
    let mut s = state(vec![1], vec![0, 1, 0], 0);
    let dropped = s.table_set(0, 2);
    assert!(dropped);
    assert_eq!(s.table, vec![2]);
    assert_eq!(s.refcounts, vec![0, 0, 1]);
    assert_eq!(s.dropped, vec![1]);
}

#[test]
fn externref_set_same_value_keeps_it() {
    let mut s = state(vec![1], vec![0, 1], 0);
    assert!(!s.table_set(0, 1));
    assert_eq!(s.refcounts[1], 1);
    assert!(s.dropped.is_empty());
}

#[test]
fn externref_refcount_balance_over_interleaving() {
    let mut s = state(vec![0, 0], vec![0, 0, 0], 1);
    s.table_set(0, 1);
    s.table_set(1, 2);
    s.table_get(0);
    s.global_set(0, 1);
    s.table_get(1);
    s.table_set(0, 0);
    let g = s.global_get(0);
    assert_eq!(g, 1);
    // Each count equals its holders: table slots, globals and activations.
    for id in 1..3u64 {
        let holders = s.table.iter().filter(|&&x| x == id).count()
            + s.globals.iter().filter(|&&x| x == id).count()
            + s.activations.iter().filter(|&&x| x == id).count();
        assert_eq!(s.refcounts[id as usize] as usize, holders);
    }
    assert!(s.dropped.is_empty());
}

#[test]
fn externref_global_set_runs_write_barrier() {
    let mut s = state(vec![0], vec![0, 0], 0);
    s.globals = vec![0];
    assert!(!s.global_set(0, 1));
    assert_eq!(s.refcounts[1], 1);
    assert!(s.global_set(0, 0));
    assert_eq!(s.dropped, vec![1]);
}

#[test]
fn tables_by_place() {
    let def = TableDefLayout { base: 0, current_elements: 8, current_elements_size: 4 };
    let t = make_table(TablePlace::Defined { base_offset: 80, current_elements_offset: 88 }, def, RefKind::Func, IntWidth::I64);
    assert_eq!(t.ptr, HeapPtr::Vmctx);
    assert_eq!((t.base_offset, t.bound_offset), (80, 88));
    assert_eq!(t.bound_bits, 32);
    assert_eq!(t.element_size, 8);
    assert_eq!(t.index_type, IntWidth::I32);
    let def8 = TableDefLayout { base: 0, current_elements: 8, current_elements_size: 8 };
    let t = make_table(TablePlace::Imported { from_offset: 24 }, def8, RefKind::Extern, IntWidth::I32);
    assert_eq!(t.ptr, HeapPtr::Loaded { offset: 24 });
    assert_eq!((t.base_offset, t.bound_offset), (0, 8));
    assert_eq!(t.bound_bits, 64);
    assert_eq!(t.element_size, 4);
}

#[test]
fn reference_representation() {
    assert_eq!(reference_type(RefKind::Func, IntWidth::I64), RefRepr::Pointer(IntWidth::I64));
    assert_eq!(reference_type(RefKind::Extern, IntWidth::I32), RefRepr::Reference(IntWidth::I32));
    assert_eq!(ref_is_null(0), 1);
    assert_eq!(ref_is_null(0x10), 0);
}

#[test]
fn narrow_element_counts() {
    let def = TableDefLayout { base: 0, current_elements: 8, current_elements_size: 2 };
    let t = make_table(TablePlace::Imported { from_offset: 24 }, def, RefKind::Func, IntWidth::I64);
    assert_eq!(t.bound_bits, 16);
}
