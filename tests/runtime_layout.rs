use func_environ::builtins::{Builtin, BUILTIN_COUNT};
use func_environ::memory::{WASM64_MAX_PAGES, WASM_PAGE_SIZE};
use func_environ::table::{FUNCREF_INIT_BIT, FUNCREF_MASK};
use wasmtime_environ::BuiltinFunctionIndex as B;

#[test]
fn builtin_positions_match_runtime_table() {
    let pairs = [
        (Builtin::Memory32Grow, B::memory32_grow()),
        (Builtin::TableCopy, B::table_copy()),
        (Builtin::TableInit, B::table_init()),
        (Builtin::ElemDrop, B::elem_drop()),
        (Builtin::MemoryCopy, B::memory_copy()),
        (Builtin::MemoryFill, B::memory_fill()),
        (Builtin::MemoryInit, B::memory_init()),
        (Builtin::RefFunc, B::ref_func()),
        (Builtin::DataDrop, B::data_drop()),
        (Builtin::TableGetLazyInitFuncRef, B::table_get_lazy_init_func_ref()),
        (Builtin::TableGrowFuncRef, B::table_grow_func_ref()),
        (Builtin::TableGrowExternRef, B::table_grow_externref()),
        (Builtin::TableFillExternRef, B::table_fill_externref()),
        (Builtin::TableFillFuncRef, B::table_fill_func_ref()),
        (Builtin::DropExternRef, B::drop_externref()),
        (Builtin::ActivationsTableInsertWithGc, B::activations_table_insert_with_gc()),
        (Builtin::ExternRefGlobalGet, B::externref_global_get()),
        (Builtin::ExternRefGlobalSet, B::externref_global_set()),
        (Builtin::MemoryAtomicNotify, B::memory_atomic_notify()),
        (Builtin::MemoryAtomicWait32, B::memory_atomic_wait32()),
        (Builtin::MemoryAtomicWait64, B::memory_atomic_wait64()),
        (Builtin::OutOfGas, B::out_of_gas()),
        (Builtin::NewEpoch, B::new_epoch()),
        (Builtin::CheckMalloc, B::check_malloc()),
        (Builtin::CheckFree, B::check_free()),
        (Builtin::CheckLoad, B::check_load()),
        (Builtin::CheckStore, B::check_store()),
        (Builtin::MallocStart, B::malloc_start()),
        (Builtin::FreeStart, B::free_start()),
        (Builtin::UpdateStackPointer, B::update_stack_pointer()),
        (Builtin::UpdateMemSize, B::update_mem_size()),
    ];
    assert_eq!(pairs.len() as u32, B::builtin_functions_total_number());
    assert_eq!(BUILTIN_COUNT, B::builtin_functions_total_number());
    for (ours, theirs) in pairs {
        assert_eq!(ours.index(), theirs.index(), "{ours:?}");
    }
}

#[test]
fn encoded_constants_match_runtime() {
    assert_eq!(FUNCREF_INIT_BIT as usize, wasmtime_environ::FUNCREF_INIT_BIT);
    assert_eq!(FUNCREF_MASK as usize, wasmtime_environ::FUNCREF_MASK);
    assert_eq!(WASM_PAGE_SIZE, u64::from(wasmtime_environ::WASM_PAGE_SIZE));
    assert_eq!(WASM64_MAX_PAGES, wasmtime_environ::WASM64_MAX_PAGES);
}
