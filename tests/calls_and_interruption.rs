use func_environ::builtins::{
    atomic_wait_builtin, builtin_slot_offset, params, result, table_fill_builtin, table_grow_builtin,
    AbiParam, Builtin, SigCache, BUILTIN_COUNT,
};
use func_environ::call::{
    call_args, is_wasm_parameter, type_id_offset, Call, CallOp, DirectCall, FuncRefLayout, ImportSlots,
    ThroughRecord, Trap,
};
use func_environ::env::{entry_hook, CachedVars, EntryHook, EntryPlan, FuncEnvironment, LoopPlan, Tunables};
use func_environ::epoch::{epoch_check, epoch_entry_check, EpochCheck};
use func_environ::fuel::{
    apply_increment, cost, flush, fuel_exhausted, plan_fuel, reloads_after, Flush, FuelEmit, FuelState,
    Operator,
};
use func_environ::global::{get_global_location, make_global, GlobalPlace, GlobalVariable, ValType};
use func_environ::memory::{
    DefinitionLayout, HeapPtr, IntWidth, MemoryPlace, MemoryPlan, MemoryStyle,
};
use func_environ::table::RefKind;

#[test]
fn fuel_exhaustion_at_call() {
    // Function A is `call B`; one operator's worth of fuel remains.
    let mut a = FuelState::new();
    let mut fuel: i64 = -1;
    fuel = apply_increment(fuel, a.take_pending());
    assert!(!fuel_exhausted(fuel));
    let e = a.before_op(Operator::Call, true);
    assert_eq!(e, FuelEmit { increment: 1, spill: true });
    fuel = apply_increment(fuel, e.increment);
    assert_eq!(fuel, 0);
    // B's entry check reloads the stored 0 and calls the out-of-gas builtin.
    let mut b = FuelState::new();
    let stored = apply_increment(fuel, b.take_pending());
    assert!(fuel_exhausted(stored));
}

#[test]
fn fuel_costs_and_flush_points() {
    assert_eq!(cost(Operator::Nop), 0);
    assert_eq!(cost(Operator::Drop), 0);
    assert_eq!(cost(Operator::Block), 0);
    assert_eq!(cost(Operator::End), 0);
    assert_eq!(cost(Operator::If), 1);
    assert_eq!(cost(Operator::Br), 1);
    assert_eq!(cost(Operator::Other), 1);
    assert_eq!(flush(Operator::Other), Flush::Buffer);
    assert_eq!(flush(Operator::Block), Flush::Buffer);
    assert_eq!(flush(Operator::Loop), Flush::Fold);
    assert_eq!(flush(Operator::BrTable), Flush::Fold);
    assert_eq!(flush(Operator::CallRef), Flush::FoldAndSpill);
    assert_eq!(flush(Operator::Unreachable), Flush::FoldAndSpill);
    assert!(reloads_after(Operator::Call));
    assert!(reloads_after(Operator::CallRef));
    assert!(!reloads_after(Operator::ReturnCall));
}

#[test]
fn fuel_conservation_on_a_path() {
    let ops = vec![
        Operator::Other,
        Operator::Nop,
        Operator::Other,
        Operator::If,
        Operator::Other,
        Operator::Block,
        Operator::Other,
        Operator::End,
    ];
    let (emits, pending) = plan_fuel(&ops);
    let total: i64 = emits.iter().map(|e| e.increment).sum();
    assert_eq!(total, 5);
    assert_eq!(pending, 0);
    assert_eq!(emits[3], FuelEmit { increment: 3, spill: false });
    assert_eq!(emits[7], FuelEmit { increment: 2, spill: false });
}

#[test]
fn fuel_spills_before_leaving() {
    let ops = vec![Operator::Other, Operator::Other, Operator::Call, Operator::Other, Operator::Return];
    let (emits, pending) = plan_fuel(&ops);
    assert_eq!(emits[2], FuelEmit { increment: 3, spill: true });
    assert_eq!(emits[4], FuelEmit { increment: 1, spill: true });
    assert_eq!(pending, 0);
    let (emits, pending) = plan_fuel(&vec![Operator::Other, Operator::Other]);
    assert_eq!(emits, vec![FuelEmit { increment: 0, spill: false }; 2]);
    assert_eq!(pending, 2);
}

#[test]
fn unreachable_operators_cost_nothing() {
    let mut f = FuelState::new();
    assert_eq!(f.before_op(Operator::Other, false), FuelEmit { increment: 0, spill: false });
    assert_eq!(f.pending, 0);
    f.before_op(Operator::Other, true);
    assert_eq!(f.before_trapping_access(), FuelEmit { increment: 1, spill: true });
    assert_eq!(f.pending, 0);
}

#[test]
fn fuel_counter_wraps() {
    assert_eq!(apply_increment(-5, 3), -2);
    assert_eq!(apply_increment(i64::MAX, 1), i64::MIN);
    assert!(fuel_exhausted(0));
    assert!(!fuel_exhausted(-1));
}

#[test]
fn epoch_progress_calls_new_epoch_once() {
    // Cached deadline 5 is stale; the authoritative one is 8; epoch is 10.
    assert_eq!(
        epoch_check(10, 5, 8, 20),
        EpochCheck { reloaded_deadline: true, new_epoch_calls: 1, deadline: 20 }
    );
    // Past the cached deadline but not the authoritative one: reload only.
    assert_eq!(
        epoch_check(7, 5, 8, 20),
        EpochCheck { reloaded_deadline: true, new_epoch_calls: 0, deadline: 8 }
    );
    assert_eq!(
        epoch_check(4, 5, 8, 20),
        EpochCheck { reloaded_deadline: false, new_epoch_calls: 0, deadline: 5 }
    );
    assert_eq!(epoch_entry_check(9, 9, 30).new_epoch_calls, 1);
    assert_eq!(epoch_entry_check(8, 9, 30).new_epoch_calls, 0);
}

#[test]
fn tail_call_to_import() {
    let slots = ImportSlots { wasm_call: 200, vmctx: 208 };
    let tail = Call::new_tail();
    assert_eq!(tail.direct_call(Some(slots)), DirectCall::ThroughImport { slots, op: CallOp::ReturnCallIndirect });
    let regular = Call::new();
    assert_eq!(regular.direct_call(Some(slots)), DirectCall::ThroughImport { slots, op: CallOp::CallIndirect });
    // f.vmctx = 7, caller vmctx = 1, args 10, 11: identical for both forms.
    assert_eq!(call_args(7, 1, &vec![10, 11]), vec![7, 1, 10, 11]);
}

#[test]
fn direct_call_to_local_function() {
    assert_eq!(Call::new().direct_call(None), DirectCall::Colocated { op: CallOp::Call });
    assert_eq!(Call::new_tail().direct_call(None), DirectCall::Colocated { op: CallOp::ReturnCall });
    assert_eq!(call_args(1, 1, &vec![]), vec![1, 1]);
    assert!(!is_wasm_parameter(0));
    assert!(!is_wasm_parameter(1));
    assert!(is_wasm_parameter(2));
}

#[test]
fn indirect_call_signature_check() {
    let c = Call::new();
    assert_eq!(c.indirect_call(0x1000, 3, 4), Err(Trap::BadSignature));
    assert_eq!(c.indirect_call(0, 3, 3), Err(Trap::IndirectCallToNull));
    assert_eq!(c.indirect_call(0x1000, 3, 3), Ok(CallOp::CallIndirect));
    assert_eq!(Call::new_tail().indirect_call(0x1000, 3, 3), Ok(CallOp::ReturnCallIndirect));
    assert_eq!(c.call_ref(0), Err(Trap::NullReference));
    assert_eq!(c.call_ref(0x2000), Ok(CallOp::CallIndirect));
    let rec = FuncRefLayout { wasm_call: 0, vmctx: 16, type_index: 8 };
    assert_eq!(
        Call::new_tail().unchecked_call(rec),
        ThroughRecord { code_offset: 0, vmctx_offset: 16, op: CallOp::ReturnCallIndirect }
    );
    assert_eq!(type_id_offset(5, 4), Some(20));
    assert_eq!(type_id_offset(0x4000_0000, 4), None);
}

#[test]
fn builtin_signatures() {
    assert_eq!(Builtin::Memory32Grow.index(), 0);
    assert_eq!(Builtin::OutOfGas.index(), 21);
    assert_eq!(Builtin::UpdateMemSize.index(), BUILTIN_COUNT - 1);
    assert_eq!(params(Builtin::OutOfGas), vec![AbiParam::Vmctx]);
    assert_eq!(result(Builtin::NewEpoch), Some(AbiParam::I64));
    assert_eq!(
        params(Builtin::MemoryCopy),
        vec![AbiParam::Vmctx, AbiParam::I32Uext, AbiParam::I64, AbiParam::I32Uext, AbiParam::I64, AbiParam::I64]
    );
    assert_eq!(result(Builtin::DropExternRef), None);
    assert_eq!(builtin_slot_offset(Builtin::NewEpoch, IntWidth::I64), 22 * 8);
    assert_eq!(builtin_slot_offset(Builtin::NewEpoch, IntWidth::I32), 22 * 4);
    assert_eq!(table_grow_builtin(RefKind::Extern), Builtin::TableGrowExternRef);
    assert_eq!(table_fill_builtin(RefKind::Func), Builtin::TableFillFuncRef);
    assert_eq!(atomic_wait_builtin(IntWidth::I64), Builtin::MemoryAtomicWait64);
}

#[test]
fn signature_cache_imports_once() {
    let mut c = SigCache::new();
    assert_eq!(c.entries.len(), 31);
    assert_eq!(c.get(Builtin::OutOfGas), None);
    assert_eq!(c.get_or_import(Builtin::OutOfGas, 5), (5, true));
    assert_eq!(c.get_or_import(Builtin::OutOfGas, 9), (5, false));
    assert_eq!(c.get(Builtin::NewEpoch), None);
}

#[test]
fn globals() {
    assert_eq!(make_global(ValType::Ref(RefKind::Extern), GlobalPlace::Defined { offset: 32 }), GlobalVariable::Custom);
    assert_eq!(
        make_global(ValType::Ref(RefKind::Func), GlobalPlace::Defined { offset: 32 }),
        GlobalVariable::Memory { ptr: HeapPtr::Vmctx, offset: 32, ty: ValType::Ref(RefKind::Func) }
    );
    assert_eq!(
        make_global(ValType::I64, GlobalPlace::Imported { from_offset: 48 }),
        GlobalVariable::Memory { ptr: HeapPtr::Loaded { offset: 48 }, offset: 0, ty: ValType::I64 }
    );
    assert_eq!(get_global_location(GlobalPlace::Imported { from_offset: 48 }), (HeapPtr::Loaded { offset: 48 }, 0));
}

#[test]
fn environment_lifecycle() {
    let t = Tunables { consume_fuel: true, epoch_interruption: false, check_allocator_names: true };
    let mut env = FuncEnvironment::new(IntWidth::I64, t, true);
    assert_eq!(env.vmctx(3), 3);
    assert_eq!(env.vmctx(4), 3);
    assert!(env.pcc_vmctx_memtype.is_some());
    env.after_locals(5);
    assert_eq!(env.vars, CachedVars { runtime_limits_ptr: 5, fuel: 6, epoch_deadline: 7, epoch_ptr: 8 });
    assert_eq!(env.before_translate_function(), EntryPlan { load_runtime_limits: true, fuel_entry: true, epoch_entry: false });
    assert_eq!(env.translate_loop_header(), LoopPlan { fuel_check: true, epoch_check: false });
    assert_eq!(env.fuel_check(), 0);
    env.before_translate_operator(Operator::Other, true);
    assert!(env.after_translate_operator(Operator::Call, true));
    assert!(!env.after_translate_operator(Operator::Call, false));
    assert_eq!(env.builtin_call(Builtin::OutOfGas, 2), (2, true, 168));
    assert_eq!(env.builtin_call(Builtin::OutOfGas, 9), (2, false, 168));
    let plan = MemoryPlan { minimum: 1, maximum: None, memory64: false, shared: false, style: MemoryStyle::Dynamic, offset_guard_size: 0 };
    let def = DefinitionLayout { base: 0, current_length: 8 };
    assert_eq!(env.make_heap(&plan, MemoryPlace::Owned { base_offset: 96, length_offset: 80 }, def), 0);
    assert_eq!(env.make_heap(&plan, MemoryPlace::Owned { base_offset: 16, length_offset: 24 }, def), 1);
    assert!(env.after_translate_function(true));
    let offsets: Vec<u64> = env.pcc_vmctx_memtype.as_ref().unwrap().fields.iter().map(|f| f.offset).collect();
    assert_eq!(offsets, vec![16, 24, 80, 96]);
    assert_eq!(env.pcc_vmctx_memtype.as_ref().unwrap().size, 104);
}

#[test]
fn environment_without_fuel() {
    let t = Tunables { consume_fuel: false, epoch_interruption: true, check_allocator_names: false };
    let mut env = FuncEnvironment::new(IntWidth::I32, t, false);
    assert_eq!(env.vmctx(1), 1);
    assert!(env.pcc_vmctx_memtype.is_none());
    assert_eq!(env.before_unconditionally_trapping_memory_access(), None);
    assert_eq!(env.before_translate_operator(Operator::Call, true), FuelEmit { increment: 0, spill: false });
    assert!(!env.after_translate_function(true));
    assert_eq!(env.translate_loop_header(), LoopPlan { fuel_check: false, epoch_check: true });
}

#[test]
fn allocator_hooks_by_name() {
    assert_eq!(entry_hook(true, Some(b"malloc")), EntryHook::MallocStart);
    assert_eq!(entry_hook(true, Some(b"free")), EntryHook::FreeStart);
    assert_eq!(entry_hook(true, Some(b"mallocx")), EntryHook::Nothing);
    assert_eq!(entry_hook(true, None), EntryHook::Nothing);
    assert_eq!(entry_hook(false, Some(b"malloc")), EntryHook::Nothing);
}
