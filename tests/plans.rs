use func_environ::builtins::Builtin;
use func_environ::call::Trap;
use func_environ::emit::{
    epoch_check_plan, externref_get_plan, externref_set_plan, fuel_check_plan, funcref_get_plan, funcref_set_plan,
    indirect_check_plan, ActivationsLayout, IN0, IN1,
};
use func_environ::ir::{Inst, Term};
use func_environ::table::{FUNCREF_INIT_BIT, FUNCREF_MASK};

fn cold(p: &func_environ::ir::Plan) -> Vec<bool> {
    p.blocks.iter().map(|b| b.cold).collect()
}

#[test]
fn funcref_get_plan_masks_and_has_cold_lazy_init() {
    let p = funcref_get_plan(7);
    assert_eq!(cold(&p), vec![false, true, false]);
    assert!(p.blocks[0].insts.contains(&Inst::BandImm { dst: 18, src: 17, imm: FUNCREF_MASK }));
    assert!(p.blocks[1].insts.contains(&Inst::CallBuiltin {
        b: Builtin::TableGetLazyInitFuncRef,
        arg0: Some(19),
        arg1: Some(IN0),
        result: Some(20),
    }));
    assert!(p.blocks[1].insts.contains(&Inst::Iconst { dst: 19, ty: func_environ::ir::Ty::I32, imm: 7 }));
    assert_eq!(p.blocks[2].term, Term::End);
    assert_eq!(p.result, p.blocks[2].param);
}

#[test]
fn funcref_set_plan_sets_init_bit() {
    let p = funcref_set_plan();
    assert!(p.blocks[0].insts.contains(&Inst::BorImm { dst: 17, src: IN1, imm: FUNCREF_INIT_BIT }));
}

#[test]
fn externref_plans_order_barriers() {
    let get = externref_get_plan(ActivationsLayout { table: 40, next: 0, end: 8, ref_bytes: 8 });
    assert_eq!(cold(&get), vec![false, false, true, false, false]);
    assert!(get.blocks[3].insts.contains(&Inst::IaddImm { dst: 26, src: 21, imm: 8 }));
    let set = externref_set_plan();
    // Increment of the new value in block 1, store in block 2, decrement in block 3, drop in 4.
    assert!(matches!(set.blocks[1].insts[1], Inst::AtomicAdd { addr: IN1, .. }));
    assert!(matches!(set.blocks[2].insts[1], Inst::Store { value: IN1, .. }));
    assert!(matches!(set.blocks[3].insts[1], Inst::AtomicAdd { addr: 20, .. }));
    assert!(matches!(set.blocks[4].insts[0], Inst::CallBuiltin { b: Builtin::DropExternRef, .. }));
}

#[test]
fn interruption_plans_have_cold_slow_paths() {
    let e = epoch_check_plan(3, 4, 5, 16);
    assert_eq!(cold(&e), vec![false, true, true, false]);
    assert_eq!(e.blocks[0].insts.iter().filter(|i| matches!(i, Inst::Load { .. })).count(), 1);
    let f = fuel_check_plan(1, 2, 8);
    assert_eq!(cold(&f), vec![false, true, false]);
    let call = f.blocks[1].insts.iter().position(|i| matches!(i, Inst::CallBuiltin { b: Builtin::OutOfGas, .. })).unwrap();
    let store = f.blocks[1].insts.iter().position(|i| matches!(i, Inst::Store { .. })).unwrap();
    let load = f.blocks[1].insts.iter().position(|i| matches!(i, Inst::Load { .. })).unwrap();
    assert!(store < call && call < load);
}

#[test]
fn indirect_checks_trap_before_call() {
    let p = indirect_check_plan(64, 12, 16);
    assert_eq!(p.blocks.len(), 1);
    assert_eq!(p.blocks[0].insts[0], Inst::Trapz { cond: IN0, code: Trap::IndirectCallToNull });
    assert!(matches!(p.blocks[0].insts.last(), Some(Inst::Trapz { code: Trap::BadSignature, .. })));
    assert_eq!(p.blocks[0].term, Term::End);
}
