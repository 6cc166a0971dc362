//! The plans the translator emits for table reads and writes, the
//! reference barriers, the epoch and fuel checks, and the checks before an
//! indirect call, each proved to compute what the run-time models state.
use vstd::prelude::*;
use crate::builtins::Builtin;
use crate::ir::{
    Block, Flags, HostReply, Inst, Machine, Plan, Term, Ty, cold_exactly, ended_at, lemma_run_done, lemma_run_split, lemma_run_step, advance, run, start, step,
};
use crate::call::{Trap, indirect_check_of};
use crate::epoch::epoch_check_of;
use crate::ir::{signed, wrap_add};
use crate::table::{FUNCREF_INIT_BIT, FUNCREF_MASK, funcref_get_of};

verus! {

/// Value number of a plan's first input.
pub const IN0: u32 = 0;

/// Value number of a plan's second input.
pub const IN1: u32 = 1;

/// `table.get` on a funcref table, with the element index bound to `IN0`:
/// load the slot, mask off the init bit, and branch on the raw slot to the
/// cold lazy-init block (zero) or to the continuation, whose parameter is
/// the result.
pub fn funcref_get_plan(table_index: u32) -> (r: Plan)
    ensures
        r.blocks@.len() == 3,
        cold_exactly(r, set![1int]),
        r.result == Some(21u32),
        forall|index: u64, slot: u64, vmctx: u64, mem: Map<int, u64>, host: Seq<HostReply>, vars: Map<u32, u64>|
            {
                let m = #[trigger] run(r, start(map![IN0 => index], vars, mem, slot, vmctx, host), 8);
                let raw = mem[slot as int];
                &&& ended_at(m, 2)
                &&& m.vals[21] == funcref_get_of(raw, host[0].ret)
                &&& raw != 0 ==> m.calls.len() == 0 && m.mem == mem
                &&& raw == 0 ==> m.calls.len() == 1 && m.calls[0].b == Builtin::TableGetLazyInitFuncRef
                    && m.calls[0].args == seq![table_index as u64, index]
            },
{
    let r = Plan {
        blocks: vec![
            Block {
                param: None,
                insts: vec![
                    Inst::TableAddr { dst: 16, index: IN0 },
                    Inst::Load { dst: 17, ty: Ty::Ptr, flags: Flags::Table, addr: 16, offset: 0 },
                    Inst::BandImm { dst: 18, src: 17, imm: FUNCREF_MASK },
                ],
                term: Term::Brif { cond: 17, then_to: 2, then_arg: Some(18), else_to: 1, else_arg: None },
                cold: false,
            },
            Block {
                param: None,
                insts: vec![
                    Inst::Iconst { dst: 19, ty: Ty::I32, imm: table_index as u64 },
                    Inst::CallBuiltin {
                        b: Builtin::TableGetLazyInitFuncRef,
                        arg0: Some(19),
                        arg1: Some(IN0),
                        result: Some(20),
                    },
                ],
                term: Term::Jump { to: 2, arg: Some(20) },
                cold: true,
            },
            Block { param: Some(21), insts: vec![], term: Term::End, cold: false },
        ],
        result: Some(21),
    };
    proof {
        assert(r.blocks@[0].insts@ =~= seq![
            Inst::TableAddr { dst: 16, index: IN0 },
            Inst::Load { dst: 17, ty: Ty::Ptr, flags: Flags::Table, addr: 16, offset: 0 },
            Inst::BandImm { dst: 18, src: 17, imm: FUNCREF_MASK },
        ]);
        assert forall|index: u64, slot: u64, vmctx: u64, mem: Map<int, u64>, host: Seq<HostReply>, vars: Map<u32, u64>|
            {
                let m = #[trigger] run(r, start(map![IN0 => index], vars, mem, slot, vmctx, host), 8);
                let raw = mem[slot as int];
                &&& ended_at(m, 2)
                &&& m.vals[21] == funcref_get_of(raw, host[0].ret)
                &&& raw != 0 ==> m.calls.len() == 0 && m.mem == mem
                &&& raw == 0 ==> m.calls.len() == 1 && m.calls[0].b == Builtin::TableGetLazyInitFuncRef
                    && m.calls[0].args == seq![table_index as u64, index]
            } by {
            lemma_funcref_get(r, table_index, index, slot, vmctx, mem, host, vars);
        }
    }
    assert(cold_exactly(r, set![1int]));
    r
}

proof fn lemma_funcref_get(
    r: Plan,
    table_index: u32,
    index: u64,
    slot: u64,
    vmctx: u64,
    mem: Map<int, u64>,
    host: Seq<HostReply>,
    vars: Map<u32, u64>,
)
    requires
        r.blocks@.len() == 3,
        r.blocks@[0].insts@ == seq![
            Inst::TableAddr { dst: 16, index: IN0 },
            Inst::Load { dst: 17, ty: Ty::Ptr, flags: Flags::Table, addr: 16, offset: 0 },
            Inst::BandImm { dst: 18, src: 17, imm: FUNCREF_MASK },
        ],
        r.blocks@[0].term == (Term::Brif { cond: 17, then_to: 2, then_arg: Some(18), else_to: 1, else_arg: None }),
        r.blocks@[1].insts@ == seq![
            Inst::Iconst { dst: 19, ty: Ty::I32, imm: table_index as u64 },
            Inst::CallBuiltin {
                b: Builtin::TableGetLazyInitFuncRef,
                arg0: Some(19),
                arg1: Some(IN0),
                result: Some(20),
            },
        ],
        r.blocks@[1].term == (Term::Jump { to: 2, arg: Some(20) }),
        r.blocks@[2].param == Some(21u32),
        r.blocks@[2].insts@.len() == 0,
        r.blocks@[2].term == Term::End,
    ensures
        ({
            let m = run(r, start(map![IN0 => index], vars, mem, slot, vmctx, host), 8);
            let raw = mem[slot as int];
            &&& ended_at(m, 2)
            &&& m.vals[21] == funcref_get_of(raw, host[0].ret)
            &&& raw != 0 ==> m.calls.len() == 0 && m.mem == mem
            &&& raw == 0 ==> m.calls.len() == 1 && m.calls[0].b == Builtin::TableGetLazyInitFuncRef
                && m.calls[0].args == seq![table_index as u64, index]
        }),
{
    let raw = mem[slot as int];
    let m0 = start(map![IN0 => index], vars, mem, slot, vmctx, host);
    let m1 = advance(r, m0);
    assert(m1.vals[16] == slot && m1.pc == 1 && m1.block == 0 && !m1.done);
    let m2 = advance(r, m1);
    assert(m2.vals[17] == raw && m2.pc == 2 && !m2.done);
    let m3 = advance(r, m2);
    assert(m3.vals[18] == raw & FUNCREF_MASK && m3.vals[17] == raw && m3.pc == 3 && !m3.done);
    let m4 = advance(r, m3);
    lemma_run_step(r, m0, 8);
    lemma_run_step(r, m1, 7);
    lemma_run_step(r, m2, 6);
    lemma_run_step(r, m3, 5);
    if raw != 0 {
        assert(m4.block == 2 && m4.pc == 0 && m4.vals[21] == raw & FUNCREF_MASK && !m4.done);
        let m5 = advance(r, m4);
        assert(m5.done && m5.block == 2 && m5.vals[21] == raw & FUNCREF_MASK);
        lemma_run_step(r, m4, 4);
        lemma_run_done(r, m5, 3);
    } else {
        assert(m4.block == 1 && m4.pc == 0 && !m4.done && m4.vals[IN0] == index);
        let m5 = advance(r, m4);
        assert(m5.vals[19] == table_index as u64 && m5.pc == 1 && !m5.done && m5.vals[IN0] == index);
        let m6 = advance(r, m5);
        assert(m6.calls.len() == 1 && m6.calls[0].args =~= seq![table_index as u64, index]);
        assert(m6.vals[20] == host[0].ret && m6.pc == 2 && !m6.done);
        let m7 = advance(r, m6);
        assert(m7.block == 2 && m7.vals[21] == host[0].ret && !m7.done);
        let m8 = advance(r, m7);
        assert(m8.done && m8.block == 2 && m8.vals[21] == host[0].ret);
        lemma_run_step(r, m4, 4);
        lemma_run_step(r, m5, 3);
        lemma_run_step(r, m6, 2);
        lemma_run_step(r, m7, 1);
    }
}

/// `table.set` on a funcref table, index in `IN0`, value in `IN1`: the
/// slot receives the value with the init bit set.
pub fn funcref_set_plan() -> (r: Plan)
    ensures
        r.blocks@.len() == 1,
        cold_exactly(r, Set::empty()),
        r.result is None,
        forall|index: u64, value: u64, slot: u64, vmctx: u64, mem: Map<int, u64>, host: Seq<HostReply>, vars: Map<u32, u64>|
            {
                let m = #[trigger] run(r, start(map![IN0 => index, IN1 => value], vars, mem, slot, vmctx, host), 4);
                &&& ended_at(m, 0)
                &&& m.calls.len() == 0
                &&& m.mem == mem.insert(slot as int, value | FUNCREF_INIT_BIT)
            },
{
    let r = Plan {
        blocks: vec![
            Block {
                param: None,
                insts: vec![
                    Inst::TableAddr { dst: 16, index: IN0 },
                    Inst::BorImm { dst: 17, src: IN1, imm: FUNCREF_INIT_BIT },
                    Inst::Store { flags: Flags::Table, value: 17, addr: 16, offset: 0 },
                ],
                term: Term::End,
                cold: false,
            },
        ],
        result: None,
    };
    proof {
        assert forall|index: u64, value: u64, slot: u64, vmctx: u64, mem: Map<int, u64>, host: Seq<HostReply>, vars: Map<u32, u64>|
            {
                let m = #[trigger] run(r, start(map![IN0 => index, IN1 => value], vars, mem, slot, vmctx, host), 4);
                &&& ended_at(m, 0)
                &&& m.calls.len() == 0
                &&& m.mem == mem.insert(slot as int, value | FUNCREF_INIT_BIT)
            } by {
            let m0 = start(map![IN0 => index, IN1 => value], vars, mem, slot, vmctx, host);
            assert(m0.vals[IN1] == value);
            let m1 = advance(r, m0);
            assert(m1.vals[16] == slot && m1.pc == 1 && !m1.done && m1.vals[IN1] == value);
            let m2 = advance(r, m1);
            assert(m2.vals[17] == value | FUNCREF_INIT_BIT && m2.vals[16] == slot && m2.pc == 2 && !m2.done);
            let m3 = advance(r, m2);
            assert(m3.mem == mem.insert(slot as int, value | FUNCREF_INIT_BIT) && m3.pc == 3 && !m3.done);
            let m4 = advance(r, m3);
            assert(m4.done && m4.block == 0);
            lemma_run_step(r, m0, 4);
            lemma_run_step(r, m1, 3);
            lemma_run_step(r, m2, 2);
            lemma_run_step(r, m3, 1);
        }
    }
    assert(cold_exactly(r, Set::empty()));
    r
}

/// Offsets the externref read barrier needs.
#[derive(Clone, Copy, Debug, PartialEq, Eq, Structural)]
pub struct ActivationsLayout {
    /// Context offset of the activations-table pointer.
    pub table: i32,
    /// Offsets of its `next` and `end` fields.
    pub next: i32,
    pub end: i32,
    /// Bytes of one reference.
    pub ref_bytes: u64,
}

/// The memory after the read barrier's fast path on `elem`, with the
/// activations table at `act` and its `next` finger `next`: the count at
/// offset 0 of the reference rises by one, the reference is stored at
/// `next`, and `next` moves on by one slot.
pub open spec fn bump_insert(mem: Map<int, u64>, elem: u64, act: u64, next: u64, l: ActivationsLayout) -> Map<int, u64> {
    let a = mem.insert(elem as int, crate::ir::wrap_add(mem[elem as int], 1));
    let b = a.insert(next as int, elem);
    b.insert(act + l.next, crate::ir::wrap_add(next, l.ref_bytes))
}

/// `table.get` on an externref table, index in `IN0`: a non-null element
/// is rooted in the activations table, through the bump region when it has
/// room, else through the insert-with-GC builtin (a cold block); the result
/// is the element.
pub fn externref_get_plan(l: ActivationsLayout) -> (r: Plan)
    ensures
        r.blocks@.len() == 5,
        cold_exactly(r, set![2int]),
        r.result == Some(17u32),
        forall|index: u64, slot: u64, vmctx: u64, mem: Map<int, u64>, host: Seq<HostReply>, vars: Map<u32, u64>|
            {
                let m = #[trigger] run(r, start(map![IN0 => index], vars, mem, slot, vmctx, host), 20);
                let elem = mem[slot as int];
                let act = mem[vmctx + l.table];
                let next = mem[act + l.next];
                let end = mem[act + l.end];
                &&& ended_at(m, 4)
                &&& m.vals[17] == elem
                &&& elem == 0 ==> m.calls.len() == 0 && m.mem == mem
                &&& elem != 0 && next == end ==> m.calls.len() == 1 && m.calls[0].b
                    == Builtin::ActivationsTableInsertWithGc && m.calls[0].args == seq![elem] && m.calls[0].mem
                    == mem && m.mem == host[0].mem
                &&& elem != 0 && next != end ==> m.calls.len() == 0 && m.mem == bump_insert(mem, elem, act, next, l)
            },
{
    let r = Plan {
        blocks: vec![
            Block {
                param: None,
                insts: vec![
                    Inst::TableAddr { dst: 16, index: IN0 },
                    Inst::Load { dst: 17, ty: Ty::Ref, flags: Flags::Table, addr: 16, offset: 0 },
                    Inst::IsNull { dst: 18, src: 17 },
                ],
                term: Term::Brif { cond: 18, then_to: 4, then_arg: None, else_to: 1, else_arg: None },
                cold: false,
            },
            Block {
                param: None,
                insts: vec![
                    Inst::Vmctx { dst: 19 },
                    Inst::Load { dst: 20, ty: Ty::Ptr, flags: Flags::Trusted, addr: 19, offset: l.table },
                    Inst::Load { dst: 21, ty: Ty::Ptr, flags: Flags::Trusted, addr: 20, offset: l.next },
                    Inst::Load { dst: 22, ty: Ty::Ptr, flags: Flags::Trusted, addr: 20, offset: l.end },
                    Inst::IcmpEq { dst: 23, a: 21, b: 22 },
                ],
                term: Term::Brif { cond: 23, then_to: 2, then_arg: None, else_to: 3, else_arg: None },
                cold: false,
            },
            Block {
                param: None,
                insts: vec![
                    Inst::CallBuiltin { b: Builtin::ActivationsTableInsertWithGc, arg0: Some(17), arg1: None, result: None },
                ],
                term: Term::Jump { to: 4, arg: None },
                cold: true,
            },
            Block {
                param: None,
                insts: vec![
                    Inst::Iconst { dst: 24, ty: Ty::Ptr, imm: 1 },
                    Inst::AtomicAdd { dst: 25, addr: 17, delta: 24 },
                    Inst::Store { flags: Flags::Trusted, value: 17, addr: 21, offset: 0 },
                    Inst::IaddImm { dst: 26, src: 21, imm: l.ref_bytes },
                    Inst::Store { flags: Flags::Trusted, value: 26, addr: 20, offset: l.next },
                ],
                term: Term::Jump { to: 4, arg: None },
                cold: false,
            },
            Block { param: None, insts: vec![], term: Term::End, cold: false },
        ],
        result: Some(17),
    };
    proof {
        assert(r.blocks@[2].insts@ =~= seq![
            Inst::CallBuiltin { b: Builtin::ActivationsTableInsertWithGc, arg0: Some(17), arg1: None, result: None },
        ]);
        assert forall|index: u64, slot: u64, vmctx: u64, mem: Map<int, u64>, host: Seq<HostReply>, vars: Map<u32, u64>|
            {
                let m = #[trigger] run(r, start(map![IN0 => index], vars, mem, slot, vmctx, host), 20);
                let elem = mem[slot as int];
                let act = mem[vmctx + l.table];
                let next = mem[act + l.next];
                let end = mem[act + l.end];
                &&& ended_at(m, 4)
                &&& m.vals[17] == elem
                &&& elem == 0 ==> m.calls.len() == 0 && m.mem == mem
                &&& elem != 0 && next == end ==> m.calls.len() == 1 && m.calls[0].b
                    == Builtin::ActivationsTableInsertWithGc && m.calls[0].args == seq![elem] && m.calls[0].mem
                    == mem && m.mem == host[0].mem
                &&& elem != 0 && next != end ==> m.calls.len() == 0 && m.mem == bump_insert(mem, elem, act, next, l)
            } by {
            lemma_externref_get(r, l, index, slot, vmctx, mem, host, vars);
        }
    }
    assert(cold_exactly(r, set![2int]));
    r
}

/// The first block of the read barrier: the element is loaded and tested.
proof fn lemma_eg_entry(r: Plan, m: Machine)
    requires
        r.blocks@.len() == 5,
        r.blocks@[0].insts@ == seq![
            Inst::TableAddr { dst: 16, index: IN0 },
            Inst::Load { dst: 17, ty: Ty::Ref, flags: Flags::Table, addr: 16, offset: 0 },
            Inst::IsNull { dst: 18, src: 17 },
        ],
        r.blocks@[0].term == (Term::Brif { cond: 18, then_to: 4, then_arg: None, else_to: 1, else_arg: None }),
        r.blocks@[1].param is None,
        r.blocks@[4].param is None,
        m.block == 0 && m.pc == 0 && !m.done && m.trap is None,
    ensures
        ({
            let n = run(r, m, 4);
            let elem = m.mem[m.slot as int];
            &&& n.block == (if elem == 0 { 4int } else { 1int }) && n.pc == 0 && !n.done && n.trap is None
            &&& n.vals[17] == elem && n.mem == m.mem && n.calls == m.calls && n.host == m.host
            &&& n.vmctx == m.vmctx
        }),
{
    let m1 = advance(r, m);
    let m2 = advance(r, m1);
    let m3 = advance(r, m2);
    let m4 = advance(r, m3);
    lemma_run_step(r, m, 4);
    lemma_run_step(r, m1, 3);
    lemma_run_step(r, m2, 2);
    lemma_run_step(r, m3, 1);
}

/// The second block: the bump region's fingers are loaded and compared.
proof fn lemma_eg_fingers(r: Plan, l: ActivationsLayout, m: Machine)
    requires
        r.blocks@.len() == 5,
        r.blocks@[1].insts@ == seq![
            Inst::Vmctx { dst: 19 },
            Inst::Load { dst: 20, ty: Ty::Ptr, flags: Flags::Trusted, addr: 19, offset: l.table },
            Inst::Load { dst: 21, ty: Ty::Ptr, flags: Flags::Trusted, addr: 20, offset: l.next },
            Inst::Load { dst: 22, ty: Ty::Ptr, flags: Flags::Trusted, addr: 20, offset: l.end },
            Inst::IcmpEq { dst: 23, a: 21, b: 22 },
        ],
        r.blocks@[1].term == (Term::Brif { cond: 23, then_to: 2, then_arg: None, else_to: 3, else_arg: None }),
        r.blocks@[2].param is None,
        r.blocks@[3].param is None,
        m.block == 1 && m.pc == 0 && !m.done && m.trap is None,
    ensures
        ({
            let n = run(r, m, 6);
            let act = m.mem[m.vmctx + l.table];
            let next = m.mem[act + l.next];
            let end = m.mem[act + l.end];
            &&& n.block == (if next == end { 2int } else { 3int }) && n.pc == 0 && !n.done && n.trap is None
            &&& n.vals[17] == m.vals[17] && n.vals[20] == act && n.vals[21] == next
            &&& n.mem == m.mem && n.calls == m.calls && n.host == m.host
        }),
{
    let m1 = advance(r, m);
    let m2 = advance(r, m1);
    let m3 = advance(r, m2);
    let m4 = advance(r, m3);
    let m5 = advance(r, m4);
    let m6 = advance(r, m5);
    lemma_run_step(r, m, 6);
    lemma_run_step(r, m1, 5);
    lemma_run_step(r, m2, 4);
    lemma_run_step(r, m3, 3);
    lemma_run_step(r, m4, 2);
    lemma_run_step(r, m5, 1);
}

/// The cold block: the insert-with-GC builtin roots the element.
proof fn lemma_eg_gc(r: Plan, m: Machine)
    requires
        r.blocks@.len() == 5,
        r.blocks@[2].insts@ == seq![
            Inst::CallBuiltin { b: Builtin::ActivationsTableInsertWithGc, arg0: Some(17), arg1: None, result: None },
        ],
        r.blocks@[2].term == (Term::Jump { to: 4, arg: None }),
        r.blocks@[4].param is None,
        m.block == 2 && m.pc == 0 && !m.done && m.trap is None,
    ensures
        ({
            let n = run(r, m, 2);
            &&& n.block == 4 && n.pc == 0 && !n.done && n.trap is None
            &&& n.vals[17] == m.vals[17]
            &&& n.calls == m.calls.push(
                crate::ir::HostCall { b: Builtin::ActivationsTableInsertWithGc, args: seq![m.vals[17]], mem: m.mem },
            )
            &&& n.mem == m.host[m.calls.len() as int].mem
        }),
{
    let m1 = advance(r, m);
    assert(m1.calls[m.calls.len() as int].args =~= seq![m.vals[17]]);
    let m2 = advance(r, m1);
    lemma_run_step(r, m, 2);
    lemma_run_step(r, m1, 1);
}

/// The fast path: count, store at `next`, advance `next`.
proof fn lemma_eg_bump(r: Plan, l: ActivationsLayout, m: Machine)
    requires
        r.blocks@.len() == 5,
        r.blocks@[3].insts@ == seq![
            Inst::Iconst { dst: 24, ty: Ty::Ptr, imm: 1 },
            Inst::AtomicAdd { dst: 25, addr: 17, delta: 24 },
            Inst::Store { flags: Flags::Trusted, value: 17, addr: 21, offset: 0 },
            Inst::IaddImm { dst: 26, src: 21, imm: l.ref_bytes },
            Inst::Store { flags: Flags::Trusted, value: 26, addr: 20, offset: l.next },
        ],
        r.blocks@[3].term == (Term::Jump { to: 4, arg: None }),
        r.blocks@[4].param is None,
        m.block == 3 && m.pc == 0 && !m.done && m.trap is None,
    ensures
        ({
            let n = run(r, m, 6);
            &&& n.block == 4 && n.pc == 0 && !n.done && n.trap is None
            &&& n.vals[17] == m.vals[17] && n.calls == m.calls
            &&& n.mem == bump_insert(m.mem, m.vals[17], m.vals[20], m.vals[21], l)
        }),
{
    let m1 = advance(r, m);
    let m2 = advance(r, m1);
    let m3 = advance(r, m2);
    let m4 = advance(r, m3);
    let m5 = advance(r, m4);
    let m6 = advance(r, m5);
    lemma_run_step(r, m, 6);
    lemma_run_step(r, m1, 5);
    lemma_run_step(r, m2, 4);
    lemma_run_step(r, m3, 3);
    lemma_run_step(r, m4, 2);
    lemma_run_step(r, m5, 1);
}

/// The last block ends the plan.
proof fn lemma_end(r: Plan, m: Machine, b: int, n: nat)
    requires
        0 <= b < r.blocks@.len(),
        r.blocks@[b].insts@.len() == 0,
        r.blocks@[b].term == Term::End,
        m.block == b && m.pc == 0 && !m.done && m.trap is None,
        n >= 1,
    ensures
        run(r, m, n) == (Machine { done: true, ..m }),
{
    let m1 = advance(r, m);
    lemma_run_step(r, m, n);
    lemma_run_done(r, m1, (n - 1) as nat);
}

proof fn lemma_externref_get(
    r: Plan,
    l: ActivationsLayout,
    index: u64,
    slot: u64,
    vmctx: u64,
    mem: Map<int, u64>,
    host: Seq<HostReply>,
    vars: Map<u32, u64>,
)
    requires
        r.blocks@.len() == 5,
        r.blocks@[0].insts@ == seq![
            Inst::TableAddr { dst: 16, index: IN0 },
            Inst::Load { dst: 17, ty: Ty::Ref, flags: Flags::Table, addr: 16, offset: 0 },
            Inst::IsNull { dst: 18, src: 17 },
        ],
        r.blocks@[0].term == (Term::Brif { cond: 18, then_to: 4, then_arg: None, else_to: 1, else_arg: None }),
        r.blocks@[1].insts@ == seq![
            Inst::Vmctx { dst: 19 },
            Inst::Load { dst: 20, ty: Ty::Ptr, flags: Flags::Trusted, addr: 19, offset: l.table },
            Inst::Load { dst: 21, ty: Ty::Ptr, flags: Flags::Trusted, addr: 20, offset: l.next },
            Inst::Load { dst: 22, ty: Ty::Ptr, flags: Flags::Trusted, addr: 20, offset: l.end },
            Inst::IcmpEq { dst: 23, a: 21, b: 22 },
        ],
        r.blocks@[1].term == (Term::Brif { cond: 23, then_to: 2, then_arg: None, else_to: 3, else_arg: None }),
        r.blocks@[2].insts@ == seq![
            Inst::CallBuiltin { b: Builtin::ActivationsTableInsertWithGc, arg0: Some(17), arg1: None, result: None },
        ],
        r.blocks@[2].term == (Term::Jump { to: 4, arg: None }),
        r.blocks@[3].insts@ == seq![
            Inst::Iconst { dst: 24, ty: Ty::Ptr, imm: 1 },
            Inst::AtomicAdd { dst: 25, addr: 17, delta: 24 },
            Inst::Store { flags: Flags::Trusted, value: 17, addr: 21, offset: 0 },
            Inst::IaddImm { dst: 26, src: 21, imm: l.ref_bytes },
            Inst::Store { flags: Flags::Trusted, value: 26, addr: 20, offset: l.next },
        ],
        r.blocks@[3].term == (Term::Jump { to: 4, arg: None }),
        r.blocks@[1].param is None,
        r.blocks@[2].param is None,
        r.blocks@[3].param is None,
        r.blocks@[4].param is None,
        r.blocks@[4].insts@.len() == 0,
        r.blocks@[4].term == Term::End,
    ensures
        ({
            let m = run(r, start(map![IN0 => index], vars, mem, slot, vmctx, host), 20);
            let elem = mem[slot as int];
            let act = mem[vmctx + l.table];
            let next = mem[act + l.next];
            let end = mem[act + l.end];
            &&& ended_at(m, 4)
            &&& m.vals[17] == elem
            &&& elem == 0 ==> m.calls.len() == 0 && m.mem == mem
            &&& elem != 0 && next == end ==> m.calls.len() == 1 && m.calls[0].b
                == Builtin::ActivationsTableInsertWithGc && m.calls[0].args == seq![elem] && m.calls[0].mem
                == mem && m.mem == host[0].mem
            &&& elem != 0 && next != end ==> m.calls.len() == 0 && m.mem == bump_insert(mem, elem, act, next, l)
        }),
{
    let elem = mem[slot as int];
    let m0 = start(map![IN0 => index], vars, mem, slot, vmctx, host);
    lemma_eg_entry(r, m0);
    lemma_run_split(r, m0, 4, 16);
    let a = run(r, m0, 4);
    if elem == 0 {
        lemma_end(r, a, 4, 16);
    } else {
        lemma_eg_fingers(r, l, a);
        lemma_run_split(r, a, 6, 10);
        let b = run(r, a, 6);
        let act = mem[vmctx + l.table];
        let next = mem[act + l.next];
        let end = mem[act + l.end];
        if next == end {
            lemma_eg_gc(r, b);
            lemma_run_split(r, b, 2, 8);
            let c = run(r, b, 2);
            lemma_end(r, c, 4, 8);
            assert(c.calls[0].args =~= seq![elem]);
        } else {
            lemma_eg_bump(r, l, b);
            lemma_run_split(r, b, 6, 4);
            let c = run(r, b, 6);
            lemma_end(r, c, 4, 4);
        }
    }
}

/// The memory after the write barrier's increment of `value` (skipped for
/// null).
pub open spec fn inc_new(mem: Map<int, u64>, value: u64) -> Map<int, u64> {
    if value != 0 { mem.insert(value as int, wrap_add(mem[value as int], 1)) } else { mem }
}

/// The element the write barrier replaces, read after the increment.
pub open spec fn replaced(mem: Map<int, u64>, slot: u64, value: u64) -> u64 {
    inc_new(mem, value)[slot as int]
}

/// The memory once the new value is stored in the slot.
pub open spec fn swapped(mem: Map<int, u64>, slot: u64, value: u64) -> Map<int, u64> {
    inc_new(mem, value).insert(slot as int, value)
}

/// The memory after the whole write barrier: the old element, if not null,
/// loses one count after the store.
pub open spec fn write_barrier_mem(mem: Map<int, u64>, slot: u64, value: u64) -> Map<int, u64> {
    let b = swapped(mem, slot, value);
    let old = replaced(mem, slot, value);
    if old != 0 { b.insert(old as int, wrap_add(b[old as int], 0xffff_ffff_ffff_ffff)) } else { b }
}

/// The write barrier drops the old element: it is not null and its count
/// before the decrement was 1.
pub open spec fn write_barrier_drops(mem: Map<int, u64>, slot: u64, value: u64) -> bool {
    let old = replaced(mem, slot, value);
    old != 0 && swapped(mem, slot, value)[old as int] == 1
}

/// `table.set` on an externref table, index in `IN0`, value in `IN1`: the
/// new value gains a count first; the old element is read and the new one
/// stored; then the old element, if not null, loses a count, and when its
/// count was 1 the drop builtin is called, seeing the table already
/// updated.
pub fn externref_set_plan() -> (r: Plan)
    ensures
        r.blocks@.len() == 6,
        cold_exactly(r, Set::empty()),
        r.result is None,
        forall|index: u64, value: u64, slot: u64, vmctx: u64, mem: Map<int, u64>, host: Seq<HostReply>, vars: Map<u32, u64>|
            {
                let m = #[trigger] run(r, start(map![IN0 => index, IN1 => value], vars, mem, slot, vmctx, host), 20);
                let after = write_barrier_mem(mem, slot, value);
                &&& ended_at(m, 5)
                &&& write_barrier_drops(mem, slot, value) ==> m.calls.len() == 1 && m.calls[0].b
                    == Builtin::DropExternRef && m.calls[0].args == seq![replaced(mem, slot, value)]
                    && m.calls[0].mem == after && m.mem == host[0].mem
                &&& !write_barrier_drops(mem, slot, value) ==> m.calls.len() == 0 && m.mem == after
            },
{
    let r = Plan {
        blocks: vec![
            Block {
                param: None,
                insts: vec![Inst::TableAddr { dst: 16, index: IN0 }, Inst::IsNull { dst: 17, src: IN1 }],
                term: Term::Brif { cond: 17, then_to: 2, then_arg: None, else_to: 1, else_arg: None },
                cold: false,
            },
            Block {
                param: None,
                insts: vec![
                    Inst::Iconst { dst: 18, ty: Ty::Ptr, imm: 1 },
                    Inst::AtomicAdd { dst: 19, addr: IN1, delta: 18 },
                ],
                term: Term::Jump { to: 2, arg: None },
                cold: false,
            },
            Block {
                param: None,
                insts: vec![
                    Inst::Load { dst: 20, ty: Ty::Ptr, flags: Flags::Table, addr: 16, offset: 0 },
                    Inst::Store { flags: Flags::Table, value: IN1, addr: 16, offset: 0 },
                    Inst::IcmpEqImm { dst: 21, a: 20, imm: 0 },
                ],
                term: Term::Brif { cond: 21, then_to: 5, then_arg: None, else_to: 3, else_arg: None },
                cold: false,
            },
            Block {
                param: None,
                insts: vec![
                    Inst::Iconst { dst: 22, ty: Ty::Ptr, imm: 0xffff_ffff_ffff_ffff },
                    Inst::AtomicAdd { dst: 23, addr: 20, delta: 22 },
                    Inst::Iconst { dst: 24, ty: Ty::Ptr, imm: 1 },
                    Inst::IcmpEq { dst: 25, a: 24, b: 23 },
                ],
                term: Term::Brif { cond: 25, then_to: 4, then_arg: None, else_to: 5, else_arg: None },
                cold: false,
            },
            Block {
                param: None,
                insts: vec![Inst::CallBuiltin { b: Builtin::DropExternRef, arg0: Some(20), arg1: None, result: None }],
                term: Term::Jump { to: 5, arg: None },
                cold: false,
            },
            Block { param: None, insts: vec![], term: Term::End, cold: false },
        ],
        result: None,
    };
    proof {
        assert(r.blocks@[4].insts@ =~= seq![
            Inst::CallBuiltin { b: Builtin::DropExternRef, arg0: Some(20), arg1: None, result: None },
        ]);
        assert forall|index: u64, value: u64, slot: u64, vmctx: u64, mem: Map<int, u64>, host: Seq<HostReply>, vars: Map<u32, u64>|
            {
                let m = #[trigger] run(r, start(map![IN0 => index, IN1 => value], vars, mem, slot, vmctx, host), 20);
                let after = write_barrier_mem(mem, slot, value);
                &&& ended_at(m, 5)
                &&& write_barrier_drops(mem, slot, value) ==> m.calls.len() == 1 && m.calls[0].b
                    == Builtin::DropExternRef && m.calls[0].args == seq![replaced(mem, slot, value)]
                    && m.calls[0].mem == after && m.mem == host[0].mem
                &&& !write_barrier_drops(mem, slot, value) ==> m.calls.len() == 0 && m.mem == after
            } by {
            let m0 = start(map![IN0 => index, IN1 => value], vars, mem, slot, vmctx, host);
            assert(m0.vals[IN1] == value);
            lemma_es_entry(r, m0);
            lemma_run_split(r, m0, 3, 17);
            let a = run(r, m0, 3);
            let b = if value != 0 {
                lemma_es_inc(r, a);
                lemma_run_split(r, a, 3, 14);
                run(r, a, 3)
            } else {
                assert(run(r, a, 0) == a);
                lemma_run_split(r, a, 0, 17);
                a
            };
            let k: nat = if value != 0 { 14 } else { 17 };
            assert(run(r, m0, 20) == run(r, b, k));
            assert(b.mem == inc_new(mem, value) && b.vals[16] == slot && b.vals[IN1] == value && b.block == 2);
            lemma_es_swap(r, b);
            lemma_run_split(r, b, 4, (k - 4) as nat);
            let c = run(r, b, 4);
            let old = replaced(mem, slot, value);
            if old == 0 {
                lemma_end(r, c, 5, (k - 4) as nat);
            } else {
                lemma_es_dec(r, c);
                lemma_run_split(r, c, 5, (k - 9) as nat);
                let d = run(r, c, 5);
                if write_barrier_drops(mem, slot, value) {
                    lemma_es_drop(r, d);
                    lemma_run_split(r, d, 2, (k - 11) as nat);
                    let e = run(r, d, 2);
                    lemma_end(r, e, 5, (k - 11) as nat);
                    assert(e.calls[0].args =~= seq![old]);
                } else {
                    lemma_end(r, d, 5, (k - 9) as nat);
                }
            }
        }
    }
    assert(cold_exactly(r, Set::empty()));
    r
}

proof fn lemma_es_entry(r: Plan, m: Machine)
    requires
        r.blocks@.len() == 6,
        r.blocks@[0].insts@ == seq![Inst::TableAddr { dst: 16, index: IN0 }, Inst::IsNull { dst: 17, src: IN1 }],
        r.blocks@[0].term == (Term::Brif { cond: 17, then_to: 2, then_arg: None, else_to: 1, else_arg: None }),
        r.blocks@[1].param is None,
        r.blocks@[2].param is None,
        m.block == 0 && m.pc == 0 && !m.done && m.trap is None,
    ensures
        ({
            let n = run(r, m, 3);
            &&& n.block == (if m.vals[IN1] == 0 { 2int } else { 1int }) && n.pc == 0 && !n.done && n.trap is None
            &&& n.vals[16] == m.slot && n.vals[IN1] == m.vals[IN1] && n.mem == m.mem && n.calls == m.calls
            &&& n.host == m.host
        }),
{
    let m1 = advance(r, m);
    let m2 = advance(r, m1);
    let m3 = advance(r, m2);
    lemma_run_step(r, m, 3);
    lemma_run_step(r, m1, 2);
    lemma_run_step(r, m2, 1);
}

proof fn lemma_es_inc(r: Plan, m: Machine)
    requires
        r.blocks@.len() == 6,
        r.blocks@[1].insts@ == seq![
            Inst::Iconst { dst: 18, ty: Ty::Ptr, imm: 1 },
            Inst::AtomicAdd { dst: 19, addr: IN1, delta: 18 },
        ],
        r.blocks@[1].term == (Term::Jump { to: 2, arg: None }),
        r.blocks@[2].param is None,
        m.block == 1 && m.pc == 0 && !m.done && m.trap is None,
    ensures
        ({
            let n = run(r, m, 3);
            &&& n.block == 2 && n.pc == 0 && !n.done && n.trap is None
            &&& n.vals[16] == m.vals[16] && n.vals[IN1] == m.vals[IN1] && n.calls == m.calls && n.host == m.host
            &&& n.mem == m.mem.insert(m.vals[IN1] as int, wrap_add(m.mem[m.vals[IN1] as int], 1))
        }),
{
    let m1 = advance(r, m);
    let m2 = advance(r, m1);
    let m3 = advance(r, m2);
    lemma_run_step(r, m, 3);
    lemma_run_step(r, m1, 2);
    lemma_run_step(r, m2, 1);
}

proof fn lemma_es_swap(r: Plan, m: Machine)
    requires
        r.blocks@.len() == 6,
        r.blocks@[2].insts@ == seq![
            Inst::Load { dst: 20, ty: Ty::Ptr, flags: Flags::Table, addr: 16, offset: 0 },
            Inst::Store { flags: Flags::Table, value: IN1, addr: 16, offset: 0 },
            Inst::IcmpEqImm { dst: 21, a: 20, imm: 0 },
        ],
        r.blocks@[2].term == (Term::Brif { cond: 21, then_to: 5, then_arg: None, else_to: 3, else_arg: None }),
        r.blocks@[3].param is None,
        r.blocks@[5].param is None,
        m.block == 2 && m.pc == 0 && !m.done && m.trap is None,
    ensures
        ({
            let n = run(r, m, 4);
            let old = m.mem[m.vals[16] as int];
            &&& n.block == (if old == 0 { 5int } else { 3int }) && n.pc == 0 && !n.done && n.trap is None
            &&& n.vals[20] == old && n.calls == m.calls && n.host == m.host
            &&& n.mem == m.mem.insert(m.vals[16] as int, m.vals[IN1])
        }),
{
    let m1 = advance(r, m);
    let m2 = advance(r, m1);
    let m3 = advance(r, m2);
    let m4 = advance(r, m3);
    lemma_run_step(r, m, 4);
    lemma_run_step(r, m1, 3);
    lemma_run_step(r, m2, 2);
    lemma_run_step(r, m3, 1);
}

proof fn lemma_es_dec(r: Plan, m: Machine)
    requires
        r.blocks@.len() == 6,
        r.blocks@[3].insts@ == seq![
            Inst::Iconst { dst: 22, ty: Ty::Ptr, imm: 0xffff_ffff_ffff_ffff },
            Inst::AtomicAdd { dst: 23, addr: 20, delta: 22 },
            Inst::Iconst { dst: 24, ty: Ty::Ptr, imm: 1 },
            Inst::IcmpEq { dst: 25, a: 24, b: 23 },
        ],
        r.blocks@[3].term == (Term::Brif { cond: 25, then_to: 4, then_arg: None, else_to: 5, else_arg: None }),
        r.blocks@[4].param is None,
        r.blocks@[5].param is None,
        m.block == 3 && m.pc == 0 && !m.done && m.trap is None,
    ensures
        ({
            let n = run(r, m, 5);
            let old = m.vals[20];
            let prev = m.mem[old as int];
            &&& n.block == (if prev == 1 { 4int } else { 5int }) && n.pc == 0 && !n.done && n.trap is None
            &&& n.vals[20] == old && n.calls == m.calls && n.host == m.host
            &&& n.mem == m.mem.insert(old as int, wrap_add(prev, 0xffff_ffff_ffff_ffff))
        }),
{
    let m1 = advance(r, m);
    let m2 = advance(r, m1);
    let m3 = advance(r, m2);
    let m4 = advance(r, m3);
    let m5 = advance(r, m4);
    lemma_run_step(r, m, 5);
    lemma_run_step(r, m1, 4);
    lemma_run_step(r, m2, 3);
    lemma_run_step(r, m3, 2);
    lemma_run_step(r, m4, 1);
}

proof fn lemma_es_drop(r: Plan, m: Machine)
    requires
        r.blocks@.len() == 6,
        r.blocks@[4].insts@ == seq![
            Inst::CallBuiltin { b: Builtin::DropExternRef, arg0: Some(20), arg1: None, result: None },
        ],
        r.blocks@[4].term == (Term::Jump { to: 5, arg: None }),
        r.blocks@[5].param is None,
        m.block == 4 && m.pc == 0 && !m.done && m.trap is None,
    ensures
        ({
            let n = run(r, m, 2);
            &&& n.block == 5 && n.pc == 0 && !n.done && n.trap is None
            &&& n.calls == m.calls.push(
                crate::ir::HostCall { b: Builtin::DropExternRef, args: seq![m.vals[20]], mem: m.mem },
            )
            &&& n.mem == m.host[m.calls.len() as int].mem
        }),
{
    let m1 = advance(r, m);
    assert(m1.calls[m.calls.len() as int].args =~= seq![m.vals[20]]);
    let m2 = advance(r, m1);
    lemma_run_step(r, m, 2);
    lemma_run_step(r, m1, 1);
}

/// The epoch check, with the cached deadline in variable `deadline`, the
/// epoch counter's address in `epoch_ptr` and the runtime-limits address in
/// `limits`: the hot path loads the counter once and compares it with the
/// cached deadline; the first cold block re-reads the deadline and compares
/// again; the second cold block calls the new-epoch builtin, whose result
/// becomes the cached deadline.
pub fn epoch_check_plan(deadline: u32, epoch_ptr: u32, limits: u32, deadline_offset: i32) -> (r: Plan)
    ensures
        r.blocks@.len() == 4,
        cold_exactly(r, set![1int, 2int]),
        r.result is None,
        r.blocks@[0].insts@ == seq![
            Inst::UseVar { dst: 16, var: deadline },
            Inst::UseVar { dst: 17, var: epoch_ptr },
            Inst::Load { dst: 18, ty: Ty::I64, flags: Flags::Trusted, addr: 17, offset: 0 },
            Inst::IcmpUge { dst: 19, a: 18, b: 16 },
        ],
        deadline != epoch_ptr && deadline != limits && epoch_ptr != limits ==> forall|
            cached: u64,
            ptr: u64,
            lim: u64,
            slot: u64,
            vmctx: u64,
            mem: Map<int, u64>,
            host: Seq<HostReply>,
        |
            {
                let m = #[trigger] run(
                    r,
                    start(Map::empty(), map![deadline => cached, epoch_ptr => ptr, limits => lim], mem, slot, vmctx, host),
                    16,
                );
                let e = epoch_check_of(mem[ptr as int], cached, mem[lim + deadline_offset], host[0].ret);
                &&& ended_at(m, 3)
                &&& m.vars[deadline] == e.deadline
                &&& m.calls.len() == e.new_epoch_calls
                &&& e.new_epoch_calls == 1 ==> m.calls[0].b == Builtin::NewEpoch && m.calls[0].args.len() == 0
            },
{
    let r = Plan {
        blocks: vec![
            Block {
                param: None,
                insts: vec![
                    Inst::UseVar { dst: 16, var: deadline },
                    Inst::UseVar { dst: 17, var: epoch_ptr },
                    Inst::Load { dst: 18, ty: Ty::I64, flags: Flags::Trusted, addr: 17, offset: 0 },
                    Inst::IcmpUge { dst: 19, a: 18, b: 16 },
                ],
                term: Term::Brif { cond: 19, then_to: 1, then_arg: None, else_to: 3, else_arg: None },
                cold: false,
            },
            Block {
                param: None,
                insts: vec![
                    Inst::UseVar { dst: 20, var: limits },
                    Inst::Load { dst: 21, ty: Ty::I64, flags: Flags::Trusted, addr: 20, offset: deadline_offset },
                    Inst::DefVar { var: deadline, src: 21 },
                    Inst::IcmpUge { dst: 22, a: 18, b: 21 },
                ],
                term: Term::Brif { cond: 22, then_to: 2, then_arg: None, else_to: 3, else_arg: None },
                cold: true,
            },
            Block {
                param: None,
                insts: vec![
                    Inst::CallBuiltin { b: Builtin::NewEpoch, arg0: None, arg1: None, result: Some(23) },
                    Inst::DefVar { var: deadline, src: 23 },
                ],
                term: Term::Jump { to: 3, arg: None },
                cold: true,
            },
            Block { param: None, insts: vec![], term: Term::End, cold: false },
        ],
        result: None,
    };
    proof {
        if deadline != epoch_ptr && deadline != limits && epoch_ptr != limits {
            assert forall|cached: u64, ptr: u64, lim: u64, slot: u64, vmctx: u64, mem: Map<int, u64>, host: Seq<HostReply>|
                {
                    let m = #[trigger] run(
                        r,
                        start(Map::empty(), map![deadline => cached, epoch_ptr => ptr, limits => lim], mem, slot, vmctx, host),
                        16,
                    );
                    let e = epoch_check_of(mem[ptr as int], cached, mem[lim + deadline_offset], host[0].ret);
                    &&& ended_at(m, 3)
                    &&& m.vars[deadline] == e.deadline
                    &&& m.calls.len() == e.new_epoch_calls
                    &&& e.new_epoch_calls == 1 ==> m.calls[0].b == Builtin::NewEpoch && m.calls[0].args.len() == 0
                } by {
                let vars = map![deadline => cached, epoch_ptr => ptr, limits => lim];
                let m0 = start(Map::empty(), vars, mem, slot, vmctx, host);
                assert(m0.vars[deadline] == cached && m0.vars[epoch_ptr] == ptr && m0.vars[limits] == lim);
                let cur = mem[ptr as int];
                let fresh = mem[lim + deadline_offset];
                lemma_ep_hot(r, deadline, epoch_ptr, m0);
                lemma_run_split(r, m0, 5, 11);
                let a = run(r, m0, 5);
                if cur < cached {
                    lemma_end(r, a, 3, 11);
                } else {
                    lemma_ep_reload(r, deadline, limits, deadline_offset, a);
                    lemma_run_split(r, a, 5, 6);
                    let b = run(r, a, 5);
                    if cur < fresh {
                        lemma_end(r, b, 3, 6);
                    } else {
                        lemma_ep_new(r, deadline, b);
                        lemma_run_split(r, b, 3, 3);
                        let c = run(r, b, 3);
                        lemma_end(r, c, 3, 3);
                    }
                }
            }
        }
    }
    assert(cold_exactly(r, set![1int, 2int]));
    r
}

proof fn lemma_ep_hot(r: Plan, deadline: u32, epoch_ptr: u32, m: Machine)
    requires
        r.blocks@.len() == 4,
        r.blocks@[0].insts@ == seq![
            Inst::UseVar { dst: 16, var: deadline },
            Inst::UseVar { dst: 17, var: epoch_ptr },
            Inst::Load { dst: 18, ty: Ty::I64, flags: Flags::Trusted, addr: 17, offset: 0 },
            Inst::IcmpUge { dst: 19, a: 18, b: 16 },
        ],
        r.blocks@[0].term == (Term::Brif { cond: 19, then_to: 1, then_arg: None, else_to: 3, else_arg: None }),
        r.blocks@[1].param is None,
        r.blocks@[3].param is None,
        m.block == 0 && m.pc == 0 && !m.done && m.trap is None,
    ensures
        ({
            let n = run(r, m, 5);
            let cur = m.mem[m.vars[epoch_ptr] as int];
            &&& n.block == (if cur >= m.vars[deadline] { 1int } else { 3int }) && n.pc == 0 && !n.done
            &&& n.trap is None && n.vals[18] == cur && n.vars == m.vars && n.mem == m.mem && n.calls == m.calls
            &&& n.host == m.host
        }),
{
    let m1 = advance(r, m);
    let m2 = advance(r, m1);
    let m3 = advance(r, m2);
    let m4 = advance(r, m3);
    let m5 = advance(r, m4);
    lemma_run_step(r, m, 5);
    lemma_run_step(r, m1, 4);
    lemma_run_step(r, m2, 3);
    lemma_run_step(r, m3, 2);
    lemma_run_step(r, m4, 1);
}

proof fn lemma_ep_reload(r: Plan, deadline: u32, limits: u32, off: i32, m: Machine)
    requires
        r.blocks@.len() == 4,
        r.blocks@[1].insts@ == seq![
            Inst::UseVar { dst: 20, var: limits },
            Inst::Load { dst: 21, ty: Ty::I64, flags: Flags::Trusted, addr: 20, offset: off },
            Inst::DefVar { var: deadline, src: 21 },
            Inst::IcmpUge { dst: 22, a: 18, b: 21 },
        ],
        r.blocks@[1].term == (Term::Brif { cond: 22, then_to: 2, then_arg: None, else_to: 3, else_arg: None }),
        r.blocks@[2].param is None,
        r.blocks@[3].param is None,
        m.block == 1 && m.pc == 0 && !m.done && m.trap is None,
    ensures
        ({
            let n = run(r, m, 5);
            let fresh = m.mem[m.vars[limits] + off];
            &&& n.block == (if m.vals[18] >= fresh { 2int } else { 3int }) && n.pc == 0 && !n.done
            &&& n.trap is None && n.vars == m.vars.insert(deadline, fresh) && n.mem == m.mem
            &&& n.calls == m.calls && n.host == m.host
        }),
{
    let m1 = advance(r, m);
    let m2 = advance(r, m1);
    let m3 = advance(r, m2);
    let m4 = advance(r, m3);
    let m5 = advance(r, m4);
    lemma_run_step(r, m, 5);
    lemma_run_step(r, m1, 4);
    lemma_run_step(r, m2, 3);
    lemma_run_step(r, m3, 2);
    lemma_run_step(r, m4, 1);
}

proof fn lemma_ep_new(r: Plan, deadline: u32, m: Machine)
    requires
        r.blocks@.len() == 4,
        r.blocks@[2].insts@ == seq![
            Inst::CallBuiltin { b: Builtin::NewEpoch, arg0: None, arg1: None, result: Some(23) },
            Inst::DefVar { var: deadline, src: 23 },
        ],
        r.blocks@[2].term == (Term::Jump { to: 3, arg: None }),
        r.blocks@[3].param is None,
        m.block == 2 && m.pc == 0 && !m.done && m.trap is None,
    ensures
        ({
            let n = run(r, m, 3);
            &&& n.block == 3 && n.pc == 0 && !n.done && n.trap is None
            &&& n.vars == m.vars.insert(deadline, m.host[m.calls.len() as int].ret)
            &&& n.calls.len() == m.calls.len() + 1 && n.calls[m.calls.len() as int].b == Builtin::NewEpoch
            &&& n.calls[m.calls.len() as int].args.len() == 0
        }),
{
    let m1 = advance(r, m);
    let m2 = advance(r, m1);
    let m3 = advance(r, m2);
    lemma_run_step(r, m, 3);
    lemma_run_step(r, m1, 2);
    lemma_run_step(r, m2, 1);
}

/// The fuel check after the buffered cost is folded in, with the fuel in
/// variable `fuel` and the runtime-limits address in `limits`: when the
/// fuel is zero or above (signed), a cold block stores it to the runtime
/// limits, calls the out-of-gas builtin, and reloads it.
pub fn fuel_check_plan(fuel: u32, limits: u32, fuel_offset: i32) -> (r: Plan)
    ensures
        r.blocks@.len() == 3,
        cold_exactly(r, set![1int]),
        r.result is None,
        fuel != limits ==> forall|f: u64, lim: u64, slot: u64, vmctx: u64, mem: Map<int, u64>, host: Seq<HostReply>|
            {
                let m = #[trigger] run(r, start(Map::empty(), map![fuel => f, limits => lim], mem, slot, vmctx, host), 16);
                &&& ended_at(m, 2)
                &&& signed(f) >= 0 ==> m.calls.len() == 1 && m.calls[0].b == Builtin::OutOfGas
                    && m.calls[0].args.len() == 0 && m.calls[0].mem == mem.insert(lim + fuel_offset, f)
                    && m.vars[fuel] == host[0].mem[lim + fuel_offset] && m.mem == host[0].mem
                &&& signed(f) < 0 ==> m.calls.len() == 0 && m.vars[fuel] == f && m.mem == mem
            },
{
    let r = Plan {
        blocks: vec![
            Block {
                param: None,
                insts: vec![
                    Inst::Iconst { dst: 16, ty: Ty::I64, imm: 0 },
                    Inst::UseVar { dst: 17, var: fuel },
                    Inst::IcmpSge { dst: 18, a: 17, b: 16 },
                ],
                term: Term::Brif { cond: 18, then_to: 1, then_arg: None, else_to: 2, else_arg: None },
                cold: false,
            },
            Block {
                param: None,
                insts: vec![
                    Inst::UseVar { dst: 19, var: limits },
                    Inst::UseVar { dst: 20, var: fuel },
                    Inst::Store { flags: Flags::Trusted, value: 20, addr: 19, offset: fuel_offset },
                    Inst::CallBuiltin { b: Builtin::OutOfGas, arg0: None, arg1: None, result: None },
                    Inst::UseVar { dst: 21, var: limits },
                    Inst::Load { dst: 22, ty: Ty::I64, flags: Flags::Trusted, addr: 21, offset: fuel_offset },
                    Inst::DefVar { var: fuel, src: 22 },
                ],
                term: Term::Jump { to: 2, arg: None },
                cold: true,
            },
            Block { param: None, insts: vec![], term: Term::End, cold: false },
        ],
        result: None,
    };
    proof {
        if fuel != limits {
            assert forall|f: u64, lim: u64, slot: u64, vmctx: u64, mem: Map<int, u64>, host: Seq<HostReply>|
                {
                    let m = #[trigger] run(r, start(Map::empty(), map![fuel => f, limits => lim], mem, slot, vmctx, host), 16);
                    &&& ended_at(m, 2)
                    &&& signed(f) >= 0 ==> m.calls.len() == 1 && m.calls[0].b == Builtin::OutOfGas
                        && m.calls[0].args.len() == 0 && m.calls[0].mem == mem.insert(lim + fuel_offset, f)
                        && m.vars[fuel] == host[0].mem[lim + fuel_offset] && m.mem == host[0].mem
                    &&& signed(f) < 0 ==> m.calls.len() == 0 && m.vars[fuel] == f && m.mem == mem
                } by {
                let m0 = start(Map::empty(), map![fuel => f, limits => lim], mem, slot, vmctx, host);
                assert(m0.vars[fuel] == f && m0.vars[limits] == lim);
                lemma_fc_test(r, fuel, m0);
                lemma_run_split(r, m0, 4, 12);
                let a = run(r, m0, 4);
                if signed(f) >= 0 {
                    lemma_fc_out_of_gas(r, fuel, limits, fuel_offset, a);
                    lemma_run_split(r, a, 8, 4);
                    let b = run(r, a, 8);
                    lemma_end(r, b, 2, 4);
                } else {
                    lemma_end(r, a, 2, 12);
                }
            }
        }
    }
    assert(cold_exactly(r, set![1int]));
    r
}

proof fn lemma_fc_test(r: Plan, fuel: u32, m: Machine)
    requires
        r.blocks@.len() == 3,
        r.blocks@[0].insts@ == seq![
            Inst::Iconst { dst: 16, ty: Ty::I64, imm: 0 },
            Inst::UseVar { dst: 17, var: fuel },
            Inst::IcmpSge { dst: 18, a: 17, b: 16 },
        ],
        r.blocks@[0].term == (Term::Brif { cond: 18, then_to: 1, then_arg: None, else_to: 2, else_arg: None }),
        r.blocks@[1].param is None,
        r.blocks@[2].param is None,
        m.block == 0 && m.pc == 0 && !m.done && m.trap is None,
    ensures
        ({
            let n = run(r, m, 4);
            &&& n.block == (if signed(m.vars[fuel]) >= 0 { 1int } else { 2int }) && n.pc == 0 && !n.done
            &&& n.trap is None && n.vars == m.vars && n.mem == m.mem && n.calls == m.calls && n.host == m.host
        }),
{
    let m1 = advance(r, m);
    let m2 = advance(r, m1);
    let m3 = advance(r, m2);
    let m4 = advance(r, m3);
    assert(signed(0) == 0);
    lemma_run_step(r, m, 4);
    lemma_run_step(r, m1, 3);
    lemma_run_step(r, m2, 2);
    lemma_run_step(r, m3, 1);
}

proof fn lemma_fc_out_of_gas(r: Plan, fuel: u32, limits: u32, off: i32, m: Machine)
    requires
        fuel != limits,
        r.blocks@.len() == 3,
        r.blocks@[1].insts@ == seq![
            Inst::UseVar { dst: 19, var: limits },
            Inst::UseVar { dst: 20, var: fuel },
            Inst::Store { flags: Flags::Trusted, value: 20, addr: 19, offset: off },
            Inst::CallBuiltin { b: Builtin::OutOfGas, arg0: None, arg1: None, result: None },
            Inst::UseVar { dst: 21, var: limits },
            Inst::Load { dst: 22, ty: Ty::I64, flags: Flags::Trusted, addr: 21, offset: off },
            Inst::DefVar { var: fuel, src: 22 },
        ],
        r.blocks@[1].term == (Term::Jump { to: 2, arg: None }),
        r.blocks@[2].param is None,
        m.block == 1 && m.pc == 0 && !m.done && m.trap is None,
    ensures
        ({
            let n = run(r, m, 8);
            let lim = m.vars[limits];
            let k = m.calls.len() as int;
            &&& n.block == 2 && n.pc == 0 && !n.done && n.trap is None
            &&& n.calls.len() == k + 1 && n.calls[k].b == Builtin::OutOfGas && n.calls[k].args.len() == 0
            &&& n.calls[k].mem == m.mem.insert(lim + off, m.vars[fuel])
            &&& n.mem == m.host[k].mem && n.vars[fuel] == m.host[k].mem[lim + off]
        }),
{
    let m1 = advance(r, m);
    let m2 = advance(r, m1);
    let m3 = advance(r, m2);
    let m4 = advance(r, m3);
    let m5 = advance(r, m4);
    let m6 = advance(r, m5);
    let m7 = advance(r, m6);
    let m8 = advance(r, m7);
    lemma_run_step(r, m, 8);
    lemma_run_step(r, m1, 7);
    lemma_run_step(r, m2, 6);
    lemma_run_step(r, m3, 5);
    lemma_run_step(r, m4, 4);
    lemma_run_step(r, m5, 3);
    lemma_run_step(r, m6, 2);
    lemma_run_step(r, m7, 1);
}

/// The trap, if any, that a check outcome raises.
pub open spec fn trap_of(r: Result<(), Trap>) -> Option<Trap> {
    match r {
        Ok(_) => None,
        Err(t) => Some(t),
    }
}

/// The checks before `call_indirect`, with the function record's address
/// in `IN0`: trap on null, then load the caller's expected type id (from
/// the context's type-id array at `ids_offset`, entry `type_id_offset`) and
/// the callee's (at `type_index_offset` in the record), and trap on a
/// mismatch. Control reaches the end, where the call follows, only when
/// both checks pass.
pub fn indirect_check_plan(ids_offset: i32, type_id_offset: i32, type_index_offset: i32) -> (r: Plan)
    ensures
        r.blocks@.len() == 1,
        cold_exactly(r, Set::empty()),
        r.result is None,
        forall|funcref: u64, slot: u64, vmctx: u64, mem: Map<int, u64>, host: Seq<HostReply>, vars: Map<u32, u64>|
            {
                let m = #[trigger] run(r, start(map![IN0 => funcref], vars, mem, slot, vmctx, host), 8);
                let expected = mem[mem[vmctx + ids_offset] + type_id_offset];
                let found = mem[funcref + type_index_offset];
                &&& m.done && m.calls.len() == 0
                &&& expected <= u32::MAX && found <= u32::MAX ==> m.trap == trap_of(
                    indirect_check_of(funcref, expected as u32, found as u32),
                )
                &&& m.trap is None ==> ended_at(m, 0)
            },
{
    let r = Plan {
        blocks: vec![
            Block {
                param: None,
                insts: vec![
                    Inst::Trapz { cond: IN0, code: Trap::IndirectCallToNull },
                    Inst::Vmctx { dst: 16 },
                    Inst::Load { dst: 17, ty: Ty::Ptr, flags: Flags::Readonly, addr: 16, offset: ids_offset },
                    Inst::Load { dst: 18, ty: Ty::I32, flags: Flags::Readonly, addr: 17, offset: type_id_offset },
                    Inst::Load { dst: 19, ty: Ty::I32, flags: Flags::Readonly, addr: IN0, offset: type_index_offset },
                    Inst::IcmpEq { dst: 20, a: 19, b: 18 },
                    Inst::Trapz { cond: 20, code: Trap::BadSignature },
                ],
                term: Term::End,
                cold: false,
            },
        ],
        result: None,
    };
    proof {
        assert forall|funcref: u64, slot: u64, vmctx: u64, mem: Map<int, u64>, host: Seq<HostReply>, vars: Map<u32, u64>|
            {
                let m = #[trigger] run(r, start(map![IN0 => funcref], vars, mem, slot, vmctx, host), 8);
                let expected = mem[mem[vmctx + ids_offset] + type_id_offset];
                let found = mem[funcref + type_index_offset];
                &&& m.done && m.calls.len() == 0
                &&& expected <= u32::MAX && found <= u32::MAX ==> m.trap == trap_of(
                    indirect_check_of(funcref, expected as u32, found as u32),
                )
                &&& m.trap is None ==> ended_at(m, 0)
            } by {
            let m0 = start(map![IN0 => funcref], vars, mem, slot, vmctx, host);
            assert(m0.vals[IN0] == funcref);
            let m1 = advance(r, m0);
            lemma_run_step(r, m0, 8);
            if funcref == 0 {
                assert(m1.done && m1.trap == Some(Trap::IndirectCallToNull));
                lemma_run_done(r, m1, 7);
            } else {
                let m2 = advance(r, m1);
                let m3 = advance(r, m2);
                let m4 = advance(r, m3);
                let m5 = advance(r, m4);
                let m6 = advance(r, m5);
                let m7 = advance(r, m6);
                lemma_run_step(r, m1, 7);
                lemma_run_step(r, m2, 6);
                lemma_run_step(r, m3, 5);
                lemma_run_step(r, m4, 4);
                lemma_run_step(r, m5, 3);
                lemma_run_step(r, m6, 2);
                let expected = mem[mem[vmctx + ids_offset] + type_id_offset];
                let found = mem[funcref + type_index_offset];
                assert(m6.vals[20] == crate::ir::flag(found == expected));
                if found == expected {
                    let m8 = advance(r, m7);
                    lemma_run_step(r, m7, 1);
                    assert(m8.done && m8.trap is None && m8.block == 0);
                } else {
                    assert(m7.done && m7.trap == Some(Trap::BadSignature));
                    lemma_run_done(r, m7, 1);
                }
            }
        }
    }
    assert(cold_exactly(r, Set::empty()));
    r
}

/// A memory holds the model's counts: the count of reference `id` is the
/// word at address `id` (offset 0 of its header).
pub open spec fn holds_counts(mem: Map<int, u64>, rc: Seq<u64>) -> bool {
    forall|id: int| 0 < id < rc.len() ==> #[trigger] mem[id] == rc[id]
}

/// The emitted write barrier does to the counts what the model's
/// `table_set` does: run on a memory that holds the model's counts, with
/// the table slot outside the references' headers, it stores the value,
/// leaves exactly `counts_after_write` in the headers, and drops exactly
/// when `write_drops` says.
pub proof fn lemma_write_barrier_matches_model(mem: Map<int, u64>, slot: u64, value: u64, rc: Seq<u64>)
    requires
        holds_counts(mem, rc),
        slot >= rc.len(),
        value < rc.len(),
        mem[slot as int] < rc.len(),
        value != 0 ==> rc[value as int] < u64::MAX,
        mem[slot as int] != 0 ==> rc[mem[slot as int] as int] >= 1 || mem[slot as int] == value,
    ensures
        ({
            let old = mem[slot as int];
            let counts = crate::externref::ExternRefs::counts_after_write(rc, value, old);
            &&& replaced(mem, slot, value) == old
            &&& write_barrier_mem(mem, slot, value)[slot as int] == value
            &&& holds_counts(write_barrier_mem(mem, slot, value), counts)
            &&& write_barrier_drops(mem, slot, value) == crate::externref::ExternRefs::write_drops(rc, value, old)
        }),
{
    let old = mem[slot as int];
    let a = inc_new(mem, value);
    assert(a[slot as int] == old);
    let b = swapped(mem, slot, value);
    let counts = crate::externref::ExternRefs::counts_after_write(rc, value, old);
    if value != 0 {
        assert(wrap_add(rc[value as int], 1) == rc[value as int] + 1);
    }
    if old != 0 {
        let c = b[old as int];
        assert(c >= 1);
        assert(wrap_add(c, 0xffff_ffff_ffff_ffff) == c - 1);
    }
    assert forall|id: int| 0 < id < counts.len() implies #[trigger] write_barrier_mem(mem, slot, value)[id]
        == counts[id] by {
        assert(mem[id] == rc[id]);
    }
}

/// The emitted read barrier's fast path does to the counts what the
/// model's `table_get` does: the element's count rises by one.
pub proof fn lemma_read_barrier_matches_model(
    mem: Map<int, u64>,
    elem: u64,
    act: u64,
    next: u64,
    l: ActivationsLayout,
    rc: Seq<u64>,
)
    requires
        holds_counts(mem, rc),
        0 < elem < rc.len(),
        rc[elem as int] < u64::MAX,
        next >= rc.len(),
        act + l.next >= rc.len(),
        act + l.next != next,
    ensures
        holds_counts(bump_insert(mem, elem, act, next, l), rc.update(elem as int, (rc[elem as int] + 1) as u64)),
        bump_insert(mem, elem, act, next, l)[next as int] == elem,
{
    assert(wrap_add(rc[elem as int], 1) == rc[elem as int] + 1);
    let counts = rc.update(elem as int, (rc[elem as int] + 1) as u64);
    assert forall|id: int| 0 < id < counts.len() implies #[trigger] bump_insert(mem, elem, act, next, l)[id]
        == counts[id] by {
        assert(mem[id] == rc[id]);
    }
}

} // verus!
