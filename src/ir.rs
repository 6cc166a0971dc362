//! The instruction plans the translator emits for its inline checks and
//! barriers, and a small-step machine that gives them their run-time
//! meaning. A plan is a list of blocks; block 0 continues the current
//! block, and control leaves the plan at the block that ends in `End`.
use vstd::prelude::*;
use crate::builtins::Builtin;
use crate::call::Trap;

verus! {

/// The IR type of a value a plan loads or creates.
#[derive(Clone, Copy, Debug, PartialEq, Eq, Structural)]
pub enum Ty {
    I32,
    I64,
    /// The target's pointer type.
    Ptr,
    /// The target's reference type (tracked in stack maps).
    Ref,
}

/// Memory flags of a load or store.
#[derive(Clone, Copy, Debug, PartialEq, Eq, Structural)]
pub enum Flags {
    /// Aligned and in bounds.
    Trusted,
    /// As `Trusted`, and the location never changes.
    Readonly,
    /// A table element.
    Table,
}

/// One instruction. Values are numbered; a plan's inputs are bound by the
/// caller before the plan runs.
#[derive(Clone, Copy, Debug, PartialEq, Eq, Structural)]
pub enum Inst {
    /// The bounds-checked address of element `index` of the table.
    TableAddr { dst: u32, index: u32 },
    /// The instance context pointer.
    Vmctx { dst: u32 },
    Load { dst: u32, ty: Ty, flags: Flags, addr: u32, offset: i32 },
    Store { flags: Flags, value: u32, addr: u32, offset: i32 },
    /// Atomically adds `delta` to the word at `addr`; `dst` is the word
    /// before the add.
    AtomicAdd { dst: u32, addr: u32, delta: u32 },
    /// A constant, as its 64-bit pattern.
    Iconst { dst: u32, ty: Ty, imm: u64 },
    IaddImm { dst: u32, src: u32, imm: u64 },
    BandImm { dst: u32, src: u32, imm: u64 },
    BorImm { dst: u32, src: u32, imm: u64 },
    /// 1 when equal, else 0.
    IcmpEq { dst: u32, a: u32, b: u32 },
    /// 1 when `a >= b` unsigned, else 0.
    IcmpUge { dst: u32, a: u32, b: u32 },
    /// 1 when `a >= b` as signed 64-bit integers, else 0.
    IcmpSge { dst: u32, a: u32, b: u32 },
    IcmpEqImm { dst: u32, a: u32, imm: u64 },
    /// 1 for a null reference, else 0.
    IsNull { dst: u32, src: u32 },
    /// Traps with `code` when `cond` is 0.
    Trapz { cond: u32, code: Trap },
    UseVar { dst: u32, var: u32 },
    DefVar { var: u32, src: u32 },
    /// Calls builtin `b` with the context and then the given arguments.
    CallBuiltin { b: Builtin, arg0: Option<u32>, arg1: Option<u32>, result: Option<u32> },
}

/// How a block ends.
#[derive(Clone, Copy, Debug, PartialEq, Eq, Structural)]
pub enum Term {
    Jump { to: u32, arg: Option<u32> },
    /// To `then_to` when `cond` is non-zero, else to `else_to`.
    Brif { cond: u32, then_to: u32, then_arg: Option<u32>, else_to: u32, else_arg: Option<u32> },
    /// Control leaves the plan here.
    End,
}

#[derive(Clone, Debug)]
pub struct Block {
    /// The block's pointer-sized parameter, bound by the jump that enters it.
    pub param: Option<u32>,
    pub insts: Vec<Inst>,
    pub term: Term,
    /// Laid out out of line: a slow path.
    pub cold: bool,
}

#[derive(Clone, Debug)]
pub struct Plan {
    pub blocks: Vec<Block>,
    /// The value the plan produces, if any.
    pub result: Option<u32>,
}

/// What the host did in answer to a builtin call: the value it returned
/// and the memory it left.
pub struct HostReply {
    pub ret: u64,
    pub mem: Map<int, u64>,
}

/// A builtin call as the host saw it: its arguments after the context, and
/// the memory at the time of the call.
pub struct HostCall {
    pub b: Builtin,
    pub args: Seq<u64>,
    pub mem: Map<int, u64>,
}

/// The state of a running plan.
pub struct Machine {
    pub vals: Map<u32, u64>,
    pub vars: Map<u32, u64>,
    pub mem: Map<int, u64>,
    /// The address the bounds-checked table index resolves to.
    pub slot: u64,
    pub vmctx: u64,
    /// The host's replies, one per call, in order.
    pub host: Seq<HostReply>,
    pub calls: Seq<HostCall>,
    pub trap: Option<Trap>,
    pub block: int,
    pub pc: int,
    pub done: bool,
}

pub open spec fn wrap_add(a: u64, b: u64) -> u64 {
    ((a + b) % 0x1_0000_0000_0000_0000) as u64
}

pub open spec fn signed(a: u64) -> int {
    if a < 0x8000_0000_0000_0000 { a as int } else { a - 0x1_0000_0000_0000_0000 }
}

pub open spec fn flag(b: bool) -> u64 {
    if b { 1 } else { 0 }
}

pub open spec fn set_val(m: Machine, dst: u32, v: u64) -> Machine {
    Machine { vals: m.vals.insert(dst, v), ..m }
}

pub open spec fn call_args(m: Machine, arg0: Option<u32>, arg1: Option<u32>) -> Seq<u64> {
    match (arg0, arg1) {
        (Some(a), Some(b)) => seq![m.vals[a], m.vals[b]],
        (Some(a), None) => seq![m.vals[a]],
        _ => Seq::empty(),
    }
}

pub open spec fn exec_inst(m: Machine, i: Inst) -> Machine {
    match i {
        Inst::TableAddr { dst, .. } => set_val(m, dst, m.slot),
        Inst::Vmctx { dst } => set_val(m, dst, m.vmctx),
        Inst::Load { dst, addr, offset, .. } => set_val(m, dst, m.mem[m.vals[addr] + offset]),
        Inst::Store { value, addr, offset, .. } => Machine {
            mem: m.mem.insert(m.vals[addr] + offset, m.vals[value]),
            ..m
        },
        Inst::AtomicAdd { dst, addr, delta } => {
            let a = m.vals[addr] as int;
            let old = m.mem[a];
            Machine {
                vals: m.vals.insert(dst, old),
                mem: m.mem.insert(a, wrap_add(old, m.vals[delta])),
                ..m
            }
        },
        Inst::Iconst { dst, imm, .. } => set_val(m, dst, imm),
        Inst::IaddImm { dst, src, imm } => set_val(m, dst, wrap_add(m.vals[src], imm)),
        Inst::BandImm { dst, src, imm } => set_val(m, dst, m.vals[src] & imm),
        Inst::BorImm { dst, src, imm } => set_val(m, dst, m.vals[src] | imm),
        Inst::IcmpEq { dst, a, b } => set_val(m, dst, flag(m.vals[a] == m.vals[b])),
        Inst::IcmpUge { dst, a, b } => set_val(m, dst, flag(m.vals[a] >= m.vals[b])),
        Inst::IcmpSge { dst, a, b } => set_val(m, dst, flag(signed(m.vals[a]) >= signed(m.vals[b]))),
        Inst::IcmpEqImm { dst, a, imm } => set_val(m, dst, flag(m.vals[a] == imm)),
        Inst::IsNull { dst, src } => set_val(m, dst, flag(m.vals[src] == 0)),
        Inst::Trapz { cond, code } => if m.vals[cond] == 0 {
            Machine { trap: Some(code), done: true, ..m }
        } else {
            m
        },
        Inst::UseVar { dst, var } => set_val(m, dst, m.vars[var]),
        Inst::DefVar { var, src } => Machine { vars: m.vars.insert(var, m.vals[src]), ..m },
        Inst::CallBuiltin { b, arg0, arg1, result } => {
            let k = m.calls.len() as int;
            let reply = m.host[k];
            let m2 = Machine {
                calls: m.calls.push(HostCall { b, args: call_args(m, arg0, arg1), mem: m.mem }),
                mem: reply.mem,
                ..m
            };
            match result {
                Some(r) => set_val(m2, r, reply.ret),
                None => m2,
            }
        },
    }
}

pub open spec fn enter(m: Machine, p: Plan, to: u32, arg: Option<u32>) -> Machine {
    let m2 = Machine { block: to as int, pc: 0, ..m };
    match (p.blocks@[to as int].param, arg) {
        (Some(x), Some(a)) => set_val(m2, x, m.vals[a]),
        _ => m2,
    }
}

/// One step: the next instruction of the current block, or its
/// terminator.
pub open spec fn step(p: Plan, m: Machine) -> Machine {
    if m.done || m.block < 0 || m.block >= p.blocks@.len() {
        m
    } else {
        let blk = p.blocks@[m.block];
        if 0 <= m.pc < blk.insts@.len() {
            let m2 = exec_inst(m, blk.insts@[m.pc]);
            if m2.done { m2 } else { Machine { pc: m.pc + 1, ..m2 } }
        } else {
            match blk.term {
                Term::Jump { to, arg } => enter(m, p, to, arg),
                Term::Brif { cond, then_to, then_arg, else_to, else_arg } => if m.vals[cond] != 0 {
                    enter(m, p, then_to, then_arg)
                } else {
                    enter(m, p, else_to, else_arg)
                },
                Term::End => Machine { done: true, ..m },
            }
        }
    }
}

pub open spec fn run(p: Plan, m: Machine, n: nat) -> Machine
    decreases n,
{
    if n == 0 { m } else { run(p, step(p, m), (n - 1) as nat) }
}

/// A machine about to run a plan from block 0.
pub open spec fn start(
    vals: Map<u32, u64>,
    vars: Map<u32, u64>,
    mem: Map<int, u64>,
    slot: u64,
    vmctx: u64,
    host: Seq<HostReply>,
) -> Machine {
    Machine { vals, vars, mem, slot, vmctx, host, calls: Seq::empty(), trap: None, block: 0, pc: 0, done: false }
}

/// The plan ran to its end, at block `last`, without trapping.
pub open spec fn ended_at(m: Machine, last: int) -> bool {
    m.done && m.trap is None && m.block == last
}

/// Exactly the blocks whose indices `cold` holds are marked cold.
pub open spec fn cold_exactly(p: Plan, cold: Set<int>) -> bool {
    forall|b: int| 0 <= b < p.blocks@.len() ==> (#[trigger] p.blocks@[b].cold <==> cold.contains(b))
}

/// Running a stopped machine changes nothing.
pub proof fn lemma_run_done(p: Plan, m: Machine, n: nat)
    requires
        m.done,
    ensures
        run(p, m, n) == m,
    decreases n,
{
    if n > 0 {
        lemma_run_done(p, m, (n - 1) as nat);
    }
}

/// One step, then the rest.
pub proof fn lemma_run_step(p: Plan, m: Machine, n: nat)
    requires
        n > 0,
    ensures
        run(p, m, n) == run(p, step(p, m), (n - 1) as nat),
{
}

/// The machine after one step, as a value of its own.
pub proof fn advance(p: Plan, m: Machine) -> (r: Machine)
    ensures
        r == step(p, m),
{
    step(p, m)
}

/// Running `a` steps and then `b` steps is running `a + b` steps.
pub proof fn lemma_run_split(p: Plan, m: Machine, a: nat, b: nat)
    ensures
        run(p, m, a + b) == run(p, run(p, m, a), b),
    decreases a,
{
    if a > 0 {
        lemma_run_split(p, step(p, m), (a - 1) as nat, b);
        assert((a + b - 1) as nat == (a - 1) as nat + b);
    }
}

} // verus!
