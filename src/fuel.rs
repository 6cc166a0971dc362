//! Fuel metering: the per-function state machine that buffers operator
//! costs at translation time and folds them into the live fuel variable at
//! flush points, spilling it where control leaves the function.
use vstd::prelude::*;

verus! {

/// The operators that fuel metering tells apart; all others are `Other`.
#[derive(Clone, Copy, Debug, PartialEq, Eq, Structural)]
pub enum Operator {
    Nop,
    Drop,
    Block,
    Loop,
    If,
    Else,
    End,
    Br,
    BrIf,
    BrTable,
    Unreachable,
    Return,
    Call,
    CallIndirect,
    CallRef,
    ReturnCall,
    ReturnCallIndirect,
    ReturnCallRef,
    Other,
}

/// What an operator does to the live fuel variable before it is translated.
#[derive(Clone, Copy, Debug, PartialEq, Eq, Structural)]
pub enum Flush {
    /// Keep buffering.
    Buffer,
    /// Fold the buffered cost into the variable.
    Fold,
    /// Fold, then store the variable to the runtime limits.
    FoldAndSpill,
}

/// Static cost of an operator: nothing for `nop`, `drop` and the control
/// markers that emit no branch, one for everything else.
pub open spec fn op_cost(op: Operator) -> int {
    match op {
        Operator::Nop | Operator::Drop | Operator::Block | Operator::Loop | Operator::Unreachable
        | Operator::Return | Operator::Else | Operator::End => 0,
        _ => 1,
    }
}

/// Operators that leave the function or enter another one.
pub open spec fn leaves_function(op: Operator) -> bool {
    match op {
        Operator::Unreachable | Operator::Return | Operator::Call | Operator::CallIndirect
        | Operator::CallRef | Operator::ReturnCall | Operator::ReturnCallIndirect
        | Operator::ReturnCallRef => true,
        _ => false,
    }
}

pub open spec fn flush_of(op: Operator) -> Flush {
    if leaves_function(op) {
        Flush::FoldAndSpill
    } else {
        match op {
            Operator::Loop | Operator::If | Operator::Else | Operator::End | Operator::Br
            | Operator::BrIf | Operator::BrTable => Flush::Fold,
            _ => Flush::Buffer,
        }
    }
}

pub fn cost(op: Operator) -> (r: i64)
    ensures
        r == op_cost(op),
{
    match op {
        Operator::Nop | Operator::Drop | Operator::Block | Operator::Loop | Operator::Unreachable
        | Operator::Return | Operator::Else | Operator::End => 0,
        _ => 1,
    }
}

pub fn flush(op: Operator) -> (r: Flush)
    ensures
        r == flush_of(op),
{
    match op {
        Operator::Unreachable | Operator::Return | Operator::Call | Operator::CallIndirect
        | Operator::CallRef | Operator::ReturnCall | Operator::ReturnCallIndirect
        | Operator::ReturnCallRef => Flush::FoldAndSpill,
        Operator::Loop | Operator::If | Operator::Else | Operator::End | Operator::Br
        | Operator::BrIf | Operator::BrTable => Flush::Fold,
        _ => Flush::Buffer,
    }
}

/// After a call that returns here, the callee may have changed the fuel:
/// the variable is reloaded from the runtime limits.
pub fn reloads_after(op: Operator) -> (r: bool)
    ensures
        r == (op == Operator::Call || op == Operator::CallIndirect || op == Operator::CallRef),
{
    match op {
        Operator::Call | Operator::CallIndirect | Operator::CallRef => true,
        _ => false,
    }
}

/// The fuel code emitted at one point: `increment` added to the fuel
/// variable (nothing when 0), then the variable stored if `spill`.
#[derive(Clone, Copy, Debug, PartialEq, Eq, Structural)]
pub struct FuelEmit {
    pub increment: i64,
    pub spill: bool,
}

/// The emitted code for an operator reached with `pending` cost buffered.
pub open spec fn step_emit(pending: int, op: Operator) -> FuelEmit {
    match flush_of(op) {
        Flush::Buffer => FuelEmit { increment: 0, spill: false },
        Flush::Fold => FuelEmit { increment: (pending + op_cost(op)) as i64, spill: false },
        Flush::FoldAndSpill => FuelEmit { increment: (pending + op_cost(op)) as i64, spill: true },
    }
}

/// The cost still buffered after the operator.
pub open spec fn step_pending(pending: int, op: Operator) -> int {
    match flush_of(op) {
        Flush::Buffer => pending + op_cost(op),
        _ => 0,
    }
}

/// Per-function fuel state: the cost of translated operators not yet folded
/// into the live fuel variable.
#[derive(Clone, Copy, Debug, PartialEq, Eq, Structural)]
pub struct FuelState {
    pub pending: i64,
}

impl FuelState {
    pub open spec fn wf(&self) -> bool {
        0 <= self.pending < i64::MAX
    }

    /// A function starts with nothing buffered: each operator pays for
    /// itself, so a body whose operators all cost nothing is charged
    /// nothing. (A unit charged up front would make the entry check of a
    /// function reached with one unit left fail before its first operator.)
    pub fn new() -> (r: FuelState)
        ensures
            r.pending == 0,
            r.wf(),
    {
        FuelState { pending: 0 }
    }

    /// Folds the buffered cost: the returned increment is added to the fuel
    /// variable, and nothing stays buffered.
    pub fn take_pending(&mut self) -> (increment: i64)
        ensures
            increment == old(self).pending,
            final(self).pending == 0,
    {
        let increment = self.pending;
        self.pending = 0;
        increment
    }

    /// Accounts for an operator before it is translated, and says what fuel
    /// code to emit for it. Unreachable operators cost nothing and emit
    /// nothing.
    pub fn before_op(&mut self, op: Operator, reachable: bool) -> (r: FuelEmit)
        requires
            old(self).pending >= 0,
            old(self).pending < i64::MAX - 1,
        ensures
            !reachable ==> r == (FuelEmit { increment: 0, spill: false }) && *final(self) == *old(self),
            reachable ==> r == step_emit(old(self).pending as int, op) && final(self).pending
                == step_pending(old(self).pending as int, op),
            final(self).pending >= 0,
    {
        if !reachable {
            return FuelEmit { increment: 0, spill: false };
        }
        self.pending = self.pending + cost(op);
        match flush(op) {
            Flush::Buffer => FuelEmit { increment: 0, spill: false },
            Flush::Fold => FuelEmit { increment: self.take_pending(), spill: false },
            Flush::FoldAndSpill => FuelEmit { increment: self.take_pending(), spill: true },
        }
    }

    /// Before a memory access that always traps: fold and spill, so the
    /// runtime sees the fuel used so far.
    pub fn before_trapping_access(&mut self) -> (r: FuelEmit)
        ensures
            r == (FuelEmit { increment: old(self).pending, spill: true }),
            final(self).pending == 0,
    {
        FuelEmit { increment: self.take_pending(), spill: true }
    }
}

/// Total static cost of a sequence of operators.
pub open spec fn total_cost(ops: Seq<Operator>) -> int
    decreases ops.len(),
{
    if ops.len() == 0 {
        0
    } else {
        total_cost(ops.drop_last()) + op_cost(ops.last())
    }
}

/// Total increment that a sequence of emitted fuel code adds.
pub open spec fn total_increment(es: Seq<FuelEmit>) -> int
    decreases es.len(),
{
    if es.len() == 0 {
        0
    } else {
        total_increment(es.drop_last()) + es.last().increment
    }
}

/// The fuel code emitted along a straight-line run of reachable operators
/// (one path through a function body) from nothing buffered, and what is
/// still buffered at its end.
pub open spec fn run_fuel(ops: Seq<Operator>) -> (Seq<FuelEmit>, int)
    decreases ops.len(),
{
    if ops.len() == 0 {
        (Seq::empty(), 0)
    } else {
        let (es, pending) = run_fuel(ops.drop_last());
        (es.push(step_emit(pending, ops.last())), step_pending(pending, ops.last()))
    }
}

proof fn lemma_run_fuel_shape(ops: Seq<Operator>)
    ensures
        run_fuel(ops).0.len() == ops.len(),
        0 <= run_fuel(ops).1 <= ops.len(),
    decreases ops.len(),
{
    if ops.len() > 0 {
        lemma_run_fuel_shape(ops.drop_last());
    }
}

/// Runs the state machine over a straight-line run of reachable operators.
pub fn plan_fuel(ops: &Vec<Operator>) -> (r: (Vec<FuelEmit>, i64))
    requires
        ops@.len() < i64::MAX - 1,
    ensures
        r.0@ == run_fuel(ops@).0,
        r.1 == run_fuel(ops@).1,
{
    let mut state = FuelState::new();
    let mut out: Vec<FuelEmit> = Vec::new();
    let mut i: usize = 0;
    while i < ops.len()
        invariant
            i <= ops@.len(),
            ops@.len() < i64::MAX - 1,
            out@ == run_fuel(ops@.take(i as int)).0,
            state.pending == run_fuel(ops@.take(i as int)).1,
        decreases ops@.len() - i,
    {
        proof {
            lemma_run_fuel_shape(ops@.take(i as int));
            assert(ops@.take(i + 1).drop_last() =~= ops@.take(i as int));
        }
        let op = ops[i];
        let e = state.before_op(op, true);
        out.push(e);
        i = i + 1;
    }
    proof {
        assert(ops@.take(ops@.len() as int) =~= ops@);
    }
    (out, state.pending)
}

/// Every unit of static cost on a path is either added to the fuel
/// variable or still buffered: the increments emitted along a path, plus
/// what is buffered at its end, equal the sum of the operators' costs.
pub proof fn lemma_fuel_conservation(ops: Seq<Operator>)
    requires
        ops.len() < i64::MAX - 1,
    ensures
        total_increment(run_fuel(ops).0) + run_fuel(ops).1 == total_cost(ops),
        ops.len() > 0 && flush_of(ops.last()) != Flush::Buffer ==> run_fuel(ops).1 == 0
            && total_increment(run_fuel(ops).0) == total_cost(ops),
    decreases ops.len(),
{
    if ops.len() > 0 {
        lemma_fuel_conservation(ops.drop_last());
        lemma_run_fuel_shape(ops.drop_last());
        let (es, _) = run_fuel(ops.drop_last());
        assert(run_fuel(ops).0.drop_last() =~= es);
    }
}

proof fn lemma_run_fuel_prefix(ops: Seq<Operator>, n: int)
    requires
        0 <= n <= ops.len(),
    ensures
        run_fuel(ops).0.take(n) == run_fuel(ops.take(n)).0,
    decreases ops.len(),
{
    lemma_run_fuel_shape(ops);
    if n == ops.len() {
        assert(ops.take(n) =~= ops);
        assert(run_fuel(ops).0.take(n) =~= run_fuel(ops).0);
    } else {
        lemma_run_fuel_prefix(ops.drop_last(), n);
        assert(ops.drop_last().take(n) =~= ops.take(n));
        lemma_run_fuel_shape(ops.drop_last());
        assert(run_fuel(ops).0.take(n) =~= run_fuel(ops.drop_last()).0.take(n));
    }
}

/// Every instruction that leaves the function is preceded by a store of an
/// up-to-date fuel variable: at each flush point the increments emitted so
/// far add up to the cost of every operator so far, and where control
/// leaves the function (return, `unreachable`, any call) the variable is
/// also spilled to the runtime limits.
pub proof fn lemma_fuel_flush_discipline(ops: Seq<Operator>, i: int)
    requires
        0 <= i < ops.len(),
        ops.len() < i64::MAX - 1,
        flush_of(ops[i]) != Flush::Buffer,
    ensures
        total_increment(run_fuel(ops).0.take(i + 1)) == total_cost(ops.take(i + 1)),
        leaves_function(ops[i]) ==> run_fuel(ops).0[i].spill,
{
    lemma_run_fuel_shape(ops);
    lemma_run_fuel_prefix(ops, i + 1);
    lemma_fuel_conservation(ops.take(i + 1));
    assert(ops.take(i + 1).last() == ops[i]);
    lemma_run_fuel_shape(ops.take(i + 1));
    assert(run_fuel(ops).0[i] == run_fuel(ops).0.take(i + 1)[i]);
}

/// The live fuel counter is negative while fuel remains: the emitted check
/// calls the out-of-gas builtin when it is zero or above.
pub fn fuel_exhausted(fuel: i64) -> (r: bool)
    ensures
        r == (fuel >= 0),
{
    fuel >= 0
}

/// The emitted increment of the fuel variable (a wrapping add).
pub fn apply_increment(fuel: i64, increment: i64) -> (r: i64)
    ensures
        r == (if fuel + increment > i64::MAX {
            fuel + increment - 0x1_0000_0000_0000_0000
        } else if fuel + increment < i64::MIN {
            fuel + increment + 0x1_0000_0000_0000_0000
        } else {
            fuel + increment
        }),
{
    fuel.wrapping_add(increment)
}

} // verus!
