//! Call lowering: direct, imported, indirect, typed-reference and tail
//! calls, with the context threading and the checks before an indirect
//! call.
use vstd::prelude::*;

verus! {

/// Trap codes of the emitted call checks.
#[derive(Clone, Copy, Debug, PartialEq, Eq, Structural)]
pub enum Trap {
    /// `call_indirect` through a null table element.
    IndirectCallToNull,
    /// `call_indirect` whose expected type differs from the callee's.
    BadSignature,
    /// `call_ref` on a null reference.
    NullReference,
}

/// The call instruction emitted.
#[derive(Clone, Copy, Debug, PartialEq, Eq, Structural)]
pub enum CallOp {
    /// A direct, colocated call.
    Call,
    /// A call through a loaded code address.
    CallIndirect,
    /// The tail-call forms of the two above.
    ReturnCall,
    ReturnCallIndirect,
}

/// Context offsets of an imported function's code address and context.
#[derive(Clone, Copy, Debug, PartialEq, Eq, Structural)]
pub struct ImportSlots {
    pub wasm_call: i32,
    pub vmctx: i32,
}

/// How a direct call is emitted.
#[derive(Clone, Copy, Debug, PartialEq, Eq, Structural)]
pub enum DirectCall {
    /// The callee is defined in this module: a colocated direct call, with
    /// the caller's context passed as the callee's.
    Colocated { op: CallOp },
    /// The callee is imported: load its code address and context from
    /// `slots`, then call indirectly.
    ThroughImport { slots: ImportSlots, op: CallOp },
}

/// Offsets inside a function record.
#[derive(Clone, Copy, Debug, PartialEq, Eq, Structural)]
pub struct FuncRefLayout {
    pub wasm_call: i32,
    pub vmctx: i32,
    pub type_index: i32,
}

/// A call through a function record.
#[derive(Clone, Copy, Debug, PartialEq, Eq, Structural)]
pub struct ThroughRecord {
    pub code_offset: i32,
    pub vmctx_offset: i32,
    pub op: CallOp,
}

pub open spec fn indirect_check_of(funcref: u64, expected_type: u32, callee_type: u32) -> Result<(), Trap> {
    if funcref == 0 {
        Err(Trap::IndirectCallToNull)
    } else if callee_type != expected_type {
        Err(Trap::BadSignature)
    } else {
        Ok(())
    }
}

/// A call site: regular or tail.
#[derive(Clone, Copy, Debug, PartialEq, Eq, Structural)]
pub struct Call {
    pub tail: bool,
}

/// The arguments of every Wasm call: callee context, caller context, then
/// the operand-stack arguments.
pub open spec fn wasm_call_args(callee_vmctx: u32, caller_vmctx: u32, args: Seq<u32>) -> Seq<u32> {
    seq![callee_vmctx, caller_vmctx] + args
}

impl Call {
    /// A call site for regular calls.
    pub fn new() -> (r: Call)
        ensures
            !r.tail,
    {
        Call { tail: false }
    }

    /// A call site for tail calls.
    pub fn new_tail() -> (r: Call)
        ensures
            r.tail,
    {
        Call { tail: true }
    }

    pub open spec fn direct_op(&self) -> CallOp {
        if self.tail { CallOp::ReturnCall } else { CallOp::Call }
    }

    pub open spec fn indirect_op(&self) -> CallOp {
        if self.tail { CallOp::ReturnCallIndirect } else { CallOp::CallIndirect }
    }

    /// The instruction for a colocated direct call.
    pub fn direct_call_inst(&self) -> (r: CallOp)
        ensures
            r == self.direct_op(),
    {
        if self.tail { CallOp::ReturnCall } else { CallOp::Call }
    }

    /// The instruction for a call through a code address.
    pub fn indirect_call_inst(&self) -> (r: CallOp)
        ensures
            r == self.indirect_op(),
    {
        if self.tail { CallOp::ReturnCallIndirect } else { CallOp::CallIndirect }
    }

    /// How a direct call to a function is emitted; `import` holds the
    /// function's import slots when it is imported.
    pub fn direct_call(&self, import: Option<ImportSlots>) -> (r: DirectCall)
        ensures
            import is None ==> r == (DirectCall::Colocated { op: self.direct_op() }),
            import is Some ==> r == (DirectCall::ThroughImport {
                slots: import->0,
                op: self.indirect_op(),
            }),
    {
        match import {
            None => DirectCall::Colocated { op: self.direct_call_inst() },
            Some(slots) => DirectCall::ThroughImport { slots, op: self.indirect_call_inst() },
        }
    }

    /// The emitted `call_indirect` on a funcref: trap on a null element,
    /// then compare the type id stored in the callee's record with the type
    /// id the caller expects and trap on a mismatch; only when both pass is
    /// the call instruction reached, so no callee code runs otherwise.
    pub fn indirect_call(&self, funcref: u64, expected_type: u32, callee_type: u32) -> (r: Result<
        CallOp,
        Trap,
    >)
        ensures
            r == (match indirect_check_of(funcref, expected_type, callee_type) {
                Ok(_) => Ok(self.indirect_op()),
                Err(t) => Err(t),
            }),
            funcref != 0 && callee_type != expected_type ==> r == Err::<CallOp, Trap>(Trap::BadSignature),
            r is Ok <==> funcref != 0 && callee_type == expected_type,
    {
        if funcref == 0 {
            return Err(Trap::IndirectCallToNull);
        }
        if callee_type != expected_type {
            return Err(Trap::BadSignature);
        }
        Ok(self.indirect_call_inst())
    }

    /// The emitted `call_ref`: trap on a null reference, then call. The
    /// reference's type is known from validation, so no type check follows.
    pub fn call_ref(&self, callee: u64) -> (r: Result<CallOp, Trap>)
        ensures
            r == (if callee == 0 {
                Err::<CallOp, Trap>(Trap::NullReference)
            } else {
                Ok(self.indirect_op())
            }),
    {
        if callee == 0 {
            Err(Trap::NullReference)
        } else {
            Ok(self.indirect_call_inst())
        }
    }

    /// A call through a function record: load its code address and its
    /// context at the record's offsets, then call indirectly.
    pub fn unchecked_call(&self, record: FuncRefLayout) -> (r: ThroughRecord)
        ensures
            r == (ThroughRecord {
                code_offset: record.wasm_call,
                vmctx_offset: record.vmctx,
                op: self.indirect_op(),
            }),
    {
        ThroughRecord { code_offset: record.wasm_call, vmctx_offset: record.vmctx, op: self.indirect_call_inst() }
    }
}

/// Builds the argument list of a Wasm call: `callee_vmctx`, `caller_vmctx`,
/// then `args`. For a colocated callee both contexts are the caller's.
pub fn call_args(callee_vmctx: u32, caller_vmctx: u32, args: &Vec<u32>) -> (r: Vec<u32>)
    requires
        args@.len() + 2 <= usize::MAX,
    ensures
        r@ == wasm_call_args(callee_vmctx, caller_vmctx, args@),
{
    let mut full: Vec<u32> = Vec::with_capacity(args.len() + 2);
    full.push(callee_vmctx);
    full.push(caller_vmctx);
    let mut i: usize = 0;
    while i < args.len()
        invariant
            i <= args@.len(),
            full@ == wasm_call_args(callee_vmctx, caller_vmctx, args@.take(i as int)),
        decreases args@.len() - i,
    {
        full.push(args[i]);
        i = i + 1;
        proof {
            assert(wasm_call_args(callee_vmctx, caller_vmctx, args@.take(i as int)) =~= wasm_call_args(
                callee_vmctx,
                caller_vmctx,
                args@.take(i - 1),
            ).push(args@[i - 1]));
        }
    }
    proof {
        assert(args@.take(args@.len() as int) =~= args@);
    }
    full
}

/// A parameter index of a compiled function is a Wasm parameter unless it
/// is one of the two leading contexts.
pub fn is_wasm_parameter(index: usize) -> (r: bool)
    ensures
        r == (index >= 2),
{
    index >= 2
}

/// Offset of a signature's entry in the context's array of type ids:
/// the index times the size of one id, where that fits a 32-bit offset.
pub fn type_id_offset(sig_index: u32, id_bytes: u32) -> (r: Option<i32>)
    ensures
        sig_index * id_bytes <= i32::MAX ==> r == Some((sig_index * id_bytes) as i32),
        sig_index * id_bytes > i32::MAX ==> r is None,
{
    match sig_index.checked_mul(id_bytes) {
        Some(b) => if b <= i32::MAX as u32 {
            Some(b as i32)
        } else {
            None
        },
        None => None,
    }
}

} // verus!
