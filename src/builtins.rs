//! Host builtins reached through the context's builtin function table: their
//! order in that table, their signatures, and the per-function cache that
//! imports each signature at most once.
use vstd::prelude::*;
use crate::memory::IntWidth;
use crate::table::RefKind;

verus! {

/// The builtins, in the order of the runtime's builtin function table.
#[derive(Clone, Copy, Debug, PartialEq, Eq, Structural)]
pub enum Builtin {
    Memory32Grow,
    TableCopy,
    TableInit,
    ElemDrop,
    MemoryCopy,
    MemoryFill,
    MemoryInit,
    RefFunc,
    DataDrop,
    TableGetLazyInitFuncRef,
    TableGrowFuncRef,
    TableGrowExternRef,
    TableFillExternRef,
    TableFillFuncRef,
    DropExternRef,
    ActivationsTableInsertWithGc,
    ExternRefGlobalGet,
    ExternRefGlobalSet,
    MemoryAtomicNotify,
    MemoryAtomicWait32,
    MemoryAtomicWait64,
    OutOfGas,
    NewEpoch,
    CheckMalloc,
    CheckFree,
    CheckLoad,
    CheckStore,
    MallocStart,
    FreeStart,
    UpdateStackPointer,
    UpdateMemSize,
}

/// Number of builtins the runtime's table holds.
pub const BUILTIN_COUNT: u32 = 31;

/// Relies on wasmtime_environ::BuiltinFunctionIndex::builtin_functions_total_number:
/// the length of the runtime's builtin function table, one entry per builtin
/// of its list.
#[verifier::external_body]
fn builtin_table_len() -> (r: u32)
    ensures
        r == BUILTIN_COUNT,
{
    wasmtime_environ::BuiltinFunctionIndex::builtin_functions_total_number()
}

/// Position of a builtin in the runtime's table.
pub open spec fn builtin_index(b: Builtin) -> nat {
    match b {
        Builtin::Memory32Grow => 0,
        Builtin::TableCopy => 1,
        Builtin::TableInit => 2,
        Builtin::ElemDrop => 3,
        Builtin::MemoryCopy => 4,
        Builtin::MemoryFill => 5,
        Builtin::MemoryInit => 6,
        Builtin::RefFunc => 7,
        Builtin::DataDrop => 8,
        Builtin::TableGetLazyInitFuncRef => 9,
        Builtin::TableGrowFuncRef => 10,
        Builtin::TableGrowExternRef => 11,
        Builtin::TableFillExternRef => 12,
        Builtin::TableFillFuncRef => 13,
        Builtin::DropExternRef => 14,
        Builtin::ActivationsTableInsertWithGc => 15,
        Builtin::ExternRefGlobalGet => 16,
        Builtin::ExternRefGlobalSet => 17,
        Builtin::MemoryAtomicNotify => 18,
        Builtin::MemoryAtomicWait32 => 19,
        Builtin::MemoryAtomicWait64 => 20,
        Builtin::OutOfGas => 21,
        Builtin::NewEpoch => 22,
        Builtin::CheckMalloc => 23,
        Builtin::CheckFree => 24,
        Builtin::CheckLoad => 25,
        Builtin::CheckStore => 26,
        Builtin::MallocStart => 27,
        Builtin::FreeStart => 28,
        Builtin::UpdateStackPointer => 29,
        Builtin::UpdateMemSize => 30,
    }
}

impl Builtin {
    pub fn index(&self) -> (r: u32)
        ensures
            r == builtin_index(*self),
            r < BUILTIN_COUNT,
    {
        match self {
            Builtin::Memory32Grow => 0,
            Builtin::TableCopy => 1,
            Builtin::TableInit => 2,
            Builtin::ElemDrop => 3,
            Builtin::MemoryCopy => 4,
            Builtin::MemoryFill => 5,
            Builtin::MemoryInit => 6,
            Builtin::RefFunc => 7,
            Builtin::DataDrop => 8,
            Builtin::TableGetLazyInitFuncRef => 9,
            Builtin::TableGrowFuncRef => 10,
            Builtin::TableGrowExternRef => 11,
            Builtin::TableFillExternRef => 12,
            Builtin::TableFillFuncRef => 13,
            Builtin::DropExternRef => 14,
            Builtin::ActivationsTableInsertWithGc => 15,
            Builtin::ExternRefGlobalGet => 16,
            Builtin::ExternRefGlobalSet => 17,
            Builtin::MemoryAtomicNotify => 18,
            Builtin::MemoryAtomicWait32 => 19,
            Builtin::MemoryAtomicWait64 => 20,
            Builtin::OutOfGas => 21,
            Builtin::NewEpoch => 22,
            Builtin::CheckMalloc => 23,
            Builtin::CheckFree => 24,
            Builtin::CheckLoad => 25,
            Builtin::CheckStore => 26,
            Builtin::MallocStart => 27,
            Builtin::FreeStart => 28,
            Builtin::UpdateStackPointer => 29,
            Builtin::UpdateMemSize => 30,
        }
    }
}

/// A parameter or result of a builtin's signature.
#[derive(Clone, Copy, Debug, PartialEq, Eq, Structural)]
pub enum AbiParam {
    /// The instance context, always first.
    Vmctx,
    /// A 32-bit integer, zero-extended to the register width where the
    /// platform's convention asks for it.
    I32Uext,
    I64,
    Pointer,
    Reference,
}

pub open spec fn builtin_params(b: Builtin) -> Seq<AbiParam> {
    let v = AbiParam::Vmctx;
    let w = AbiParam::I32Uext;
    let d = AbiParam::I64;
    match b {
        Builtin::Memory32Grow => seq![v, d, w],
        Builtin::TableCopy => seq![v, w, w, w, w, w],
        Builtin::TableInit => seq![v, w, w, w, w, w],
        Builtin::ElemDrop => seq![v, w],
        Builtin::MemoryCopy => seq![v, w, d, w, d, d],
        Builtin::MemoryFill => seq![v, w, d, w, d],
        Builtin::MemoryInit => seq![v, w, w, d, w, w],
        Builtin::RefFunc => seq![v, w],
        Builtin::DataDrop => seq![v, w],
        Builtin::TableGetLazyInitFuncRef => seq![v, w, w],
        Builtin::TableGrowFuncRef => seq![v, w, w, AbiParam::Pointer],
        Builtin::TableGrowExternRef => seq![v, w, w, AbiParam::Reference],
        Builtin::TableFillExternRef => seq![v, w, w, AbiParam::Reference, w],
        Builtin::TableFillFuncRef => seq![v, w, w, AbiParam::Pointer, w],
        Builtin::DropExternRef => seq![v, AbiParam::Pointer],
        Builtin::ActivationsTableInsertWithGc => seq![v, AbiParam::Reference],
        Builtin::ExternRefGlobalGet => seq![v, w],
        Builtin::ExternRefGlobalSet => seq![v, w, AbiParam::Reference],
        Builtin::MemoryAtomicNotify => seq![v, w, d, w],
        Builtin::MemoryAtomicWait32 => seq![v, w, d, w, d],
        Builtin::MemoryAtomicWait64 => seq![v, w, d, d, d],
        Builtin::OutOfGas => seq![v],
        Builtin::NewEpoch => seq![v],
        Builtin::CheckMalloc => seq![v, w, w],
        Builtin::CheckFree => seq![v, w],
        Builtin::CheckLoad => seq![v, w, w, w],
        Builtin::CheckStore => seq![v, w, w, w],
        Builtin::MallocStart => seq![v],
        Builtin::FreeStart => seq![v],
        Builtin::UpdateStackPointer => seq![v, w],
        Builtin::UpdateMemSize => seq![v, w],
    }
}

pub open spec fn builtin_result(b: Builtin) -> Option<AbiParam> {
    match b {
        Builtin::Memory32Grow | Builtin::RefFunc | Builtin::TableGetLazyInitFuncRef => Some(
            AbiParam::Pointer,
        ),
        Builtin::TableGrowFuncRef | Builtin::TableGrowExternRef | Builtin::MemoryAtomicNotify
        | Builtin::MemoryAtomicWait32 | Builtin::MemoryAtomicWait64 | Builtin::CheckMalloc
        | Builtin::CheckFree | Builtin::CheckLoad | Builtin::CheckStore => Some(AbiParam::I32Uext),
        Builtin::ExternRefGlobalGet => Some(AbiParam::Reference),
        Builtin::NewEpoch => Some(AbiParam::I64),
        _ => None,
    }
}

/// The parameters of a builtin's signature.
pub fn params(b: Builtin) -> (r: Vec<AbiParam>)
    ensures
        r@ == builtin_params(b),
{
    let v = AbiParam::Vmctx;
    let w = AbiParam::I32Uext;
    let d = AbiParam::I64;
    let p = AbiParam::Pointer;
    let f = AbiParam::Reference;
    let r = match b {
        Builtin::Memory32Grow => vec![v, d, w],
        Builtin::TableCopy => vec![v, w, w, w, w, w],
        Builtin::TableInit => vec![v, w, w, w, w, w],
        Builtin::ElemDrop => vec![v, w],
        Builtin::MemoryCopy => vec![v, w, d, w, d, d],
        Builtin::MemoryFill => vec![v, w, d, w, d],
        Builtin::MemoryInit => vec![v, w, w, d, w, w],
        Builtin::RefFunc => vec![v, w],
        Builtin::DataDrop => vec![v, w],
        Builtin::TableGetLazyInitFuncRef => vec![v, w, w],
        Builtin::TableGrowFuncRef => vec![v, w, w, p],
        Builtin::TableGrowExternRef => vec![v, w, w, f],
        Builtin::TableFillExternRef => vec![v, w, w, f, w],
        Builtin::TableFillFuncRef => vec![v, w, w, p, w],
        Builtin::DropExternRef => vec![v, p],
        Builtin::ActivationsTableInsertWithGc => vec![v, f],
        Builtin::ExternRefGlobalGet => vec![v, w],
        Builtin::ExternRefGlobalSet => vec![v, w, f],
        Builtin::MemoryAtomicNotify => vec![v, w, d, w],
        Builtin::MemoryAtomicWait32 => vec![v, w, d, w, d],
        Builtin::MemoryAtomicWait64 => vec![v, w, d, d, d],
        Builtin::OutOfGas => vec![v],
        Builtin::NewEpoch => vec![v],
        Builtin::CheckMalloc => vec![v, w, w],
        Builtin::CheckFree => vec![v, w],
        Builtin::CheckLoad => vec![v, w, w, w],
        Builtin::CheckStore => vec![v, w, w, w],
        Builtin::MallocStart => vec![v],
        Builtin::FreeStart => vec![v],
        Builtin::UpdateStackPointer => vec![v, w],
        Builtin::UpdateMemSize => vec![v, w],
    };
    proof {
        assert(r@ =~= builtin_params(b));
    }
    r
}

/// The result of a builtin's signature, if it has one.
pub fn result(b: Builtin) -> (r: Option<AbiParam>)
    ensures
        r == builtin_result(b),
{
    match b {
        Builtin::Memory32Grow | Builtin::RefFunc | Builtin::TableGetLazyInitFuncRef => Some(
            AbiParam::Pointer,
        ),
        Builtin::TableGrowFuncRef | Builtin::TableGrowExternRef | Builtin::MemoryAtomicNotify
        | Builtin::MemoryAtomicWait32 | Builtin::MemoryAtomicWait64 | Builtin::CheckMalloc
        | Builtin::CheckFree | Builtin::CheckLoad | Builtin::CheckStore => Some(AbiParam::I32Uext),
        Builtin::ExternRefGlobalGet => Some(AbiParam::Reference),
        Builtin::NewEpoch => Some(AbiParam::I64),
        _ => None,
    }
}

/// Every builtin signature starts with the instance context, and only there.
pub proof fn lemma_vmctx_first(b: Builtin)
    ensures
        builtin_params(b).len() >= 1,
        builtin_params(b)[0] == AbiParam::Vmctx,
        forall|i: int| 1 <= i < builtin_params(b).len() ==> builtin_params(b)[i] != AbiParam::Vmctx,
{
}

/// Byte offset of a builtin's entry in the builtin function array.
pub fn builtin_slot_offset(b: Builtin, ptr: IntWidth) -> (r: i32)
    ensures
        r == builtin_index(b) * crate::memory::pointer_bytes(ptr),
{
    let size: i32 = match ptr {
        IntWidth::I32 => 4,
        IntWidth::I64 => 8,
    };
    (b.index() as i32) * size
}

/// The builtin of `table.grow` on a table of `kind`.
pub fn table_grow_builtin(kind: RefKind) -> (r: Builtin)
    ensures
        r == (match kind {
            RefKind::Func => Builtin::TableGrowFuncRef,
            RefKind::Extern => Builtin::TableGrowExternRef,
        }),
{
    match kind {
        RefKind::Func => Builtin::TableGrowFuncRef,
        RefKind::Extern => Builtin::TableGrowExternRef,
    }
}

/// The builtin of `table.fill` on a table of `kind`.
pub fn table_fill_builtin(kind: RefKind) -> (r: Builtin)
    ensures
        r == (match kind {
            RefKind::Func => Builtin::TableFillFuncRef,
            RefKind::Extern => Builtin::TableFillExternRef,
        }),
{
    match kind {
        RefKind::Func => Builtin::TableFillFuncRef,
        RefKind::Extern => Builtin::TableFillExternRef,
    }
}

/// The builtin of `memory.atomic.wait`, by the width of the expected value.
pub fn atomic_wait_builtin(expected: IntWidth) -> (r: Builtin)
    ensures
        r == (match expected {
            IntWidth::I32 => Builtin::MemoryAtomicWait32,
            IntWidth::I64 => Builtin::MemoryAtomicWait64,
        }),
{
    match expected {
        IntWidth::I32 => Builtin::MemoryAtomicWait32,
        IntWidth::I64 => Builtin::MemoryAtomicWait64,
    }
}

/// Per-function cache of imported builtin signatures, by table position.
#[derive(Debug)]
pub struct SigCache {
    pub entries: Vec<Option<u32>>,
}

impl SigCache {
    pub open spec fn wf(&self) -> bool {
        self.entries@.len() == BUILTIN_COUNT
    }

    /// The signature reference recorded for `b`, if it was imported.
    pub open spec fn cached(&self, b: Builtin) -> Option<u32> {
        self.entries@[builtin_index(b) as int]
    }

    /// An empty cache: nothing imported yet.
    pub fn new() -> (r: SigCache)
        ensures
            r.wf(),
            forall|b: Builtin| #[trigger] r.cached(b) is None,
    {
        let n = builtin_table_len();
        let mut entries: Vec<Option<u32>> = Vec::new();
        let mut i: u32 = 0;
        while i < n
            invariant
                n == BUILTIN_COUNT,
                i <= n,
                entries@.len() == i,
                forall|j: int| 0 <= j < i ==> entries@[j] is None,
            decreases n - i,
        {
            entries.push(None);
            i = i + 1;
        }
        SigCache { entries }
    }

    pub fn get(&self, b: Builtin) -> (r: Option<u32>)
        requires
            self.wf(),
        ensures
            r == self.cached(b),
    {
        self.entries[b.index() as usize]
    }

    /// The signature of `b` for this function: the cached one, or `fresh`,
    /// the reference of a signature imported now (the returned flag says
    /// whether an import happened). Each builtin's signature is imported at
    /// most once per function.
    pub fn get_or_import(&mut self, b: Builtin, fresh: u32) -> (r: (u32, bool))
        requires
            old(self).wf(),
        ensures
            final(self).wf(),
            old(self).cached(b) is Some ==> r == (old(self).cached(b)->0, false) && final(self).entries@
                == old(self).entries@,
            old(self).cached(b) is None ==> r == (fresh, true),
            final(self).cached(b) == Some(r.0),
            forall|c: Builtin| c != b ==> #[trigger] final(self).cached(c) == old(self).cached(c),
    {
        let i = b.index() as usize;
        match self.entries[i] {
            Some(s) => (s, false),
            None => {
                self.entries.set(i, Some(fresh));
                proof {
                    assert forall|c: Builtin| c != b implies #[trigger] self.cached(c) == old(self).cached(c) by {
                        lemma_index_injective(b, c);
                    }
                }
                (fresh, true)
            },
        }
    }
}

/// Distinct builtins have distinct table positions.
pub proof fn lemma_index_injective(a: Builtin, b: Builtin)
    ensures
        a != b ==> builtin_index(a) != builtin_index(b),
{
}

} // verus!
