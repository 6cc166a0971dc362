//! Globals: memory-resident at a fixed place, or, for externrefs, reached
//! through builtins that run the reference-count barriers.
use vstd::prelude::*;
use crate::memory::HeapPtr;
use crate::table::RefKind;

verus! {

/// A Wasm value type.
#[derive(Clone, Copy, Debug, PartialEq, Eq, Structural)]
pub enum ValType {
    I32,
    I64,
    F32,
    F64,
    V128,
    Ref(RefKind),
}

/// Where a global's definition lies.
#[derive(Clone, Copy, Debug, PartialEq, Eq, Structural)]
pub enum GlobalPlace {
    /// Defined here, inside the context at `offset`.
    Defined { offset: i32 },
    /// Imported: the context holds a pointer to it at `from_offset`.
    Imported { from_offset: i32 },
}

/// How the translator accesses a global.
#[derive(Clone, Copy, Debug, PartialEq, Eq, Structural)]
pub enum GlobalVariable {
    /// Get and set go through the externref global builtins.
    Custom,
    /// A plain load or store at `offset` from the address given by `ptr`.
    Memory { ptr: HeapPtr, offset: i32, ty: ValType },
}

pub open spec fn global_location_of(place: GlobalPlace) -> (HeapPtr, i32) {
    match place {
        GlobalPlace::Defined { offset } => (HeapPtr::Vmctx, offset),
        GlobalPlace::Imported { from_offset } => (HeapPtr::Loaded { offset: from_offset }, 0),
    }
}

/// The address a global lives at: a context offset, or offset 0 from the
/// pointer an import slot holds.
pub fn get_global_location(place: GlobalPlace) -> (r: (HeapPtr, i32))
    ensures
        r == global_location_of(place),
{
    match place {
        GlobalPlace::Defined { offset } => (HeapPtr::Vmctx, offset),
        GlobalPlace::Imported { from_offset } => (HeapPtr::Loaded { offset: from_offset }, 0),
    }
}

/// How a global of type `ty` is accessed: externrefs need barriers, so they
/// are custom; every other type, funcrefs included, lives in memory.
pub fn make_global(ty: ValType, place: GlobalPlace) -> (r: GlobalVariable)
    ensures
        ty == ValType::Ref(RefKind::Extern) ==> r == GlobalVariable::Custom,
        ty != ValType::Ref(RefKind::Extern) ==> r == (GlobalVariable::Memory {
            ptr: global_location_of(place).0,
            offset: global_location_of(place).1,
            ty,
        }),
{
    if let ValType::Ref(RefKind::Extern) = ty {
        return GlobalVariable::Custom;
    }
    let (ptr, offset) = get_global_location(place);
    GlobalVariable::Memory { ptr, offset, ty }
}

} // verus!
