//! The per-function translation environment: lazily created context
//! global, heap descriptors, builtin signatures, cached variables, and the
//! hooks that the decoder calls around functions and operators.
use vstd::prelude::*;
use crate::builtins::{Builtin, SigCache};
use crate::fuel::{FuelEmit, FuelState, Operator, reloads_after, step_emit, step_pending};
use crate::memory::{
    DefinitionLayout, HeapDescriptor, IntWidth, MemTypeField, MemoryPlace, MemoryPlan, VmctxMemType,
    grown_size, heap_descriptor, heap_vmctx_fields, make_heap, plan_representable,
};

verus! {

broadcast use {vstd::multiset::group_multiset_axioms, vstd::seq_lib::group_to_multiset_ensures};

/// Feature switches of the translation.
#[derive(Clone, Copy, Debug, PartialEq, Eq, Structural)]
pub struct Tunables {
    pub consume_fuel: bool,
    pub epoch_interruption: bool,
    /// Call the memory checker's allocation hooks at the entry of functions
    /// whose debug name is `malloc` or `free`. The name is all there is to
    /// go by, so a stripped module gets no hooks.
    pub check_allocator_names: bool,
}

/// The memory checker's hook at a function's entry.
#[derive(Clone, Copy, Debug, PartialEq, Eq, Structural)]
pub enum EntryHook {
    Nothing,
    MallocStart,
    FreeStart,
}

/// The bytes of `malloc`.
pub open spec fn malloc_name() -> Seq<u8> {
    seq![109u8, 97u8, 108u8, 108u8, 111u8, 99u8]
}

/// The bytes of `free`.
pub open spec fn free_name() -> Seq<u8> {
    seq![102u8, 114u8, 101u8, 101u8]
}

pub open spec fn entry_hook_of(check: bool, name: Option<Seq<u8>>) -> EntryHook {
    if !check {
        EntryHook::Nothing
    } else {
        match name {
            Some(n) => if n == malloc_name() {
                EntryHook::MallocStart
            } else if n == free_name() {
                EntryHook::FreeStart
            } else {
                EntryHook::Nothing
            },
            None => EntryHook::Nothing,
        }
    }
}

fn bytes_equal(a: &[u8], b: &[u8]) -> (r: bool)
    ensures
        r == (a@ == b@),
{
    if a.len() != b.len() {
        return false;
    }
    let mut i: usize = 0;
    while i < a.len()
        invariant
            i <= a@.len(),
            a@.len() == b@.len(),
            forall|j: int| 0 <= j < i ==> a@[j] == b@[j],
        decreases a@.len() - i,
    {
        if a[i] != b[i] {
            return false;
        }
        i = i + 1;
    }
    assert(a@ =~= b@);
    true
}

/// The hook to call at the entry of a function with debug name `name`.
pub fn entry_hook(check_allocator_names: bool, name: Option<&[u8]>) -> (r: EntryHook)
    ensures
        r == entry_hook_of(
            check_allocator_names,
            match name {
                Some(n) => Some(n@),
                None => None::<Seq<u8>>,
            },
        ),
{
    if !check_allocator_names {
        return EntryHook::Nothing;
    }
    match name {
        Some(n) => {
            let malloc: Vec<u8> = vec![109u8, 97u8, 108u8, 108u8, 111u8, 99u8];
            let free: Vec<u8> = vec![102u8, 114u8, 101u8, 101u8];
            proof {
                assert(malloc@ =~= malloc_name());
                assert(free@ =~= free_name());
            }
            if bytes_equal(n, malloc.as_slice()) {
                EntryHook::MallocStart
            } else if bytes_equal(n, free.as_slice()) {
                EntryHook::FreeStart
            } else {
                EntryHook::Nothing
            }
        },
        None => EntryHook::Nothing,
    }
}

/// Indices of the four variables the environment adds after the locals.
#[derive(Clone, Copy, Debug, PartialEq, Eq, Structural)]
pub struct CachedVars {
    pub runtime_limits_ptr: usize,
    pub fuel: usize,
    pub epoch_deadline: usize,
    pub epoch_ptr: usize,
}

/// What to emit at function entry.
#[derive(Clone, Copy, Debug, PartialEq, Eq, Structural)]
pub struct EntryPlan {
    /// Load the runtime-limits pointer into its variable.
    pub load_runtime_limits: bool,
    /// Load the fuel into its variable and check it.
    pub fuel_entry: bool,
    /// Load the epoch deadline and pointer, and check the epoch.
    pub epoch_entry: bool,
}

/// What to emit at a loop header.
#[derive(Clone, Copy, Debug, PartialEq, Eq, Structural)]
pub struct LoopPlan {
    pub fuel_check: bool,
    pub epoch_check: bool,
}

/// Translation state of one function.
#[derive(Debug)]
pub struct FuncEnvironment {
    pub pointer: IntWidth,
    pub tunables: Tunables,
    /// Proof-carrying code is on.
    pub pcc: bool,
    /// The context global, once created.
    pub vmctx: Option<u32>,
    pub pcc_vmctx_memtype: Option<VmctxMemType>,
    pub heaps: Vec<HeapDescriptor>,
    pub sigs: SigCache,
    pub fuel: FuelState,
    pub vars: CachedVars,
}

impl FuncEnvironment {
    pub open spec fn wf(&self) -> bool {
        &&& self.sigs.wf()
        &&& self.fuel.pending >= 0
        &&& (self.pcc_vmctx_memtype is Some <==> self.pcc && self.vmctx is Some)
    }

    pub fn new(pointer: IntWidth, tunables: Tunables, pcc: bool) -> (r: FuncEnvironment)
        ensures
            r.wf(),
            r.pointer == pointer,
            r.tunables == tunables,
            r.pcc == pcc,
            r.vmctx is None,
            r.pcc_vmctx_memtype is None,
            r.heaps@.len() == 0,
            forall|b: Builtin| #[trigger] r.sigs.cached(b) is None,
            r.fuel.pending == 0,
            r.vars == (CachedVars { runtime_limits_ptr: 0, fuel: 0, epoch_deadline: 0, epoch_ptr: 0 }),
    {
        FuncEnvironment {
            pointer,
            tunables,
            pcc,
            vmctx: None,
            pcc_vmctx_memtype: None,
            heaps: Vec::new(),
            sigs: SigCache::new(),
            fuel: FuelState::new(),
            vars: CachedVars { runtime_limits_ptr: 0, fuel: 0, epoch_deadline: 0, epoch_ptr: 0 },
        }
    }

    /// The context global of this function: the one created before, or
    /// `fresh`, recorded now. It is created once per function; with
    /// proof-carrying code an empty memory type for the context comes with
    /// it.
    pub fn vmctx(&mut self, fresh: u32) -> (r: u32)
        requires
            old(self).wf(),
        ensures
            final(self).wf(),
            old(self).vmctx is Some ==> r == old(self).vmctx->0 && final(self).vmctx == old(self).vmctx
                && final(self).pcc_vmctx_memtype == old(self).pcc_vmctx_memtype,
            old(self).vmctx is None ==> r == fresh && final(self).vmctx == Some(fresh) && (old(self).pcc
                ==> (final(self).pcc_vmctx_memtype is Some && final(self).pcc_vmctx_memtype->0.size == 0
                && final(self).pcc_vmctx_memtype->0.fields@.len() == 0))
                && (!old(self).pcc ==> final(self).pcc_vmctx_memtype is None),
            final(self).heaps@ == old(self).heaps@,
            final(self).fuel == old(self).fuel,
            final(self).pcc == old(self).pcc,
            final(self).pointer == old(self).pointer,
    {
        match self.vmctx {
            Some(gv) => gv,
            None => {
                if self.pcc {
                    self.pcc_vmctx_memtype = Some(VmctxMemType { size: 0, fields: Vec::new() });
                }
                self.vmctx = Some(fresh);
                fresh
            },
        }
    }

    /// Numbers the cached variables after the function's `num_locals`
    /// locals.
    pub fn after_locals(&mut self, num_locals: usize)
        requires
            num_locals + 3 <= usize::MAX,
        ensures
            final(self).vars == (CachedVars {
                runtime_limits_ptr: num_locals,
                fuel: (num_locals + 1) as usize,
                epoch_deadline: (num_locals + 2) as usize,
                epoch_ptr: (num_locals + 3) as usize,
            }),
            final(self).fuel == old(self).fuel,
            final(self).sigs == old(self).sigs,
            final(self).vmctx == old(self).vmctx,
            final(self).pcc_vmctx_memtype == old(self).pcc_vmctx_memtype,
            final(self).pcc == old(self).pcc,
    {
        self.vars = CachedVars {
            runtime_limits_ptr: num_locals,
            fuel: num_locals + 1,
            epoch_deadline: num_locals + 2,
            epoch_ptr: num_locals + 3,
        };
    }

    /// Adds the heap descriptor of a memory and returns its heap index. With
    /// proof-carrying code on, the context global exists first, so every
    /// heap gets a data memory type.
    pub fn make_heap(&mut self, plan: &MemoryPlan, place: MemoryPlace, def: DefinitionLayout) -> (r: usize)
        requires
            old(self).wf(),
            old(self).heaps@.len() < usize::MAX,
            plan_representable(*plan, old(self).pcc_vmctx_memtype is Some),
            old(self).pcc ==> old(self).vmctx is Some,
            place is Owned ==> place->base_offset >= 0 && place->length_offset >= 0,
        ensures
            final(self).wf(),
            r == old(self).heaps@.len(),
            final(self).heaps@ == old(self).heaps@.push(
                heap_descriptor(*plan, place, def, old(self).pcc),
            ),
            ({
                let with = old(self).pcc_vmctx_memtype is Some && place is Owned;
                let d = final(self).heaps@[r as int];
                &&& with ==> {
                    let m = old(self).pcc_vmctx_memtype->0;
                    &&& final(self).pcc_vmctx_memtype is Some
                    &&& final(self).pcc_vmctx_memtype->0.fields@ == m.fields@ + heap_vmctx_fields(
                        *plan,
                        d.base_offset,
                        d.length_offset,
                    )
                    &&& final(self).pcc_vmctx_memtype->0.size == grown_size(
                        m.size,
                        *plan,
                        d.base_offset,
                        d.length_offset,
                        old(self).pointer,
                    )
                }
                &&& !with ==> final(self).pcc_vmctx_memtype == old(self).pcc_vmctx_memtype
            }),
            final(self).vmctx == old(self).vmctx,
            final(self).fuel == old(self).fuel,
            final(self).sigs == old(self).sigs,
            final(self).pointer == old(self).pointer,
    {
        let h = make_heap(plan, place, def, self.pointer, &mut self.pcc_vmctx_memtype);
        let idx = self.heaps.len();
        self.heaps.push(h);
        idx
    }

    /// What the function prologue holds.
    pub fn before_translate_function(&self) -> (r: EntryPlan)
        ensures
            r == (EntryPlan {
                load_runtime_limits: self.tunables.consume_fuel || self.tunables.epoch_interruption,
                fuel_entry: self.tunables.consume_fuel,
                epoch_entry: self.tunables.epoch_interruption,
            }),
    {
        EntryPlan {
            load_runtime_limits: self.tunables.consume_fuel || self.tunables.epoch_interruption,
            fuel_entry: self.tunables.consume_fuel,
            epoch_entry: self.tunables.epoch_interruption,
        }
    }

    /// What a loop header holds: a fuel check and an epoch check, each when
    /// enabled.
    pub fn translate_loop_header(&self) -> (r: LoopPlan)
        ensures
            r == (LoopPlan {
                fuel_check: self.tunables.consume_fuel,
                epoch_check: self.tunables.epoch_interruption,
            }),
    {
        LoopPlan { fuel_check: self.tunables.consume_fuel, epoch_check: self.tunables.epoch_interruption }
    }

    /// The fuel check at function entry or a loop header first folds what
    /// is buffered; the returned increment is added before comparing.
    pub fn fuel_check(&mut self) -> (increment: i64)
        ensures
            increment == old(self).fuel.pending,
            final(self).fuel.pending == 0,
            final(self).sigs == old(self).sigs,
            final(self).vmctx == old(self).vmctx,
            final(self).pcc_vmctx_memtype == old(self).pcc_vmctx_memtype,
            final(self).pcc == old(self).pcc,
            final(self).tunables == old(self).tunables,
    {
        self.fuel.take_pending()
    }

    /// Fuel code before an operator, when fuel is metered.
    pub fn before_translate_operator(&mut self, op: Operator, reachable: bool) -> (r: FuelEmit)
        requires
            old(self).wf(),
            old(self).fuel.pending < i64::MAX - 1,
        ensures
            final(self).wf(),
            old(self).tunables.consume_fuel && reachable ==> r == step_emit(
                old(self).fuel.pending as int,
                op,
            ) && final(self).fuel.pending == step_pending(old(self).fuel.pending as int, op),
            !(old(self).tunables.consume_fuel && reachable) ==> r == (FuelEmit {
                increment: 0,
                spill: false,
            }) && final(self).fuel == old(self).fuel,
            final(self).sigs == old(self).sigs,
            final(self).vmctx == old(self).vmctx,
            final(self).pcc_vmctx_memtype == old(self).pcc_vmctx_memtype,
            final(self).tunables == old(self).tunables,
    {
        if self.tunables.consume_fuel {
            self.fuel.before_op(op, reachable)
        } else {
            FuelEmit { increment: 0, spill: false }
        }
    }

    /// After an operator: whether to reload the fuel variable (after a call
    /// that returns here, when fuel is metered).
    pub fn after_translate_operator(&self, op: Operator, reachable: bool) -> (reload: bool)
        ensures
            reload == (self.tunables.consume_fuel && reachable && (op == Operator::Call || op
                == Operator::CallIndirect || op == Operator::CallRef)),
    {
        self.tunables.consume_fuel && reachable && reloads_after(op)
    }

    /// Before a memory access that always traps: with fuel metered, fold and
    /// spill.
    pub fn before_unconditionally_trapping_memory_access(&mut self) -> (r: Option<FuelEmit>)
        ensures
            old(self).tunables.consume_fuel ==> r == Some(
                FuelEmit { increment: old(self).fuel.pending, spill: true },
            ) && final(self).fuel.pending == 0,
            !old(self).tunables.consume_fuel ==> r is None && final(self).fuel == old(self).fuel,
            final(self).sigs == old(self).sigs,
            final(self).vmctx == old(self).vmctx,
            final(self).pcc_vmctx_memtype == old(self).pcc_vmctx_memtype,
            final(self).tunables == old(self).tunables,
    {
        if self.tunables.consume_fuel {
            Some(self.fuel.before_trapping_access())
        } else {
            None
        }
    }

    /// At the end of the function: whether to store the fuel variable back
    /// (fuel metered and the end reachable). The context's memory-type
    /// fields are put in order of offset.
    pub fn after_translate_function(&mut self, reachable: bool) -> (save_fuel: bool)
        requires
            old(self).wf(),
        ensures
            final(self).wf(),
            save_fuel == (old(self).tunables.consume_fuel && reachable),
            (*old(self)).pcc_vmctx_memtype is None ==> (*final(self)).pcc_vmctx_memtype is None,
            (*old(self)).pcc_vmctx_memtype is Some ==> {
                let before = (*old(self)).pcc_vmctx_memtype->0;
                let after = (*final(self)).pcc_vmctx_memtype->0;
                &&& (*final(self)).pcc_vmctx_memtype is Some
                &&& after.size == before.size
                &&& sorted_by_offset(after.fields@)
                &&& after.fields@.to_multiset() == before.fields@.to_multiset()
            },
            final(self).vmctx == old(self).vmctx,
            final(self).heaps@ == old(self).heaps@,
    {
        match &mut self.pcc_vmctx_memtype {
            Some(m) => sort_fields_by_offset(&mut m.fields),
            None => {},
        }
        self.tunables.consume_fuel && reachable
    }

    /// The signature reference and table offset for a call to builtin `b`:
    /// its signature is imported (as `fresh_sig`) only on first use.
    pub fn builtin_call(&mut self, b: Builtin, fresh_sig: u32) -> (r: (u32, bool, i32))
        requires
            old(self).wf(),
        ensures
            final(self).wf(),
            old(self).sigs.cached(b) is Some ==> r.0 == old(self).sigs.cached(b)->0 && !r.1,
            old(self).sigs.cached(b) is None ==> r.0 == fresh_sig && r.1,
            final(self).sigs.cached(b) == Some(r.0),
            r.2 == crate::builtins::builtin_index(b) * crate::memory::pointer_bytes(old(self).pointer),
            final(self).fuel == old(self).fuel,
            final(self).vmctx == old(self).vmctx,
    {
        let (sig, imported) = self.sigs.get_or_import(b, fresh_sig);
        (sig, imported, crate::builtins::builtin_slot_offset(b, self.pointer))
    }
}

pub open spec fn sorted_by_offset(s: Seq<MemTypeField>) -> bool {
    forall|i: int, j: int| 0 <= i < j < s.len() ==> #[trigger] s[i].offset <= #[trigger] s[j].offset
}

/// Sorts fields by offset.
pub fn sort_fields_by_offset(fields: &mut Vec<MemTypeField>)
    ensures
        sorted_by_offset(final(fields)@),
        final(fields)@.to_multiset() == old(fields)@.to_multiset(),
{
    let mut out: Vec<MemTypeField> = Vec::new();
    let mut i: usize = 0;
    while i < fields.len()
        invariant
            i <= fields@.len(),
            fields@ == old(fields)@,
            sorted_by_offset(out@),
            out@.to_multiset() == fields@.take(i as int).to_multiset(),
        decreases fields@.len() - i,
    {
        let f = fields[i];
        let mut j: usize = 0;
        while j < out.len() && out[j].offset <= f.offset
            invariant
                j <= out@.len(),
                forall|k: int| 0 <= k < j ==> #[trigger] out@[k].offset <= f.offset,
            decreases out@.len() - j,
        {
            j = j + 1;
        }
        let ghost pre = out@;
        out.insert(j, f);
        proof {
            assert(out@ == pre.insert(j as int, f));
            assert forall|a: int, b: int| 0 <= a < b < out@.len() implies #[trigger] out@[a].offset
                <= #[trigger] out@[b].offset by {
                if b < j {
                } else if b == j {
                } else if a < j {
                    assert(out@[b] == pre[b - 1]);
                    if j < pre.len() {
                        assert(pre[j as int].offset > f.offset);
                        if b - 1 > j {
                            assert(pre[j as int].offset <= pre[b - 1].offset);
                        }
                    }
                } else if a == j {
                    assert(out@[b] == pre[b - 1]);
                    assert(pre[j as int].offset > f.offset);
                    if b - 1 > j {
                        assert(pre[j as int].offset <= pre[b - 1].offset);
                    }
                } else {
                    assert(out@[a] == pre[a - 1]);
                    assert(out@[b] == pre[b - 1]);
                }
            }
            vstd::seq_lib::to_multiset_insert(pre, j as int, f);
            assert(fields@.take(i + 1) =~= fields@.take(i as int).push(f));
        }
        i = i + 1;
    }
    proof {
        assert(fields@.take(fields@.len() as int) =~= fields@);
    }
    *fields = out;
}

} // verus!
