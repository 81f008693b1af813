//! The rendering context: the engine's shared read-only resources (constant
//! pool, provider buffer, function-type interner) and the runtime store,
//! which the printer consults only to resolve an indirect call's declared
//! type index through the current instance's type table.

use vstd::prelude::*;
use crate::bytecode::{ConstRef, ConstValue, ExecProvider, ExecProviderSlice, ExecRegisterSlice,
    Instruction, ValueType};

verus! {

/// An interned function signature: ordered parameter types and ordered
/// result types.
#[derive(Debug)]
pub struct FuncType {
    pub params: Vec<ValueType>,
    pub results: Vec<ValueType>,
}

/// The engine's shared read-only registry, borrowed immutably for the
/// duration of one print call.
#[derive(Debug)]
pub struct EngineResources {
    /// The pool of immediate constants that providers refer to.
    pub const_pool: Vec<ConstValue>,
    /// The shared buffer that provider slices index into.
    pub provider_slices: Vec<ExecProvider>,
    /// The shared interner of deduplicated function types.
    pub func_types: Vec<FuncType>,
}

impl EngineResources {
    /// Resolves a constant-pool reference to its pooled value.
    pub fn resolve_const(&self, cref: ConstRef) -> (r: ConstValue)
        requires
            (cref.index as int) < self.const_pool@.len(),
        ensures
            r == self.const_pool@[cref.index as int],
    {
        self.const_pool[cref.index as usize]
    }

    /// Resolves a shared (deduplicated) type index to its function type.
    pub fn resolve_func_type(&self, index: u32) -> (r: &FuncType)
        requires
            (index as int) < self.func_types@.len(),
        ensures
            *r == self.func_types@[index as int],
    {
        &self.func_types[index as usize]
    }
}

/// The per-instance runtime data the printer reads: the table mapping a
/// module-local type index to a shared index in the engine's interner.
#[derive(Debug)]
pub struct InstanceEntity {
    pub func_types: Vec<u32>,
}

impl InstanceEntity {
    /// Looks up the shared type index declared at module-local `index`,
    /// or `None` when the instance holds no such entry.
    pub fn get_signature(&self, index: u32) -> (r: Option<u32>)
        ensures
            (index as int) < self.func_types@.len() ==> r == Some(
                self.func_types@[index as int],
            ),
            (index as int) >= self.func_types@.len() ==> r is None,
    {
        if (index as usize) < self.func_types.len() {
            Some(self.func_types[index as usize])
        } else {
            None
        }
    }
}

/// A handle to one instantiated module inside the store.
#[derive(Clone, Copy, PartialEq, Eq, Structural, Debug)]
pub struct Instance {
    pub idx: u32,
}

/// The runtime's top-level container of module instantiations, of which the
/// printer needs only read-only access.
#[derive(Debug)]
pub struct Store {
    pub instances: Vec<InstanceEntity>,
}

impl Store {
    /// Resolves an instance handle to its per-instance data.
    pub fn resolve_instance(&self, instance: Instance) -> (r: &InstanceEntity)
        requires
            (instance.idx as int) < self.instances@.len(),
        ensures
            *r == self.instances@[instance.idx as int],
    {
        &self.instances[instance.idx as usize]
    }
}

/// A read-only borrow of the store for the duration of one print call.
#[derive(Clone, Copy, Debug)]
pub struct StoreContext<'ctx> {
    pub store: &'ctx Store,
}

/// A provider is well formed when any constant reference it carries points
/// into the engine's constant pool.
pub open spec fn provider_wf(p: ExecProvider, res: EngineResources) -> bool {
    match p {
        ExecProvider::Register(_) => true,
        ExecProvider::Immediate(cref) => (cref.index as int) < res.const_pool@.len(),
    }
}

/// A provider slice is well formed when its span lies inside the engine's
/// provider buffer and every provider in the span is well formed.
pub open spec fn provider_slice_wf(s: ExecProviderSlice, res: EngineResources) -> bool {
    &&& s.start as int + s.len as int <= res.provider_slices@.len()
    &&& forall|i: int|
        s.start as int <= i < s.start as int + s.len as int ==> provider_wf(
            #[trigger] res.provider_slices@[i],
            res,
        )
}

/// A register slice is well formed when every register of the span is a
/// representable register index.
pub open spec fn reg_slice_wf(s: ExecRegisterSlice) -> bool {
    s.first as int + s.len as int <= 0x10000
}

/// An instruction is well formed with respect to the engine's resources
/// when all of its providers and operand slices are.
pub open spec fn instr_wf(instr: Instruction, res: EngineResources) -> bool {
    match instr {
        Instruction::ReturnNez { results, .. } => provider_slice_wf(results, res),
        Instruction::Return { results } => provider_slice_wf(results, res),
        Instruction::Call { results, params, .. } => reg_slice_wf(results)
            && provider_slice_wf(params, res),
        Instruction::CallIndirect { results, index, params, .. } => reg_slice_wf(results)
            && provider_wf(index, res) && provider_slice_wf(params, res),
        Instruction::Copy { input, .. } => provider_wf(input, res),
        Instruction::Select { if_true, if_false, .. } => provider_wf(if_true, res) && provider_wf(
            if_false,
            res,
        ),
        Instruction::GlobalSet { value, .. } => provider_wf(value, res),
        Instruction::MemoryGrow { amount, .. } => provider_wf(amount, res),
        Instruction::I32Store { value, .. }
        | Instruction::I64Store { value, .. }
        | Instruction::F32Store { value, .. }
        | Instruction::F64Store { value, .. }
        | Instruction::I32Store8 { value, .. }
        | Instruction::I32Store16 { value, .. }
        | Instruction::I64Store8 { value, .. }
        | Instruction::I64Store16 { value, .. }
        | Instruction::I64Store32 { value, .. } => provider_wf(value, res),
        Instruction::I32Eq { rhs, .. }
        | Instruction::I32Ne { rhs, .. }
        | Instruction::I32LtS { rhs, .. }
        | Instruction::I32LtU { rhs, .. }
        | Instruction::I32GtS { rhs, .. }
        | Instruction::I32GtU { rhs, .. }
        | Instruction::I32LeS { rhs, .. }
        | Instruction::I32LeU { rhs, .. }
        | Instruction::I32GeS { rhs, .. }
        | Instruction::I32GeU { rhs, .. }
        | Instruction::I64Eq { rhs, .. }
        | Instruction::I64Ne { rhs, .. }
        | Instruction::I64LtS { rhs, .. }
        | Instruction::I64LtU { rhs, .. }
        | Instruction::I64GtS { rhs, .. }
        | Instruction::I64GtU { rhs, .. }
        | Instruction::I64LeS { rhs, .. }
        | Instruction::I64LeU { rhs, .. }
        | Instruction::I64GeS { rhs, .. }
        | Instruction::I64GeU { rhs, .. }
        | Instruction::F32Eq { rhs, .. }
        | Instruction::F32Ne { rhs, .. }
        | Instruction::F32Lt { rhs, .. }
        | Instruction::F32Gt { rhs, .. }
        | Instruction::F32Le { rhs, .. }
        | Instruction::F32Ge { rhs, .. }
        | Instruction::F64Eq { rhs, .. }
        | Instruction::F64Ne { rhs, .. }
        | Instruction::F64Lt { rhs, .. }
        | Instruction::F64Gt { rhs, .. }
        | Instruction::F64Le { rhs, .. }
        | Instruction::F64Ge { rhs, .. }
        | Instruction::I32Add { rhs, .. }
        | Instruction::I32Sub { rhs, .. }
        | Instruction::I32Mul { rhs, .. }
        | Instruction::I32DivS { rhs, .. }
        | Instruction::I32DivU { rhs, .. }
        | Instruction::I32RemS { rhs, .. }
        | Instruction::I32RemU { rhs, .. }
        | Instruction::I32And { rhs, .. }
        | Instruction::I32Or { rhs, .. }
        | Instruction::I32Xor { rhs, .. }
        | Instruction::I32Shl { rhs, .. }
        | Instruction::I32ShrS { rhs, .. }
        | Instruction::I32ShrU { rhs, .. }
        | Instruction::I32Rotl { rhs, .. }
        | Instruction::I32Rotr { rhs, .. }
        | Instruction::I64Add { rhs, .. }
        | Instruction::I64Sub { rhs, .. }
        | Instruction::I64Mul { rhs, .. }
        | Instruction::I64DivS { rhs, .. }
        | Instruction::I64DivU { rhs, .. }
        | Instruction::I64RemS { rhs, .. }
        | Instruction::I64RemU { rhs, .. }
        | Instruction::I64And { rhs, .. }
        | Instruction::I64Or { rhs, .. }
        | Instruction::I64Xor { rhs, .. }
        | Instruction::I64Shl { rhs, .. }
        | Instruction::I64ShrS { rhs, .. }
        | Instruction::I64ShrU { rhs, .. }
        | Instruction::I64Rotl { rhs, .. }
        | Instruction::I64Rotr { rhs, .. }
        | Instruction::F32Add { rhs, .. }
        | Instruction::F32Sub { rhs, .. }
        | Instruction::F32Mul { rhs, .. }
        | Instruction::F32Div { rhs, .. }
        | Instruction::F32Min { rhs, .. }
        | Instruction::F32Max { rhs, .. }
        | Instruction::F32Copysign { rhs, .. }
        | Instruction::F64Add { rhs, .. }
        | Instruction::F64Sub { rhs, .. }
        | Instruction::F64Mul { rhs, .. }
        | Instruction::F64Div { rhs, .. }
        | Instruction::F64Min { rhs, .. }
        | Instruction::F64Max { rhs, .. }
        | Instruction::F64Copysign { rhs, .. } => provider_wf(rhs, res),
        _ => true,
    }
}

/// The store is consistent with the engine's resources when every shared
/// type index recorded in any instance points into the type interner.
pub open spec fn ctx_wf(store: Store, res: EngineResources) -> bool {
    forall|i: int, j: int|
        0 <= i < store.instances@.len() && 0 <= j < store.instances@[i].func_types@.len()
            ==> (#[trigger] store.instances@[i].func_types@[j] as int) < res.func_types@.len()
}

} // verus!
