//! The data model of the virtual machine's bytecode, as far as the printer
//! reads it: registers, operand providers, memory offsets, branch targets,
//! the various index spaces, trap causes, and the instruction word itself.
//!
//! Every operand is a plain scalar; operand sequences are compact slice
//! descriptors resolved against the engine's shared buffers (see
//! [`crate::context::EngineResources`]), so an instruction word is `Copy`.

use vstd::prelude::*;

verus! {

/// An index into the current call frame's value storage.
#[derive(Clone, Copy, PartialEq, Eq, Structural, Debug)]
pub struct ExecRegister {
    pub idx: u16,
}

/// An unsigned immediate that is added (conceptually, never evaluated by the
/// printer) to a base-pointer register when addressing linear memory.
#[derive(Clone, Copy, PartialEq, Eq, Structural, Debug)]
pub struct Offset {
    pub value: u32,
}

impl Offset {
    /// The raw offset amount.
    pub fn into_inner(self) -> (r: u32)
        ensures
            r == self.value,
    {
        self.value
    }
}

/// A branch destination: the index of the targeted instruction.
#[derive(Clone, Copy, PartialEq, Eq, Structural, Debug)]
pub struct Target {
    pub destination: u32,
}

/// An index into a module's function table.
#[derive(Clone, Copy, PartialEq, Eq, Structural, Debug)]
pub struct FuncIdx {
    pub value: u32,
}

/// An index into a module's global-variable table.
#[derive(Clone, Copy, PartialEq, Eq, Structural, Debug)]
pub struct GlobalIdx {
    pub value: u32,
}

/// A module-local index into an instance's function-type table.
#[derive(Clone, Copy, PartialEq, Eq, Structural, Debug)]
pub struct FuncTypeIdx {
    pub value: u32,
}

impl FuncTypeIdx {
    /// The raw index value.
    pub fn into_u32(self) -> (r: u32)
        ensures
            r == self.value,
    {
        self.value
    }
}

/// A reference into the engine's constant pool.
#[derive(Clone, Copy, PartialEq, Eq, Structural, Debug)]
pub struct ConstRef {
    pub index: u32,
}

/// A pooled immediate constant, carried with its native numeric type.
#[derive(Clone, Copy, PartialEq, Eq, Structural, Debug)]
pub enum ConstValue {
    I32(i32),
    I64(i64),
}

/// An operand that is either a register reference or an immediate constant
/// from the engine's pool.
#[derive(Clone, Copy, PartialEq, Eq, Structural, Debug)]
pub enum ExecProvider {
    Register(ExecRegister),
    Immediate(ConstRef),
}

/// A contiguous span of registers: `first, first + 1, ..` for `len`
/// registers.
#[derive(Clone, Copy, PartialEq, Eq, Structural, Debug)]
pub struct ExecRegisterSlice {
    pub first: u16,
    pub len: u16,
}

/// A span of providers inside the engine's shared provider buffer.
#[derive(Clone, Copy, PartialEq, Eq, Structural, Debug)]
pub struct ExecProviderSlice {
    pub start: u32,
    pub len: u32,
}

/// A value type of the machine, as it appears in function signatures.
#[derive(Clone, Copy, PartialEq, Eq, Structural, Debug)]
pub enum ValueType {
    I32,
    I64,
    F32,
    F64,
}

/// The closed taxonomy of runtime trap causes.
#[derive(Clone, Copy, PartialEq, Eq, Structural, Debug)]
pub enum TrapCode {
    Unreachable,
    MemoryAccessOutOfBounds,
    TableAccessOutOfBounds,
    ElemUninitialized,
    DivisionByZero,
    IntegerOverflow,
    InvalidConversionToInt,
    StackOverflow,
    UnexpectedSignature,
}

/// One decoded bytecode instruction, one variant per opcode.
///
/// Fields vary by opcode: a result register, input registers or providers,
/// a memory offset, a branch target, or indices into the module's tables.
/// Instructions are copied by value for rendering and never mutated.
#[derive(Clone, Copy, PartialEq, Eq, Structural, Debug)]
pub enum Instruction {
    Br { target: Target },
    BrEqz { target: Target, condition: ExecRegister },
    BrNez { target: Target, condition: ExecRegister },
    ReturnNez { results: ExecProviderSlice, condition: ExecRegister },
    BrTable { case: ExecRegister, len_targets: usize },
    Trap { trap_code: TrapCode },
    Return { results: ExecProviderSlice },
    Call { func_idx: FuncIdx, results: ExecRegisterSlice, params: ExecProviderSlice },
    CallIndirect {
        func_type_idx: FuncTypeIdx,
        results: ExecRegisterSlice,
        index: ExecProvider,
        params: ExecProviderSlice,
    },
    Copy { result: ExecRegister, input: ExecProvider },
    Select {
        result: ExecRegister,
        condition: ExecRegister,
        if_true: ExecProvider,
        if_false: ExecProvider,
    },
    GlobalGet { result: ExecRegister, global: GlobalIdx },
    GlobalSet { global: GlobalIdx, value: ExecProvider },
    I32Load { result: ExecRegister, ptr: ExecRegister, offset: Offset },
    I64Load { result: ExecRegister, ptr: ExecRegister, offset: Offset },
    F32Load { result: ExecRegister, ptr: ExecRegister, offset: Offset },
    F64Load { result: ExecRegister, ptr: ExecRegister, offset: Offset },
    I32Load8S { result: ExecRegister, ptr: ExecRegister, offset: Offset },
    I32Load8U { result: ExecRegister, ptr: ExecRegister, offset: Offset },
    I32Load16S { result: ExecRegister, ptr: ExecRegister, offset: Offset },
    I32Load16U { result: ExecRegister, ptr: ExecRegister, offset: Offset },
    I64Load8S { result: ExecRegister, ptr: ExecRegister, offset: Offset },
    I64Load8U { result: ExecRegister, ptr: ExecRegister, offset: Offset },
    I64Load16S { result: ExecRegister, ptr: ExecRegister, offset: Offset },
    I64Load16U { result: ExecRegister, ptr: ExecRegister, offset: Offset },
    I64Load32S { result: ExecRegister, ptr: ExecRegister, offset: Offset },
    I64Load32U { result: ExecRegister, ptr: ExecRegister, offset: Offset },
    I32Store { ptr: ExecRegister, offset: Offset, value: ExecProvider },
    I64Store { ptr: ExecRegister, offset: Offset, value: ExecProvider },
    F32Store { ptr: ExecRegister, offset: Offset, value: ExecProvider },
    F64Store { ptr: ExecRegister, offset: Offset, value: ExecProvider },
    I32Store8 { ptr: ExecRegister, offset: Offset, value: ExecProvider },
    I32Store16 { ptr: ExecRegister, offset: Offset, value: ExecProvider },
    I64Store8 { ptr: ExecRegister, offset: Offset, value: ExecProvider },
    I64Store16 { ptr: ExecRegister, offset: Offset, value: ExecProvider },
    I64Store32 { ptr: ExecRegister, offset: Offset, value: ExecProvider },
    MemorySize { result: ExecRegister },
    MemoryGrow { result: ExecRegister, amount: ExecProvider },
    I32Eq { result: ExecRegister, lhs: ExecRegister, rhs: ExecProvider },
    I32Ne { result: ExecRegister, lhs: ExecRegister, rhs: ExecProvider },
    I32LtS { result: ExecRegister, lhs: ExecRegister, rhs: ExecProvider },
    I32LtU { result: ExecRegister, lhs: ExecRegister, rhs: ExecProvider },
    I32GtS { result: ExecRegister, lhs: ExecRegister, rhs: ExecProvider },
    I32GtU { result: ExecRegister, lhs: ExecRegister, rhs: ExecProvider },
    I32LeS { result: ExecRegister, lhs: ExecRegister, rhs: ExecProvider },
    I32LeU { result: ExecRegister, lhs: ExecRegister, rhs: ExecProvider },
    I32GeS { result: ExecRegister, lhs: ExecRegister, rhs: ExecProvider },
    I32GeU { result: ExecRegister, lhs: ExecRegister, rhs: ExecProvider },
    I64Eq { result: ExecRegister, lhs: ExecRegister, rhs: ExecProvider },
    I64Ne { result: ExecRegister, lhs: ExecRegister, rhs: ExecProvider },
    I64LtS { result: ExecRegister, lhs: ExecRegister, rhs: ExecProvider },
    I64LtU { result: ExecRegister, lhs: ExecRegister, rhs: ExecProvider },
    I64GtS { result: ExecRegister, lhs: ExecRegister, rhs: ExecProvider },
    I64GtU { result: ExecRegister, lhs: ExecRegister, rhs: ExecProvider },
    I64LeS { result: ExecRegister, lhs: ExecRegister, rhs: ExecProvider },
    I64LeU { result: ExecRegister, lhs: ExecRegister, rhs: ExecProvider },
    I64GeS { result: ExecRegister, lhs: ExecRegister, rhs: ExecProvider },
    I64GeU { result: ExecRegister, lhs: ExecRegister, rhs: ExecProvider },
    F32Eq { result: ExecRegister, lhs: ExecRegister, rhs: ExecProvider },
    F32Ne { result: ExecRegister, lhs: ExecRegister, rhs: ExecProvider },
    F32Lt { result: ExecRegister, lhs: ExecRegister, rhs: ExecProvider },
    F32Gt { result: ExecRegister, lhs: ExecRegister, rhs: ExecProvider },
    F32Le { result: ExecRegister, lhs: ExecRegister, rhs: ExecProvider },
    F32Ge { result: ExecRegister, lhs: ExecRegister, rhs: ExecProvider },
    F64Eq { result: ExecRegister, lhs: ExecRegister, rhs: ExecProvider },
    F64Ne { result: ExecRegister, lhs: ExecRegister, rhs: ExecProvider },
    F64Lt { result: ExecRegister, lhs: ExecRegister, rhs: ExecProvider },
    F64Gt { result: ExecRegister, lhs: ExecRegister, rhs: ExecProvider },
    F64Le { result: ExecRegister, lhs: ExecRegister, rhs: ExecProvider },
    F64Ge { result: ExecRegister, lhs: ExecRegister, rhs: ExecProvider },
    I32Clz { result: ExecRegister, input: ExecRegister },
    I32Ctz { result: ExecRegister, input: ExecRegister },
    I32Popcnt { result: ExecRegister, input: ExecRegister },
    I32Add { result: ExecRegister, lhs: ExecRegister, rhs: ExecProvider },
    I32Sub { result: ExecRegister, lhs: ExecRegister, rhs: ExecProvider },
    I32Mul { result: ExecRegister, lhs: ExecRegister, rhs: ExecProvider },
    I32DivS { result: ExecRegister, lhs: ExecRegister, rhs: ExecProvider },
    I32DivU { result: ExecRegister, lhs: ExecRegister, rhs: ExecProvider },
    I32RemS { result: ExecRegister, lhs: ExecRegister, rhs: ExecProvider },
    I32RemU { result: ExecRegister, lhs: ExecRegister, rhs: ExecProvider },
    I32And { result: ExecRegister, lhs: ExecRegister, rhs: ExecProvider },
    I32Or { result: ExecRegister, lhs: ExecRegister, rhs: ExecProvider },
    I32Xor { result: ExecRegister, lhs: ExecRegister, rhs: ExecProvider },
    I32Shl { result: ExecRegister, lhs: ExecRegister, rhs: ExecProvider },
    I32ShrS { result: ExecRegister, lhs: ExecRegister, rhs: ExecProvider },
    I32ShrU { result: ExecRegister, lhs: ExecRegister, rhs: ExecProvider },
    I32Rotl { result: ExecRegister, lhs: ExecRegister, rhs: ExecProvider },
    I32Rotr { result: ExecRegister, lhs: ExecRegister, rhs: ExecProvider },
    I64Clz { result: ExecRegister, input: ExecRegister },
    I64Ctz { result: ExecRegister, input: ExecRegister },
    I64Popcnt { result: ExecRegister, input: ExecRegister },
    I64Add { result: ExecRegister, lhs: ExecRegister, rhs: ExecProvider },
    I64Sub { result: ExecRegister, lhs: ExecRegister, rhs: ExecProvider },
    I64Mul { result: ExecRegister, lhs: ExecRegister, rhs: ExecProvider },
    I64DivS { result: ExecRegister, lhs: ExecRegister, rhs: ExecProvider },
    I64DivU { result: ExecRegister, lhs: ExecRegister, rhs: ExecProvider },
    I64RemS { result: ExecRegister, lhs: ExecRegister, rhs: ExecProvider },
    I64RemU { result: ExecRegister, lhs: ExecRegister, rhs: ExecProvider },
    I64And { result: ExecRegister, lhs: ExecRegister, rhs: ExecProvider },
    I64Or { result: ExecRegister, lhs: ExecRegister, rhs: ExecProvider },
    I64Xor { result: ExecRegister, lhs: ExecRegister, rhs: ExecProvider },
    I64Shl { result: ExecRegister, lhs: ExecRegister, rhs: ExecProvider },
    I64ShrS { result: ExecRegister, lhs: ExecRegister, rhs: ExecProvider },
    I64ShrU { result: ExecRegister, lhs: ExecRegister, rhs: ExecProvider },
    I64Rotl { result: ExecRegister, lhs: ExecRegister, rhs: ExecProvider },
    I64Rotr { result: ExecRegister, lhs: ExecRegister, rhs: ExecProvider },
    F32Abs { result: ExecRegister, input: ExecRegister },
    F32Neg { result: ExecRegister, input: ExecRegister },
    F32Ceil { result: ExecRegister, input: ExecRegister },
    F32Floor { result: ExecRegister, input: ExecRegister },
    F32Trunc { result: ExecRegister, input: ExecRegister },
    F32Nearest { result: ExecRegister, input: ExecRegister },
    F32Sqrt { result: ExecRegister, input: ExecRegister },
    F32Add { result: ExecRegister, lhs: ExecRegister, rhs: ExecProvider },
    F32Sub { result: ExecRegister, lhs: ExecRegister, rhs: ExecProvider },
    F32Mul { result: ExecRegister, lhs: ExecRegister, rhs: ExecProvider },
    F32Div { result: ExecRegister, lhs: ExecRegister, rhs: ExecProvider },
    F32Min { result: ExecRegister, lhs: ExecRegister, rhs: ExecProvider },
    F32Max { result: ExecRegister, lhs: ExecRegister, rhs: ExecProvider },
    F32Copysign { result: ExecRegister, lhs: ExecRegister, rhs: ExecProvider },
    F64Abs { result: ExecRegister, input: ExecRegister },
    F64Neg { result: ExecRegister, input: ExecRegister },
    F64Ceil { result: ExecRegister, input: ExecRegister },
    F64Floor { result: ExecRegister, input: ExecRegister },
    F64Trunc { result: ExecRegister, input: ExecRegister },
    F64Nearest { result: ExecRegister, input: ExecRegister },
    F64Sqrt { result: ExecRegister, input: ExecRegister },
    F64Add { result: ExecRegister, lhs: ExecRegister, rhs: ExecProvider },
    F64Sub { result: ExecRegister, lhs: ExecRegister, rhs: ExecProvider },
    F64Mul { result: ExecRegister, lhs: ExecRegister, rhs: ExecProvider },
    F64Div { result: ExecRegister, lhs: ExecRegister, rhs: ExecProvider },
    F64Min { result: ExecRegister, lhs: ExecRegister, rhs: ExecProvider },
    F64Max { result: ExecRegister, lhs: ExecRegister, rhs: ExecProvider },
    F64Copysign { result: ExecRegister, lhs: ExecRegister, rhs: ExecProvider },
    I32WrapI64 { result: ExecRegister, input: ExecRegister },
    I32TruncSF32 { result: ExecRegister, input: ExecRegister },
    I32TruncUF32 { result: ExecRegister, input: ExecRegister },
    I32TruncSF64 { result: ExecRegister, input: ExecRegister },
    I32TruncUF64 { result: ExecRegister, input: ExecRegister },
    I64ExtendSI32 { result: ExecRegister, input: ExecRegister },
    I64ExtendUI32 { result: ExecRegister, input: ExecRegister },
    I64TruncSF32 { result: ExecRegister, input: ExecRegister },
    I64TruncUF32 { result: ExecRegister, input: ExecRegister },
    I64TruncSF64 { result: ExecRegister, input: ExecRegister },
    I64TruncUF64 { result: ExecRegister, input: ExecRegister },
    F32ConvertSI32 { result: ExecRegister, input: ExecRegister },
    F32ConvertUI32 { result: ExecRegister, input: ExecRegister },
    F32ConvertSI64 { result: ExecRegister, input: ExecRegister },
    F32ConvertUI64 { result: ExecRegister, input: ExecRegister },
    F32DemoteF64 { result: ExecRegister, input: ExecRegister },
    F64ConvertSI32 { result: ExecRegister, input: ExecRegister },
    F64ConvertUI32 { result: ExecRegister, input: ExecRegister },
    F64ConvertSI64 { result: ExecRegister, input: ExecRegister },
    F64ConvertUI64 { result: ExecRegister, input: ExecRegister },
    F64PromoteF32 { result: ExecRegister, input: ExecRegister },
    I32Extend8S { result: ExecRegister, input: ExecRegister },
    I32Extend16S { result: ExecRegister, input: ExecRegister },
    I64Extend8S { result: ExecRegister, input: ExecRegister },
    I64Extend16S { result: ExecRegister, input: ExecRegister },
    I64Extend32S { result: ExecRegister, input: ExecRegister },
    I32TruncSatF32S { result: ExecRegister, input: ExecRegister },
    I32TruncSatF32U { result: ExecRegister, input: ExecRegister },
    I32TruncSatF64S { result: ExecRegister, input: ExecRegister },
    I32TruncSatF64U { result: ExecRegister, input: ExecRegister },
    I64TruncSatF32S { result: ExecRegister, input: ExecRegister },
    I64TruncSatF32U { result: ExecRegister, input: ExecRegister },
    I64TruncSatF64S { result: ExecRegister, input: ExecRegister },
    I64TruncSatF64U { result: ExecRegister, input: ExecRegister },
}

} // verus!
