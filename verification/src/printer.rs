//! The instruction printer: the top-level dispatcher that renders one
//! decoded instruction, in its rendering context, into one line of
//! canonical text.
//!
//! The rendered line carries no trailing terminator; callers that collect
//! several lines add their own line breaks.  Rendering either succeeds with
//! non-empty text or aborts with one of two explicit signals (see
//! [`PrintError`]); it never guesses at output.

use vstd::prelude::*;
use crate::bytecode::{ExecProvider, ExecRegister, Instruction, Offset};
use crate::context::{ctx_wf, instr_wf, provider_wf, EngineResources, FuncType, Instance, Store,
    StoreContext};
use crate::display::{append_func_idx, append_func_type, append_global, append_provider,
    append_provider_slice, append_reg_slice, append_register, append_target, append_trap,
    func_idx_text, func_type_text, global_text, lemma_provider_text_len,
    lemma_reg_idx_text_len, lemma_trap_text_len, provider_slice_text, provider_text,
    reg_slice_text, reg_text, target_text, trap_text};
use crate::text::{append_u32, dec_str, lemma_dec_str_len, lemma_int_str_len};

verus! {

/// The two failure signals of the printer.
///
/// Rendering is total over well-formed inputs apart from these: a multi-way
/// branch table has no implemented rendering, and an indirect call whose
/// declared type index is absent from the current instance's type table is
/// an internal-invariant violation, reported with the offending index.
#[derive(Clone, Copy, PartialEq, Eq, Structural, Debug)]
pub enum PrintError {
    /// Multi-way branch tables have no implemented rendering; the printer
    /// fails fast rather than guessing at output.
    Unimplemented,
    /// An indirect call's declared type index was not found in the current
    /// instance's type table.  For validated modules this never happens.
    MissingFuncType { index: u32 },
}

/// The unary-operator template: `<result> <- <name> <input>`.
pub open spec fn unary_text(name: Seq<char>, result: ExecRegister, input: ExecRegister) -> Seq<
    char,
> {
    reg_text(result) + " <- "@ + name + " "@ + reg_text(input)
}

/// The binary-operator template: `<result> <- <name> <lhs> <rhs>`.
pub open spec fn binary_text(
    name: Seq<char>,
    result: ExecRegister,
    lhs: ExecRegister,
    rhs: ExecProvider,
    res: EngineResources,
) -> Seq<char> {
    reg_text(result) + " <- "@ + name + " "@ + reg_text(lhs) + " "@ + provider_text(rhs, res)
}

/// The memory-load template: `<name> <result> <- mem[<ptr>+<offset>]`.
pub open spec fn load_text(
    name: Seq<char>,
    result: ExecRegister,
    ptr: ExecRegister,
    offset: Offset,
) -> Seq<char> {
    name + " "@ + reg_text(result) + " <- mem["@ + reg_text(ptr) + "+"@ + dec_str(
        offset.value as nat,
    ) + "]"@
}

/// The memory-store template: `<name> mem[<ptr>+<offset>] <- <value>`.
pub open spec fn store_text(
    name: Seq<char>,
    ptr: ExecRegister,
    offset: Offset,
    value: ExecProvider,
    res: EngineResources,
) -> Seq<char> {
    name + " mem["@ + reg_text(ptr) + "+"@ + dec_str(offset.value as nat) + "] <- "@
        + provider_text(value, res)
}

/// The function type that an indirect call's declared type index resolves
/// to, through the instance's type table and the engine's interner.
pub open spec fn indirect_func_type(
    res: EngineResources,
    store: Store,
    instance: Instance,
    local_idx: int,
) -> FuncType {
    res.func_types@[store.instances@[instance.idx as int].func_types@[local_idx] as int]
}

/// Whether printing `instr` in this context aborts instead of rendering:
/// branch tables always do, and an indirect call does when its declared
/// type index is absent from the current instance's type table.
pub open spec fn print_fails(instr: Instruction, store: Store, instance: Instance) -> bool {
    match instr {
        Instruction::BrTable { .. } => true,
        Instruction::CallIndirect { func_type_idx, .. } => func_type_idx.value as int
            >= store.instances@[instance.idx as int].func_types@.len(),
        _ => false,
    }
}

/// The failure signal raised when printing aborts.
pub open spec fn print_error(instr: Instruction) -> PrintError {
    match instr {
        Instruction::CallIndirect { func_type_idx, .. } => PrintError::MissingFuncType {
            index: func_type_idx.value,
        },
        _ => PrintError::Unimplemented,
    }
}

/// The canonical text of one successfully rendered instruction.
pub open spec fn render_ok(
    instr: Instruction,
    res: EngineResources,
    store: Store,
    instance: Instance,
) -> Seq<char> {
    match instr {
        Instruction::Br { target } => "br "@ + target_text(target),
        Instruction::BrEqz { target, condition } => "br_eqz "@ + reg_text(condition) + " "@
            + target_text(target),
        Instruction::BrNez { target, condition } => "br_nez "@ + reg_text(condition) + " "@
            + target_text(target),
        Instruction::ReturnNez { results, condition } => "return_nez "@ + reg_text(condition)
            + " "@ + provider_slice_text(results, res),
        Instruction::BrTable { .. } => Seq::empty(),
        Instruction::Trap { trap_code } => "trap -> "@ + trap_text(trap_code),
        Instruction::Return { results } => "return "@ + provider_slice_text(results, res),
        Instruction::Call { func_idx, results, params } => reg_slice_text(results) + " <- call "@
            + func_idx_text(func_idx) + " "@ + provider_slice_text(params, res),
        Instruction::CallIndirect { func_type_idx, results, index, params } => reg_slice_text(
            results,
        ) + " <- call_indirect table["@ + provider_text(index, res) + "] "@ + provider_slice_text(
            params,
            res,
        ) + ": "@ + func_type_text(
            indirect_func_type(res, store, instance, func_type_idx.value as int),
        ),
        Instruction::Copy { result, input } => reg_text(result) + " <- "@ + provider_text(
            input,
            res,
        ),
        Instruction::Select { result, condition, if_true, if_false } => reg_text(result)
            + " <- if "@ + reg_text(condition) + " then "@ + provider_text(if_true, res)
            + " else "@ + provider_text(if_false, res),
        Instruction::GlobalGet { result, global } => reg_text(result) + " <- "@ + global_text(
            global,
        ),
        Instruction::GlobalSet { global, value } => global_text(global) + " <- "@ + provider_text(
            value,
            res,
        ),
        Instruction::MemorySize { result } => reg_text(result) + " <- memory.size"@,
        Instruction::MemoryGrow { result, amount } => reg_text(result) + " <- memory.grow "@
            + provider_text(amount, res),
        Instruction::I32Clz { result, input } => unary_text("i32.clz"@, result, input),
        Instruction::I32Ctz { result, input } => unary_text("i32.ctz"@, result, input),
        Instruction::I32Popcnt { result, input } => unary_text("i32.popcnt"@, result, input),
        Instruction::I64Clz { result, input } => unary_text("i64.clz"@, result, input),
        Instruction::I64Ctz { result, input } => unary_text("i64.ctz"@, result, input),
        Instruction::I64Popcnt { result, input } => unary_text("i64.popcnt"@, result, input),
        Instruction::F32Abs { result, input } => unary_text("f32.abs"@, result, input),
        Instruction::F32Neg { result, input } => unary_text("f32.neg"@, result, input),
        Instruction::F32Ceil { result, input } => unary_text("f32.ceil"@, result, input),
        Instruction::F32Floor { result, input } => unary_text("f32.floor"@, result, input),
        Instruction::F32Trunc { result, input } => unary_text("f32.trunc"@, result, input),
        Instruction::F32Nearest { result, input } => unary_text("f32.nearest"@, result, input),
        Instruction::F32Sqrt { result, input } => unary_text("f32.sqrt"@, result, input),
        Instruction::F64Abs { result, input } => unary_text("f64.abs"@, result, input),
        Instruction::F64Neg { result, input } => unary_text("f64.neg"@, result, input),
        Instruction::F64Ceil { result, input } => unary_text("f64.ceil"@, result, input),
        Instruction::F64Floor { result, input } => unary_text("f64.floor"@, result, input),
        Instruction::F64Trunc { result, input } => unary_text("f64.trunc"@, result, input),
        Instruction::F64Nearest { result, input } => unary_text("f64.nearest"@, result, input),
        Instruction::F64Sqrt { result, input } => unary_text("f64.sqrt"@, result, input),
        Instruction::I32WrapI64 { result, input } => unary_text("i32.wrap_i64"@, result, input),
        Instruction::I32TruncSF32 { result, input } => unary_text("i32.trunc_f32_s"@, result, input),
        Instruction::I32TruncUF32 { result, input } => unary_text("i32.trunc_f32_u"@, result, input),
        Instruction::I32TruncSF64 { result, input } => unary_text("i32.trunc_f64_s"@, result, input),
        Instruction::I32TruncUF64 { result, input } => unary_text("i32.trunc_f64_u"@, result, input),
        Instruction::I64ExtendSI32 { result, input } => unary_text("i64.extend_i32_s"@, result, input),
        Instruction::I64ExtendUI32 { result, input } => unary_text("i64.extend_i32_u"@, result, input),
        Instruction::I64TruncSF32 { result, input } => unary_text("i64.trunc_f32_s"@, result, input),
        Instruction::I64TruncUF32 { result, input } => unary_text("i64.trunc_f32_u"@, result, input),
        Instruction::I64TruncSF64 { result, input } => unary_text("i64.trunc_f64_s"@, result, input),
        Instruction::I64TruncUF64 { result, input } => unary_text("i64.trunc_f64_u"@, result, input),
        Instruction::F32ConvertSI32 { result, input } => unary_text("f32.convert_i32_s"@, result, input),
        Instruction::F32ConvertUI32 { result, input } => unary_text("f32.convert_i32_u"@, result, input),
        Instruction::F32ConvertSI64 { result, input } => unary_text("f32.convert_i64_s"@, result, input),
        Instruction::F32ConvertUI64 { result, input } => unary_text("f32.convert_i64_u"@, result, input),
        Instruction::F32DemoteF64 { result, input } => unary_text("f32.demote_f64"@, result, input),
        Instruction::F64ConvertSI32 { result, input } => unary_text("f64.convert_i32_s"@, result, input),
        Instruction::F64ConvertUI32 { result, input } => unary_text("f64.convert_i32_u"@, result, input),
        Instruction::F64ConvertSI64 { result, input } => unary_text("f64.convert_i64_s"@, result, input),
        Instruction::F64ConvertUI64 { result, input } => unary_text("f64.convert_i64_u"@, result, input),
        Instruction::F64PromoteF32 { result, input } => unary_text("f64.promote_f32"@, result, input),
        Instruction::I32Extend8S { result, input } => unary_text("i32.extend8_s"@, result, input),
        Instruction::I32Extend16S { result, input } => unary_text("i32.extend16_s"@, result, input),
        Instruction::I64Extend8S { result, input } => unary_text("i64.extend8_s"@, result, input),
        Instruction::I64Extend16S { result, input } => unary_text("i64.extend16_s"@, result, input),
        Instruction::I64Extend32S { result, input } => unary_text("i64.extend32_s"@, result, input),
        Instruction::I32TruncSatF32S { result, input } => unary_text("i32.trunc_sat_f32_s"@, result, input),
        Instruction::I32TruncSatF32U { result, input } => unary_text("i32.trunc_sat_f32_u"@, result, input),
        Instruction::I32TruncSatF64S { result, input } => unary_text("i32.trunc_sat_f64_s"@, result, input),
        Instruction::I32TruncSatF64U { result, input } => unary_text("i32.trunc_sat_f64_u"@, result, input),
        Instruction::I64TruncSatF32S { result, input } => unary_text("i64.trunc_sat_f32_s"@, result, input),
        Instruction::I64TruncSatF32U { result, input } => unary_text("i64.trunc_sat_f32_u"@, result, input),
        Instruction::I64TruncSatF64S { result, input } => unary_text("i64.trunc_sat_f64_s"@, result, input),
        Instruction::I64TruncSatF64U { result, input } => unary_text("i64.trunc_sat_f64_u"@, result, input),
        Instruction::I32Eq { result, lhs, rhs } => binary_text("i32.eq"@, result, lhs, rhs, res),
        Instruction::I32Ne { result, lhs, rhs } => binary_text("i32.ne"@, result, lhs, rhs, res),
        Instruction::I32LtS { result, lhs, rhs } => binary_text("i32.lt_s"@, result, lhs, rhs, res),
        Instruction::I32LtU { result, lhs, rhs } => binary_text("i32.lt_u"@, result, lhs, rhs, res),
        Instruction::I32GtS { result, lhs, rhs } => binary_text("i32.gt_s"@, result, lhs, rhs, res),
        Instruction::I32GtU { result, lhs, rhs } => binary_text("i32.gt_u"@, result, lhs, rhs, res),
        Instruction::I32LeS { result, lhs, rhs } => binary_text("i32.le_s"@, result, lhs, rhs, res),
        Instruction::I32LeU { result, lhs, rhs } => binary_text("i32.le_u"@, result, lhs, rhs, res),
        Instruction::I32GeS { result, lhs, rhs } => binary_text("i32.ge_s"@, result, lhs, rhs, res),
        Instruction::I32GeU { result, lhs, rhs } => binary_text("i32.ge_u"@, result, lhs, rhs, res),
        Instruction::I64Eq { result, lhs, rhs } => binary_text("i64.eq"@, result, lhs, rhs, res),
        Instruction::I64Ne { result, lhs, rhs } => binary_text("i64.ne"@, result, lhs, rhs, res),
        Instruction::I64LtS { result, lhs, rhs } => binary_text("i64.lt_s"@, result, lhs, rhs, res),
        Instruction::I64LtU { result, lhs, rhs } => binary_text("i64.lt_u"@, result, lhs, rhs, res),
        Instruction::I64GtS { result, lhs, rhs } => binary_text("i64.gt_s"@, result, lhs, rhs, res),
        Instruction::I64GtU { result, lhs, rhs } => binary_text("i64.gt_u"@, result, lhs, rhs, res),
        Instruction::I64LeS { result, lhs, rhs } => binary_text("i64.le_s"@, result, lhs, rhs, res),
        Instruction::I64LeU { result, lhs, rhs } => binary_text("i64.le_u"@, result, lhs, rhs, res),
        Instruction::I64GeS { result, lhs, rhs } => binary_text("i64.ge_s"@, result, lhs, rhs, res),
        Instruction::I64GeU { result, lhs, rhs } => binary_text("i64.ge_u"@, result, lhs, rhs, res),
        Instruction::F32Eq { result, lhs, rhs } => binary_text("f32.eq"@, result, lhs, rhs, res),
        Instruction::F32Ne { result, lhs, rhs } => binary_text("f32.ne"@, result, lhs, rhs, res),
        Instruction::F32Lt { result, lhs, rhs } => binary_text("f32.lt"@, result, lhs, rhs, res),
        Instruction::F32Gt { result, lhs, rhs } => binary_text("f32.gt"@, result, lhs, rhs, res),
        Instruction::F32Le { result, lhs, rhs } => binary_text("f32.le"@, result, lhs, rhs, res),
        Instruction::F32Ge { result, lhs, rhs } => binary_text("f32.ge"@, result, lhs, rhs, res),
        Instruction::F64Eq { result, lhs, rhs } => binary_text("f64.eq"@, result, lhs, rhs, res),
        Instruction::F64Ne { result, lhs, rhs } => binary_text("f64.ne"@, result, lhs, rhs, res),
        Instruction::F64Lt { result, lhs, rhs } => binary_text("f64.lt"@, result, lhs, rhs, res),
        Instruction::F64Gt { result, lhs, rhs } => binary_text("f64.gt"@, result, lhs, rhs, res),
        Instruction::F64Le { result, lhs, rhs } => binary_text("f64.le"@, result, lhs, rhs, res),
        Instruction::F64Ge { result, lhs, rhs } => binary_text("f64.ge"@, result, lhs, rhs, res),
        Instruction::I32Add { result, lhs, rhs } => binary_text("i32.add"@, result, lhs, rhs, res),
        Instruction::I32Sub { result, lhs, rhs } => binary_text("i32.sub"@, result, lhs, rhs, res),
        Instruction::I32Mul { result, lhs, rhs } => binary_text("i32.mul"@, result, lhs, rhs, res),
        Instruction::I32DivS { result, lhs, rhs } => binary_text("i32.div_s"@, result, lhs, rhs, res),
        Instruction::I32DivU { result, lhs, rhs } => binary_text("i32.div_u"@, result, lhs, rhs, res),
        Instruction::I32RemS { result, lhs, rhs } => binary_text("i32.rem_s"@, result, lhs, rhs, res),
        Instruction::I32RemU { result, lhs, rhs } => binary_text("i32.rem_u"@, result, lhs, rhs, res),
        Instruction::I32And { result, lhs, rhs } => binary_text("i32.and"@, result, lhs, rhs, res),
        Instruction::I32Or { result, lhs, rhs } => binary_text("i32.or"@, result, lhs, rhs, res),
        Instruction::I32Xor { result, lhs, rhs } => binary_text("i32.xor"@, result, lhs, rhs, res),
        Instruction::I32Shl { result, lhs, rhs } => binary_text("i32.shl"@, result, lhs, rhs, res),
        Instruction::I32ShrS { result, lhs, rhs } => binary_text("i32.shr_s"@, result, lhs, rhs, res),
        Instruction::I32ShrU { result, lhs, rhs } => binary_text("i32.shr_u"@, result, lhs, rhs, res),
        Instruction::I32Rotl { result, lhs, rhs } => binary_text("i32.rotl"@, result, lhs, rhs, res),
        Instruction::I32Rotr { result, lhs, rhs } => binary_text("i32.rotr"@, result, lhs, rhs, res),
        Instruction::I64Add { result, lhs, rhs } => binary_text("i64.add"@, result, lhs, rhs, res),
        Instruction::I64Sub { result, lhs, rhs } => binary_text("i64.sub"@, result, lhs, rhs, res),
        Instruction::I64Mul { result, lhs, rhs } => binary_text("i64.mul"@, result, lhs, rhs, res),
        Instruction::I64DivS { result, lhs, rhs } => binary_text("i64.div_s"@, result, lhs, rhs, res),
        Instruction::I64DivU { result, lhs, rhs } => binary_text("i64.div_u"@, result, lhs, rhs, res),
        Instruction::I64RemS { result, lhs, rhs } => binary_text("i64.rem_s"@, result, lhs, rhs, res),
        Instruction::I64RemU { result, lhs, rhs } => binary_text("i64.rem_u"@, result, lhs, rhs, res),
        Instruction::I64And { result, lhs, rhs } => binary_text("i64.and"@, result, lhs, rhs, res),
        Instruction::I64Or { result, lhs, rhs } => binary_text("i64.or"@, result, lhs, rhs, res),
        Instruction::I64Xor { result, lhs, rhs } => binary_text("i64.xor"@, result, lhs, rhs, res),
        Instruction::I64Shl { result, lhs, rhs } => binary_text("i64.shl"@, result, lhs, rhs, res),
        Instruction::I64ShrS { result, lhs, rhs } => binary_text("i64.shr_s"@, result, lhs, rhs, res),
        Instruction::I64ShrU { result, lhs, rhs } => binary_text("i64.shr_u"@, result, lhs, rhs, res),
        Instruction::I64Rotl { result, lhs, rhs } => binary_text("i64.rotl"@, result, lhs, rhs, res),
        Instruction::I64Rotr { result, lhs, rhs } => binary_text("i64.rotr"@, result, lhs, rhs, res),
        Instruction::F32Add { result, lhs, rhs } => binary_text("f32.add"@, result, lhs, rhs, res),
        Instruction::F32Sub { result, lhs, rhs } => binary_text("f32.sub"@, result, lhs, rhs, res),
        Instruction::F32Mul { result, lhs, rhs } => binary_text("f32.mul"@, result, lhs, rhs, res),
        Instruction::F32Div { result, lhs, rhs } => binary_text("f32.div"@, result, lhs, rhs, res),
        Instruction::F32Min { result, lhs, rhs } => binary_text("f32.min"@, result, lhs, rhs, res),
        Instruction::F32Max { result, lhs, rhs } => binary_text("f32.max"@, result, lhs, rhs, res),
        Instruction::F32Copysign { result, lhs, rhs } => binary_text("f32.copysign"@, result, lhs, rhs, res),
        Instruction::F64Add { result, lhs, rhs } => binary_text("f64.add"@, result, lhs, rhs, res),
        Instruction::F64Sub { result, lhs, rhs } => binary_text("f64.sub"@, result, lhs, rhs, res),
        Instruction::F64Mul { result, lhs, rhs } => binary_text("f64.mul"@, result, lhs, rhs, res),
        Instruction::F64Div { result, lhs, rhs } => binary_text("f64.div"@, result, lhs, rhs, res),
        Instruction::F64Min { result, lhs, rhs } => binary_text("f64.min"@, result, lhs, rhs, res),
        Instruction::F64Max { result, lhs, rhs } => binary_text("f64.max"@, result, lhs, rhs, res),
        Instruction::F64Copysign { result, lhs, rhs } => binary_text("f64.copysign"@, result, lhs, rhs, res),
        Instruction::I32Load { result, ptr, offset } => load_text("i32.load"@, result, ptr, offset),
        Instruction::I64Load { result, ptr, offset } => load_text("i64.load"@, result, ptr, offset),
        Instruction::F32Load { result, ptr, offset } => load_text("f32.load"@, result, ptr, offset),
        Instruction::F64Load { result, ptr, offset } => load_text("f64.load"@, result, ptr, offset),
        Instruction::I32Load8S { result, ptr, offset } => load_text("i32.load8_s"@, result, ptr, offset),
        Instruction::I32Load8U { result, ptr, offset } => load_text("i32.load8_u"@, result, ptr, offset),
        Instruction::I32Load16S { result, ptr, offset } => load_text("i32.load16_s"@, result, ptr, offset),
        Instruction::I32Load16U { result, ptr, offset } => load_text("i32.load16_u"@, result, ptr, offset),
        Instruction::I64Load8S { result, ptr, offset } => load_text("i64.load8_s"@, result, ptr, offset),
        Instruction::I64Load8U { result, ptr, offset } => load_text("i64.load8_u"@, result, ptr, offset),
        Instruction::I64Load16S { result, ptr, offset } => load_text("i64.load16_s"@, result, ptr, offset),
        Instruction::I64Load16U { result, ptr, offset } => load_text("i64.load16_u"@, result, ptr, offset),
        Instruction::I64Load32S { result, ptr, offset } => load_text("i64.load32_s"@, result, ptr, offset),
        Instruction::I64Load32U { result, ptr, offset } => load_text("i64.load32_u"@, result, ptr, offset),
        Instruction::I32Store { ptr, offset, value } => store_text("i32.store"@, ptr, offset, value, res),
        Instruction::I64Store { ptr, offset, value } => store_text("i64.store"@, ptr, offset, value, res),
        Instruction::F32Store { ptr, offset, value } => store_text("f32.store"@, ptr, offset, value, res),
        Instruction::F64Store { ptr, offset, value } => store_text("f64.store"@, ptr, offset, value, res),
        Instruction::I32Store8 { ptr, offset, value } => store_text("i32.store8"@, ptr, offset, value, res),
        Instruction::I32Store16 { ptr, offset, value } => store_text("i32.store16"@, ptr, offset, value, res),
        Instruction::I64Store8 { ptr, offset, value } => store_text("i64.store8"@, ptr, offset, value, res),
        Instruction::I64Store16 { ptr, offset, value } => store_text("i64.store16"@, ptr, offset, value, res),
        Instruction::I64Store32 { ptr, offset, value } => store_text("i64.store32"@, ptr, offset, value, res),
    }
}

/// Wrapper to display one bytecode instruction in a human readable way.
///
/// It borrows the engine's shared resources and the runtime store
/// immutably for the duration of one print call; each call is an
/// independent, stateless rendering of its instruction.
#[derive(Clone, Copy, Debug)]
pub struct DisplayExecInstruction<'ctx, 'engine> {
    pub ctx: StoreContext<'ctx>,
    pub res: &'engine EngineResources,
    pub instance: Instance,
    pub instr: Instruction,
}

impl<'ctx, 'engine> DisplayExecInstruction<'ctx, 'engine> {
    /// The wrapper is well formed when its instance handle points into the
    /// store, every type index recorded in the store points into the
    /// engine's interner, and the instruction's operands point into the
    /// engine's buffers.
    pub open spec fn wf(self) -> bool {
        &&& (self.instance.idx as int) < self.ctx.store.instances@.len()
        &&& ctx_wf(*self.ctx.store, *self.res)
        &&& instr_wf(self.instr, *self.res)
    }

    /// Creates a new [`DisplayExecInstruction`] wrapper.
    ///
    /// Used to write the instruction in a human readable form.
    pub fn new(
        ctx: StoreContext<'ctx>,
        res: &'engine EngineResources,
        instance: Instance,
        instr: &Instruction,
    ) -> (r: Self)
        ensures
            r.ctx == ctx,
            r.res == res,
            r.instance == instance,
            r.instr == *instr,
    {
        Self { ctx, res, instance, instr: *instr }
    }

    /// Writes human readable output for a unary instruction into `out`.
    pub fn write_unary(
        &self,
        out: &mut String,
        name: &str,
        result: ExecRegister,
        input: ExecRegister,
    )
        ensures
            final(out)@ == old(out)@ + unary_text(name@, result, input),
            old(out)@.len() == 0 ==> final(out)@ == unary_text(name@, result, input),
    {
        append_register(out, result);
        out.append(" <- ");
        out.append(name);
        out.append(" ");
        append_register(out, input);
        proof {
            assert(out@ =~= old(out)@ + unary_text(name@, result, input));
            if old(out)@.len() == 0 {
                assert(out@ =~= unary_text(name@, result, input));
            }
        }
    }

    /// Writes human readable output for a binary instruction into `out`.
    pub fn write_binary(
        &self,
        out: &mut String,
        name: &str,
        result: ExecRegister,
        lhs: ExecRegister,
        rhs: ExecProvider,
    )
        requires
            provider_wf(rhs, *self.res),
        ensures
            final(out)@ == old(out)@ + binary_text(name@, result, lhs, rhs, *self.res),
            old(out)@.len() == 0 ==> final(out)@ == binary_text(name@, result, lhs, rhs, *self.res),
    {
        append_register(out, result);
        out.append(" <- ");
        out.append(name);
        out.append(" ");
        append_register(out, lhs);
        out.append(" ");
        append_provider(out, self.res, rhs);
        proof {
            assert(out@ =~= old(out)@ + binary_text(name@, result, lhs, rhs, *self.res));
            if old(out)@.len() == 0 {
                assert(out@ =~= binary_text(name@, result, lhs, rhs, *self.res));
            }
        }
    }

    /// Writes human readable output for a memory load instruction into
    /// `out`.
    pub fn write_load(
        &self,
        out: &mut String,
        name: &str,
        result: ExecRegister,
        ptr: ExecRegister,
        offset: Offset,
    )
        ensures
            final(out)@ == old(out)@ + load_text(name@, result, ptr, offset),
            old(out)@.len() == 0 ==> final(out)@ == load_text(name@, result, ptr, offset),
    {
        out.append(name);
        out.append(" ");
        append_register(out, result);
        out.append(" <- mem[");
        append_register(out, ptr);
        out.append("+");
        append_u32(out, offset.into_inner());
        out.append("]");
        proof {
            assert(out@ =~= old(out)@ + load_text(name@, result, ptr, offset));
            if old(out)@.len() == 0 {
                assert(out@ =~= load_text(name@, result, ptr, offset));
            }
        }
    }

    /// Writes human readable output for a memory store instruction into
    /// `out`.
    pub fn write_store(
        &self,
        out: &mut String,
        name: &str,
        ptr: ExecRegister,
        offset: Offset,
        value: ExecProvider,
    )
        requires
            provider_wf(value, *self.res),
        ensures
            final(out)@ == old(out)@ + store_text(name@, ptr, offset, value, *self.res),
            old(out)@.len() == 0 ==> final(out)@ == store_text(name@, ptr, offset, value, *self.res),
    {
        out.append(name);
        out.append(" mem[");
        append_register(out, ptr);
        out.append("+");
        append_u32(out, offset.into_inner());
        out.append("] <- ");
        append_provider(out, self.res, value);
        proof {
            assert(out@ =~= old(out)@ + store_text(name@, ptr, offset, value, *self.res));
            if old(out)@.len() == 0 {
                assert(out@ =~= store_text(name@, ptr, offset, value, *self.res));
            }
        }
    }

    /// Renders the instruction into one line of canonical text, without a
    /// trailing terminator.
    ///
    /// Rendering is total and deterministic over well-formed inputs: every
    /// instruction except a branch table yields non-empty text whose exact
    /// content [`render_ok`] pins down.  A branch table yields the
    /// not-implemented signal and an indirect call whose declared type
    /// index is missing from the current instance yields the
    /// internal-invariant signal naming that index; neither produces any
    /// output.
    pub fn to_text(&self) -> (r: Result<String, PrintError>)
        requires
            self.wf(),
        ensures
            match r {
                Ok(s) => !print_fails(self.instr, *self.ctx.store, self.instance) && s@
                    == render_ok(self.instr, *self.res, *self.ctx.store, self.instance) && s@.len()
                    > 0,
                Err(e) => print_fails(self.instr, *self.ctx.store, self.instance) && e
                    == print_error(self.instr),
            },
    {
        broadcast use lemma_dec_str_len, lemma_int_str_len, lemma_trap_text_len,
            lemma_reg_idx_text_len, lemma_provider_text_len;

        let ghost spec_text = render_ok(self.instr, *self.res, *self.ctx.store, self.instance);
        let mut out = String::new();
        match self.instr {
            Instruction::Br { target } => {
                out.append("br ");
                append_target(&mut out, target);
                proof {
                    assert(out@ =~= spec_text);
                }
            },
            Instruction::BrEqz { target, condition } => {
                out.append("br_eqz ");
                append_register(&mut out, condition);
                out.append(" ");
                append_target(&mut out, target);
                proof {
                    assert(out@ =~= spec_text);
                }
            },
            Instruction::BrNez { target, condition } => {
                out.append("br_nez ");
                append_register(&mut out, condition);
                out.append(" ");
                append_target(&mut out, target);
                proof {
                    assert(out@ =~= spec_text);
                }
            },
            Instruction::ReturnNez { results, condition } => {
                out.append("return_nez ");
                append_register(&mut out, condition);
                out.append(" ");
                append_provider_slice(&mut out, self.res, results);
                proof {
                    assert(out@ =~= spec_text);
                }
            },
            Instruction::BrTable { .. } => {
                return Err(PrintError::Unimplemented);
            },
            Instruction::Trap { trap_code } => {
                out.append("trap -> ");
                append_trap(&mut out, trap_code);
                proof {
                    assert(out@ =~= spec_text);
                }
            },
            Instruction::Return { results } => {
                out.append("return ");
                append_provider_slice(&mut out, self.res, results);
                proof {
                    reveal_strlit("return ");
                    assert(out@ =~= spec_text);
                }
            },
            Instruction::Call { func_idx, results, params } => {
                append_reg_slice(&mut out, results);
                out.append(" <- call ");
                append_func_idx(&mut out, func_idx);
                out.append(" ");
                append_provider_slice(&mut out, self.res, params);
                proof {
                    assert(out@ =~= spec_text);
                }
            },
            Instruction::CallIndirect { func_type_idx, results, index, params } => {
                let entity = self.ctx.store.resolve_instance(self.instance);
                let local_idx: u32 = func_type_idx.into_u32();
                match entity.get_signature(local_idx) {
                    None => {
                        return Err(PrintError::MissingFuncType { index: local_idx });
                    },
                    Some(shared) => {
                        proof {
                            assert(self.ctx.store.instances@[self.instance.idx as int].func_types@[
                                local_idx as int] == shared);
                        }
                        let func_type = self.res.resolve_func_type(shared);
                        append_reg_slice(&mut out, results);
                        out.append(" <- call_indirect table[");
                        append_provider(&mut out, self.res, index);
                        out.append("] ");
                        append_provider_slice(&mut out, self.res, params);
                        out.append(": ");
                        append_func_type(&mut out, func_type);
                        proof {
                            assert(out@ =~= spec_text);
                        }
                    },
                }
            },
            Instruction::Copy { result, input } => {
                append_register(&mut out, result);
                out.append(" <- ");
                append_provider(&mut out, self.res, input);
                proof {
                    assert(out@ =~= spec_text);
                }
            },
            Instruction::Select { result, condition, if_true, if_false } => {
                append_register(&mut out, result);
                out.append(" <- if ");
                append_register(&mut out, condition);
                out.append(" then ");
                append_provider(&mut out, self.res, if_true);
                out.append(" else ");
                append_provider(&mut out, self.res, if_false);
                proof {
                    assert(out@ =~= spec_text);
                }
            },
            Instruction::GlobalGet { result, global } => {
                append_register(&mut out, result);
                out.append(" <- ");
                append_global(&mut out, global);
                proof {
                    assert(out@ =~= spec_text);
                }
            },
            Instruction::GlobalSet { global, value } => {
                append_global(&mut out, global);
                out.append(" <- ");
                append_provider(&mut out, self.res, value);
                proof {
                    assert(out@ =~= spec_text);
                }
            },
            Instruction::MemorySize { result } => {
                append_register(&mut out, result);
                out.append(" <- memory.size");
                proof {
                    assert(out@ =~= spec_text);
                }
            },
            Instruction::MemoryGrow { result, amount } => {
                append_register(&mut out, result);
                out.append(" <- memory.grow ");
                append_provider(&mut out, self.res, amount);
                proof {
                    assert(out@ =~= spec_text);
                }
            },
            Instruction::I32Clz { result, input } => self.write_unary(&mut out, "i32.clz", result, input),
            Instruction::I32Ctz { result, input } => self.write_unary(&mut out, "i32.ctz", result, input),
            Instruction::I32Popcnt { result, input } => self.write_unary(&mut out, "i32.popcnt", result, input),
            Instruction::I64Clz { result, input } => self.write_unary(&mut out, "i64.clz", result, input),
            Instruction::I64Ctz { result, input } => self.write_unary(&mut out, "i64.ctz", result, input),
            Instruction::I64Popcnt { result, input } => self.write_unary(&mut out, "i64.popcnt", result, input),
            Instruction::F32Abs { result, input } => self.write_unary(&mut out, "f32.abs", result, input),
            Instruction::F32Neg { result, input } => self.write_unary(&mut out, "f32.neg", result, input),
            Instruction::F32Ceil { result, input } => self.write_unary(&mut out, "f32.ceil", result, input),
            Instruction::F32Floor { result, input } => self.write_unary(&mut out, "f32.floor", result, input),
            Instruction::F32Trunc { result, input } => self.write_unary(&mut out, "f32.trunc", result, input),
            Instruction::F32Nearest { result, input } => self.write_unary(&mut out, "f32.nearest", result, input),
            Instruction::F32Sqrt { result, input } => self.write_unary(&mut out, "f32.sqrt", result, input),
            Instruction::F64Abs { result, input } => self.write_unary(&mut out, "f64.abs", result, input),
            Instruction::F64Neg { result, input } => self.write_unary(&mut out, "f64.neg", result, input),
            Instruction::F64Ceil { result, input } => self.write_unary(&mut out, "f64.ceil", result, input),
            Instruction::F64Floor { result, input } => self.write_unary(&mut out, "f64.floor", result, input),
            Instruction::F64Trunc { result, input } => self.write_unary(&mut out, "f64.trunc", result, input),
            Instruction::F64Nearest { result, input } => self.write_unary(&mut out, "f64.nearest", result, input),
            Instruction::F64Sqrt { result, input } => self.write_unary(&mut out, "f64.sqrt", result, input),
            Instruction::I32WrapI64 { result, input } => self.write_unary(&mut out, "i32.wrap_i64", result, input),
            Instruction::I32TruncSF32 { result, input } => self.write_unary(&mut out, "i32.trunc_f32_s", result, input),
            Instruction::I32TruncUF32 { result, input } => self.write_unary(&mut out, "i32.trunc_f32_u", result, input),
            Instruction::I32TruncSF64 { result, input } => self.write_unary(&mut out, "i32.trunc_f64_s", result, input),
            Instruction::I32TruncUF64 { result, input } => self.write_unary(&mut out, "i32.trunc_f64_u", result, input),
            Instruction::I64ExtendSI32 { result, input } => self.write_unary(&mut out, "i64.extend_i32_s", result, input),
            Instruction::I64ExtendUI32 { result, input } => self.write_unary(&mut out, "i64.extend_i32_u", result, input),
            Instruction::I64TruncSF32 { result, input } => self.write_unary(&mut out, "i64.trunc_f32_s", result, input),
            Instruction::I64TruncUF32 { result, input } => self.write_unary(&mut out, "i64.trunc_f32_u", result, input),
            Instruction::I64TruncSF64 { result, input } => self.write_unary(&mut out, "i64.trunc_f64_s", result, input),
            Instruction::I64TruncUF64 { result, input } => self.write_unary(&mut out, "i64.trunc_f64_u", result, input),
            Instruction::F32ConvertSI32 { result, input } => self.write_unary(&mut out, "f32.convert_i32_s", result, input),
            Instruction::F32ConvertUI32 { result, input } => self.write_unary(&mut out, "f32.convert_i32_u", result, input),
            Instruction::F32ConvertSI64 { result, input } => self.write_unary(&mut out, "f32.convert_i64_s", result, input),
            Instruction::F32ConvertUI64 { result, input } => self.write_unary(&mut out, "f32.convert_i64_u", result, input),
            Instruction::F32DemoteF64 { result, input } => self.write_unary(&mut out, "f32.demote_f64", result, input),
            Instruction::F64ConvertSI32 { result, input } => self.write_unary(&mut out, "f64.convert_i32_s", result, input),
            Instruction::F64ConvertUI32 { result, input } => self.write_unary(&mut out, "f64.convert_i32_u", result, input),
            Instruction::F64ConvertSI64 { result, input } => self.write_unary(&mut out, "f64.convert_i64_s", result, input),
            Instruction::F64ConvertUI64 { result, input } => self.write_unary(&mut out, "f64.convert_i64_u", result, input),
            Instruction::F64PromoteF32 { result, input } => self.write_unary(&mut out, "f64.promote_f32", result, input),
            Instruction::I32Extend8S { result, input } => self.write_unary(&mut out, "i32.extend8_s", result, input),
            Instruction::I32Extend16S { result, input } => self.write_unary(&mut out, "i32.extend16_s", result, input),
            Instruction::I64Extend8S { result, input } => self.write_unary(&mut out, "i64.extend8_s", result, input),
            Instruction::I64Extend16S { result, input } => self.write_unary(&mut out, "i64.extend16_s", result, input),
            Instruction::I64Extend32S { result, input } => self.write_unary(&mut out, "i64.extend32_s", result, input),
            Instruction::I32TruncSatF32S { result, input } => self.write_unary(&mut out, "i32.trunc_sat_f32_s", result, input),
            Instruction::I32TruncSatF32U { result, input } => self.write_unary(&mut out, "i32.trunc_sat_f32_u", result, input),
            Instruction::I32TruncSatF64S { result, input } => self.write_unary(&mut out, "i32.trunc_sat_f64_s", result, input),
            Instruction::I32TruncSatF64U { result, input } => self.write_unary(&mut out, "i32.trunc_sat_f64_u", result, input),
            Instruction::I64TruncSatF32S { result, input } => self.write_unary(&mut out, "i64.trunc_sat_f32_s", result, input),
            Instruction::I64TruncSatF32U { result, input } => self.write_unary(&mut out, "i64.trunc_sat_f32_u", result, input),
            Instruction::I64TruncSatF64S { result, input } => self.write_unary(&mut out, "i64.trunc_sat_f64_s", result, input),
            Instruction::I64TruncSatF64U { result, input } => self.write_unary(&mut out, "i64.trunc_sat_f64_u", result, input),
            Instruction::I32Eq { result, lhs, rhs } => self.write_binary(&mut out, "i32.eq", result, lhs, rhs),
            Instruction::I32Ne { result, lhs, rhs } => self.write_binary(&mut out, "i32.ne", result, lhs, rhs),
            Instruction::I32LtS { result, lhs, rhs } => self.write_binary(&mut out, "i32.lt_s", result, lhs, rhs),
            Instruction::I32LtU { result, lhs, rhs } => self.write_binary(&mut out, "i32.lt_u", result, lhs, rhs),
            Instruction::I32GtS { result, lhs, rhs } => self.write_binary(&mut out, "i32.gt_s", result, lhs, rhs),
            Instruction::I32GtU { result, lhs, rhs } => self.write_binary(&mut out, "i32.gt_u", result, lhs, rhs),
            Instruction::I32LeS { result, lhs, rhs } => self.write_binary(&mut out, "i32.le_s", result, lhs, rhs),
            Instruction::I32LeU { result, lhs, rhs } => self.write_binary(&mut out, "i32.le_u", result, lhs, rhs),
            Instruction::I32GeS { result, lhs, rhs } => self.write_binary(&mut out, "i32.ge_s", result, lhs, rhs),
            Instruction::I32GeU { result, lhs, rhs } => self.write_binary(&mut out, "i32.ge_u", result, lhs, rhs),
            Instruction::I64Eq { result, lhs, rhs } => self.write_binary(&mut out, "i64.eq", result, lhs, rhs),
            Instruction::I64Ne { result, lhs, rhs } => self.write_binary(&mut out, "i64.ne", result, lhs, rhs),
            Instruction::I64LtS { result, lhs, rhs } => self.write_binary(&mut out, "i64.lt_s", result, lhs, rhs),
            Instruction::I64LtU { result, lhs, rhs } => self.write_binary(&mut out, "i64.lt_u", result, lhs, rhs),
            Instruction::I64GtS { result, lhs, rhs } => self.write_binary(&mut out, "i64.gt_s", result, lhs, rhs),
            Instruction::I64GtU { result, lhs, rhs } => self.write_binary(&mut out, "i64.gt_u", result, lhs, rhs),
            Instruction::I64LeS { result, lhs, rhs } => self.write_binary(&mut out, "i64.le_s", result, lhs, rhs),
            Instruction::I64LeU { result, lhs, rhs } => self.write_binary(&mut out, "i64.le_u", result, lhs, rhs),
            Instruction::I64GeS { result, lhs, rhs } => self.write_binary(&mut out, "i64.ge_s", result, lhs, rhs),
            Instruction::I64GeU { result, lhs, rhs } => self.write_binary(&mut out, "i64.ge_u", result, lhs, rhs),
            Instruction::F32Eq { result, lhs, rhs } => self.write_binary(&mut out, "f32.eq", result, lhs, rhs),
            Instruction::F32Ne { result, lhs, rhs } => self.write_binary(&mut out, "f32.ne", result, lhs, rhs),
            Instruction::F32Lt { result, lhs, rhs } => self.write_binary(&mut out, "f32.lt", result, lhs, rhs),
            Instruction::F32Gt { result, lhs, rhs } => self.write_binary(&mut out, "f32.gt", result, lhs, rhs),
            Instruction::F32Le { result, lhs, rhs } => self.write_binary(&mut out, "f32.le", result, lhs, rhs),
            Instruction::F32Ge { result, lhs, rhs } => self.write_binary(&mut out, "f32.ge", result, lhs, rhs),
            Instruction::F64Eq { result, lhs, rhs } => self.write_binary(&mut out, "f64.eq", result, lhs, rhs),
            Instruction::F64Ne { result, lhs, rhs } => self.write_binary(&mut out, "f64.ne", result, lhs, rhs),
            Instruction::F64Lt { result, lhs, rhs } => self.write_binary(&mut out, "f64.lt", result, lhs, rhs),
            Instruction::F64Gt { result, lhs, rhs } => self.write_binary(&mut out, "f64.gt", result, lhs, rhs),
            Instruction::F64Le { result, lhs, rhs } => self.write_binary(&mut out, "f64.le", result, lhs, rhs),
            Instruction::F64Ge { result, lhs, rhs } => self.write_binary(&mut out, "f64.ge", result, lhs, rhs),
            Instruction::I32Add { result, lhs, rhs } => self.write_binary(&mut out, "i32.add", result, lhs, rhs),
            Instruction::I32Sub { result, lhs, rhs } => self.write_binary(&mut out, "i32.sub", result, lhs, rhs),
            Instruction::I32Mul { result, lhs, rhs } => self.write_binary(&mut out, "i32.mul", result, lhs, rhs),
            Instruction::I32DivS { result, lhs, rhs } => self.write_binary(&mut out, "i32.div_s", result, lhs, rhs),
            Instruction::I32DivU { result, lhs, rhs } => self.write_binary(&mut out, "i32.div_u", result, lhs, rhs),
            Instruction::I32RemS { result, lhs, rhs } => self.write_binary(&mut out, "i32.rem_s", result, lhs, rhs),
            Instruction::I32RemU { result, lhs, rhs } => self.write_binary(&mut out, "i32.rem_u", result, lhs, rhs),
            Instruction::I32And { result, lhs, rhs } => self.write_binary(&mut out, "i32.and", result, lhs, rhs),
            Instruction::I32Or { result, lhs, rhs } => self.write_binary(&mut out, "i32.or", result, lhs, rhs),
            Instruction::I32Xor { result, lhs, rhs } => self.write_binary(&mut out, "i32.xor", result, lhs, rhs),
            Instruction::I32Shl { result, lhs, rhs } => self.write_binary(&mut out, "i32.shl", result, lhs, rhs),
            Instruction::I32ShrS { result, lhs, rhs } => self.write_binary(&mut out, "i32.shr_s", result, lhs, rhs),
            Instruction::I32ShrU { result, lhs, rhs } => self.write_binary(&mut out, "i32.shr_u", result, lhs, rhs),
            Instruction::I32Rotl { result, lhs, rhs } => self.write_binary(&mut out, "i32.rotl", result, lhs, rhs),
            Instruction::I32Rotr { result, lhs, rhs } => self.write_binary(&mut out, "i32.rotr", result, lhs, rhs),
            Instruction::I64Add { result, lhs, rhs } => self.write_binary(&mut out, "i64.add", result, lhs, rhs),
            Instruction::I64Sub { result, lhs, rhs } => self.write_binary(&mut out, "i64.sub", result, lhs, rhs),
            Instruction::I64Mul { result, lhs, rhs } => self.write_binary(&mut out, "i64.mul", result, lhs, rhs),
            Instruction::I64DivS { result, lhs, rhs } => self.write_binary(&mut out, "i64.div_s", result, lhs, rhs),
            Instruction::I64DivU { result, lhs, rhs } => self.write_binary(&mut out, "i64.div_u", result, lhs, rhs),
            Instruction::I64RemS { result, lhs, rhs } => self.write_binary(&mut out, "i64.rem_s", result, lhs, rhs),
            Instruction::I64RemU { result, lhs, rhs } => self.write_binary(&mut out, "i64.rem_u", result, lhs, rhs),
            Instruction::I64And { result, lhs, rhs } => self.write_binary(&mut out, "i64.and", result, lhs, rhs),
            Instruction::I64Or { result, lhs, rhs } => self.write_binary(&mut out, "i64.or", result, lhs, rhs),
            Instruction::I64Xor { result, lhs, rhs } => self.write_binary(&mut out, "i64.xor", result, lhs, rhs),
            Instruction::I64Shl { result, lhs, rhs } => self.write_binary(&mut out, "i64.shl", result, lhs, rhs),
            Instruction::I64ShrS { result, lhs, rhs } => self.write_binary(&mut out, "i64.shr_s", result, lhs, rhs),
            Instruction::I64ShrU { result, lhs, rhs } => self.write_binary(&mut out, "i64.shr_u", result, lhs, rhs),
            Instruction::I64Rotl { result, lhs, rhs } => self.write_binary(&mut out, "i64.rotl", result, lhs, rhs),
            Instruction::I64Rotr { result, lhs, rhs } => self.write_binary(&mut out, "i64.rotr", result, lhs, rhs),
            Instruction::F32Add { result, lhs, rhs } => self.write_binary(&mut out, "f32.add", result, lhs, rhs),
            Instruction::F32Sub { result, lhs, rhs } => self.write_binary(&mut out, "f32.sub", result, lhs, rhs),
            Instruction::F32Mul { result, lhs, rhs } => self.write_binary(&mut out, "f32.mul", result, lhs, rhs),
            Instruction::F32Div { result, lhs, rhs } => self.write_binary(&mut out, "f32.div", result, lhs, rhs),
            Instruction::F32Min { result, lhs, rhs } => self.write_binary(&mut out, "f32.min", result, lhs, rhs),
            Instruction::F32Max { result, lhs, rhs } => self.write_binary(&mut out, "f32.max", result, lhs, rhs),
            Instruction::F32Copysign { result, lhs, rhs } => self.write_binary(&mut out, "f32.copysign", result, lhs, rhs),
            Instruction::F64Add { result, lhs, rhs } => self.write_binary(&mut out, "f64.add", result, lhs, rhs),
            Instruction::F64Sub { result, lhs, rhs } => self.write_binary(&mut out, "f64.sub", result, lhs, rhs),
            Instruction::F64Mul { result, lhs, rhs } => self.write_binary(&mut out, "f64.mul", result, lhs, rhs),
            Instruction::F64Div { result, lhs, rhs } => self.write_binary(&mut out, "f64.div", result, lhs, rhs),
            Instruction::F64Min { result, lhs, rhs } => self.write_binary(&mut out, "f64.min", result, lhs, rhs),
            Instruction::F64Max { result, lhs, rhs } => self.write_binary(&mut out, "f64.max", result, lhs, rhs),
            Instruction::F64Copysign { result, lhs, rhs } => self.write_binary(&mut out, "f64.copysign", result, lhs, rhs),
            Instruction::I32Load { result, ptr, offset } => self.write_load(&mut out, "i32.load", result, ptr, offset),
            Instruction::I64Load { result, ptr, offset } => self.write_load(&mut out, "i64.load", result, ptr, offset),
            Instruction::F32Load { result, ptr, offset } => self.write_load(&mut out, "f32.load", result, ptr, offset),
            Instruction::F64Load { result, ptr, offset } => self.write_load(&mut out, "f64.load", result, ptr, offset),
            Instruction::I32Load8S { result, ptr, offset } => self.write_load(&mut out, "i32.load8_s", result, ptr, offset),
            Instruction::I32Load8U { result, ptr, offset } => self.write_load(&mut out, "i32.load8_u", result, ptr, offset),
            Instruction::I32Load16S { result, ptr, offset } => self.write_load(&mut out, "i32.load16_s", result, ptr, offset),
            Instruction::I32Load16U { result, ptr, offset } => self.write_load(&mut out, "i32.load16_u", result, ptr, offset),
            Instruction::I64Load8S { result, ptr, offset } => self.write_load(&mut out, "i64.load8_s", result, ptr, offset),
            Instruction::I64Load8U { result, ptr, offset } => self.write_load(&mut out, "i64.load8_u", result, ptr, offset),
            Instruction::I64Load16S { result, ptr, offset } => self.write_load(&mut out, "i64.load16_s", result, ptr, offset),
            Instruction::I64Load16U { result, ptr, offset } => self.write_load(&mut out, "i64.load16_u", result, ptr, offset),
            Instruction::I64Load32S { result, ptr, offset } => self.write_load(&mut out, "i64.load32_s", result, ptr, offset),
            Instruction::I64Load32U { result, ptr, offset } => self.write_load(&mut out, "i64.load32_u", result, ptr, offset),
            Instruction::I32Store { ptr, offset, value } => self.write_store(&mut out, "i32.store", ptr, offset, value),
            Instruction::I64Store { ptr, offset, value } => self.write_store(&mut out, "i64.store", ptr, offset, value),
            Instruction::F32Store { ptr, offset, value } => self.write_store(&mut out, "f32.store", ptr, offset, value),
            Instruction::F64Store { ptr, offset, value } => self.write_store(&mut out, "f64.store", ptr, offset, value),
            Instruction::I32Store8 { ptr, offset, value } => self.write_store(&mut out, "i32.store8", ptr, offset, value),
            Instruction::I32Store16 { ptr, offset, value } => self.write_store(&mut out, "i32.store16", ptr, offset, value),
            Instruction::I64Store8 { ptr, offset, value } => self.write_store(&mut out, "i64.store8", ptr, offset, value),
            Instruction::I64Store16 { ptr, offset, value } => self.write_store(&mut out, "i64.store16", ptr, offset, value),
            Instruction::I64Store32 { ptr, offset, value } => self.write_store(&mut out, "i64.store32", ptr, offset, value),
        }
        Ok(out)
    }
}

/// Determinism: the rendered text is a function of the instruction and its
/// resolved context alone, so rendering the same pair twice yields
/// identical output.
pub proof fn lemma_render_deterministic(
    instr: Instruction,
    res: EngineResources,
    store: Store,
    instance: Instance,
    first: Seq<char>,
    second: Seq<char>,
)
    requires
        first == render_ok(instr, res, store, instance),
        second == render_ok(instr, res, store, instance),
    ensures
        first == second,
{
}

} // verus!
