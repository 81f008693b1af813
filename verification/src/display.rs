//! Operand resolvers: the textual form of each kind of operand, as a spec
//! function, beside the verified writer that appends exactly that text to a
//! caller-owned output string.
//!
//! Conventions, fixed once and applied uniformly:
//! - a register renders as `r` followed by its decimal index;
//! - a branch target renders as `@` followed by the decimal index of the
//!   targeted instruction;
//! - function and global indices render with the fixed prefixes `func ` and
//!   `global `;
//! - operand sequences render space-delimited in source order, and an empty
//!   sequence renders as empty text;
//! - a function type renders as `(param-types) -> (result-types)` with its
//!   types space-delimited inside the parentheses.

use vstd::prelude::*;
use crate::bytecode::{ConstValue, ExecProvider, ExecProviderSlice, ExecRegister,
    ExecRegisterSlice, FuncIdx, GlobalIdx, Target, TrapCode, ValueType};
use crate::context::{provider_slice_wf, provider_wf, reg_slice_wf, EngineResources, FuncType};
use crate::text::{append_i32, append_i64, append_u32, dec_str, int_str, lemma_dec_str_len,
    lemma_int_str_len};

verus! {

/// The canonical token for the register with index `idx`.
pub open spec fn reg_idx_text(idx: nat) -> Seq<char> {
    "r"@ + dec_str(idx)
}

/// The canonical token for register `r`.
pub open spec fn reg_text(r: ExecRegister) -> Seq<char> {
    reg_idx_text(r.idx as nat)
}

/// The canonical token for branch target `t`.
pub open spec fn target_text(t: Target) -> Seq<char> {
    "@"@ + dec_str(t.destination as nat)
}

/// The fixed-prefix rendering of a function index.
pub open spec fn func_idx_text(f: FuncIdx) -> Seq<char> {
    "func "@ + dec_str(f.value as nat)
}

/// The fixed-prefix rendering of a global-variable index.
pub open spec fn global_text(g: GlobalIdx) -> Seq<char> {
    "global "@ + dec_str(g.value as nat)
}

/// The rendering of a pooled immediate constant in its native numeric type.
pub open spec fn const_text(v: ConstValue) -> Seq<char> {
    match v {
        ConstValue::I32(x) => int_str(x as int),
        ConstValue::I64(x) => int_str(x as int),
    }
}

/// The rendering of a provider: a register token, or the immediate constant
/// it refers to in the engine's pool.
pub open spec fn provider_text(p: ExecProvider, res: EngineResources) -> Seq<char> {
    match p {
        ExecProvider::Register(r) => reg_text(r),
        ExecProvider::Immediate(cref) => const_text(res.const_pool@[cref.index as int]),
    }
}

/// The space-delimited register tokens `first, first + 1, ..` for `len`
/// registers; empty when `len` is zero.
pub open spec fn reg_list_text(first: nat, len: nat) -> Seq<char>
    decreases len,
{
    if len == 0 {
        Seq::empty()
    } else if len == 1 {
        reg_idx_text(first)
    } else {
        reg_idx_text(first) + " "@ + reg_list_text(first + 1, (len - 1) as nat)
    }
}

/// The rendering of a register slice.
pub open spec fn reg_slice_text(s: ExecRegisterSlice) -> Seq<char> {
    reg_list_text(s.first as nat, s.len as nat)
}

/// The space-delimited rendering of `len` providers of the engine's
/// provider buffer starting at `start`; empty when `len` is zero.
pub open spec fn provider_range_text(res: EngineResources, start: int, len: int) -> Seq<char>
    decreases len,
{
    if len <= 0 {
        Seq::empty()
    } else if len == 1 {
        provider_text(res.provider_slices@[start], res)
    } else {
        provider_text(res.provider_slices@[start], res) + " "@ + provider_range_text(
            res,
            start + 1,
            len - 1,
        )
    }
}

/// The rendering of a provider slice.
pub open spec fn provider_slice_text(s: ExecProviderSlice, res: EngineResources) -> Seq<char> {
    provider_range_text(res, s.start as int, s.len as int)
}

/// The textual name of a value type.
pub open spec fn value_type_text(t: ValueType) -> Seq<char> {
    match t {
        ValueType::I32 => "i32"@,
        ValueType::I64 => "i64"@,
        ValueType::F32 => "f32"@,
        ValueType::F64 => "f64"@,
    }
}

/// The space-delimited value types of `ts` from position `i` on.
pub open spec fn type_list_text(ts: Seq<ValueType>, i: int) -> Seq<char>
    decreases ts.len() - i,
{
    if i < 0 || i >= ts.len() {
        Seq::empty()
    } else if i == ts.len() - 1 {
        value_type_text(ts[i])
    } else {
        value_type_text(ts[i]) + " "@ + type_list_text(ts, i + 1)
    }
}

/// The rendering of a function type: `(param-types) -> (result-types)`.
pub open spec fn func_type_text(ft: FuncType) -> Seq<char> {
    "("@ + type_list_text(ft.params@, 0) + ") -> ("@ + type_list_text(ft.results@, 0) + ")"@
}

/// The symbolic name of a trap cause.
pub open spec fn trap_text(tc: TrapCode) -> Seq<char> {
    match tc {
        TrapCode::Unreachable => "unreachable"@,
        TrapCode::MemoryAccessOutOfBounds => "memory_access_out_of_bounds"@,
        TrapCode::TableAccessOutOfBounds => "table_access_out_of_bounds"@,
        TrapCode::ElemUninitialized => "element_uninitialized"@,
        TrapCode::DivisionByZero => "division_by_zero"@,
        TrapCode::IntegerOverflow => "integer_overflow"@,
        TrapCode::InvalidConversionToInt => "invalid_conversion_to_int"@,
        TrapCode::StackOverflow => "stack_overflow"@,
        TrapCode::UnexpectedSignature => "unexpected_signature"@,
    }
}

/// A trap name holds at least one character.
pub broadcast proof fn lemma_trap_text_len(tc: TrapCode)
    ensures
        #[trigger] trap_text(tc).len() >= 1,
{
    reveal_strlit("unreachable");
    reveal_strlit("memory_access_out_of_bounds");
    reveal_strlit("table_access_out_of_bounds");
    reveal_strlit("element_uninitialized");
    reveal_strlit("division_by_zero");
    reveal_strlit("integer_overflow");
    reveal_strlit("invalid_conversion_to_int");
    reveal_strlit("stack_overflow");
    reveal_strlit("unexpected_signature");
}

/// A register token holds at least one character.
pub broadcast proof fn lemma_reg_idx_text_len(idx: nat)
    ensures
        #[trigger] reg_idx_text(idx).len() >= 1,
{
    lemma_dec_str_len(idx);
}

/// A provider rendering holds at least one character.
pub broadcast proof fn lemma_provider_text_len(p: ExecProvider, res: EngineResources)
    ensures
        #[trigger] provider_text(p, res).len() >= 1,
{
    broadcast use lemma_dec_str_len, lemma_int_str_len;

}

/// Appends the register token for index `idx` to `out`.
pub fn append_reg_idx(out: &mut String, idx: u32)
    ensures
        final(out)@ == old(out)@ + reg_idx_text(idx as nat),
{
    out.append("r");
    append_u32(out, idx);
    proof {
        assert(out@ =~= old(out)@ + reg_idx_text(idx as nat));
    }
}

/// Appends the token for register `r` to `out`.
pub fn append_register(out: &mut String, r: ExecRegister)
    ensures
        final(out)@ == old(out)@ + reg_text(r),
{
    append_reg_idx(out, r.idx as u32);
}

/// Appends the token for branch target `t` to `out`.
pub fn append_target(out: &mut String, t: Target)
    ensures
        final(out)@ == old(out)@ + target_text(t),
{
    out.append("@");
    append_u32(out, t.destination);
    proof {
        assert(out@ =~= old(out)@ + target_text(t));
    }
}

/// Appends the rendering of function index `f` to `out`.
pub fn append_func_idx(out: &mut String, f: FuncIdx)
    ensures
        final(out)@ == old(out)@ + func_idx_text(f),
{
    out.append("func ");
    append_u32(out, f.value);
    proof {
        assert(out@ =~= old(out)@ + func_idx_text(f));
    }
}

/// Appends the rendering of global index `g` to `out`.
pub fn append_global(out: &mut String, g: GlobalIdx)
    ensures
        final(out)@ == old(out)@ + global_text(g),
{
    out.append("global ");
    append_u32(out, g.value);
    proof {
        assert(out@ =~= old(out)@ + global_text(g));
    }
}

/// Appends the rendering of constant `v` to `out`.
pub fn append_const(out: &mut String, v: ConstValue)
    ensures
        final(out)@ == old(out)@ + const_text(v),
{
    match v {
        ConstValue::I32(x) => append_i32(out, x),
        ConstValue::I64(x) => append_i64(out, x),
    }
}

/// Appends the rendering of provider `p`, resolved against the engine's
/// constant pool, to `out`.
pub fn append_provider(out: &mut String, res: &EngineResources, p: ExecProvider)
    requires
        provider_wf(p, *res),
    ensures
        final(out)@ == old(out)@ + provider_text(p, *res),
{
    match p {
        ExecProvider::Register(r) => append_register(out, r),
        ExecProvider::Immediate(cref) => {
            let v = res.resolve_const(cref);
            append_const(out, v);
        },
    }
}

/// Appends the space-delimited register tokens `first, ..` for `len`
/// registers to `out`.
fn append_reg_list(out: &mut String, first: u32, len: u32)
    requires
        first as int + len as int <= 0x10000,
    ensures
        final(out)@ == old(out)@ + reg_list_text(first as nat, len as nat),
    decreases len,
{
    if len == 0 {
        proof {
            assert(out@ =~= old(out)@ + reg_list_text(first as nat, len as nat));
        }
        return ;
    }
    append_reg_idx(out, first);
    if len > 1 {
        out.append(" ");
        append_reg_list(out, first + 1, len - 1);
    }
    proof {
        assert(out@ =~= old(out)@ + reg_list_text(first as nat, len as nat));
    }
}

/// Appends the rendering of register slice `s` to `out`.
pub fn append_reg_slice(out: &mut String, s: ExecRegisterSlice)
    requires
        reg_slice_wf(s),
    ensures
        final(out)@ == old(out)@ + reg_slice_text(s),
{
    append_reg_list(out, s.first as u32, s.len as u32);
}

/// Appends the space-delimited rendering of `len` providers of the engine's
/// provider buffer starting at `start` to `out`.
fn append_provider_range(out: &mut String, res: &EngineResources, start: usize, len: usize)
    requires
        start as int + len as int <= res.provider_slices@.len(),
        forall|i: int|
            start as int <= i < start as int + len as int ==> provider_wf(
                #[trigger] res.provider_slices@[i],
                *res,
            ),
    ensures
        final(out)@ == old(out)@ + provider_range_text(*res, start as int, len as int),
    decreases len,
{
    if len == 0 {
        proof {
            assert(out@ =~= old(out)@ + provider_range_text(*res, start as int, len as int));
        }
        return ;
    }
    let buffer_len: usize = res.provider_slices.len();
    proof {
        assert(start + len <= buffer_len);
    }
    let p = res.provider_slices[start];
    append_provider(out, res, p);
    if len > 1 {
        out.append(" ");
        append_provider_range(out, res, start + 1, len - 1);
    }
    proof {
        assert(out@ =~= old(out)@ + provider_range_text(*res, start as int, len as int));
    }
}

/// Appends the rendering of provider slice `s` to `out`.
pub fn append_provider_slice(out: &mut String, res: &EngineResources, s: ExecProviderSlice)
    requires
        provider_slice_wf(s, *res),
    ensures
        final(out)@ == old(out)@ + provider_slice_text(s, *res),
{
    append_provider_range(out, res, s.start as usize, s.len as usize);
}

/// Appends the textual name of value type `t` to `out`.
fn append_value_type(out: &mut String, t: ValueType)
    ensures
        final(out)@ == old(out)@ + value_type_text(t),
{
    let s: &str = match t {
        ValueType::I32 => "i32",
        ValueType::I64 => "i64",
        ValueType::F32 => "f32",
        ValueType::F64 => "f64",
    };
    out.append(s);
}

/// Appends the space-delimited value types of `ts` from position `i` on to
/// `out`.
fn append_type_list(out: &mut String, ts: &Vec<ValueType>, i: usize)
    requires
        i <= ts@.len(),
    ensures
        final(out)@ == old(out)@ + type_list_text(ts@, i as int),
    decreases ts@.len() - i,
{
    if i >= ts.len() {
        proof {
            assert(out@ =~= old(out)@ + type_list_text(ts@, i as int));
        }
        return ;
    }
    append_value_type(out, ts[i]);
    if i + 1 < ts.len() {
        out.append(" ");
        append_type_list(out, ts, i + 1);
    }
    proof {
        assert(out@ =~= old(out)@ + type_list_text(ts@, i as int));
    }
}

/// Appends the rendering of function type `ft` to `out`.
pub fn append_func_type(out: &mut String, ft: &FuncType)
    ensures
        final(out)@ == old(out)@ + func_type_text(*ft),
{
    out.append("(");
    append_type_list(out, &ft.params, 0);
    out.append(") -> (");
    append_type_list(out, &ft.results, 0);
    out.append(")");
    proof {
        assert(out@ =~= old(out)@ + func_type_text(*ft));
    }
}

/// Appends the symbolic name of trap cause `tc` to `out`.
pub fn append_trap(out: &mut String, tc: TrapCode)
    ensures
        final(out)@ == old(out)@ + trap_text(tc),
{
    let s: &str = match tc {
        TrapCode::Unreachable => "unreachable",
        TrapCode::MemoryAccessOutOfBounds => "memory_access_out_of_bounds",
        TrapCode::TableAccessOutOfBounds => "table_access_out_of_bounds",
        TrapCode::ElemUninitialized => "element_uninitialized",
        TrapCode::DivisionByZero => "division_by_zero",
        TrapCode::IntegerOverflow => "integer_overflow",
        TrapCode::InvalidConversionToInt => "invalid_conversion_to_int",
        TrapCode::StackOverflow => "stack_overflow",
        TrapCode::UnexpectedSignature => "unexpected_signature",
    };
    out.append(s);
}

} // verus!
