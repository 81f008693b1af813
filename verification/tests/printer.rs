//! End-to-end tests of the instruction printer: one rendered line per
//! instruction, checked against the documented canonical text.

use bytecode_printer::bytecode::{
    ConstRef, ConstValue, ExecProvider, ExecProviderSlice, ExecRegister, ExecRegisterSlice,
    FuncIdx, FuncTypeIdx, GlobalIdx, Instruction, Offset, Target, TrapCode,
};
use bytecode_printer::context::{
    EngineResources, FuncType, Instance, InstanceEntity, Store, StoreContext,
};
use bytecode_printer::printer::{DisplayExecInstruction, PrintError};

fn reg(idx: u16) -> ExecRegister {
    ExecRegister { idx }
}

fn empty_resources() -> EngineResources {
    EngineResources {
        const_pool: Vec::new(),
        provider_slices: Vec::new(),
        func_types: Vec::new(),
    }
}

fn plain_store() -> Store {
    Store {
        instances: vec![InstanceEntity { func_types: Vec::new() }],
    }
}

fn render_in(instr: Instruction, res: &EngineResources, store: &Store) -> Result<String, PrintError> {
    let ctx = StoreContext { store };
    let printer = DisplayExecInstruction::new(ctx, res, Instance { idx: 0 }, &instr);
    printer.to_text()
}

fn render(instr: Instruction) -> String {
    let res = empty_resources();
    let store = plain_store();
    render_in(instr, &res, &store).unwrap()
}

fn render_with_pool(instr: Instruction, pool: Vec<ConstValue>) -> String {
    let res = EngineResources {
        const_pool: pool,
        provider_slices: Vec::new(),
        func_types: Vec::new(),
    };
    let store = plain_store();
    render_in(instr, &res, &store).unwrap()
}

#[test]
fn unary_clz_renders_canonical_line() {
    let line = render(Instruction::I32Clz { result: reg(2), input: reg(1) });
    assert_eq!(line, "r2 <- i32.clz r1");
}

#[test]
fn binary_add_with_immediate_rhs() {
    let line = render_with_pool(
        Instruction::I32Add {
            result: reg(0),
            lhs: reg(1),
            rhs: ExecProvider::Immediate(ConstRef { index: 0 }),
        },
        vec![ConstValue::I32(5)],
    );
    assert_eq!(line, "r0 <- i32.add r1 5");
}

#[test]
fn load_i32_renders_memory_operand() {
    let line = render(Instruction::I32Load {
        result: reg(3),
        ptr: reg(4),
        offset: Offset { value: 8 },
    });
    assert_eq!(line, "i32.load r3 <- mem[r4+8]");
}

#[test]
fn trap_division_by_zero_names_the_cause() {
    let line = render(Instruction::Trap { trap_code: TrapCode::DivisionByZero });
    assert!(line.contains("division_by_zero"));
    assert_eq!(line, "trap -> division_by_zero");
}

#[test]
fn call_indirect_missing_type_is_an_invariant_violation() {
    let res = empty_resources();
    let store = plain_store();
    let result = render_in(
        Instruction::CallIndirect {
            func_type_idx: FuncTypeIdx { value: 7 },
            results: ExecRegisterSlice { first: 0, len: 0 },
            index: ExecProvider::Register(reg(1)),
            params: ExecProviderSlice { start: 0, len: 0 },
        },
        &res,
        &store,
    );
    assert_eq!(result, Err(PrintError::MissingFuncType { index: 7 }));
}

#[test]
fn br_table_raises_the_not_implemented_signal() {
    let res = empty_resources();
    let store = plain_store();
    let result = render_in(
        Instruction::BrTable { case: reg(0), len_targets: 4 },
        &res,
        &store,
    );
    assert_eq!(result, Err(PrintError::Unimplemented));
}

#[test]
fn rendering_the_same_pair_twice_is_byte_identical() {
    let res = EngineResources {
        const_pool: vec![ConstValue::I64(-77)],
        provider_slices: vec![
            ExecProvider::Register(reg(4)),
            ExecProvider::Immediate(ConstRef { index: 0 }),
        ],
        func_types: Vec::new(),
    };
    let store = plain_store();
    let instr = Instruction::Return {
        results: ExecProviderSlice { start: 0, len: 2 },
    };
    let first = render_in(instr, &res, &store).unwrap();
    let second = render_in(instr, &res, &store).unwrap();
    assert_eq!(first, second);
}

#[test]
fn call_indirect_resolves_the_declared_signature() {
    let res = EngineResources {
        const_pool: Vec::new(),
        provider_slices: vec![ExecProvider::Register(reg(2))],
        func_types: vec![FuncType {
            params: vec![
                bytecode_printer::bytecode::ValueType::I32,
                bytecode_printer::bytecode::ValueType::I64,
            ],
            results: vec![bytecode_printer::bytecode::ValueType::F64],
        }],
    };
    let store = Store {
        instances: vec![InstanceEntity { func_types: vec![0] }],
    };
    let line = render_in(
        Instruction::CallIndirect {
            func_type_idx: FuncTypeIdx { value: 0 },
            results: ExecRegisterSlice { first: 0, len: 2 },
            index: ExecProvider::Register(reg(9)),
            params: ExecProviderSlice { start: 0, len: 1 },
        },
        &res,
        &store,
    )
    .unwrap();
    assert_eq!(line, "r0 r1 <- call_indirect table[r9] r2: (i32 i64) -> (f64)");
}

#[test]
fn empty_signature_renders_empty_parentheses() {
    let res = EngineResources {
        const_pool: Vec::new(),
        provider_slices: Vec::new(),
        func_types: vec![FuncType { params: Vec::new(), results: Vec::new() }],
    };
    let store = Store {
        instances: vec![InstanceEntity { func_types: vec![0] }],
    };
    let line = render_in(
        Instruction::CallIndirect {
            func_type_idx: FuncTypeIdx { value: 0 },
            results: ExecRegisterSlice { first: 5, len: 1 },
            index: ExecProvider::Register(reg(0)),
            params: ExecProviderSlice { start: 0, len: 0 },
        },
        &res,
        &store,
    )
    .unwrap();
    assert_eq!(line, "r5 <- call_indirect table[r0] : () -> ()");
}

#[test]
fn unconditional_branch() {
    let line = render(Instruction::Br { target: Target { destination: 42 } });
    assert_eq!(line, "br @42");
}

#[test]
fn conditional_branches_name_condition_then_target() {
    let eqz = render(Instruction::BrEqz {
        target: Target { destination: 7 },
        condition: reg(3),
    });
    assert_eq!(eqz, "br_eqz r3 @7");
    let nez = render(Instruction::BrNez {
        target: Target { destination: 7 },
        condition: reg(3),
    });
    assert_eq!(nez, "br_nez r3 @7");
}

#[test]
fn conditional_return_lists_its_providers() {
    let res = EngineResources {
        const_pool: vec![ConstValue::I32(7)],
        provider_slices: vec![
            ExecProvider::Register(reg(1)),
            ExecProvider::Immediate(ConstRef { index: 0 }),
        ],
        func_types: Vec::new(),
    };
    let store = plain_store();
    let line = render_in(
        Instruction::ReturnNez {
            results: ExecProviderSlice { start: 0, len: 2 },
            condition: reg(5),
        },
        &res,
        &store,
    )
    .unwrap();
    assert_eq!(line, "return_nez r5 r1 7");
}

#[test]
fn return_with_no_results_renders_empty_sequence() {
    let line = render(Instruction::Return {
        results: ExecProviderSlice { start: 0, len: 0 },
    });
    assert_eq!(line, "return ");
}

#[test]
fn direct_call_lists_results_callee_and_params() {
    let res = EngineResources {
        const_pool: Vec::new(),
        provider_slices: vec![
            ExecProvider::Register(reg(1)),
            ExecProvider::Register(reg(2)),
        ],
        func_types: Vec::new(),
    };
    let store = plain_store();
    let line = render_in(
        Instruction::Call {
            func_idx: FuncIdx { value: 3 },
            results: ExecRegisterSlice { first: 0, len: 1 },
            params: ExecProviderSlice { start: 0, len: 2 },
        },
        &res,
        &store,
    )
    .unwrap();
    assert_eq!(line, "r0 <- call func 3 r1 r2");
}

#[test]
fn call_with_no_results_or_params_keeps_the_fixed_delimiters() {
    let line = render(Instruction::Call {
        func_idx: FuncIdx { value: 0 },
        results: ExecRegisterSlice { first: 0, len: 0 },
        params: ExecProviderSlice { start: 0, len: 0 },
    });
    assert_eq!(line, " <- call func 0 ");
}

#[test]
fn register_slice_renders_contiguous_registers() {
    let line = render(Instruction::Call {
        func_idx: FuncIdx { value: 1 },
        results: ExecRegisterSlice { first: 3, len: 3 },
        params: ExecProviderSlice { start: 0, len: 0 },
    });
    assert_eq!(line, "r3 r4 r5 <- call func 1 ");
}

#[test]
fn copy_renders_result_and_provider() {
    let line = render_with_pool(
        Instruction::Copy {
            result: reg(2),
            input: ExecProvider::Immediate(ConstRef { index: 0 }),
        },
        vec![ConstValue::I32(-13)],
    );
    assert_eq!(line, "r2 <- -13");
}

#[test]
fn select_renders_condition_and_both_arms() {
    let line = render_with_pool(
        Instruction::Select {
            result: reg(1),
            condition: reg(2),
            if_true: ExecProvider::Register(reg(3)),
            if_false: ExecProvider::Immediate(ConstRef { index: 0 }),
        },
        vec![ConstValue::I32(9)],
    );
    assert_eq!(line, "r1 <- if r2 then r3 else 9");
}

#[test]
fn global_get_and_set() {
    let get = render(Instruction::GlobalGet {
        result: reg(0),
        global: GlobalIdx { value: 3 },
    });
    assert_eq!(get, "r0 <- global 3");
    let set = render(Instruction::GlobalSet {
        global: GlobalIdx { value: 4 },
        value: ExecProvider::Register(reg(8)),
    });
    assert_eq!(set, "global 4 <- r8");
}

#[test]
fn memory_size_and_grow() {
    let size = render(Instruction::MemorySize { result: reg(0) });
    assert_eq!(size, "r0 <- memory.size");
    let grow = render(Instruction::MemoryGrow {
        result: reg(0),
        amount: ExecProvider::Register(reg(1)),
    });
    assert_eq!(grow, "r0 <- memory.grow r1");
}

#[test]
fn store_renders_memory_destination_then_value() {
    let line = render_with_pool(
        Instruction::I64Store {
            ptr: reg(2),
            offset: Offset { value: 0 },
            value: ExecProvider::Immediate(ConstRef { index: 0 }),
        },
        vec![ConstValue::I64(5)],
    );
    assert_eq!(line, "i64.store mem[r2+0] <- 5");
}

#[test]
fn every_trap_cause_has_its_symbolic_name() {
    let cases = [
        (TrapCode::Unreachable, "trap -> unreachable"),
        (TrapCode::MemoryAccessOutOfBounds, "trap -> memory_access_out_of_bounds"),
        (TrapCode::TableAccessOutOfBounds, "trap -> table_access_out_of_bounds"),
        (TrapCode::ElemUninitialized, "trap -> element_uninitialized"),
        (TrapCode::DivisionByZero, "trap -> division_by_zero"),
        (TrapCode::IntegerOverflow, "trap -> integer_overflow"),
        (TrapCode::InvalidConversionToInt, "trap -> invalid_conversion_to_int"),
        (TrapCode::StackOverflow, "trap -> stack_overflow"),
        (TrapCode::UnexpectedSignature, "trap -> unexpected_signature"),
    ];
    for (code, expected) in cases {
        assert_eq!(render(Instruction::Trap { trap_code: code }), expected);
    }
}

#[test]
fn mnemonics_follow_the_text_format_convention() {
    let a = reg(0);
    let b = reg(1);
    let p = ExecProvider::Register(reg(2));
    let cases = [
        (Instruction::I64Rotr { result: a, lhs: b, rhs: p }, "r0 <- i64.rotr r1 r2"),
        (Instruction::F64Copysign { result: a, lhs: b, rhs: p }, "r0 <- f64.copysign r1 r2"),
        (Instruction::I32LtU { result: a, lhs: b, rhs: p }, "r0 <- i32.lt_u r1 r2"),
        (Instruction::F32Sqrt { result: a, input: b }, "r0 <- f32.sqrt r1"),
        (Instruction::I32TruncSatF64U { result: a, input: b }, "r0 <- i32.trunc_sat_f64_u r1"),
        (Instruction::I64ExtendUI32 { result: a, input: b }, "r0 <- i64.extend_i32_u r1"),
        (Instruction::F64PromoteF32 { result: a, input: b }, "r0 <- f64.promote_f32 r1"),
        (Instruction::I32WrapI64 { result: a, input: b }, "r0 <- i32.wrap_i64 r1"),
        (Instruction::I32Extend8S { result: a, input: b }, "r0 <- i32.extend8_s r1"),
    ];
    for (instr, expected) in cases {
        assert_eq!(render(instr), expected);
    }
}

#[test]
fn memory_mnemonics_cover_widths_and_signedness() {
    let line = render(Instruction::I64Load32U {
        result: reg(0),
        ptr: reg(1),
        offset: Offset { value: 16 },
    });
    assert_eq!(line, "i64.load32_u r0 <- mem[r1+16]");
    let line = render(Instruction::I32Store16 {
        ptr: reg(1),
        offset: Offset { value: 2 },
        value: ExecProvider::Register(reg(3)),
    });
    assert_eq!(line, "i32.store16 mem[r1+2] <- r3");
}

#[test]
fn every_non_branch_table_variant_renders_non_empty_text() {
    let res = EngineResources {
        const_pool: vec![ConstValue::I32(1)],
        provider_slices: vec![ExecProvider::Immediate(ConstRef { index: 0 })],
        func_types: vec![FuncType { params: Vec::new(), results: Vec::new() }],
    };
    let store = Store {
        instances: vec![InstanceEntity { func_types: vec![0] }],
    };
    let a = reg(0);
    let b = reg(1);
    let p = ExecProvider::Immediate(ConstRef { index: 0 });
    let slice = ExecProviderSlice { start: 0, len: 1 };
    let regs = ExecRegisterSlice { first: 0, len: 1 };
    let off = Offset { value: 4 };
    let sample = vec![
        Instruction::Br { target: Target { destination: 0 } },
        Instruction::ReturnNez { results: slice, condition: a },
        Instruction::Trap { trap_code: TrapCode::StackOverflow },
        Instruction::Return { results: ExecProviderSlice { start: 0, len: 0 } },
        Instruction::Call { func_idx: FuncIdx { value: 0 }, results: regs, params: slice },
        Instruction::CallIndirect {
            func_type_idx: FuncTypeIdx { value: 0 },
            results: regs,
            index: p,
            params: slice,
        },
        Instruction::Copy { result: a, input: p },
        Instruction::Select { result: a, condition: b, if_true: p, if_false: p },
        Instruction::GlobalGet { result: a, global: GlobalIdx { value: 0 } },
        Instruction::GlobalSet { global: GlobalIdx { value: 0 }, value: p },
        Instruction::MemorySize { result: a },
        Instruction::MemoryGrow { result: a, amount: p },
        Instruction::F32Load { result: a, ptr: b, offset: off },
        Instruction::F64Store { ptr: a, offset: off, value: p },
        Instruction::I64Popcnt { result: a, input: b },
        Instruction::I32RemS { result: a, lhs: b, rhs: p },
        Instruction::F32Nearest { result: a, input: b },
        Instruction::I64TruncSatF32S { result: a, input: b },
    ];
    for instr in sample {
        let line = render_in(instr, &res, &store).unwrap();
        assert!(!line.is_empty());
    }
}

#[test]
fn large_register_offset_and_immediate_values() {
    let line = render(Instruction::I32Load {
        result: reg(65535),
        ptr: reg(0),
        offset: Offset { value: 4294967295 },
    });
    assert_eq!(line, "i32.load r65535 <- mem[r0+4294967295]");
}
