//! Tests of the operand renderers: decimal formatting at its extremes and
//! the four shared category templates used by the dispatcher.

use bytecode_printer::bytecode::{
    ConstRef, ConstValue, ExecProvider, ExecRegister, Instruction, Offset,
};
use bytecode_printer::context::{EngineResources, Instance, InstanceEntity, Store, StoreContext};
use bytecode_printer::printer::DisplayExecInstruction;
use bytecode_printer::text::{append_i32, append_i64, append_u32, append_u64};

fn reg(idx: u16) -> ExecRegister {
    ExecRegister { idx }
}

fn copy_of(value: ConstValue) -> String {
    let res = EngineResources {
        const_pool: vec![value],
        provider_slices: Vec::new(),
        func_types: Vec::new(),
    };
    let store = Store {
        instances: vec![InstanceEntity { func_types: Vec::new() }],
    };
    let ctx = StoreContext { store: &store };
    let instr = Instruction::Copy {
        result: reg(0),
        input: ExecProvider::Immediate(ConstRef { index: 0 }),
    };
    DisplayExecInstruction::new(ctx, &res, Instance { idx: 0 }, &instr)
        .to_text()
        .unwrap()
}

#[test]
fn unsigned_decimal_digits() {
    let mut s = String::new();
    append_u64(&mut s, 0);
    assert_eq!(s, "0");
    let mut s = String::new();
    append_u64(&mut s, 1234567890123456789);
    assert_eq!(s, "1234567890123456789");
    let mut s = String::new();
    append_u64(&mut s, u64::MAX);
    assert_eq!(s, "18446744073709551615");
    let mut s = String::new();
    append_u32(&mut s, u32::MAX);
    assert_eq!(s, "4294967295");
}

#[test]
fn signed_decimal_digits() {
    let mut s = String::new();
    append_i64(&mut s, 0);
    assert_eq!(s, "0");
    let mut s = String::new();
    append_i64(&mut s, -1);
    assert_eq!(s, "-1");
    let mut s = String::new();
    append_i64(&mut s, i64::MIN);
    assert_eq!(s, "-9223372036854775808");
    let mut s = String::new();
    append_i64(&mut s, i64::MAX);
    assert_eq!(s, "9223372036854775807");
    let mut s = String::new();
    append_i32(&mut s, i32::MIN);
    assert_eq!(s, "-2147483648");
}

#[test]
fn immediates_render_in_their_native_type() {
    assert_eq!(copy_of(ConstValue::I32(0)), "r0 <- 0");
    assert_eq!(copy_of(ConstValue::I32(i32::MIN)), "r0 <- -2147483648");
    assert_eq!(copy_of(ConstValue::I64(i64::MIN)), "r0 <- -9223372036854775808");
    assert_eq!(copy_of(ConstValue::I64(i64::MAX)), "r0 <- 9223372036854775807");
}

#[test]
fn category_templates_write_into_a_caller_owned_sink() {
    let res = EngineResources {
        const_pool: vec![ConstValue::I32(5)],
        provider_slices: Vec::new(),
        func_types: Vec::new(),
    };
    let store = Store {
        instances: vec![InstanceEntity { func_types: Vec::new() }],
    };
    let ctx = StoreContext { store: &store };
    let instr = Instruction::MemorySize { result: reg(0) };
    let printer = DisplayExecInstruction::new(ctx, &res, Instance { idx: 0 }, &instr);

    let mut out = String::new();
    printer.write_unary(&mut out, "i32.popcnt", reg(7), reg(8));
    assert_eq!(out, "r7 <- i32.popcnt r8");

    let mut out = String::new();
    printer.write_binary(
        &mut out,
        "i64.xor",
        reg(0),
        reg(1),
        ExecProvider::Immediate(ConstRef { index: 0 }),
    );
    assert_eq!(out, "r0 <- i64.xor r1 5");

    let mut out = String::new();
    printer.write_load(&mut out, "i64.load16_s", reg(2), reg(3), Offset { value: 12 });
    assert_eq!(out, "i64.load16_s r2 <- mem[r3+12]");

    let mut out = String::new();
    printer.write_store(
        &mut out,
        "i32.store8",
        reg(4),
        Offset { value: 1 },
        ExecProvider::Register(reg(6)),
    );
    assert_eq!(out, "i32.store8 mem[r4+1] <- r6");
}

#[test]
fn templates_append_after_existing_text() {
    let res = EngineResources {
        const_pool: Vec::new(),
        provider_slices: Vec::new(),
        func_types: Vec::new(),
    };
    let store = Store {
        instances: vec![InstanceEntity { func_types: Vec::new() }],
    };
    let ctx = StoreContext { store: &store };
    let instr = Instruction::MemorySize { result: reg(0) };
    let printer = DisplayExecInstruction::new(ctx, &res, Instance { idx: 0 }, &instr);

    let mut out = String::from("0001: ");
    printer.write_unary(&mut out, "i64.clz", reg(1), reg(2));
    assert_eq!(out, "0001: r1 <- i64.clz r2");
}
