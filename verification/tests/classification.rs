use wasm_instrumentation::ast::{Function, FunctionType, Idx, Instr, Memarg, ValType};
use wasm_instrumentation::group::{GlobalOp, InstrGroup, LocalOp};

#[test]
fn names_of_instructions() {
    assert_eq!(Instr::I32Add.to_instr_name(), "i32.add");
    assert_eq!(Instr::GetLocal(Idx::new(0)).to_instr_name(), "get_local");
    assert_eq!(Instr::I32WrapI64.to_instr_name(), "i32.wrap/i64");
}

#[test]
fn group_of_a_binary_instruction() {
    assert_eq!(
        Instr::I64LtS.group(),
        InstrGroup::Binary { first_ty: ValType::I64, second_ty: ValType::I64, result_ty: ValType::I32 }
    );
}

#[test]
fn opcodes() {
    assert_eq!(Instr::Unreachable.opcode(), 0x00);
    assert_eq!(Instr::End.opcode(), 0x0b);
    assert_eq!(Instr::Select.opcode(), 0x1b);
    assert_eq!(Instr::I64Store32(Memarg { alignment: 0, offset: 0 }).opcode(), 0x3e);
    assert_eq!(Instr::F64Const(1).opcode(), 0x44);
    assert_eq!(Instr::F64ReinterpretI64.opcode(), 0xbf);
    assert_eq!(Instr::I32Const(1).opcode(), Instr::I32Const(2).opcode());
}

#[test]
fn groups() {
    let memarg = Memarg { alignment: 1, offset: 2 };
    assert_eq!(Instr::F32Const(7).group(), InstrGroup::Const(ValType::F32));
    assert_eq!(
        Instr::I32WrapI64.group(),
        InstrGroup::Unary { input_ty: ValType::I64, result_ty: ValType::I32 }
    );
    assert_eq!(
        Instr::F64ConvertUI32.group(),
        InstrGroup::Unary { input_ty: ValType::I32, result_ty: ValType::F64 }
    );
    assert_eq!(
        Instr::F32Copysign.group(),
        InstrGroup::Binary { first_ty: ValType::F32, second_ty: ValType::F32, result_ty: ValType::F32 }
    );
    assert_eq!(Instr::I64Load16S(memarg).group(), InstrGroup::MemoryLoad(ValType::I64, memarg));
    assert_eq!(Instr::I32Store8(memarg).group(), InstrGroup::MemoryStore(ValType::I32, memarg));
    assert_eq!(Instr::TeeLocal(Idx::new(4)).group(), InstrGroup::Local(LocalOp::TeeLocal, Idx::new(4)));
    assert_eq!(Instr::GetGlobal(Idx::new(4)).group(), InstrGroup::Global(GlobalOp::GetGlobal, Idx::new(4)));
    for instr in [
        Instr::Nop,
        Instr::Block(None),
        Instr::Br(Idx::new(0)),
        Instr::Return,
        Instr::Drop,
        Instr::Select,
        Instr::CurrentMemory(Idx::new(0)),
        Instr::Call(Idx::new(0)),
    ] {
        assert_eq!(instr.group(), InstrGroup::Control);
    }
}

#[test]
fn types_of_instructions() {
    assert_eq!(
        Instr::I64LtS.to_type(),
        Some(FunctionType::new(vec![ValType::I64, ValType::I64], vec![ValType::I32]))
    );
    assert_eq!(
        Instr::F32Store(Memarg { alignment: 0, offset: 0 }).to_type(),
        Some(FunctionType::new(vec![ValType::I32, ValType::F32], vec![]))
    );
    assert_eq!(
        Instr::GrowMemory(Idx::new(0)).to_type(),
        Some(FunctionType::new(vec![ValType::I32], vec![ValType::I32]))
    );
    assert_eq!(Instr::Nop.to_type(), Some(FunctionType::new(vec![], vec![])));
    assert_eq!(Instr::Drop.to_type(), None);
    assert_eq!(Instr::GetLocal(Idx::new(0)).to_type(), None);
    assert_eq!(Instr::Call(Idx::new(0)).to_type(), None);
}

#[test]
fn a_second_instance_is_equal() {
    for instr in [Instr::I64Const(-3), Instr::GetLocal(Idx::new(8)), Instr::F32Sqrt, Instr::If(Some(ValType::F64))] {
        assert_eq!(instr.duplicate(), instr);
    }
}

#[test]
fn indices_from_numbers() {
    let a: Idx<Function> = 3.into();
    assert_eq!(a, Idx::new(3));
    assert_eq!(a.0, 3);
    assert_eq!(ValType::F64.to_str(), "f64");
    assert_eq!(Memarg::default(), Memarg { alignment: 0, offset: 0 });
}
