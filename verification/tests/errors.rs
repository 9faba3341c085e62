use wasm_instrumentation::add_hooks::instrument;
use wasm_instrumentation::ast::{Code, Function, FunctionType, Idx, Instr, Module, ValType};
use wasm_instrumentation::body::InstrumentError;
use wasm_instrumentation::rewrite::Fault;

fn module_with(params: Vec<ValType>, results: Vec<ValType>, body: Vec<Instr>) -> Module {
    Module {
        start: None,
        imports: vec![],
        exports: vec![],
        globals: vec![],
        functions: vec![Function {
            type_: FunctionType::new(params, results),
            code: Some(Code { locals: vec![], body }),
        }],
        tables: vec![],
        memories: vec![],
        custom_sections: vec![],
    }
}

fn fault_of(body: Vec<Instr>) -> Option<InstrumentError> {
    instrument(&mut module_with(vec![ValType::I32], vec![], body)).err()
}

fn at(instr: usize, fault: Fault) -> Option<InstrumentError> {
    Some(InstrumentError { func: 0, instr, fault })
}

#[test]
fn else_without_if() {
    assert_eq!(fault_of(vec![Instr::Block(None), Instr::Else, Instr::End, Instr::End]), at(1, Fault::Nesting));
    assert_eq!(fault_of(vec![Instr::End, Instr::Else]), at(1, Fault::Nesting));
}

#[test]
fn unknown_local() {
    assert_eq!(fault_of(vec![Instr::GetLocal(Idx::new(1)), Instr::End]), at(0, Fault::UnknownLocal));
    assert_eq!(fault_of(vec![Instr::GetLocal(Idx::new(0)), Instr::End]), None);
}

#[test]
fn a_local_that_the_instrumentation_added_is_known() {
    assert_eq!(
        fault_of(vec![
            Instr::GetLocal(Idx::new(0)),
            Instr::Drop,
            Instr::GetLocal(Idx::new(1)),
            Instr::Drop,
            Instr::End,
        ]),
        None
    );
}

#[test]
fn unknown_global() {
    assert_eq!(fault_of(vec![Instr::GetGlobal(Idx::new(0)), Instr::End]), at(0, Fault::UnknownGlobal));
}

#[test]
fn unknown_function() {
    assert_eq!(fault_of(vec![Instr::Nop, Instr::Call(Idx::new(1)), Instr::End]), at(1, Fault::UnknownFunction));
}

#[test]
fn a_hook_is_no_function_to_call() {
    // the hooks follow the functions; the information holds the functions alone
    let mut module = module_with(vec![], vec![], vec![Instr::Call(Idx::new(5)), Instr::End]);
    assert_eq!(instrument(&mut module).err(), at(0, Fault::UnknownFunction));
}

#[test]
fn unknown_label() {
    assert_eq!(fault_of(vec![Instr::Br(Idx::new(1)), Instr::End]), at(0, Fault::UnknownLabel));
    assert_eq!(fault_of(vec![Instr::Br(Idx::new(0)), Instr::End]), None);
    assert_eq!(
        fault_of(vec![Instr::GetLocal(Idx::new(0)), Instr::BrIf(Idx::new(3)), Instr::End]),
        at(1, Fault::UnknownLabel)
    );
}

#[test]
fn operands_of_the_wrong_type() {
    assert_eq!(
        fault_of(vec![Instr::GetLocal(Idx::new(0)), Instr::I64Eqz, Instr::End]),
        at(1, Fault::TypeStack)
    );
    assert_eq!(fault_of(vec![Instr::I32Add, Instr::End]), at(0, Fault::TypeStack));
    assert_eq!(
        fault_of(vec![
            Instr::I32Const(1),
            Instr::I64Const(2),
            Instr::GetLocal(Idx::new(0)),
            Instr::Select,
            Instr::End,
        ]),
        at(3, Fault::TypeStack)
    );
    assert_eq!(fault_of(vec![Instr::BrIf(Idx::new(0)), Instr::End]), at(0, Fault::TypeStack));
}

#[test]
fn values_below_a_block_are_out_of_reach() {
    assert_eq!(
        fault_of(vec![
            Instr::GetLocal(Idx::new(0)),
            Instr::Block(None),
            Instr::Drop,
            Instr::End,
            Instr::End,
        ]),
        at(2, Fault::TypeStack)
    );
}

#[test]
fn call_indirect_with_a_type_that_no_function_has() {
    let indirect = Instr::CallIndirect(FunctionType::new(vec![ValType::F64], vec![]), Idx::new(0));
    assert_eq!(
        fault_of(vec![Instr::F64Const(0), indirect, Instr::End]),
        at(1, Fault::MissingHook)
    );
}

#[test]
fn call_indirect_with_the_type_of_a_function() {
    let indirect = Instr::CallIndirect(FunctionType::new(vec![ValType::I32], vec![]), Idx::new(0));
    let mut module = module_with(
        vec![ValType::I32],
        vec![],
        vec![Instr::GetLocal(Idx::new(0)), indirect.clone(), Instr::End],
    );
    assert_eq!(instrument(&mut module).err(), None);
    let body = &module.functions[0].code.as_ref().unwrap().body;
    let place = body.iter().position(|i| *i == indirect).unwrap();
    // the index into the table is put back before the call
    assert_eq!(
        body[place - 8..place - 1].to_vec(),
        vec![
            Instr::SetLocal(Idx::new(1)),
            Instr::TeeLocal(Idx::new(2)),
            Instr::GetLocal(Idx::new(1)),
            Instr::I32Const(0),
            Instr::I32Const(1),
            Instr::GetLocal(Idx::new(1)),
            Instr::GetLocal(Idx::new(2)),
        ]
    );
    assert!(matches!(body[place - 1], Instr::Call(_)));
    assert_eq!(
        module.functions[0].code.as_ref().unwrap().locals,
        vec![ValType::I32, ValType::I32]
    );
}

#[test]
fn the_first_fault_is_reported() {
    let mut module = module_with(vec![], vec![], vec![Instr::End]);
    module.functions.push(Function {
        type_: FunctionType::new(vec![], vec![]),
        code: Some(Code { locals: vec![], body: vec![Instr::Nop, Instr::Drop, Instr::Else] }),
    });
    module.functions.push(Function {
        type_: FunctionType::new(vec![], vec![]),
        code: Some(Code { locals: vec![], body: vec![Instr::Else] }),
    });
    assert_eq!(
        instrument(&mut module).err(),
        Some(InstrumentError { func: 1, instr: 1, fault: Fault::TypeStack })
    );
}
