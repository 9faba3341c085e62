use wasm_instrumentation::add_hooks::{add_hooks, instrument};
use wasm_instrumentation::ast::{
    Code, Function, FunctionType, Idx, ImportType, Instr, Module, ValType,
};
use wasm_instrumentation::body::InstrumentError;
use wasm_instrumentation::rewrite::Fault;
use wasm_instrumentation::static_info::BrTableInfo;

fn empty_module() -> Module {
    Module {
        start: None,
        imports: vec![],
        exports: vec![],
        globals: vec![],
        functions: vec![],
        tables: vec![],
        memories: vec![],
        custom_sections: vec![],
    }
}

fn function(params: Vec<ValType>, results: Vec<ValType>, body: Vec<Instr>) -> Function {
    Function { type_: FunctionType::new(params, results), code: Some(Code { locals: vec![], body }) }
}

fn module_of(functions: Vec<Function>) -> Module {
    let mut module = empty_module();
    module.functions = functions;
    module
}

/// The function index of the hook with the given name, in a module that
/// had `given` functions and no imports before it was instrumented.
fn hook(module: &Module, given: usize, name: &str) -> Idx<wasm_instrumentation::ast::Function> {
    let at = module
        .imports
        .iter()
        .position(|import| import.module == "hooks" && import.name == name)
        .unwrap_or_else(|| panic!("no hook {}", name));
    Idx::new(given + at)
}

fn body_of(module: &Module, func: usize) -> Vec<Instr> {
    module.functions[func].code.as_ref().unwrap().body.clone()
}

fn hook_params(module: &Module, name: &str) -> Vec<ValType> {
    let import = module.imports.iter().find(|import| import.name == name).unwrap();
    match &import.type_ {
        ImportType::Function(ty) => {
            assert!(ty.results.is_empty());
            ty.params.clone()
        }
        _ => panic!("hook {} is no function", name),
    }
}

fn calls_of(body: &[Instr], target: Idx<wasm_instrumentation::ast::Function>) -> usize {
    body.iter().filter(|instr| **instr == Instr::Call(target)).count()
}

#[test]
fn empty_function() {
    let mut module = module_of(vec![function(vec![], vec![], vec![Instr::End])]);
    let js = add_hooks(&mut module);
    assert!(js.is_some());
    assert_eq!(
        body_of(&module, 0),
        vec![
            Instr::I32Const(0),
            Instr::I32Const(-1),
            Instr::Call(hook(&module, 1, "begin_function")),
            Instr::I32Const(0),
            Instr::I32Const(0),
            Instr::Call(hook(&module, 1, "end_function")),
            Instr::End,
        ]
    );
    assert!(module.functions[0].code.as_ref().unwrap().locals.is_empty());
}

#[test]
fn add_of_two_locals() {
    let mut module = module_of(vec![function(
        vec![ValType::I32, ValType::I32],
        vec![ValType::I32],
        vec![
            Instr::GetLocal(Idx::new(0)),
            Instr::GetLocal(Idx::new(1)),
            Instr::I32Add,
            Instr::End,
        ],
    )]);
    add_hooks(&mut module).unwrap();
    let get = hook(&module, 1, "get_local_i32");
    let add = hook(&module, 1, "i32.add");
    let end = hook(&module, 1, "end_function");
    let body = body_of(&module, 0);
    assert_eq!(
        body,
        vec![
            Instr::I32Const(0),
            Instr::I32Const(-1),
            Instr::Call(hook(&module, 1, "begin_function")),
            // get_local 0
            Instr::GetLocal(Idx::new(0)),
            Instr::I32Const(0),
            Instr::I32Const(0),
            Instr::I32Const(0),
            Instr::GetLocal(Idx::new(0)),
            Instr::Call(get),
            // get_local 1
            Instr::GetLocal(Idx::new(1)),
            Instr::I32Const(0),
            Instr::I32Const(1),
            Instr::I32Const(1),
            Instr::GetLocal(Idx::new(1)),
            Instr::Call(get),
            // i32.add
            Instr::SetLocal(Idx::new(3)),
            Instr::TeeLocal(Idx::new(2)),
            Instr::GetLocal(Idx::new(3)),
            Instr::I32Add,
            Instr::TeeLocal(Idx::new(4)),
            Instr::I32Const(0),
            Instr::I32Const(2),
            Instr::GetLocal(Idx::new(2)),
            Instr::GetLocal(Idx::new(3)),
            Instr::GetLocal(Idx::new(4)),
            Instr::Call(add),
            // end
            Instr::I32Const(0),
            Instr::I32Const(3),
            Instr::Call(end),
            Instr::End,
        ]
    );
    assert_eq!(calls_of(&body, get), 2);
    assert_eq!(calls_of(&body, add), 1);
    assert_eq!(calls_of(&body, end), 1);
    assert_eq!(
        module.functions[0].code.as_ref().unwrap().locals,
        vec![ValType::I32, ValType::I32, ValType::I32]
    );
    assert_eq!(
        hook_params(&module, "i32.add"),
        vec![ValType::I32, ValType::I32, ValType::I32, ValType::I32, ValType::I32]
    );
}

#[test]
fn return_of_an_i64() {
    let mut module = module_of(vec![function(
        vec![],
        vec![ValType::I64],
        vec![Instr::I64Const(42), Instr::Return, Instr::End],
    )]);
    add_hooks(&mut module).unwrap();
    let split_of = |instr: Instr| {
        vec![
            instr.clone(),
            Instr::I32WrapI64,
            instr,
            Instr::I64Const(32),
            Instr::I64ShrU,
            Instr::I32WrapI64,
        ]
    };
    let mut want = vec![
        Instr::I32Const(0),
        Instr::I32Const(-1),
        Instr::Call(hook(&module, 1, "begin_function")),
        Instr::I32Const(0),
        Instr::I32Const(0),
    ];
    want.extend(split_of(Instr::I64Const(42)));
    want.extend(vec![
        Instr::Call(hook(&module, 1, "i64.const")),
        Instr::I64Const(42),
        Instr::TeeLocal(Idx::new(0)),
        Instr::I32Const(0),
        Instr::I32Const(1),
    ]);
    want.extend(split_of(Instr::GetLocal(Idx::new(0))));
    want.extend(vec![
        Instr::Call(hook(&module, 1, "return_i64")),
        Instr::Return,
        Instr::I32Const(0),
        Instr::I32Const(2),
        Instr::Call(hook(&module, 1, "end_function")),
        Instr::End,
    ]);
    assert_eq!(body_of(&module, 0), want);
    assert_eq!(
        hook_params(&module, "return_i64"),
        vec![ValType::I32, ValType::I32, ValType::I32, ValType::I32]
    );
    assert_eq!(
        hook_params(&module, "i64.const"),
        vec![ValType::I32, ValType::I32, ValType::I32, ValType::I32]
    );
    assert_eq!(module.functions[0].code.as_ref().unwrap().locals, vec![ValType::I64]);
}

#[test]
fn if_with_else() {
    let mut module = module_of(vec![function(
        vec![],
        vec![ValType::I32],
        vec![
            Instr::I32Const(1),
            Instr::If(Some(ValType::I32)),
            Instr::I32Const(10),
            Instr::Else,
            Instr::I32Const(20),
            Instr::End,
            Instr::End,
        ],
    )]);
    add_hooks(&mut module).unwrap();
    let body = body_of(&module, 0);
    let if_ = hook(&module, 1, "if_");
    let begin_if = hook(&module, 1, "begin_if");
    let end_if = hook(&module, 1, "end_if");
    let begin_else = hook(&module, 1, "begin_else");
    let end_else = hook(&module, 1, "end_else");
    let end_function = hook(&module, 1, "end_function");
    let konst = hook(&module, 1, "i32.const");
    let constant = |iidx: i32, value: i32| {
        vec![
            Instr::I32Const(0),
            Instr::I32Const(iidx),
            Instr::I32Const(value),
            Instr::Call(konst),
            Instr::I32Const(value),
        ]
    };
    let mut want = vec![
        Instr::I32Const(0),
        Instr::I32Const(-1),
        Instr::Call(hook(&module, 1, "begin_function")),
    ];
    want.extend(constant(0, 1));
    want.extend(vec![
        Instr::TeeLocal(Idx::new(0)),
        Instr::I32Const(0),
        Instr::I32Const(1),
        Instr::GetLocal(Idx::new(0)),
        Instr::Call(if_),
        Instr::If(Some(ValType::I32)),
        Instr::I32Const(0),
        Instr::I32Const(1),
        Instr::Call(begin_if),
    ]);
    want.extend(constant(2, 10));
    want.extend(vec![
        Instr::I32Const(0),
        Instr::I32Const(3),
        Instr::I32Const(1),
        Instr::Call(end_else),
        Instr::Else,
        Instr::I32Const(0),
        Instr::I32Const(3),
        Instr::Call(begin_else),
    ]);
    want.extend(constant(4, 20));
    want.extend(vec![
        Instr::I32Const(0),
        Instr::I32Const(5),
        Instr::I32Const(3),
        Instr::Call(end_else),
        Instr::End,
        Instr::I32Const(0),
        Instr::I32Const(6),
        Instr::Call(end_function),
        Instr::End,
    ]);
    assert_eq!(body, want);
    assert_eq!(calls_of(&body, end_if), 0);
}

#[test]
fn if_without_else_ends_with_end_if() {
    let mut module = module_of(vec![function(
        vec![ValType::I32],
        vec![],
        vec![
            Instr::GetLocal(Idx::new(0)),
            Instr::If(None),
            Instr::Nop,
            Instr::End,
            Instr::End,
        ],
    )]);
    add_hooks(&mut module).unwrap();
    let body = body_of(&module, 0);
    let end_if = hook(&module, 1, "end_if");
    let at = body.iter().position(|i| *i == Instr::Call(end_if)).unwrap();
    assert_eq!(
        body[at - 3..at + 2].to_vec(),
        vec![
            Instr::I32Const(0),
            Instr::I32Const(3),
            Instr::I32Const(1),
            Instr::Call(end_if),
            Instr::End,
        ]
    );
    assert_eq!(calls_of(&body, hook(&module, 1, "nop")), 1);
}

#[test]
fn br_table_in_nested_blocks() {
    let table = Instr::BrTable(vec![Idx::new(0), Idx::new(1)], Idx::new(2));
    let mut module = module_of(vec![function(
        vec![ValType::I32],
        vec![],
        vec![
            Instr::Loop(None),
            Instr::Block(None),
            Instr::Block(None),
            Instr::GetLocal(Idx::new(0)),
            table.clone(),
            Instr::End,
            Instr::End,
            Instr::End,
            Instr::End,
        ],
    )]);
    let (info, _) = instrument(&mut module).unwrap();
    assert_eq!(info.br_tables, vec![BrTableInfo::new(vec![0, 1], 2)]);
    let body = body_of(&module, 0);
    let at = body.iter().position(|i| *i == table).unwrap();
    assert_eq!(
        body[at - 6..at + 1].to_vec(),
        vec![
            Instr::TeeLocal(Idx::new(1)),
            Instr::I32Const(0),
            Instr::I32Const(4),
            Instr::I32Const(0),
            Instr::GetLocal(Idx::new(1)),
            Instr::Call(hook(&module, 1, "br_table")),
            table.clone(),
        ]
    );
    assert_eq!(calls_of(&body, hook(&module, 1, "begin_loop")), 1);
    assert_eq!(calls_of(&body, hook(&module, 1, "begin_block")), 2);
    assert_eq!(calls_of(&body, hook(&module, 1, "end_block")), 2);
    assert_eq!(calls_of(&body, hook(&module, 1, "end_loop")), 1);
}

#[test]
fn call_with_i64_argument() {
    let callee = function(
        vec![ValType::I32, ValType::I64],
        vec![ValType::F64],
        vec![Instr::F64Const(0), Instr::End],
    );
    let caller = function(
        vec![],
        vec![],
        vec![
            Instr::I32Const(7),
            Instr::I64Const(8),
            Instr::Call(Idx::new(0)),
            Instr::Drop,
            Instr::End,
        ],
    );
    let mut module = module_of(vec![callee, caller]);
    let js = add_hooks(&mut module).unwrap();
    assert_eq!(
        hook_params(&module, "call_i32_i64"),
        vec![
            ValType::I32,
            ValType::I32,
            ValType::I32,
            ValType::I32,
            ValType::I32,
            ValType::I32
        ]
    );
    assert_eq!(
        hook_params(&module, "call_result_f64"),
        vec![ValType::I32, ValType::I32, ValType::F64]
    );
    assert!(js.contains(
        "call_i32_i64: function(func, instr, targetFunc, arg0, arg1_low, arg1_high) {\n        call_pre({func, instr}, targetFunc, false, [arg0, new Long(arg1_low, arg1_high)]);\n    },"
    ));
    assert!(js.contains(
        "call_result_f64: function(func, instr, result0) {\n        call_post({func, instr}, [result0]);\n    },"
    ));
    let body = body_of(&module, 1);
    let at = body.iter().position(|i| *i == Instr::Call(Idx::new(0))).unwrap();
    let pre = hook(&module, 2, "call_i32_i64");
    let post = hook(&module, 2, "call_result_f64");
    assert_eq!(
        body[at - 14..at + 7].to_vec(),
        vec![
            Instr::SetLocal(Idx::new(1)),
            Instr::TeeLocal(Idx::new(0)),
            Instr::GetLocal(Idx::new(1)),
            Instr::I32Const(1),
            Instr::I32Const(2),
            Instr::I32Const(0),
            Instr::GetLocal(Idx::new(0)),
            Instr::GetLocal(Idx::new(1)),
            Instr::I32WrapI64,
            Instr::GetLocal(Idx::new(1)),
            Instr::I64Const(32),
            Instr::I64ShrU,
            Instr::I32WrapI64,
            Instr::Call(pre),
            Instr::Call(Idx::new(0)),
            Instr::TeeLocal(Idx::new(2)),
            Instr::I32Const(1),
            Instr::I32Const(2),
            Instr::GetLocal(Idx::new(2)),
            Instr::Call(post),
            Instr::SetLocal(Idx::new(3)),
        ]
    );
    assert_eq!(
        module.functions[1].code.as_ref().unwrap().locals,
        vec![ValType::I32, ValType::I64, ValType::F64, ValType::F64]
    );
}

#[test]
fn end_without_block_is_an_error() {
    let mut module = module_of(vec![function(vec![], vec![], vec![Instr::End, Instr::End])]);
    assert_eq!(
        instrument(&mut module).err(),
        Some(InstrumentError { func: 0, instr: 1, fault: Fault::Nesting })
    );
}

#[test]
fn open_block_at_the_end_is_an_error() {
    let mut module = module_of(vec![function(vec![], vec![], vec![Instr::Block(None), Instr::End])]);
    assert_eq!(
        instrument(&mut module).err(),
        Some(InstrumentError { func: 0, instr: 2, fault: Fault::Nesting })
    );
}

#[test]
fn drop_on_empty_stack_is_an_error() {
    let mut module = module_of(vec![
        function(vec![], vec![], vec![Instr::End]),
        function(vec![], vec![], vec![Instr::Nop, Instr::Drop, Instr::End]),
    ]);
    assert_eq!(
        instrument(&mut module).err(),
        Some(InstrumentError { func: 1, instr: 1, fault: Fault::TypeStack })
    );
}

#[test]
fn the_condition_of_an_if_stays_on_the_type_stack() {
    // the type stack is not told that an `if` takes its condition: the
    // `drop` after the block finds the type of the condition
    let mut module = module_of(vec![function(
        vec![],
        vec![],
        vec![
            Instr::F32Const(0),
            Instr::I32Const(1),
            Instr::If(None),
            Instr::End,
            Instr::Drop,
            Instr::End,
        ],
    )]);
    add_hooks(&mut module).unwrap();
    let body = body_of(&module, 0);
    assert_eq!(calls_of(&body, hook(&module, 1, "drop_i32")), 1);
    assert_eq!(calls_of(&body, hook(&module, 1, "drop_f32")), 0);
    assert_eq!(
        module.functions[0].code.as_ref().unwrap().locals,
        vec![ValType::I32, ValType::I32]
    );
}

#[test]
fn the_result_of_a_block_is_not_on_the_type_stack() {
    let mut module = module_of(vec![function(
        vec![],
        vec![],
        vec![
            Instr::Block(Some(ValType::I64)),
            Instr::I64Const(1),
            Instr::End,
            Instr::Drop,
            Instr::End,
        ],
    )]);
    assert_eq!(
        instrument(&mut module).err(),
        Some(InstrumentError { func: 0, instr: 3, fault: Fault::TypeStack })
    );
}

#[test]
fn indices_are_cut_down_to_32_bits() {
    let mut module = module_of(vec![function(
        vec![],
        vec![],
        vec![Instr::I32Load(wasm_instrumentation::ast::Memarg { alignment: 2, offset: 0xffff_ffff }), Instr::End],
    )]);
    // an address is missing on the type stack
    assert_eq!(
        instrument(&mut module).err(),
        Some(InstrumentError { func: 0, instr: 0, fault: Fault::TypeStack })
    );
    let mut module = module_of(vec![function(
        vec![ValType::I32],
        vec![],
        vec![
            Instr::GetLocal(Idx::new(0)),
            Instr::I32Load(wasm_instrumentation::ast::Memarg { alignment: 2, offset: 0xffff_ffff }),
            Instr::Drop,
            Instr::End,
        ],
    )]);
    add_hooks(&mut module).unwrap();
    let body = body_of(&module, 0);
    let at = body.iter().position(|i| matches!(i, Instr::I32Load(_))).unwrap();
    assert_eq!(
        body[at - 1..at + 9].to_vec(),
        vec![
            Instr::TeeLocal(Idx::new(1)),
            Instr::I32Load(wasm_instrumentation::ast::Memarg { alignment: 2, offset: 0xffff_ffff }),
            Instr::TeeLocal(Idx::new(2)),
            Instr::I32Const(0),
            Instr::I32Const(1),
            Instr::I32Const(-1),
            Instr::I32Const(2),
            Instr::GetLocal(Idx::new(1)),
            Instr::GetLocal(Idx::new(2)),
            Instr::Call(hook(&module, 1, "i32.load")),
        ]
    );
}
