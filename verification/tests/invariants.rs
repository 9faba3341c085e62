use wasm_instrumentation::add_hooks::{add_hooks, export_tables, instrument, unique_types};
use wasm_instrumentation::ast::{
    Code, ElemType, Export, ExportType, Function, FunctionType, Idx, ImportType, Instr, Limits, Memarg,
    Module, Table, TableType, ValType,
};
use wasm_instrumentation::convert_i64::{convert_i64_instr, convert_i64_type};
use wasm_instrumentation::splice::{restore_locals_with_i64_handling, save_stack_to_locals};
use wasm_instrumentation::type_vectors::{insert_sorted, types_less};

const I32: ValType = ValType::I32;
const I64: ValType = ValType::I64;
const F32: ValType = ValType::F32;
const F64: ValType = ValType::F64;

fn bare_module() -> Module {
    Module {
        start: None,
        imports: vec![],
        exports: vec![],
        globals: vec![],
        functions: vec![],
        tables: vec![],
        memories: vec![],
        custom_sections: vec![],
    }
}

fn defined(params: Vec<ValType>, results: Vec<ValType>, body: Vec<Instr>) -> Function {
    Function { type_: FunctionType::new(params, results), code: Some(Code { locals: vec![], body }) }
}

fn sample() -> Module {
    let mut module = bare_module();
    module.functions = vec![
        defined(
            vec![ValType::I32, ValType::I64],
            vec![ValType::I64],
            vec![
                Instr::Block(None),
                Instr::GetLocal(Idx::new(0)),
                Instr::If(None),
                Instr::GetLocal(Idx::new(1)),
                Instr::I64Const(1),
                Instr::I64Add,
                Instr::SetLocal(Idx::new(1)),
                Instr::Else,
                Instr::Loop(None),
                Instr::GetLocal(Idx::new(0)),
                Instr::BrIf(Idx::new(0)),
                Instr::Br(Idx::new(2)),
                Instr::End,
                Instr::End,
                Instr::End,
                Instr::I32Const(16),
                Instr::GetLocal(Idx::new(1)),
                Instr::I64Store(Memarg { alignment: 3, offset: 4 }),
                Instr::I32Const(16),
                Instr::I64Load32U(Memarg { alignment: 2, offset: 0 }),
                Instr::Return,
                Instr::End,
            ],
        ),
        Function { type_: FunctionType::new(vec![ValType::F32], vec![]), code: None },
        defined(
            vec![],
            vec![ValType::I64],
            vec![
                Instr::I32Const(1),
                Instr::I64Const(2),
                Instr::Call(Idx::new(0)),
                Instr::I64Const(4),
                Instr::GetLocal(Idx::new(0)),
                Instr::Select,
                Instr::CurrentMemory(Idx::new(0)),
                Instr::GrowMemory(Idx::new(0)),
                Instr::I64ExtendUI32,
                Instr::I64Mul,
                Instr::Unreachable,
                Instr::End,
            ],
        ),
    ];
    module
}

fn is_subsequence(a: &[Instr], b: &[Instr]) -> bool {
    let mut rest = b.iter();
    a.iter().all(|x| rest.any(|y| y == x))
}

fn skeleton(body: &[Instr]) -> Vec<Instr> {
    body.iter()
        .filter(|i| {
            matches!(i, Instr::Block(_) | Instr::Loop(_) | Instr::If(_) | Instr::Else | Instr::End)
        })
        .cloned()
        .collect()
}

#[test]
fn bodies_keep_their_instructions_and_blocks() {
    let before = sample();
    let mut after = sample();
    add_hooks(&mut after).unwrap();
    for (f, g) in before.functions.iter().zip(after.functions.iter()) {
        assert_eq!(f.type_, g.type_);
        match (&f.code, &g.code) {
            (None, None) => {}
            (Some(old), Some(new)) => {
                assert!(is_subsequence(&old.body, &new.body));
                assert_eq!(skeleton(&old.body), skeleton(&new.body));
                assert!(new.body.len() >= 3 + 4 * old.body.len());
            }
            _ => panic!("code appeared or went away"),
        }
    }
}

#[test]
fn a_drop_does_not_stay() {
    let mut module = bare_module();
    module.functions = vec![defined(vec![], vec![], vec![Instr::I64Const(5), Instr::Drop, Instr::End])];
    add_hooks(&mut module).unwrap();
    let body = &module.functions[0].code.as_ref().unwrap().body;
    assert!(!body.contains(&Instr::Drop));
    let at = body.iter().position(|i| *i == Instr::SetLocal(Idx::new(0))).unwrap();
    assert_eq!(
        body[at..at + 9].to_vec(),
        vec![
            Instr::SetLocal(Idx::new(0)),
            Instr::I32Const(0),
            Instr::I32Const(1),
            Instr::GetLocal(Idx::new(0)),
            Instr::I32WrapI64,
            Instr::GetLocal(Idx::new(0)),
            Instr::I64Const(32),
            Instr::I64ShrU,
            Instr::I32WrapI64,
        ]
    );
    assert!(matches!(body[at + 9], Instr::Call(_)));
}

#[test]
fn the_number_of_hooks() {
    let before = sample();
    let mut after = sample();
    add_hooks(&mut after).unwrap();
    // parameter vectors: [], [f32], [i32, i64]; result vectors: [], [i64]
    let hooks = 2 * 2 + 2 * 3 + 28 + 18 + 150;
    assert_eq!(after.functions.len(), before.functions.len() + hooks);
    assert_eq!(after.imports.len(), hooks);
    for (k, import) in after.imports.iter().enumerate() {
        assert_eq!(import.module, "hooks");
        let function = &after.functions[before.functions.len() + k];
        assert!(function.code.is_none());
        match &import.type_ {
            ImportType::Function(ty) => {
                assert_eq!(*ty, function.type_);
                assert!(ty.results.is_empty());
                assert_eq!(ty.params[..2].to_vec(), vec![ValType::I32, ValType::I32]);
                assert!(!ty.params.contains(&ValType::I64));
            }
            _ => panic!("a hook is a function"),
        }
    }
    let mut names: Vec<&str> = after.imports.iter().map(|i| i.name.as_str()).collect();
    names.sort();
    names.dedup();
    assert_eq!(names.len(), hooks);
}

#[test]
fn the_order_of_the_hooks() {
    let mut module = sample();
    add_hooks(&mut module).unwrap();
    let names: Vec<&str> = module.imports.iter().map(|i| i.name.as_str()).collect();
    assert_eq!(
        names[..8].to_vec(),
        vec![
            "return_",
            "return_i64",
            "get_local_i32",
            "get_local_i64",
            "get_local_f32",
            "get_local_f64",
            "set_local_i32",
            "set_local_i64",
        ]
    );
    assert_eq!(
        names[22..46].to_vec(),
        vec![
            "drop_i32",
            "drop_i64",
            "drop_f32",
            "drop_f64",
            "select_i32_i32",
            "select_i64_i64",
            "select_f32_f32",
            "select_f64_f64",
            "call_",
            "call_i32_i64",
            "call_f32",
            "call_indirect_",
            "call_indirect_i32_i64",
            "call_indirect_f32",
            "call_result_",
            "call_result_i64",
            "if_",
            "br",
            "br_if",
            "br_table",
            "begin_function",
            "end_function",
            "begin_block",
            "end_block",
        ]
    );
    assert_eq!(
        names[54..60].to_vec(),
        vec!["current_memory", "grow_memory", "i32.const", "i64.const", "f32.const", "f64.const"]
    );
    assert_eq!(names[60], "i32.eqz");
    assert_eq!(names[names.len() - 1], "f64.store");
}

#[test]
fn every_instruction_is_reported_by_its_hook() {
    let before = sample();
    let mut after = sample();
    add_hooks(&mut after).unwrap();
    let given = before.functions.len();
    let hook = |name: &str| {
        let at = after.imports.iter().position(|i| i.name == name).unwrap();
        Instr::Call(Idx::new(given + at))
    };
    let body = &after.functions[2].code.as_ref().unwrap().body;
    let count = |name: &str| body.iter().filter(|i| **i == hook(name)).count();
    assert_eq!(count("begin_function"), 1);
    assert_eq!(count("i32.const"), 1);
    assert_eq!(count("i64.const"), 2);
    assert_eq!(count("call_i32_i64"), 1);
    assert_eq!(count("call_result_i64"), 1);
    // the local 0 is the first that the instrumentation has added
    assert_eq!(count("get_local_i32"), 1);
    assert_eq!(count("select_i64_i64"), 1);
    assert_eq!(count("current_memory"), 1);
    assert_eq!(count("grow_memory"), 1);
    assert_eq!(count("i64.extend_u/i32"), 1);
    assert_eq!(count("i64.mul"), 1);
    assert_eq!(count("unreachable"), 1);
    assert_eq!(count("end_function"), 1);
    let calls = body.iter().filter(|i| matches!(i, Instr::Call(idx) if idx.0 >= given)).count();
    assert_eq!(calls, 14);
}

fn table() -> Table {
    Table {
        type_: TableType(ElemType::Anyfunc, Limits { initial_size: 1, max_size: None }),
        inits: vec![],
    }
}

#[test]
fn a_table_without_export_is_exported_as_table() {
    let mut module = bare_module();
    module.tables = vec![table()];
    module.exports = vec![Export { name: "f".to_string(), type_: ExportType::Function(Idx::new(0)) }];
    module.functions = vec![defined(vec![], vec![], vec![Instr::End])];
    add_hooks(&mut module).unwrap();
    assert_eq!(
        module.exports,
        vec![
            Export { name: "f".to_string(), type_: ExportType::Function(Idx::new(0)) },
            Export { name: "table".to_string(), type_: ExportType::Table(Idx::new(0)) },
        ]
    );
}

#[test]
fn an_exported_table_keeps_its_export() {
    let mut module = bare_module();
    module.tables = vec![table()];
    module.exports = vec![Export { name: "tbl".to_string(), type_: ExportType::Table(Idx::new(0)) }];
    let exports = module.exports.clone();
    export_tables(&mut module);
    assert_eq!(module.exports, exports);
    instrument(&mut module).unwrap();
    assert_eq!(module.exports, exports);
}

#[test]
fn a_module_without_table_gets_no_export() {
    let mut module = bare_module();
    module.exports = vec![Export { name: "t".to_string(), type_: ExportType::Memory(Idx::new(0)) }];
    export_tables(&mut module);
    assert_eq!(module.exports.len(), 1);
}

#[derive(Clone, Copy, Debug, PartialEq)]
enum Word {
    I32(u32),
    I64(u64),
    F64(u64),
}

/// Runs the instructions that the instrumentation puts around a hook call.
fn run(stack: &mut Vec<Word>, locals: &mut Vec<Option<Word>>, code: &[Instr]) {
    for instr in code {
        match instr {
            Instr::GetLocal(l) => stack.push(locals[l.0].unwrap()),
            Instr::SetLocal(l) => locals[l.0] = Some(stack.pop().unwrap()),
            Instr::TeeLocal(l) => locals[l.0] = Some(*stack.last().unwrap()),
            Instr::I64Const(c) => stack.push(Word::I64(*c as u64)),
            Instr::I32WrapI64 => match stack.pop().unwrap() {
                Word::I64(v) => stack.push(Word::I32(v as u32)),
                other => panic!("wrap of {:?}", other),
            },
            Instr::I64ShrU => match (stack.pop().unwrap(), stack.pop().unwrap()) {
                (Word::I64(by), Word::I64(v)) => stack.push(Word::I64(v >> (by % 64))),
                other => panic!("shift of {:?}", other),
            },
            other => panic!("not modelled: {:?}", other),
        }
    }
}

#[test]
fn saving_leaves_the_stack_as_it_was() {
    for n in 0..5usize {
        let locals: Vec<Idx<ValType>> = (0..n).map(|i| Idx::new(2 * i + 1)).collect();
        let code = save_stack_to_locals(&locals);
        assert_eq!(code.len(), if n == 0 { 0 } else { 2 * n - 1 });
        let given = vec![Word::F64(9), Word::I32(1), Word::I64(2), Word::I32(3), Word::I64(4), Word::F64(5)];
        let mut stack = given.clone();
        let mut store = vec![None; 10];
        run(&mut stack, &mut store, &code);
        assert_eq!(stack, given);
        for (i, local) in locals.iter().enumerate() {
            assert_eq!(store[local.0], Some(given[given.len() - n + i]));
        }
        assert_eq!(store.iter().filter(|w| w.is_some()).count(), n);
    }
}

#[test]
fn saving_three_values() {
    assert_eq!(
        save_stack_to_locals(&[Idx::new(4), Idx::new(5), Idx::new(6)]),
        vec![
            Instr::SetLocal(Idx::new(6)),
            Instr::SetLocal(Idx::new(5)),
            Instr::TeeLocal(Idx::new(4)),
            Instr::GetLocal(Idx::new(5)),
            Instr::GetLocal(Idx::new(6)),
        ]
    );
    assert_eq!(save_stack_to_locals(&[Idx::new(4)]), vec![Instr::TeeLocal(Idx::new(4))]);
}

#[test]
fn the_halves_make_up_the_value() {
    let code = restore_locals_with_i64_handling(&[Idx::new(0)], &[ValType::I64]);
    for v in [0u64, 42, 1 << 31, 1 << 32, 0xdead_beef_0bad_f00d, u64::MAX, (i64::MIN) as u64] {
        let mut stack = vec![Word::I32(7)];
        let mut store = vec![Some(Word::I64(v))];
        run(&mut stack, &mut store, &code);
        let (low, high) = match (stack[1], stack[2]) {
            (Word::I32(low), Word::I32(high)) => (low, high),
            other => panic!("no halves: {:?}", other),
        };
        assert_eq!(stack.len(), 3);
        assert_eq!(low as u64 | ((high as u64) << 32), v);
        assert_eq!(low, v as u32);
        assert_eq!(high, (v >> 32) as u32);
    }
}

#[test]
fn restoring_reads_each_local() {
    assert_eq!(
        restore_locals_with_i64_handling(
            &[Idx::new(1), Idx::new(2), Idx::new(3)],
            &[ValType::F32, ValType::I64, ValType::I32]
        ),
        vec![
            Instr::GetLocal(Idx::new(1)),
            Instr::GetLocal(Idx::new(2)),
            Instr::I32WrapI64,
            Instr::GetLocal(Idx::new(2)),
            Instr::I64Const(32),
            Instr::I64ShrU,
            Instr::I32WrapI64,
            Instr::GetLocal(Idx::new(3)),
        ]
    );
    assert!(restore_locals_with_i64_handling(&[], &[]).is_empty());
}

#[test]
fn an_i64_becomes_two_i32() {
    assert_eq!(convert_i64_type(ValType::I64), vec![ValType::I32, ValType::I32]);
    assert_eq!(convert_i64_type(ValType::F64), vec![ValType::F64]);
    assert_eq!(convert_i64_instr(Instr::F64Const(3), ValType::F64), vec![Instr::F64Const(3)]);
    assert_eq!(
        convert_i64_instr(Instr::GetGlobal(Idx::new(2)), ValType::I64),
        vec![
            Instr::GetGlobal(Idx::new(2)),
            Instr::I32WrapI64,
            Instr::GetGlobal(Idx::new(2)),
            Instr::I64Const(32),
            Instr::I64ShrU,
            Instr::I32WrapI64,
        ]
    );
}

#[test]
fn the_order_of_type_vectors() {
    assert!(types_less(&[], &[I32]));
    assert!(!types_less(&[], &[]));
    assert!(!types_less(&[I32], &[]));
    assert!(types_less(&[I32], &[I64]));
    assert!(types_less(&[I64], &[F32]));
    assert!(types_less(&[F32], &[F64]));
    assert!(types_less(&[I32, F64], &[I64]));
    assert!(types_less(&[I32], &[I32, I32]));
    assert!(!types_less(&[I32, I64], &[I32, I64]));
    assert!(!types_less(&[F64], &[I32, I32]));
    // the order of the vectors is that of `Vec`
    let samples = [vec![], vec![I32], vec![I64, I32], vec![F64], vec![I32, F32], vec![I32, I32]];
    for a in &samples {
        for b in &samples {
            assert_eq!(types_less(a, b), a < b);
        }
    }
}

#[test]
fn sorted_lists_hold_nothing_twice() {
    let mut list: Vec<Vec<ValType>> = vec![];
    for item in [vec![I64], vec![], vec![I32, I32], vec![I64], vec![F32], vec![], vec![I32]] {
        insert_sorted(&mut list, &item);
    }
    assert_eq!(list, vec![vec![], vec![I32], vec![I32, I32], vec![I64], vec![F32]]);
}

#[test]
fn type_vectors_of_a_module() {
    let (args, results) = unique_types(&sample());
    assert_eq!(args, vec![vec![], vec![I32, I64], vec![F32]]);
    assert_eq!(results, vec![vec![], vec![I64]]);
    let (args, results) = unique_types(&bare_module());
    assert!(args.is_empty() && results.is_empty());
}
