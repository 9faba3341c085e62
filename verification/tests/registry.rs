use wasm_instrumentation::ast::{FunctionType, Idx, Import, ImportType, Instr, Memarg, Module, ValType};
use wasm_instrumentation::hooks::{CallResultHookMap, MonomorphicHookMap, PolymorphicHookMap};
use wasm_instrumentation::register::{add_hook, add_hook_from_instr, monomorphic_list};

fn no_module() -> Module {
    Module {
        start: None,
        imports: vec![],
        exports: vec![],
        globals: vec![],
        functions: vec![],
        tables: vec![],
        memories: vec![],
        custom_sections: vec![],
    }
}

fn hook_import(name: &str, params: Vec<ValType>) -> Import {
    Import {
        module: "hooks".to_string(),
        name: name.to_string(),
        type_: ImportType::Function(FunctionType::new(params, vec![])),
    }
}

#[test]
fn a_hook_takes_the_location_first() {
    let mut module = no_module();
    let idx = add_hook(&mut module, "probe".to_string(), &[ValType::F32, ValType::I64, ValType::I32]);
    assert_eq!(idx, Idx::new(0));
    assert_eq!(
        module.imports,
        vec![hook_import(
            "probe",
            vec![ValType::I32, ValType::I32, ValType::F32, ValType::I32, ValType::I32, ValType::I32]
        )]
    );
    assert_eq!(module.functions.len(), 1);
    assert!(module.functions[0].code.is_none());
    assert_eq!(module.functions[0].type_.params.len(), 6);
    let next = add_hook(&mut module, "next".to_string(), &[]);
    assert_eq!(next, Idx::new(1));
    assert_eq!(module.imports[1], hook_import("next", vec![ValType::I32, ValType::I32]));
}

#[test]
fn a_function_import_is_declared_and_listed() {
    let mut module = no_module();
    let ty = FunctionType::new(vec![ValType::F64], vec![ValType::I32]);
    let idx = module.add_function_import(ty.clone(), "env".to_string(), "f".to_string());
    assert_eq!(idx.0, 0);
    assert_eq!(module.functions[0].type_, ty);
    assert_eq!(
        module.imports,
        vec![Import { module: "env".to_string(), name: "f".to_string(), type_: ImportType::Function(ty) }]
    );
}

#[test]
fn hooks_of_grouped_instructions() {
    let mut module = no_module();
    let mut js = vec![];
    let memarg = Memarg { alignment: 0, offset: 0 };
    let (opcode, idx) = add_hook_from_instr(&mut module, &Instr::I64Load8U(memarg), &mut js);
    assert_eq!(opcode, 0x31);
    assert_eq!(idx, Idx::new(0));
    let (opcode, idx) = add_hook_from_instr(&mut module, &Instr::F64Lt, &mut js);
    assert_eq!(opcode, 0x63);
    assert_eq!(idx, Idx::new(1));
    add_hook_from_instr(&mut module, &Instr::I64Const(0), &mut js);
    add_hook_from_instr(&mut module, &Instr::I32ReinterpretF32, &mut js);
    add_hook_from_instr(&mut module, &Instr::F32Store(memarg), &mut js);
    let i32 = ValType::I32;
    assert_eq!(
        module.imports,
        vec![
            hook_import("i64.load8_u", vec![i32, i32, i32, i32, i32, i32, i32]),
            hook_import("f64.lt", vec![i32, i32, ValType::F64, ValType::F64, i32]),
            hook_import("i64.const", vec![i32, i32, i32, i32]),
            hook_import("i32.reinterpret/f32", vec![i32, i32, ValType::F32, i32]),
            hook_import("f32.store", vec![i32, i32, i32, i32, i32, ValType::F32]),
        ]
    );
    assert_eq!(js.len(), 5);
    assert_eq!(js[1], Instr::F64Lt.to_js_hook());
}

#[test]
fn hooks_by_types() {
    let mut module = no_module();
    module.add_function_import(FunctionType::new(vec![], vec![]), "env".to_string(), "f".to_string());
    let mut js = vec![];
    let mut map = PolymorphicHookMap::new();
    let tys = vec![vec![ValType::I32], vec![ValType::I64, ValType::F32], vec![]];
    map.add(&mut module, Instr::Call(Idx::new(9)), &[ValType::I32], &tys, &mut js);
    map.add(&mut module, Instr::Return, &[], &[vec![ValType::I64]], &mut js);
    assert_eq!(
        map.get_call(&Instr::Call(Idx::new(0)), vec![ValType::I64, ValType::F32]),
        Instr::Call(Idx::new(2))
    );
    assert_eq!(map.get_call(&Instr::Call(Idx::new(3)), vec![]), Instr::Call(Idx::new(3)));
    assert_eq!(map.get_call(&Instr::Return, vec![ValType::I64]), Instr::Call(Idx::new(4)));
    assert_eq!(map.get(0x10, &[ValType::I32]), Some(Idx::new(1)));
    assert_eq!(map.get(0x0f, &[ValType::I32]), None);
    assert_eq!(map.get(0x11, &[ValType::I32]), None);
    let i32 = ValType::I32;
    assert_eq!(
        module.imports[1..].to_vec(),
        vec![
            hook_import("call_i32", vec![i32, i32, i32, i32]),
            hook_import("call_i64_f32", vec![i32, i32, i32, i32, i32, ValType::F32]),
            hook_import("call_", vec![i32, i32, i32]),
            hook_import("return_i64", vec![i32, i32, i32, i32]),
        ]
    );
    assert_eq!(js.len(), 4);
    assert_eq!(js[1], Instr::Call(Idx::new(0)).to_poly_js_hook(&[ValType::I64, ValType::F32]));
}

#[test]
fn a_later_hook_takes_the_place_of_an_earlier_one() {
    let mut map = PolymorphicHookMap::new();
    map.insert(0x1a, vec![ValType::I32], Idx::new(4));
    map.insert(0x1a, vec![ValType::I64], Idx::new(5));
    map.insert(0x1a, vec![ValType::I32], Idx::new(6));
    assert_eq!(map.get_call(&Instr::Drop, vec![ValType::I32]), Instr::Call(Idx::new(6)));
    assert_eq!(map.get_call(&Instr::Drop, vec![ValType::I64]), Instr::Call(Idx::new(5)));
}

#[test]
fn hooks_by_opcode_and_by_result_types() {
    let mut mono = MonomorphicHookMap::new();
    assert_eq!(mono.get(0x6a), None);
    mono.insert(0x6a, Idx::new(11));
    mono.insert(0x6b, Idx::new(12));
    assert_eq!(mono.get(Instr::I32Add.opcode()), Some(Idx::new(11)));
    assert_eq!(mono.get(Instr::I32Sub.opcode()), Some(Idx::new(12)));
    assert_eq!(mono.get(Instr::Call(Idx::new(0)).opcode()), None);
    let mut results = CallResultHookMap::new();
    let mut module = no_module();
    results.add(&mut module, &[vec![], vec![ValType::F64]]);
    assert_eq!(results.get(&[]), Some(Idx::new(0)));
    assert_eq!(results.get(&[ValType::F64]), Some(Idx::new(1)));
    assert_eq!(results.get(&[ValType::F32]), None);
    assert_eq!(module.imports[1], hook_import("call_result_f64", vec![ValType::I32, ValType::I32, ValType::F64]));
}

#[test]
fn the_instructions_with_hooks_of_their_own() {
    let list = monomorphic_list();
    assert_eq!(list.len(), 150);
    assert_eq!(list[0], Instr::I32Const(0));
    assert_eq!(list[4], Instr::I32Eqz);
    assert_eq!(list[5], Instr::I64Eqz);
    assert_eq!(list[149], Instr::F64Store(Memarg { alignment: 0, offset: 0 }));
    let mut opcodes: Vec<u8> = list.iter().map(|i| i.opcode()).collect();
    opcodes.sort();
    opcodes.dedup();
    assert_eq!(opcodes.len(), 150);
    let mut mono = MonomorphicHookMap::new();
    let mut module = no_module();
    let mut js = vec![];
    mono.add(&mut module, &list, &mut js);
    assert_eq!(mono.get(Instr::F64Store(Memarg { alignment: 3, offset: 9 }).opcode()), Some(Idx::new(149)));
    assert_eq!(js.len(), 150);
    assert_eq!(module.imports[127].name, "i32.load");
}
