use wasm_instrumentation::ast::{
    Code, Function, FunctionType, Global, GlobalType, Idx, Instr, Memarg, Module, Mutability, ValType,
};
use wasm_instrumentation::add_hooks::add_hooks;
use wasm_instrumentation::js_codegen::{append_mangled_tys, arg, js_codegen, long, shim};
use wasm_instrumentation::static_info::{BrTableInfo, FunctionInfo, ModuleInfo};
use wasm_instrumentation::text::{decimal_string, indent};

#[test]
fn mangled_names() {
    assert_eq!(
        append_mangled_tys("call".to_string(), &[ValType::I32, ValType::F32]),
        "call_i32_f32"
    );
    assert_eq!(append_mangled_tys("return".to_string(), &[]), "return_");
    assert_eq!(append_mangled_tys("drop".to_string(), &[ValType::F64]), "drop_f64");
}

#[test]
fn arguments_of_an_i64_are_two() {
    assert_eq!(arg("v", ValType::I64), "v_low, v_high");
    assert_eq!(arg("v", ValType::F32), "v");
    assert_eq!(long("v", ValType::I64), "new Long(v_low, v_high)");
    assert_eq!(long("v", ValType::I32), "v");
}

#[test]
fn decimal_numerals() {
    assert_eq!(decimal_string(0), "0");
    assert_eq!(decimal_string(7), "7");
    assert_eq!(decimal_string(10), "10");
    assert_eq!(decimal_string(4096), "4096");
    assert_eq!(decimal_string(usize::MAX), usize::MAX.to_string());
}

#[test]
fn indentation_follows_line_breaks() {
    assert_eq!(indent("a\nb\n"), "a\n    b\n    ");
    assert_eq!(indent(""), "");
    assert_eq!(indent("\u{e9}\n\u{1F600}"), "\u{e9}\n    \u{1F600}");
}

#[test]
fn hook_of_a_constant() {
    assert_eq!(
        Instr::I64Const(0).to_js_hook(),
        "\"i64.const\": function (func, instr, v_low, v_high) {\n    const_({func, instr}, new Long(v_low, v_high));\n},"
    );
    assert_eq!(
        Instr::F32Const(0).to_js_hook(),
        "\"f32.const\": function (func, instr, v) {\n    const_({func, instr}, v);\n},"
    );
}

#[test]
fn hook_of_a_unary_instruction() {
    assert_eq!(
        Instr::I64ExtendSI32.to_js_hook(),
        "\"i64.extend_s/i32\": function (func, instr, input, result_low, result_high) {\n    unary({func, instr}, \"i64.extend_s/i32\", input, new Long(result_low, result_high));\n},"
    );
}

#[test]
fn hook_of_a_binary_instruction() {
    assert_eq!(
        Instr::I64Eq.to_js_hook(),
        "\"i64.eq\": function (func, instr, first_low, first_high, second_low, second_high, result) {\n    binary({func, instr}, \"i64.eq\", new Long(first_low, first_high), new Long(second_low, second_high), result);\n},"
    );
}

#[test]
fn hooks_of_memory_accesses() {
    let memarg = Memarg { alignment: 2, offset: 8 };
    assert_eq!(
        Instr::F64Load(memarg).to_js_hook(),
        "\"f64.load\": function (func, instr, offset, align, addr, v) {\n    load({func, instr}, \"f64.load\", {addr, offset, align}, v);\n},"
    );
    assert_eq!(
        Instr::I64Store8(memarg).to_js_hook(),
        "\"i64.store8\": function (func, instr, offset, align, addr, v_low, v_high) {\n    store({func, instr}, \"i64.store8\", {addr, offset, align}, new Long(v_low, v_high));\n},"
    );
}

#[test]
fn hooks_of_return_come_with_those_of_call_results() {
    assert_eq!(
        Instr::Return.to_poly_js_hook(&[ValType::I32, ValType::I64]),
        "return_i32_i64: function(func, instr, result0, result1_low, result1_high) {\n    return_({func, instr}, [result0, new Long(result1_low, result1_high)]);\n},\ncall_result_i32_i64: function(func, instr, result0, result1_low, result1_high) {\n    call_post({func, instr}, [result0, new Long(result1_low, result1_high)]);\n},"
    );
    assert_eq!(
        Instr::Return.to_poly_js_hook(&[]),
        "return_: function(func, instr) {\n    return_({func, instr}, []);\n},\ncall_result_: function(func, instr) {\n    call_post({func, instr}, []);\n},"
    );
}

#[test]
fn hooks_of_calls() {
    assert_eq!(
        Instr::Call(Idx::new(0)).to_poly_js_hook(&[ValType::F32]),
        "call_f32: function(func, instr, targetFunc, arg0) {\n    call_pre({func, instr}, targetFunc, false, [arg0]);\n},"
    );
    let indirect = Instr::CallIndirect(FunctionType::new(vec![], vec![]), Idx::new(0));
    assert_eq!(
        indirect.to_poly_js_hook(&[ValType::I64, ValType::I32]),
        "call_indirect_i64_i32: function(func, instr, targetTableIdx, arg0_low, arg0_high, arg1) {\n    call_pre({func, instr}, Wasabi.resolveTableIdx(targetTableIdx), true, [new Long(arg0_low, arg0_high), arg1]);\n},"
    );
}

#[test]
fn hooks_of_drop_select_and_variables() {
    assert_eq!(
        Instr::Drop.to_poly_js_hook(&[ValType::I64]),
        "drop_i64: function(func, instr, v_low, v_high) {\n    drop({func, instr}, new Long(v_low, v_high));\n},"
    );
    assert_eq!(
        Instr::Select.to_poly_js_hook(&[ValType::F64, ValType::F64]),
        "select_f64_f64: function(func, instr, condition, first, second) {\n    select({func, instr}, condition === 1, first, second);\n},"
    );
    assert_eq!(
        Instr::TeeLocal(Idx::new(3)).to_poly_js_hook(&[ValType::I32]),
        "tee_local_i32: function(func, instr, index, v) {\n    local({func, instr}, \"tee_local\", index, v);\n},"
    );
    assert_eq!(
        Instr::SetGlobal(Idx::new(3)).to_poly_js_hook(&[ValType::I64]),
        "set_global_i64: function(func, instr, index, v_low, v_high) {\n    global({func, instr}, \"set_global\", index, new Long(v_low, v_high));\n},"
    );
}

#[test]
fn generated_file_frames_information_and_hooks() {
    let text = shim("{}", &["a: 1,\nb: 2,".to_string(), "c: 3,".to_string()]);
    assert!(text.starts_with(
        "/*\n * Auto-generated from WASM module to-analyze.\n * DO NOT EDIT.\n */\n\nWasabi.module.info = {};\n\nWasabi.module.lowlevelHooks = {\n\n    start: function(func, instr) {\n"
    ));
    assert!(text.ends_with("    // generated:\n    a: 1,\n    b: 2,\n    c: 3,\n};\n"));
    assert!(text.contains(
        "    current_memory: function (func, instr, currentSizePages) {\n        memory_size({func, instr}, currentSizePages);\n    },\n"
    ));
    assert!(text.contains(
        "    end_else: function (func, instr, if_instr, else_instr) {\n        end({func, instr}, \"else\", {func, instr: if_instr}, {func, instr: else_instr});\n    },\n"
    ));
    let none = shim("null", &[]);
    assert!(none.ends_with("    // generated:\n    \n};\n"));
}

fn json_of(text: &str) -> serde_json::Value {
    let begin = text.find("Wasabi.module.info = ").unwrap() + "Wasabi.module.info = ".len();
    let end = text.find(";\n\nWasabi.module.lowlevelHooks").unwrap();
    serde_json::from_str(&text[begin..end]).unwrap()
}

#[test]
fn static_information_is_json() {
    let info = ModuleInfo {
        functions: vec![
            FunctionInfo { type_: FunctionType::new(vec![ValType::I32, ValType::F64], vec![ValType::I64]) },
            FunctionInfo { type_: FunctionType::new(vec![], vec![]) },
        ],
        globals: vec![ValType::F32, ValType::I32],
        br_tables: vec![BrTableInfo::new(vec![0, 1], 2), BrTableInfo::new(vec![], 7)],
    };
    let text = js_codegen(info, &[]).unwrap();
    let json = json_of(&text);
    let object = json.as_object().unwrap();
    assert_eq!(object.len(), 3);
    let functions = json["functions"].as_array().unwrap();
    assert_eq!(functions.len(), 2);
    assert_eq!(functions[0]["type"]["params"][0], "i32");
    assert_eq!(functions[0]["type"]["params"][1], "f64");
    assert_eq!(functions[0]["type"]["params"].as_array().unwrap().len(), 2);
    assert_eq!(functions[0]["type"]["results"][0], "i64");
    assert_eq!(functions[0].as_object().unwrap().len(), 1);
    assert_eq!(functions[1]["type"]["params"].as_array().unwrap().len(), 0);
    assert_eq!(functions[1]["type"]["results"].as_array().unwrap().len(), 0);
    assert_eq!(json["globals"][0], "f32");
    assert_eq!(json["globals"][1], "i32");
    assert_eq!(json["globals"].as_array().unwrap().len(), 2);
    let tables = json["brTables"].as_array().unwrap();
    assert_eq!(tables.len(), 2);
    assert_eq!(tables[0]["table"][0], 0);
    assert_eq!(tables[0]["table"][1], 1);
    assert_eq!(tables[0]["default"], 2);
    assert_eq!(tables[1]["table"].as_array().unwrap().len(), 0);
    assert_eq!(tables[1]["default"], 7);
    // printed with line breaks
    assert!(text.contains("Wasabi.module.info = {\n  \"brTables\": ["));
}

#[test]
fn json_value_of_the_information() {
    let info = ModuleInfo {
        functions: vec![FunctionInfo { type_: FunctionType::new(vec![ValType::I64], vec![]) }],
        globals: vec![],
        br_tables: vec![BrTableInfo::new(vec![4], 18446744073709551615)],
    };
    let value = info.to_value();
    assert_eq!(value["functions"][0]["type"]["params"][0].as_str(), Some("i64"));
    assert_eq!(value["brTables"][0]["default"].as_u64(), Some(18446744073709551615));
    assert_eq!(value["brTables"][0]["table"][0].as_u64(), Some(4));
    assert!(value["globals"].as_array().unwrap().is_empty());
    assert_eq!(info.to_json().unwrap(), serde_json::to_string_pretty(&value).unwrap());
}

#[test]
fn information_of_an_instrumented_module() {
    let mut module = Module {
        start: None,
        imports: vec![],
        exports: vec![],
        globals: vec![Global { type_: GlobalType(ValType::I64, Mutability::Mut), init: vec![] }],
        functions: vec![Function {
            type_: FunctionType::new(vec![ValType::F32], vec![]),
            code: Some(Code { locals: vec![], body: vec![Instr::End] }),
        }],
        tables: vec![],
        memories: vec![],
        custom_sections: vec![],
    };
    let text = add_hooks(&mut module).unwrap();
    let json = json_of(&text);
    // the information speaks of the module before it got its hooks
    assert_eq!(json["functions"].as_array().unwrap().len(), 1);
    assert_eq!(json["functions"][0]["type"]["params"][0], "f32");
    assert_eq!(json["globals"][0], "i64");
    assert!(text.contains("    call_f32: function(func, instr, targetFunc, arg0) {\n"));
    assert!(text.contains("    \"f64.promote/f32\": function (func, instr, input, result) {\n        unary({func, instr}, \"f64.promote/f32\", input, result);\n    },"));
    assert!(text.ends_with("},\n};\n"));
}
