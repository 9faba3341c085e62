//! The JavaScript that goes with an instrumented module: the static
//! information, and for every hook a function that hands what the hook
//! observed to the analysis.

use crate::ast::{Instr, ValType};
use crate::group::InstrGroup;
use crate::json::{json_pretty, module_info_json};
use crate::static_info::{ModuleInfo, ModuleInfoView};
use crate::text::{decimal, decimal_string, indent, indented, INDENT};
use vstd::prelude::*;
use vstd::string::*;

verus! {

/// How the generated file begins, up to the static information.
pub const HEADER: &'static str = "/*\n * Auto-generated from WASM module to-analyze.\n * DO NOT EDIT.\n */\n\nWasabi.module.info = ";

/// What stands between the static information and the hook functions.
pub const HOOKS_BEGIN: &'static str = ";\n\nWasabi.module.lowlevelHooks = {\n";

/// How the generated file ends.
pub const HOOKS_END: &'static str = "\n};\n";

/// The functions for the hooks that every instrumented module has.
pub const FIXED_HOOKS: &'static str = r#"
    start: function(func, instr) {
        start({func, instr});
    },

    nop: function (func, instr) {
        nop({func, instr});
    },
    unreachable: function (func, instr) {
        unreachable({func, instr});
    },

    current_memory: function (func, instr, currentSizePages) {
        memory_size({func, instr}, currentSizePages);
    },
    grow_memory: function (func, instr, byPages, previousSizePages) {
        memory_grow({func, instr}, byPages, previousSizePages);
    },

    // begin/ends
    begin_function: function (func, instr) {
        begin({func, instr}, "function");
    },
    end_function: function (func, instr) {
        end({func, instr}, "function", {func, instr: -1});
    },
    begin_block: function (func, instr) {
        begin({func, instr}, "block");
    },
    end_block: function (func, instr, begin_instr) {
        end({func, instr}, "block", {func, instr: begin_instr});
    },
    begin_loop: function (func, instr) {
        begin({func, instr}, "loop");
    },
    end_loop: function (func, instr, begin_instr) {
        end({func, instr}, "loop", {func, instr: begin_instr});
    },
    begin_if: function (func, instr) {
        begin({func, instr}, "if");
    },
    end_if: function (func, instr, if_instr) {
        end({func, instr}, "if", {func, instr: if_instr});
    },
    begin_else: function (func, instr, if_instr) {
        begin({func, instr}, "else", {func, instr: if_instr});
    },
    end_else: function (func, instr, if_instr, else_instr) {
        end({func, instr}, "else", {func, instr: if_instr}, {func, instr: else_instr});
    },

    // branches/if condition
    if_: function (func, instr, condition) {
        if_({func, instr}, condition === 1);
    },
    br: function (func, instr, target_label, target_instr) {
        br({func, instr}, {label: target_label, location: {func, instr: target_instr}});
    },
    br_if: function (func, instr, target_label, target_instr, condition) {
        br_if({func, instr}, {label: target_label, location: {func, instr: target_instr}}, condition === 1);
    },
    br_table: function (func, instr, br_table_info_idx, table_idx) {
        br_table({
            func,
            instr
        }, Wasabi.module.info.brTables[br_table_info_idx].table, Wasabi.module.info.brTables[br_table_info_idx].default, table_idx);
    },

    // generated:
    "#;

/// The parameters that a hook function has for one observed value: one
/// with the given name, or two for the halves of an `i64`.
pub open spec fn arg_text(name: Seq<char>, ty: ValType) -> Seq<char> {
    if ty == ValType::I64 {
        name + "_low, "@ + name + "_high"@
    } else {
        name
    }
}

/// The expression that a hook function hands on for one observed value: the
/// parameter itself, or a `Long` made of the two halves of an `i64`.
pub open spec fn long_text(name: Seq<char>, ty: ValType) -> Seq<char> {
    if ty == ValType::I64 {
        "new Long("@ + arg_text(name, ty) + ")"@
    } else {
        name
    }
}

/// The names of the types with `_` between them.
pub open spec fn type_names(tys: Seq<ValType>) -> Seq<char>
    decreases tys.len(),
{
    if tys.len() == 0 {
        seq![]
    } else if tys.len() == 1 {
        tys[0].name()
    } else {
        type_names(tys.drop_last()) + "_"@ + tys.last().name()
    }
}

/// The name of the hook for the types `tys`: `call` and `[i32, f32]` give
/// `call_i32_f32`.
pub open spec fn mangled(prefix: Seq<char>, tys: Seq<ValType>) -> Seq<char> {
    prefix + "_"@ + type_names(tys)
}

/// The parameters for values of the types `tys`, which are named `name`
/// with their position, each after a comma.
pub open spec fn numbered_args(name: Seq<char>, tys: Seq<ValType>) -> Seq<char>
    decreases tys.len(),
{
    if tys.len() == 0 {
        seq![]
    } else {
        numbered_args(name, tys.drop_last()) + ", "@ + arg_text(
            name + decimal((tys.len() - 1) as nat),
            tys.last(),
        )
    }
}

/// The expressions for values of the types `tys`, with commas between
/// them.
pub open spec fn numbered_longs(name: Seq<char>, tys: Seq<ValType>) -> Seq<char>
    decreases tys.len(),
{
    if tys.len() == 0 {
        seq![]
    } else if tys.len() == 1 {
        long_text(name + decimal(0), tys[0])
    } else {
        numbered_longs(name, tys.drop_last()) + ", "@ + long_text(
            name + decimal((tys.len() - 1) as nat),
            tys.last(),
        )
    }
}

pub fn append_mangled_tys(prefix: String, tys: &[ValType]) -> (r: String)
    ensures
        r@ == mangled(prefix@, tys@),
{
    let mut r = prefix;
    r.append("_");
    let mut i: usize = 0;
    while i < tys.len()
        invariant
            i <= tys.len(),
            r@ == prefix@ + "_"@ + type_names(tys@.take(i as int)),
        decreases tys.len() - i,
    {
        proof {
            assert(tys@.take(i + 1).drop_last() =~= tys@.take(i as int));
        }
        if i > 0 {
            r.append("_");
        }
        r.append(tys[i].to_str());
        assert(r@ =~= prefix@ + "_"@ + type_names(tys@.take(i + 1)));
        i += 1;
    }
    assert(tys@.take(tys@.len() as int) =~= tys@);
    r
}

pub fn arg(name: &str, ty: ValType) -> (r: String)
    ensures
        r@ == arg_text(name@, ty),
{
    let mut r = String::from_str(name);
    match ty {
        ValType::I64 => {
            r.append("_low, ");
            r.append(name);
            r.append("_high");
        },
        _ => {},
    }
    r
}

pub fn long(name: &str, ty: ValType) -> (r: String)
    ensures
        r@ == long_text(name@, ty),
{
    match ty {
        ValType::I64 => {
            let mut r = String::from_str("new Long(");
            r.append(arg(name, ty).as_str());
            r.append(")");
            r
        },
        _ => String::from_str(name),
    }
}

/// The name with a number behind it.
fn numbered(name: &str, i: usize) -> (r: String)
    ensures
        r@ == name@ + decimal(i as nat),
{
    let mut r = String::from_str(name);
    r.append(decimal_string(i).as_str());
    r
}

fn args_list(name: &str, tys: &[ValType]) -> (r: String)
    ensures
        r@ == numbered_args(name@, tys@),
{
    let mut r = String::new();
    let mut i: usize = 0;
    while i < tys.len()
        invariant
            i <= tys.len(),
            r@ == numbered_args(name@, tys@.take(i as int)),
        decreases tys.len() - i,
    {
        proof {
            assert(tys@.take(i + 1).drop_last() =~= tys@.take(i as int));
        }
        r.append(", ");
        r.append(arg(numbered(name, i).as_str(), tys[i]).as_str());
        i += 1;
    }
    assert(tys@.take(tys@.len() as int) =~= tys@);
    r
}

fn longs_list(name: &str, tys: &[ValType]) -> (r: String)
    ensures
        r@ == numbered_longs(name@, tys@),
{
    let mut r = String::new();
    let mut i: usize = 0;
    while i < tys.len()
        invariant
            i <= tys.len(),
            r@ == numbered_longs(name@, tys@.take(i as int)),
        decreases tys.len() - i,
    {
        proof {
            assert(tys@.take(i + 1).drop_last() =~= tys@.take(i as int));
        }
        if i > 0 {
            r.append(", ");
        }
        r.append(long(numbered(name, i).as_str(), tys[i]).as_str());
        assert(r@ =~= numbered_longs(name@, tys@.take(i + 1)));
        i += 1;
    }
    assert(tys@.take(tys@.len() as int) =~= tys@);
    r
}

/// The hook function of a constant.
pub open spec fn const_hook_text(name: Seq<char>, ty: ValType) -> Seq<char> {
    "\""@ + name + "\": function (func, instr, "@ + arg_text("v"@, ty)
        + ") {\n    const_({func, instr}, "@ + long_text("v"@, ty) + ");\n},"@
}

/// The hook function of an instruction with one operand.
pub open spec fn unary_hook_text(
    name: Seq<char>,
    input_ty: ValType,
    result_ty: ValType,
) -> Seq<char> {
    "\""@ + name + "\": function (func, instr, "@ + arg_text("input"@, input_ty) + ", "@ + arg_text(
        "result"@,
        result_ty,
    ) + ") {\n    unary({func, instr}, \""@ + name + "\", "@ + long_text("input"@, input_ty) + ", "@
        + long_text("result"@, result_ty) + ");\n},"@
}

/// The hook function of an instruction with two operands.
pub open spec fn binary_hook_text(
    name: Seq<char>,
    first_ty: ValType,
    second_ty: ValType,
    result_ty: ValType,
) -> Seq<char> {
    "\""@ + name + "\": function (func, instr, "@ + arg_text("first"@, first_ty) + ", "@ + arg_text(
        "second"@,
        second_ty,
    ) + ", "@ + arg_text("result"@, result_ty) + ") {\n    binary({func, instr}, \""@ + name
        + "\", "@ + long_text("first"@, first_ty) + ", "@ + long_text("second"@, second_ty) + ", "@
        + long_text("result"@, result_ty) + ");\n},"@
}

/// The hook function of a load (`callback` is `load`) or a store (`store`).
pub open spec fn memory_hook_text(name: Seq<char>, callback: Seq<char>, ty: ValType) -> Seq<char> {
    "\""@ + name + "\": function (func, instr, offset, align, addr, "@ + arg_text("v"@, ty)
        + ") {\n    "@ + callback + "({func, instr}, \""@ + name + "\", {addr, offset, align}, "@
        + long_text("v"@, ty) + ");\n},"@
}

/// The hook function of an instruction whose group fixes its types. The
/// other instructions have none: theirs is the empty text.
pub open spec fn js_hook_text(instr: Instr) -> Seq<char> {
    match instr.group() {
        InstrGroup::Const(ty) => const_hook_text(instr.name(), ty),
        InstrGroup::Unary { input_ty, result_ty } => unary_hook_text(instr.name(), input_ty, result_ty),
        InstrGroup::Binary { first_ty, second_ty, result_ty } => binary_hook_text(
            instr.name(),
            first_ty,
            second_ty,
            result_ty,
        ),
        InstrGroup::MemoryLoad(ty, _) => memory_hook_text(instr.name(), "load"@, ty),
        InstrGroup::MemoryStore(ty, _) => memory_hook_text(instr.name(), "store"@, ty),
        _ => seq![],
    }
}

/// Whether the instruction has a hook whose types its group fixes.
pub open spec fn has_js_hook(instr: Instr) -> bool {
    match instr.group() {
        InstrGroup::Const(_) => true,
        InstrGroup::Unary { .. } => true,
        InstrGroup::Binary { .. } => true,
        InstrGroup::MemoryLoad(_, _) => true,
        InstrGroup::MemoryStore(_, _) => true,
        _ => false,
    }
}

/// The hook function that reports values of the types `tys` to `callback`
/// as a list: `return_` for the results of the function, `call_post` for
/// those of a call.
pub open spec fn results_hook_text(
    hook_name: Seq<char>,
    callback: Seq<char>,
    tys: Seq<ValType>,
) -> Seq<char> {
    hook_name + ": function(func, instr"@ + numbered_args("result"@, tys) + ") {\n    "@ + callback
        + "({func, instr}, ["@ + numbered_longs("result"@, tys) + "]);\n},"@
}

/// The hook function of a call: of a direct one, where `target` is
/// `targetFunc`, or an indirect one.
pub open spec fn call_hook_text(
    hook_name: Seq<char>,
    indirect: bool,
    tys: Seq<ValType>,
) -> Seq<char> {
    hook_name + ": function(func, instr, "@ + (if indirect {
        "targetTableIdx"@
    } else {
        "targetFunc"@
    }) + numbered_args("arg"@, tys) + ") {\n    call_pre({func, instr}, "@ + (if indirect {
        "Wasabi.resolveTableIdx(targetTableIdx), true, ["@
    } else {
        "targetFunc, false, ["@
    }) + numbered_longs("arg"@, tys) + "]);\n},"@
}

pub open spec fn drop_hook_text(hook_name: Seq<char>, ty: ValType) -> Seq<char> {
    hook_name + ": function(func, instr, "@ + arg_text("v"@, ty) + ") {\n    drop({func, instr}, "@
        + long_text("v"@, ty) + ");\n},"@
}

pub open spec fn select_hook_text(
    hook_name: Seq<char>,
    first_ty: ValType,
    second_ty: ValType,
) -> Seq<char> {
    hook_name + ": function(func, instr, condition, "@ + arg_text("first"@, first_ty) + ", "@
        + arg_text("second"@, second_ty) + ") {\n    select({func, instr}, condition === 1, "@
        + long_text("first"@, first_ty) + ", "@ + long_text("second"@, second_ty) + ");\n},"@
}

/// The hook function of an access to a local (`callback` is `local`) or a
/// global (`global`).
pub open spec fn variable_hook_text(
    hook_name: Seq<char>,
    callback: Seq<char>,
    name: Seq<char>,
    ty: ValType,
) -> Seq<char> {
    hook_name + ": function(func, instr, index, "@ + arg_text("v"@, ty) + ") {\n    "@ + callback
        + "({func, instr}, \""@ + name + "\", index, "@ + long_text("v"@, ty) + ");\n},"@
}

/// Whether the instruction has hooks for the types `tys`: it is one whose
/// types vary, and `tys` holds as many types as its hook function names.
pub open spec fn has_poly_js_hook(instr: Instr, tys: Seq<ValType>) -> bool {
    match instr {
        Instr::Return | Instr::Call(_) | Instr::CallIndirect(_, _) => true,
        Instr::Drop => tys.len() >= 1,
        Instr::Select => tys.len() >= 2,
        Instr::GetLocal(_) | Instr::SetLocal(_) | Instr::TeeLocal(_) => tys.len() >= 1,
        Instr::GetGlobal(_) | Instr::SetGlobal(_) => tys.len() >= 1,
        _ => false,
    }
}

/// The hook function of an instruction whose types vary, for the types
/// `tys`. With the one of `return` comes the one that reports the results
/// of a call, which has the same form.
pub open spec fn poly_js_hook_text(instr: Instr, tys: Seq<ValType>) -> Seq<char> {
    let hook_name = mangled(instr.name(), tys);
    match instr {
        Instr::Return => results_hook_text(hook_name, "return_"@, tys) + "\n"@ + results_hook_text(
            mangled("call_result"@, tys),
            "call_post"@,
            tys,
        ),
        Instr::Call(_) => call_hook_text(hook_name, false, tys),
        Instr::CallIndirect(_, _) => call_hook_text(hook_name, true, tys),
        Instr::Drop => drop_hook_text(hook_name, tys[0]),
        Instr::Select => select_hook_text(hook_name, tys[0], tys[1]),
        Instr::GetLocal(_) | Instr::SetLocal(_) | Instr::TeeLocal(_) => variable_hook_text(
            hook_name,
            "local"@,
            instr.name(),
            tys[0],
        ),
        Instr::GetGlobal(_) | Instr::SetGlobal(_) => variable_hook_text(
            hook_name,
            "global"@,
            instr.name(),
            tys[0],
        ),
        _ => seq![],
    }
}

fn const_hook(name: &str, ty: ValType) -> (r: String)
    ensures
        r@ == const_hook_text(name@, ty),
{
    let mut r = String::from_str("\"");
    r.append(name);
    r.append("\": function (func, instr, ");
    r.append(arg("v", ty).as_str());
    r.append(") {\n    const_({func, instr}, ");
    r.append(long("v", ty).as_str());
    r.append(");\n},");
    r
}

fn unary_hook(name: &str, input_ty: ValType, result_ty: ValType) -> (r: String)
    ensures
        r@ == unary_hook_text(name@, input_ty, result_ty),
{
    let mut r = String::from_str("\"");
    r.append(name);
    r.append("\": function (func, instr, ");
    r.append(arg("input", input_ty).as_str());
    r.append(", ");
    r.append(arg("result", result_ty).as_str());
    r.append(") {\n    unary({func, instr}, \"");
    r.append(name);
    r.append("\", ");
    r.append(long("input", input_ty).as_str());
    r.append(", ");
    r.append(long("result", result_ty).as_str());
    r.append(");\n},");
    r
}

fn binary_hook(name: &str, first_ty: ValType, second_ty: ValType, result_ty: ValType) -> (r: String)
    ensures
        r@ == binary_hook_text(name@, first_ty, second_ty, result_ty),
{
    let mut r = String::from_str("\"");
    r.append(name);
    r.append("\": function (func, instr, ");
    r.append(arg("first", first_ty).as_str());
    r.append(", ");
    r.append(arg("second", second_ty).as_str());
    r.append(", ");
    r.append(arg("result", result_ty).as_str());
    r.append(") {\n    binary({func, instr}, \"");
    r.append(name);
    r.append("\", ");
    r.append(long("first", first_ty).as_str());
    r.append(", ");
    r.append(long("second", second_ty).as_str());
    r.append(", ");
    r.append(long("result", result_ty).as_str());
    r.append(");\n},");
    r
}

fn memory_hook(name: &str, callback: &str, ty: ValType) -> (r: String)
    ensures
        r@ == memory_hook_text(name@, callback@, ty),
{
    let mut r = String::from_str("\"");
    r.append(name);
    r.append("\": function (func, instr, offset, align, addr, ");
    r.append(arg("v", ty).as_str());
    r.append(") {\n    ");
    r.append(callback);
    r.append("({func, instr}, \"");
    r.append(name);
    r.append("\", {addr, offset, align}, ");
    r.append(long("v", ty).as_str());
    r.append(");\n},");
    r
}

fn results_hook(hook_name: &str, callback: &str, tys: &[ValType]) -> (r: String)
    ensures
        r@ == results_hook_text(hook_name@, callback@, tys@),
{
    let mut r = String::from_str(hook_name);
    r.append(": function(func, instr");
    r.append(args_list("result", tys).as_str());
    r.append(") {\n    ");
    r.append(callback);
    r.append("({func, instr}, [");
    r.append(longs_list("result", tys).as_str());
    r.append("]);\n},");
    r
}

fn call_hook(hook_name: &str, indirect: bool, tys: &[ValType]) -> (r: String)
    ensures
        r@ == call_hook_text(hook_name@, indirect, tys@),
{
    let mut r = String::from_str(hook_name);
    r.append(": function(func, instr, ");
    if indirect {
        r.append("targetTableIdx");
    } else {
        r.append("targetFunc");
    }
    r.append(args_list("arg", tys).as_str());
    r.append(") {\n    call_pre({func, instr}, ");
    if indirect {
        r.append("Wasabi.resolveTableIdx(targetTableIdx), true, [");
    } else {
        r.append("targetFunc, false, [");
    }
    r.append(longs_list("arg", tys).as_str());
    r.append("]);\n},");
    r
}

fn drop_hook(hook_name: &str, ty: ValType) -> (r: String)
    ensures
        r@ == drop_hook_text(hook_name@, ty),
{
    let mut r = String::from_str(hook_name);
    r.append(": function(func, instr, ");
    r.append(arg("v", ty).as_str());
    r.append(") {\n    drop({func, instr}, ");
    r.append(long("v", ty).as_str());
    r.append(");\n},");
    r
}

fn select_hook(hook_name: &str, first_ty: ValType, second_ty: ValType) -> (r: String)
    ensures
        r@ == select_hook_text(hook_name@, first_ty, second_ty),
{
    let mut r = String::from_str(hook_name);
    r.append(": function(func, instr, condition, ");
    r.append(arg("first", first_ty).as_str());
    r.append(", ");
    r.append(arg("second", second_ty).as_str());
    r.append(") {\n    select({func, instr}, condition === 1, ");
    r.append(long("first", first_ty).as_str());
    r.append(", ");
    r.append(long("second", second_ty).as_str());
    r.append(");\n},");
    r
}

fn variable_hook(hook_name: &str, callback: &str, name: &str, ty: ValType) -> (r: String)
    ensures
        r@ == variable_hook_text(hook_name@, callback@, name@, ty),
{
    let mut r = String::from_str(hook_name);
    r.append(": function(func, instr, index, ");
    r.append(arg("v", ty).as_str());
    r.append(") {\n    ");
    r.append(callback);
    r.append("({func, instr}, \"");
    r.append(name);
    r.append("\", index, ");
    r.append(long("v", ty).as_str());
    r.append(");\n},");
    r
}

impl Instr {
    /// The JavaScript function for the hook of this instruction.
    pub fn to_js_hook(&self) -> (r: String)
        requires
            has_js_hook(*self),
        ensures
            r@ == js_hook_text(*self),
    {
        let name = self.to_instr_name();
        match self.group() {
            InstrGroup::Const(ty) => const_hook(name, ty),
            InstrGroup::Unary { input_ty, result_ty } => unary_hook(name, input_ty, result_ty),
            InstrGroup::Binary { first_ty, second_ty, result_ty } => binary_hook(
                name,
                first_ty,
                second_ty,
                result_ty,
            ),
            InstrGroup::MemoryLoad(ty, _) => memory_hook(name, "load", ty),
            InstrGroup::MemoryStore(ty, _) => memory_hook(name, "store", ty),
            _ => String::new(),
        }
    }

    /// The JavaScript function for the hook of this instruction for the
    /// types `tys`.
    pub fn to_poly_js_hook(&self, tys: &[ValType]) -> (r: String)
        requires
            has_poly_js_hook(*self, tys@),
        ensures
            r@ == poly_js_hook_text(*self, tys@),
    {
        let name = self.to_instr_name();
        let hook_name = append_mangled_tys(String::from_str(name), tys);
        match self {
            Instr::Return => {
                let mut r = results_hook(hook_name.as_str(), "return_", tys);
                r.append("\n");
                let after = append_mangled_tys(String::from_str("call_result"), tys);
                r.append(results_hook(after.as_str(), "call_post", tys).as_str());
                r
            },
            Instr::Call(_) => call_hook(hook_name.as_str(), false, tys),
            Instr::CallIndirect(_, _) => call_hook(hook_name.as_str(), true, tys),
            Instr::Drop => drop_hook(hook_name.as_str(), tys[0]),
            Instr::Select => select_hook(hook_name.as_str(), tys[0], tys[1]),
            Instr::GetLocal(_) | Instr::SetLocal(_) | Instr::TeeLocal(_) => variable_hook(
                hook_name.as_str(),
                "local",
                name,
                tys[0],
            ),
            Instr::GetGlobal(_) | Instr::SetGlobal(_) => variable_hook(
                hook_name.as_str(),
                "global",
                name,
                tys[0],
            ),
            _ => String::new(),
        }
    }
}

/// The hook functions one after the other, each indented as a member of
/// the object that holds them.
pub open spec fn generated(hooks: Seq<Seq<char>>) -> Seq<char>
    decreases hooks.len(),
{
    if hooks.len() == 0 {
        seq![]
    } else if hooks.len() == 1 {
        indented(hooks[0])
    } else {
        generated(hooks.drop_last()) + INDENT@ + indented(hooks.last())
    }
}

/// The generated file for the static information `json` and the hook
/// functions `hooks`.
pub open spec fn shim_text(json: Seq<char>, hooks: Seq<Seq<char>>) -> Seq<char> {
    HEADER@ + json + HOOKS_BEGIN@ + FIXED_HOOKS@ + generated(hooks) + HOOKS_END@
}

/// The texts of the strings.
pub open spec fn texts(strings: Seq<String>) -> Seq<Seq<char>> {
    strings.map_values(|s: String| s@)
}

/// The generated file for static information that is JSON text already.
pub fn shim(json: &str, on_demand_hooks: &[String]) -> (r: String)
    ensures
        r@ == shim_text(json@, texts(on_demand_hooks@)),
{
    let mut r = String::from_str(HEADER);
    r.append(json);
    r.append(HOOKS_BEGIN);
    r.append(FIXED_HOOKS);
    let ghost before = r@;
    let ghost hooks = texts(on_demand_hooks@);
    let mut i: usize = 0;
    while i < on_demand_hooks.len()
        invariant
            i <= on_demand_hooks.len(),
            hooks == texts(on_demand_hooks@),
            r@ == before + generated(hooks.take(i as int)),
        decreases on_demand_hooks.len() - i,
    {
        proof {
            assert(hooks.take(i + 1).drop_last() =~= hooks.take(i as int));
        }
        if i > 0 {
            r.append(INDENT);
        }
        r.append(indent(on_demand_hooks[i].as_str()).as_str());
        assert(r@ =~= before + generated(hooks.take(i + 1)));
        i += 1;
    }
    assert(hooks.take(hooks.len() as int) =~= hooks);
    r.append(HOOKS_END);
    r
}

/// The generated file for the static information `info` and the hook
/// functions `hooks`: the static information is printed as JSON and framed
/// with the hook functions. There is none where the static information has
/// no JSON text.
pub open spec fn generated_file(info: ModuleInfoView, hooks: Seq<Seq<char>>) -> Option<Seq<char>> {
    match json_pretty(module_info_json(info)) {
        Some(json) => Some(shim_text(json, hooks)),
        None => None,
    }
}

/// The generated file, or `None` exactly where the static information
/// could not be written as JSON.
pub fn js_codegen(module_info: ModuleInfo, on_demand_hooks: &[String]) -> (r: Option<String>)
    ensures
        match r {
            Some(text) => generated_file(module_info@, texts(on_demand_hooks@)) == Some(text@),
            None => generated_file(module_info@, texts(on_demand_hooks@)).is_none(),
        },
{
    match module_info.to_json() {
        Some(json) => Some(shim(json.as_str(), on_demand_hooks)),
        None => None,
    }
}

} // verus!
