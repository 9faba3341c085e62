//! What holds of every instrumented module: which hooks it imports, that
//! its tables are exported, and that its functions have kept their
//! instructions and their blocks.

use crate::add_hooks::{
    declared,
    call_indirect_texts, exports_table, fixed_hooks, instrumented, primitive_types, registered,
    rewritten_functions, select_types, unique_arg_types, unique_result_types, with_table_exports,
    Registered,
};
use crate::arena::{hooks_below, lemma_rewrite_refers_to_known, within};
use crate::ast::{
    CodeView, ExportType, ExportView, FunctionView, Idx, ImportKind, ImportView, Instr, ModuleView,
    Table, ValType,
};
use crate::block_stack::Begin;
use crate::body::{body_start, rewritten, run};
use crate::group::{mnemonic, InstrGroup};
use crate::hooks::HookTable;
use crate::js_codegen::mangled;
use crate::naming::{declared_name, fixed_named, lemma_hooks_are_named, well_named};
use crate::register::{
    hook_signature, mono_decls, monomorphic_instrs, poly_decls, result_decls, HookDecl,
};
use crate::reporting::{hook_of, lemma_body_reports, observed_types};
use crate::rewrite::{BodyStateView, Context};
use crate::skeleton::{
    lemma_rewrite_keeps_locals,
    is_subsequence, lemma_rewrite_keeps_instructions, lemma_rewrite_keeps_nesting, skeleton,
    without_drop,
};
use crate::static_info::{BrTableView, ModuleInfo, ModuleInfoView};
use vstd::prelude::*;

verus! {

/// The function that a hook is.
pub open spec fn hook_function(decl: HookDecl) -> FunctionView {
    FunctionView { type_: hook_signature(decl.args), code: None }
}

/// The import that declares a hook.
pub open spec fn hook_import(decl: HookDecl) -> ImportView {
    ImportView {
        module: "hooks"@,
        name: decl.name,
        type_: ImportKind::Function(hook_signature(decl.args)),
    }
}

/// A module with more hooks has more imports and more functions at the
/// end, and is otherwise the same.
pub proof fn lemma_with_hooks(module: ModuleView, decls: Seq<HookDecl>)
    ensures
        module.with_hooks(decls) == (ModuleView {
            imports: module.imports + decls.map_values(|d: HookDecl| hook_import(d)),
            functions: module.functions + decls.map_values(|d: HookDecl| hook_function(d)),
            ..module
        }),
    decreases decls.len(),
{
    if decls.len() == 0 {
        assert(module.imports + decls.map_values(|d: HookDecl| hook_import(d)) =~= module.imports);
        assert(module.functions + decls.map_values(|d: HookDecl| hook_function(d))
            =~= module.functions);
    } else {
        lemma_with_hooks(module, decls.drop_last());
        let prev = module.with_hooks(decls.drop_last());
        let next = prev.with_hook(decls.last());
        assert(next.imports =~= module.imports + decls.map_values(|d: HookDecl| hook_import(d)));
        assert(next.functions =~= module.functions + decls.map_values(
            |d: HookDecl| hook_function(d),
        ));
    }
}

/// Hooks declared in two steps are hooks declared in one.
pub proof fn lemma_with_hooks_concat(module: ModuleView, a: Seq<HookDecl>, b: Seq<HookDecl>)
    ensures
        module.with_hooks(a).with_hooks(b) == module.with_hooks(a + b),
{
    lemma_with_hooks(module, a);
    lemma_with_hooks(module.with_hooks(a), b);
    lemma_with_hooks(module, a + b);
    let one = module.with_hooks(a).with_hooks(b);
    let both = module.with_hooks(a + b);
    assert(one.imports =~= both.imports);
    assert(one.functions =~= both.functions);
}

/// The hooks that exist once.
pub open spec fn fixed_decls() -> Seq<HookDecl> {
    seq![
        HookDecl { name: "if_"@, args: seq![ValType::I32] },
        HookDecl { name: "br"@, args: seq![ValType::I32, ValType::I32] },
        HookDecl { name: "br_if"@, args: seq![ValType::I32, ValType::I32, ValType::I32] },
        HookDecl { name: "br_table"@, args: seq![ValType::I32, ValType::I32] },
        HookDecl { name: "begin_function"@, args: seq![] },
        HookDecl { name: "end_function"@, args: seq![] },
        HookDecl { name: "begin_block"@, args: seq![] },
        HookDecl { name: "end_block"@, args: seq![ValType::I32] },
        HookDecl { name: "begin_loop"@, args: seq![] },
        HookDecl { name: "end_loop"@, args: seq![ValType::I32] },
        HookDecl { name: "begin_if"@, args: seq![] },
        HookDecl { name: "end_if"@, args: seq![ValType::I32] },
        HookDecl { name: "begin_else"@, args: seq![] },
        HookDecl { name: "end_else"@, args: seq![ValType::I32] },
        HookDecl { name: "nop"@, args: seq![] },
        HookDecl { name: "unreachable"@, args: seq![] },
        HookDecl { name: "current_memory"@, args: seq![ValType::I32] },
        HookDecl { name: "grow_memory"@, args: seq![ValType::I32, ValType::I32] },
    ]
}

/// All hooks of a module, in the order in which they are declared.
pub open spec fn all_decls(args: Seq<Seq<ValType>>, results: Seq<Seq<ValType>>) -> Seq<HookDecl> {
    poly_decls("return"@, seq![], results) + poly_decls(
        "get_local"@,
        seq![ValType::I32],
        primitive_types(),
    ) + poly_decls("set_local"@, seq![ValType::I32], primitive_types()) + poly_decls(
        "tee_local"@,
        seq![ValType::I32],
        primitive_types(),
    ) + poly_decls("get_global"@, seq![ValType::I32], primitive_types()) + poly_decls(
        "set_global"@,
        seq![ValType::I32],
        primitive_types(),
    ) + poly_decls("drop"@, seq![], primitive_types()) + poly_decls(
        "select"@,
        seq![ValType::I32],
        select_types(),
    ) + poly_decls("call"@, seq![ValType::I32], args) + poly_decls(
        "call_indirect"@,
        seq![ValType::I32],
        args,
    ) + result_decls(results) + fixed_decls() + mono_decls(monomorphic_instrs())
}

/// The number of hooks of a module whose functions have `args` different
/// vectors of parameter types and `results` different vectors of result
/// types: for each vector of result types the hooks of `return` and of the
/// results of a call; for each vector of parameter types those of `call`
/// and `call_indirect`; 28 for the accesses to variables, `drop` and
/// `select` with each type; the 18 that exist once; and the 150 of the
/// instructions whose group fixes their types.
pub open spec fn hook_count(args: nat, results: nat) -> nat {
    2 * results + 2 * args + 28 + 18 + 150
}

pub proof fn lemma_hook_count(args: Seq<Seq<ValType>>, results: Seq<Seq<ValType>>)
    ensures
        all_decls(args, results).len() == hook_count(args.len(), results.len()),
{
}

/// The hooks that exist once, declared one by one, are `fixed_decls`.
pub proof fn lemma_fixed(before: Registered)
    ensures
        before.fixed().module == before.module.with_hooks(fixed_decls()),
        before.fixed().js == before.js,
        before.fixed().hooks == (HookTable {
            fixed: fixed_hooks(before.module.functions.len() as int),
            ..before.hooks
        }),
{
    let decls = fixed_decls();
    let m = before.module;
    assert(m.with_hooks(decls.take(0)) == m);
    lemma_fixed_prefix(m, 0);
    lemma_fixed_prefix(m, 1);
    lemma_fixed_prefix(m, 2);
    lemma_fixed_prefix(m, 3);
    lemma_fixed_prefix(m, 4);
    lemma_fixed_prefix(m, 5);
    lemma_fixed_prefix(m, 6);
    lemma_fixed_prefix(m, 7);
    lemma_fixed_prefix(m, 8);
    lemma_fixed_prefix(m, 9);
    lemma_fixed_prefix(m, 10);
    lemma_fixed_prefix(m, 11);
    lemma_fixed_prefix(m, 12);
    lemma_fixed_prefix(m, 13);
    lemma_fixed_prefix(m, 14);
    lemma_fixed_prefix(m, 15);
    lemma_fixed_prefix(m, 16);
    lemma_fixed_prefix(m, 17);
    assert(decls.take(18) =~= decls);
}

proof fn lemma_fixed_prefix(m: ModuleView, k: int)
    requires
        0 <= k < 18,
    ensures
        m.with_hooks(fixed_decls().take(k + 1)) == m.with_hooks(fixed_decls().take(k)).with_hook(
            fixed_decls()[k],
        ),
{
    assert(fixed_decls().take(k + 1).drop_last() =~= fixed_decls().take(k));
}

/// The module with its hooks is the module with `all_decls` declared, and
/// the JavaScript functions are those of the hooks that do not exist once.
pub proof fn lemma_registered_module(
    module: ModuleView,
    args: Seq<Seq<ValType>>,
    results: Seq<Seq<ValType>>,
)
    ensures
        registered(module, args, results).module == module.with_hooks(all_decls(args, results)),
{
    let d1 = poly_decls("return"@, seq![], results);
    let d2 = poly_decls("get_local"@, seq![ValType::I32], primitive_types());
    let d3 = poly_decls("set_local"@, seq![ValType::I32], primitive_types());
    let d4 = poly_decls("tee_local"@, seq![ValType::I32], primitive_types());
    let d5 = poly_decls("get_global"@, seq![ValType::I32], primitive_types());
    let d6 = poly_decls("set_global"@, seq![ValType::I32], primitive_types());
    let d7 = poly_decls("drop"@, seq![], primitive_types());
    let d8 = poly_decls("select"@, seq![ValType::I32], select_types());
    let d9 = poly_decls("call"@, seq![ValType::I32], args);
    let d10 = poly_decls("call_indirect"@, seq![ValType::I32], args);
    let d11 = result_decls(results);
    let d12 = fixed_decls();
    let d13 = mono_decls(monomorphic_instrs());
    let start = Registered {
        module,
        hooks: HookTable {
            fixed: fixed_hooks(0),
            polymorphic: Map::empty(),
            call_result: Map::empty(),
            monomorphic: Map::empty(),
        },
        js: seq![],
    };
    let r1 = start.poly(Instr::Return, seq![], results);
    let r2 = r1.poly(Instr::GetLocal(Idx::of(0)), seq![ValType::I32], primitive_types());
    let r3 = r2.poly(Instr::SetLocal(Idx::of(0)), seq![ValType::I32], primitive_types());
    let r4 = r3.poly(Instr::TeeLocal(Idx::of(0)), seq![ValType::I32], primitive_types());
    let r5 = r4.poly(Instr::GetGlobal(Idx::of(0)), seq![ValType::I32], primitive_types());
    let r6 = r5.poly(Instr::SetGlobal(Idx::of(0)), seq![ValType::I32], primitive_types());
    let r7 = r6.poly(Instr::Drop, seq![], primitive_types());
    let r8 = r7.poly(Instr::Select, seq![ValType::I32], select_types());
    let r9 = r8.poly(Instr::Call(Idx::of(0)), seq![ValType::I32], args);
    let r10 = r9.poly_by("call_indirect"@, 0x11, seq![ValType::I32], args, call_indirect_texts(args));
    let r11 = r10.call_results(results);
    let r12 = r11.fixed();
    let r13 = r12.mono(monomorphic_instrs());
    assert(r13 == registered(module, args, results));
    lemma_fixed(r11);
    lemma_with_hooks_concat(module, d1, d2);
    lemma_with_hooks_concat(module, d1 + d2, d3);
    lemma_with_hooks_concat(module, d1 + d2 + d3, d4);
    lemma_with_hooks_concat(module, d1 + d2 + d3 + d4, d5);
    lemma_with_hooks_concat(module, d1 + d2 + d3 + d4 + d5, d6);
    lemma_with_hooks_concat(module, d1 + d2 + d3 + d4 + d5 + d6, d7);
    lemma_with_hooks_concat(module, d1 + d2 + d3 + d4 + d5 + d6 + d7, d8);
    lemma_with_hooks_concat(module, d1 + d2 + d3 + d4 + d5 + d6 + d7 + d8, d9);
    lemma_with_hooks_concat(module, d1 + d2 + d3 + d4 + d5 + d6 + d7 + d8 + d9, d10);
    lemma_with_hooks_concat(module, d1 + d2 + d3 + d4 + d5 + d6 + d7 + d8 + d9 + d10, d11);
    lemma_with_hooks_concat(module, d1 + d2 + d3 + d4 + d5 + d6 + d7 + d8 + d9 + d10 + d11, d12);
    lemma_with_hooks_concat(
        module,
        d1 + d2 + d3 + d4 + d5 + d6 + d7 + d8 + d9 + d10 + d11 + d12,
        d13,
    );
}

/// What is fixed while the function `f` with the index `i` is rewritten.
pub open spec fn function_context(
    hooks: HookTable,
    info: ModuleInfoView,
    i: int,
    f: FunctionView,
) -> Context {
    Context { func: i as usize, type_: f.type_, functions: info.functions, globals: info.globals, hooks }
}

/// `g` has the type of `f` and the body and the locals that the rewrite
/// makes of `code`, where `tables` are the tables of the `br_table`
/// instructions met before.
pub open spec fn rewrites_to(
    ctx: Context,
    code: CodeView,
    tables: Seq<BrTableView>,
    f: FunctionView,
    g: FunctionView,
) -> bool {
    &&& rewritten(ctx, code.locals, tables, code.body) matches Ok(done)
    &&& g == (FunctionView {
        type_: f.type_,
        code: Some(CodeView { locals: done.state.locals, body: done.emitted }),
    })
}

/// The tables of the `br_table` instructions met before the function with
/// the index `i`.
pub open spec fn tables_before(
    hooks: HookTable,
    info: ModuleInfoView,
    functions: Seq<FunctionView>,
    i: int,
) -> Seq<BrTableView> {
    rewritten_functions(hooks, info, functions, i as nat).unwrap().br_tables
}

/// What the rewrite makes of the function with the index `i`: a function
/// without code stays as it is; one with code keeps its type and gets the
/// rewritten body and the locals that the rewrite leaves.
pub open spec fn rewrite_of(
    hooks: HookTable,
    info: ModuleInfoView,
    functions: Seq<FunctionView>,
    i: int,
    g: FunctionView,
) -> bool {
    let f = functions[i];
    match f.code {
        None => g == f,
        Some(code) => rewrites_to(
            function_context(hooks, info, i, f),
            code,
            tables_before(hooks, info, functions, i),
            f,
            g,
        ),
    }
}

/// After the rewrite of `n` functions there are `n` functions.
pub proof fn lemma_rewritten_count(
    hooks: HookTable,
    info: ModuleInfoView,
    functions: Seq<FunctionView>,
    n: nat,
)
    requires
        rewritten_functions(hooks, info, functions, n) is Ok,
    ensures
        rewritten_functions(hooks, info, functions, n).unwrap().functions.len() == n,
    decreases n,
{
    if n > 0 {
        lemma_rewritten_count(hooks, info, functions, (n - 1) as nat);
    }
}

/// After the rewrite of `n` functions each of them is what the rewrite
/// makes of it.
pub proof fn lemma_rewritten_functions(
    hooks: HookTable,
    info: ModuleInfoView,
    functions: Seq<FunctionView>,
    n: nat,
    i: int,
)
    requires
        rewritten_functions(hooks, info, functions, n) is Ok,
        0 <= i < n,
    ensures
        rewritten_functions(hooks, info, functions, n).unwrap().functions.len() == n,
        rewritten_functions(hooks, info, functions, i as nat) is Ok,
        rewrite_of(
            hooks,
            info,
            functions,
            i,
            rewritten_functions(hooks, info, functions, n).unwrap().functions[i],
        ),
    decreases n,
{
    lemma_rewritten_count(hooks, info, functions, n);
    lemma_rewritten_count(hooks, info, functions, (n - 1) as nat);
    if i < n - 1 {
        lemma_rewritten_functions(hooks, info, functions, (n - 1) as nat, i);
        let prev = rewritten_functions(hooks, info, functions, (n - 1) as nat).unwrap();
        let now = rewritten_functions(hooks, info, functions, n).unwrap();
        assert(now.functions[i] == prev.functions[i]);
    }
}

/// The vectors of parameter types and of result types for which a module
/// gets hooks: those of its functions.
pub open spec fn hooks_of(module: ModuleView) -> Seq<HookDecl> {
    all_decls(unique_arg_types(module), unique_result_types(module))
}

/// The module before its functions are rewritten: with its tables
/// exported and its hooks declared.
pub open spec fn prepared_module(module: ModuleView) -> ModuleView {
    (ModuleView {
        exports: with_table_exports(module.exports, module.tables.len()),
        ..module
    }).with_hooks(hooks_of(module))
}

proof fn lemma_instrumented(module: ModuleView)
    requires
        instrumented(module) is Ok,
    ensures
        ({
            let done = instrumented(module).unwrap();
            let before = prepared_module(module);
            let reg = declared(module);
            &&& reg.module == before
            &&& rewritten_functions(
                reg.hooks,
                ModuleInfo::of(module),
                before.functions,
                before.functions.len(),
            ) matches Ok(progress)
            &&& done.module == (ModuleView { functions: progress.functions, ..before })
            &&& before.functions == module.functions + hooks_of(module).map_values(
                |d: HookDecl| hook_function(d),
            )
            &&& before.imports == module.imports + hooks_of(module).map_values(
                |d: HookDecl| hook_import(d),
            )
        }),
{
    let exported = ModuleView {
        exports: with_table_exports(module.exports, module.tables.len()),
        ..module
    };
    lemma_registered_module(exported, unique_arg_types(module), unique_result_types(module));
    lemma_with_hooks(exported, hooks_of(module));
}

/// The instrumented module imports, after what it imported before, its
/// hooks and nothing else: one for each instruction whose group fixes its
/// types, one for each instruction whose types vary with each vector of
/// types that it is registered for, and those that exist once. Each hook is
/// a function without code at the end of the functions.
pub proof fn lemma_hooks_are_imported(module: ModuleView)
    requires
        instrumented(module) is Ok,
    ensures
        ({
            let done = instrumented(module).unwrap().module;
            let hooks = hooks_of(module);
            &&& hooks.len() == hook_count(
                unique_arg_types(module).len(),
                unique_result_types(module).len(),
            )
            &&& done.imports == module.imports + hooks.map_values(|d: HookDecl| hook_import(d))
            &&& done.functions.len() == module.functions.len() + hooks.len()
            &&& forall|k: int|
                0 <= k < hooks.len() ==> #[trigger] done.functions[module.functions.len() + k]
                    == hook_function(hooks[k])
        }),
{
    lemma_instrumented(module);
    lemma_hook_count(unique_arg_types(module), unique_result_types(module));
    let before = prepared_module(module);
    let reg = declared(module);
    let info = ModuleInfo::of(module);
    lemma_rewritten_count(reg.hooks, info, before.functions, before.functions.len());
    let done = instrumented(module).unwrap().module;
    let hooks = hooks_of(module);
    assert forall|k: int| 0 <= k < hooks.len() implies #[trigger] done.functions[module.functions.len()
        + k] == hook_function(hooks[k]) by {
        let i = module.functions.len() + k;
        lemma_rewritten_functions(reg.hooks, info, before.functions, before.functions.len(), i);
        assert(before.functions[i] == hook_function(hooks[k]));
    }
}

/// Every function that the module had has kept its type; one without code
/// is as it was; one with code has a body with the blocks of its body,
/// nested as before, which holds the instructions of its body in their
/// order where none of them is a `drop`; and its locals are those that it
/// had, followed by new ones.
pub proof fn lemma_functions_keep_their_bodies(module: ModuleView, i: int)
    requires
        instrumented(module) is Ok,
        0 <= i < module.functions.len(),
    ensures
        ({
            let f = module.functions[i];
            let g = instrumented(module).unwrap().module.functions[i];
            match f.code {
                None => g == f,
                Some(code) => {
                    &&& g.type_ == f.type_
                    &&& g.code matches Some(new)
                    &&& skeleton(new.body) == skeleton(code.body)
                    &&& without_drop(code.body) ==> is_subsequence(code.body, new.body)
                    &&& code.locals.len() <= new.locals.len()
                    &&& new.locals.take(code.locals.len() as int) == code.locals
                },
            }
        }),
{
    lemma_instrumented(module);
    let before = prepared_module(module);
    let reg = declared(module);
    let info = ModuleInfo::of(module);
    lemma_rewritten_functions(reg.hooks, info, before.functions, before.functions.len(), i);
    let f = module.functions[i];
    let g = instrumented(module).unwrap().module.functions[i];
    assert(before.functions[i] == f);
    assert(rewrite_of(reg.hooks, info, before.functions, i, g));
    match f.code {
        None => {},
        Some(code) => {
            let ctx = function_context(reg.hooks, info, i, f);
            let tables = tables_before(reg.hooks, info, before.functions, i);
            lemma_rewrite_keeps_nesting(ctx, code.locals, tables, code.body);
            lemma_rewrite_keeps_locals(ctx, code.locals, tables, code.body);
            if without_drop(code.body) {
                lemma_rewrite_keeps_instructions(ctx, code.locals, tables, code.body);
            }
        },
    }
}

/// The hooks of a registry that is well named are among the functions.
pub proof fn lemma_named_hooks_exist(hooks: HookTable, decls: Seq<HookDecl>, first: int)
    requires
        well_named(hooks, decls, first),
        fixed_named(hooks.fixed, decls, first),
    ensures
        hooks_below(hooks, first + decls.len()),
{
    assert forall|key: crate::hooks::HookKey| #[trigger]
        hooks.polymorphic.contains_key(key) implies hooks.polymorphic[key].0 < first + decls.len() by {
        assert(declared_name(decls, first, hooks.polymorphic[key]) is Some);
    }
    assert forall|tys: Seq<ValType>| #[trigger] hooks.call_result.contains_key(tys) implies hooks.call_result[tys].0
        < first + decls.len() by {
        assert(declared_name(decls, first, hooks.call_result[tys]) is Some);
    }
    assert forall|opcode: u8| #[trigger] hooks.monomorphic.contains_key(opcode) implies hooks.monomorphic[opcode].0
        < first + decls.len() by {
        assert(declared_name(decls, first, hooks.monomorphic[opcode]) is Some);
    }
}

/// The body of every function of the instrumented module refers to what
/// exists: every local that it reads or writes is a parameter or a local of
/// the function, and every function that it calls is a function of the
/// module.
pub proof fn lemma_bodies_refer_to_what_exists(module: ModuleView, i: int)
    requires
        instrumented(module) is Ok,
        module.functions.len() + hooks_of(module).len() <= usize::MAX,
        0 <= i < module.functions.len(),
        module.functions[i].code is Some,
    ensures
        ({
            let done = instrumented(module).unwrap().module;
            &&& done.functions[i].code matches Some(new)
            &&& within(
                new.body,
                (done.functions[i].type_.params.len() + new.locals.len()) as int,
                done.functions.len() as int,
            )
        }),
{
    lemma_instrumented(module);
    lemma_hooks_are_imported(module);
    let before = prepared_module(module);
    let reg = declared(module);
    let info = ModuleInfo::of(module);
    lemma_rewritten_functions(reg.hooks, info, before.functions, before.functions.len(), i);
    let f = module.functions[i];
    let g = instrumented(module).unwrap().module.functions[i];
    assert(before.functions[i] == f);
    assert(rewrite_of(reg.hooks, info, before.functions, i, g));
    let code = f.code.unwrap();
    let ctx = function_context(reg.hooks, info, i, f);
    let tables = tables_before(reg.hooks, info, before.functions, i);
    let funcs = (module.functions.len() + hooks_of(module).len()) as int;
    lemma_hooks_are_named(
        ModuleView { exports: with_table_exports(module.exports, module.tables.len()), ..module },
        unique_arg_types(module),
        unique_result_types(module),
    );
    lemma_named_hooks_exist(reg.hooks, hooks_of(module), module.functions.len() as int);
    lemma_rewrite_refers_to_known(ctx, code.locals, tables, code.body, funcs);
}

/// The name of the hook that ends the block that `begin` opened.
pub open spec fn end_name(begin: Begin) -> Seq<char> {
    match begin {
        Begin::Function => "end_function"@,
        Begin::Block(_) => "end_block"@,
        Begin::Loop(_) => "end_loop"@,
        Begin::If(_) => "end_if"@,
        Begin::Else(_) => "end_else"@,
    }
}

/// The name of the hook that reports an instruction: for the instructions
/// whose hook exists once the name of that hook; for those whose group
/// fixes their types their mnemonic; for those whose types vary the
/// mnemonic and the types that they have where they stand.
pub open spec fn reported_name(ctx: Context, st: BodyStateView, instr: Instr) -> Seq<char> {
    match instr.group() {
        InstrGroup::Local(_, _) | InstrGroup::Global(_, _) => mangled(
            instr.name(),
            observed_types(ctx, st, instr).unwrap(),
        ),
        InstrGroup::Control => match instr {
            Instr::Nop => "nop"@,
            Instr::Unreachable => "unreachable"@,
            Instr::Block(_) => "begin_block"@,
            Instr::Loop(_) => "begin_loop"@,
            Instr::If(_) => "if_"@,
            Instr::Else => "end_else"@,
            Instr::End => end_name(st.blocks.last()),
            Instr::Br(_) => "br"@,
            Instr::BrIf(_) => "br_if"@,
            Instr::BrTable(_, _) => "br_table"@,
            Instr::CurrentMemory(_) => "current_memory"@,
            Instr::GrowMemory(_) => "grow_memory"@,
            _ => mangled(instr.name(), observed_types(ctx, st, instr).unwrap()),
        },
        _ => instr.name(),
    }
}

/// Where the registry is well named, the hook of an instruction is
/// declared under the name that follows from the instruction and its
/// types.
pub proof fn lemma_hook_has_its_name(
    ctx: Context,
    st: BodyStateView,
    instr: Instr,
    decls: Seq<HookDecl>,
    first: int,
)
    requires
        well_named(ctx.hooks, decls, first),
        fixed_named(ctx.hooks.fixed, decls, first),
        hook_of(ctx, st, instr) is Some,
    ensures
        declared_name(decls, first, hook_of(ctx, st, instr).unwrap()) == Some(
            reported_name(ctx, st, instr),
        ),
{
    match observed_types(ctx, st, instr) {
        Some(tys) => {
            if ctx.hooks.polymorphic.contains_key((instr.opcode(), tys)) {
                assert(declared_name(decls, first, ctx.hooks.polymorphic[(instr.opcode(), tys)])
                    == Some(mangled(mnemonic(instr.opcode()), tys)));
            }
        },
        None => {},
    }
    if ctx.hooks.monomorphic.contains_key(instr.opcode()) {
        assert(declared_name(decls, first, ctx.hooks.monomorphic[instr.opcode()]) == Some(
            mnemonic(instr.opcode()),
        ));
    }
}

/// Every instruction of every function is reported: the body of the
/// instrumented function calls a hook of the module whose name follows from
/// the instruction and, where the types of the instruction vary, the types
/// that it has where it stands.
pub proof fn lemma_instructions_are_reported(module: ModuleView, i: int, j: int)
    requires
        instrumented(module) is Ok,
        module.functions.len() + hooks_of(module).len() <= usize::MAX,
        0 <= i < module.functions.len(),
        module.functions[i].code matches Some(code) && 0 <= j < code.body.len(),
    ensures
        ({
            let code = module.functions[i].code.unwrap();
            let reg = declared(module);
            let ctx = function_context(reg.hooks, ModuleInfo::of(module), i, module.functions[i]);
            let tables = tables_before(reg.hooks, ModuleInfo::of(module), reg.module.functions, i);
            &&& run(ctx, body_start(code.locals, tables), code.body, j as nat) matches Ok(reached)
            &&& hook_of(ctx, reached.state, code.body[j]) matches Some(hook)
            &&& instrumented(module).unwrap().module.functions[i].code matches Some(new)
            &&& new.body.contains(Instr::Call(hook))
            &&& declared_name(hooks_of(module), module.functions.len() as int, hook) == Some(
                reported_name(ctx, reached.state, code.body[j]),
            )
        }),
{
    lemma_instrumented(module);
    let before = prepared_module(module);
    let reg = declared(module);
    let info = ModuleInfo::of(module);
    lemma_rewritten_functions(reg.hooks, info, before.functions, before.functions.len(), i);
    let f = module.functions[i];
    let g = instrumented(module).unwrap().module.functions[i];
    assert(before.functions[i] == f);
    assert(rewrite_of(reg.hooks, info, before.functions, i, g));
    let code = f.code.unwrap();
    let ctx = function_context(reg.hooks, info, i, f);
    let tables = tables_before(reg.hooks, info, before.functions, i);
    lemma_body_reports(ctx, code.locals, tables, code.body, j);
    let reached = run(ctx, body_start(code.locals, tables), code.body, j as nat).unwrap();
    lemma_hooks_are_named(
        ModuleView { exports: with_table_exports(module.exports, module.tables.len()), ..module },
        unique_arg_types(module),
        unique_result_types(module),
    );
    lemma_hook_has_its_name(
        ctx,
        reached.state,
        code.body[j],
        hooks_of(module),
        module.functions.len() as int,
    );
}

/// But for its exports, imports and functions the instrumented module is
/// the module that it was.
pub proof fn lemma_the_rest_is_kept(module: ModuleView)
    requires
        instrumented(module) is Ok,
    ensures
        instrumented(module).unwrap().module == (ModuleView {
            exports: instrumented(module).unwrap().module.exports,
            imports: instrumented(module).unwrap().module.imports,
            functions: instrumented(module).unwrap().module.functions,
            ..module
        }),
{
    lemma_instrumented(module);
    lemma_with_hooks(
        ModuleView { exports: with_table_exports(module.exports, module.tables.len()), ..module },
        hooks_of(module),
    );
}

/// The export of the table `t` under the name `table`.
pub open spec fn table_export(t: usize) -> ExportView {
    ExportView { name: "table"@, type_: ExportType::Table(Idx::<Table>::of(t)) }
}

proof fn lemma_table_exports(exports: Seq<ExportView>, n: nat, t: usize)
    requires
        t < n,
    ensures
        exports =~= with_table_exports(exports, n).take(exports.len() as int),
        exports.len() <= with_table_exports(exports, n).len(),
        exports_table(with_table_exports(exports, n), t),
        !exports_table(exports, t) ==> with_table_exports(exports, n).contains(table_export(t)),
    decreases n,
{
    let now = with_table_exports(exports, n);
    let prev = with_table_exports(exports, (n - 1) as nat);
    lemma_table_exports_grow(exports, (n - 1) as nat);
    if t < n - 1 {
        lemma_table_exports(exports, (n - 1) as nat, t);
        let k = choose|k: int|
            0 <= k < prev.len() && (#[trigger] prev[k]).type_ == ExportType::Table(Idx::<Table>::of(t));
        assert(now[k] == prev[k]);
        if !exports_table(exports, t) {
            let at = choose|at: int| 0 <= at < prev.len() && prev[at] == table_export(t);
            assert(now[at] == table_export(t));
        }
    } else {
        if exports_table(exports, t) {
            let k = choose|k: int|
                0 <= k < exports.len() && (#[trigger] exports[k]).type_ == ExportType::Table(
                    Idx::<Table>::of(t),
                );
            assert(now[k] == exports[k]);
        } else {
            assert(now[now.len() - 1] == table_export(t));
        }
    }
}

proof fn lemma_table_exports_grow(exports: Seq<ExportView>, n: nat)
    ensures
        exports =~= with_table_exports(exports, n).take(exports.len() as int),
        exports.len() <= with_table_exports(exports, n).len(),
    decreases n,
{
    if n > 0 {
        lemma_table_exports_grow(exports, (n - 1) as nat);
    }
}

/// Every table of the instrumented module is exported: a table that the
/// module exported is exported as before, and every other table under the
/// name `table`. What the module exported it still exports.
pub proof fn lemma_tables_are_exported(module: ModuleView, t: usize)
    requires
        instrumented(module) is Ok,
        t < module.tables.len(),
    ensures
        ({
            let done = instrumented(module).unwrap().module;
            &&& done.tables == module.tables
            &&& exports_table(done.exports, t)
            &&& !exports_table(module.exports, t) ==> done.exports.contains(table_export(t))
            &&& module.exports.len() <= done.exports.len()
            &&& module.exports == done.exports.take(module.exports.len() as int)
        }),
{
    lemma_instrumented(module);
    lemma_with_hooks(
        ModuleView { exports: with_table_exports(module.exports, module.tables.len()), ..module },
        hooks_of(module),
    );
    lemma_table_exports(module.exports, module.tables.len(), t);
}

} // verus!
