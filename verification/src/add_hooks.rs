//! The instrumentation of a module: the table is exported, the hooks are
//! registered, and every function that the module defines is rewritten.

use crate::ast::{
    Code, CodeView, Export, ExportType, ExportView, Function, FunctionType, FunctionView, Idx, Instr,
    Module, ModuleView, Table, ValType,
};
use crate::body::{instrument_body, rewritten, InstrumentError};
use crate::group::{types1, types2, types3};
use crate::hooks::{
    CallResultHookMap, FixedHooks, HookTable, Hooks, MonomorphicHookMap, PolymorphicHookMap,
};
use crate::js_codegen::{
    call_hook_text, generated_file, has_js_hook, has_poly_js_hook, js_codegen, mangled, texts,
};
use crate::register::{
    add_hook, mono_decls, mono_entries, mono_texts, monomorphic_instrs, monomorphic_list, poly_decls,
    poly_entries, poly_texts, result_decls, result_entries, HookDecl,
};
use crate::rewrite::{Context, Pass};
use crate::static_info::{BrTableInfo, BrTableView, ModuleInfo, ModuleInfoView};
use crate::type_vectors::{insert_sorted, sorted_unique, type_views};
use vstd::prelude::*;
use vstd::string::*;

verus! {

/// Whether an export exports the table with the index `t`.
pub open spec fn exports_table(exports: Seq<ExportView>, t: usize) -> bool {
    exists|i: int|
        0 <= i < exports.len() && (#[trigger] exports[i]).type_ == ExportType::Table(
            Idx::<Table>::of(t),
        )
}

/// The exports with one more under the name `table` for each of the first
/// `n` tables that `exports` does not export.
pub open spec fn with_table_exports(exports: Seq<ExportView>, n: nat) -> Seq<ExportView>
    decreases n,
{
    if n == 0 {
        exports
    } else if exports_table(exports, (n - 1) as usize) {
        with_table_exports(exports, (n - 1) as nat)
    } else {
        with_table_exports(exports, (n - 1) as nat).push(
            ExportView {
                name: "table"@,
                type_: ExportType::Table(Idx::<Table>::of((n - 1) as usize)),
            },
        )
    }
}

/// Exports every table, so that the analysis can tell which function an
/// index into the table stands for.
pub fn export_tables(module: &mut Module)
    ensures
        final(module)@ == (ModuleView {
            exports: with_table_exports(old(module)@.exports, old(module)@.tables.len()),
            ..old(module)@
        }),
{
    let given = module.exports.len();
    let mut t: usize = 0;
    while t < module.tables.len()
        invariant
            t <= module.tables.len(),
            given == old(module).exports.len(),
            given <= module.exports.len(),
            module.exports@.take(given as int) == old(module).exports@,
            module@ == (ModuleView {
                exports: with_table_exports(old(module)@.exports, t as nat),
                ..old(module)@
            }),
        decreases module.tables.len() - t,
    {
        let mut found = false;
        let mut i: usize = 0;
        while i < given
            invariant
                i <= given,
                given == old(module).exports.len(),
                given <= module.exports.len(),
                module.exports@.take(given as int) == old(module).exports@,
                found == exports_table(old(module)@.exports.take(i as int), t),
            decreases given - i,
        {
            let export = &module.exports[i];
            assert(export == old(module).exports@[i as int]);
            assert(old(module)@.exports[i as int] == export@);
            let hit = match export.type_ {
                ExportType::Table(idx) => idx.0 == t,
                _ => false,
            };
            proof {
                let now = old(module)@.exports.take(i as int);
                let next = old(module)@.exports.take(i + 1);
                assert(next.drop_last() =~= now);
                if hit {
                    assert(next[i as int].type_ == ExportType::Table(Idx::<Table>::of(t)));
                }
                if exports_table(now, t) {
                    let k = choose|k: int|
                        0 <= k < now.len() && (#[trigger] now[k]).type_ == ExportType::Table(
                            Idx::<Table>::of(t),
                        );
                    assert(next[k] == now[k]);
                }
                if exports_table(next, t) && !hit {
                    let k = choose|k: int|
                        0 <= k < next.len() && (#[trigger] next[k]).type_ == ExportType::Table(
                            Idx::<Table>::of(t),
                        );
                    assert(now[k] == next[k]);
                }
            }
            found = found || hit;
            i += 1;
        }
        assert(old(module)@.exports.take(given as int) =~= old(module)@.exports);
        if !found {
            module.exports.push(
                Export { name: String::from_str("table"), type_: ExportType::Table(Idx::new(t)) },
            );
            assert(module.exports@.take(given as int) =~= old(module).exports@);
        }
        proof {
            assert(module@.exports =~= with_table_exports(old(module)@.exports, (t + 1) as nat));
        }
        t += 1;
    }
}

/// The module with its hooks, the hooks by their function indices, and
/// their JavaScript functions.
pub struct Registered {
    pub module: ModuleView,
    pub hooks: HookTable,
    pub js: Seq<Seq<char>>,
}

/// The hooks that exist once, as the functions from `first` on.
pub open spec fn fixed_hooks(first: int) -> FixedHooks {
    FixedHooks {
        if_: Idx::<Function>::of((first + 0) as usize),
        br: Idx::<Function>::of((first + 1) as usize),
        br_if: Idx::<Function>::of((first + 2) as usize),
        br_table: Idx::<Function>::of((first + 3) as usize),
        begin_function: Idx::<Function>::of((first + 4) as usize),
        end_function: Idx::<Function>::of((first + 5) as usize),
        begin_block: Idx::<Function>::of((first + 6) as usize),
        end_block: Idx::<Function>::of((first + 7) as usize),
        begin_loop: Idx::<Function>::of((first + 8) as usize),
        end_loop: Idx::<Function>::of((first + 9) as usize),
        begin_if: Idx::<Function>::of((first + 10) as usize),
        end_if: Idx::<Function>::of((first + 11) as usize),
        begin_else: Idx::<Function>::of((first + 12) as usize),
        end_else: Idx::<Function>::of((first + 13) as usize),
        nop: Idx::<Function>::of((first + 14) as usize),
        unreachable: Idx::<Function>::of((first + 15) as usize),
        current_memory: Idx::<Function>::of((first + 16) as usize),
        grow_memory: Idx::<Function>::of((first + 17) as usize),
    }
}

/// The vectors of one type each.
pub open spec fn primitive_types() -> Seq<Seq<ValType>> {
    seq![seq![ValType::I32], seq![ValType::I64], seq![ValType::F32], seq![ValType::F64]]
}

/// The types that the two values of a `select` can have.
pub open spec fn select_types() -> Seq<Seq<ValType>> {
    seq![
        seq![ValType::I32, ValType::I32],
        seq![ValType::I64, ValType::I64],
        seq![ValType::F32, ValType::F32],
        seq![ValType::F64, ValType::F64],
    ]
}

impl Registered {
    /// With the hooks of an instruction whose types vary, by the name and
    /// the opcode of the instruction.
    pub open spec fn poly_by(
        self,
        name: Seq<char>,
        opcode: u8,
        non_poly: Seq<ValType>,
        tys: Seq<Seq<ValType>>,
        js: Seq<Seq<char>>,
    ) -> Registered {
        Registered {
            module: self.module.with_hooks(poly_decls(name, non_poly, tys)),
            hooks: HookTable {
                polymorphic: poly_entries(
                    self.hooks.polymorphic,
                    self.module.functions.len() as int,
                    opcode,
                    tys,
                ),
                ..self.hooks
            },
            js: self.js + js,
        }
    }

    /// With the hooks of `instr` for each of `tys`.
    pub open spec fn poly(
        self,
        instr: Instr,
        non_poly: Seq<ValType>,
        tys: Seq<Seq<ValType>>,
    ) -> Registered {
        self.poly_by(instr.name(), instr.opcode(), non_poly, tys, poly_texts(instr, tys))
    }

    /// With the hooks that report what a call has returned. Their
    /// JavaScript functions came with those of `return`.
    pub open spec fn call_results(self, results: Seq<Seq<ValType>>) -> Registered {
        Registered {
            module: self.module.with_hooks(result_decls(results)),
            hooks: HookTable {
                call_result: result_entries(
                    self.hooks.call_result,
                    self.module.functions.len() as int,
                    results,
                ),
                ..self.hooks
            },
            js: self.js,
        }
    }

    /// With one more hook, whose JavaScript function is part of every
    /// generated file.
    pub open spec fn plain(self, decl: HookDecl) -> Registered {
        Registered { module: self.module.with_hook(decl), ..self }
    }

    /// With the hooks that exist once.
    pub open spec fn fixed(self) -> Registered {
        Registered {
            hooks: HookTable { fixed: fixed_hooks(self.module.functions.len() as int), ..self.hooks },
            ..self
        }
        .plain(HookDecl { name: "if_"@, args: seq![ValType::I32] })
        .plain(HookDecl { name: "br"@, args: seq![ValType::I32, ValType::I32] })
        .plain(HookDecl { name: "br_if"@, args: seq![ValType::I32, ValType::I32, ValType::I32] })
        .plain(HookDecl { name: "br_table"@, args: seq![ValType::I32, ValType::I32] })
        .plain(HookDecl { name: "begin_function"@, args: seq![] })
        .plain(HookDecl { name: "end_function"@, args: seq![] })
        .plain(HookDecl { name: "begin_block"@, args: seq![] })
        .plain(HookDecl { name: "end_block"@, args: seq![ValType::I32] })
        .plain(HookDecl { name: "begin_loop"@, args: seq![] })
        .plain(HookDecl { name: "end_loop"@, args: seq![ValType::I32] })
        .plain(HookDecl { name: "begin_if"@, args: seq![] })
        .plain(HookDecl { name: "end_if"@, args: seq![ValType::I32] })
        .plain(HookDecl { name: "begin_else"@, args: seq![] })
        .plain(HookDecl { name: "end_else"@, args: seq![ValType::I32] })
        .plain(HookDecl { name: "nop"@, args: seq![] })
        .plain(HookDecl { name: "unreachable"@, args: seq![] })
        .plain(HookDecl { name: "current_memory"@, args: seq![ValType::I32] })
        .plain(HookDecl { name: "grow_memory"@, args: seq![ValType::I32, ValType::I32] })
    }

    /// With the hooks of the instructions whose group fixes their types.
    pub open spec fn mono(self, instrs: Seq<Instr>) -> Registered {
        Registered {
            module: self.module.with_hooks(mono_decls(instrs)),
            hooks: HookTable {
                monomorphic: mono_entries(
                    self.hooks.monomorphic,
                    self.module.functions.len() as int,
                    instrs,
                ),
                ..self.hooks
            },
            js: self.js + mono_texts(instrs),
        }
    }
}

/// The JavaScript functions of `call_indirect` for the types `tys`.
pub open spec fn call_indirect_texts(tys: Seq<Seq<ValType>>) -> Seq<Seq<char>> {
    tys.map_values(|t: Seq<ValType>| call_hook_text(mangled("call_indirect"@, t), true, t))
}

/// The module with all its hooks, where `args` are the vectors of
/// parameter types and `results` the vectors of result types for which
/// there are hooks. The hooks are declared in this order: those of
/// `return`; of the accesses to locals and globals; of `drop` and `select`;
/// of `call` and `call_indirect`; those that report what a call returned;
/// those that exist once; those of the instructions whose group fixes
/// their types.
pub open spec fn registered(
    module: ModuleView,
    args: Seq<Seq<ValType>>,
    results: Seq<Seq<ValType>>,
) -> Registered {
    let start = Registered {
        module,
        hooks: HookTable {
            fixed: fixed_hooks(0),
            polymorphic: Map::empty(),
            call_result: Map::empty(),
            monomorphic: Map::empty(),
        },
        js: seq![],
    };
    start.poly(Instr::Return, seq![], results).poly(
        Instr::GetLocal(Idx::of(0)),
        seq![ValType::I32],
        primitive_types(),
    ).poly(Instr::SetLocal(Idx::of(0)), seq![ValType::I32], primitive_types()).poly(
        Instr::TeeLocal(Idx::of(0)),
        seq![ValType::I32],
        primitive_types(),
    ).poly(Instr::GetGlobal(Idx::of(0)), seq![ValType::I32], primitive_types()).poly(
        Instr::SetGlobal(Idx::of(0)),
        seq![ValType::I32],
        primitive_types(),
    ).poly(Instr::Drop, seq![], primitive_types()).poly(
        Instr::Select,
        seq![ValType::I32],
        select_types(),
    ).poly(Instr::Call(Idx::of(0)), seq![ValType::I32], args).poly_by(
        "call_indirect"@,
        0x11,
        seq![ValType::I32],
        args,
        call_indirect_texts(args),
    ).call_results(results).fixed().mono(monomorphic_instrs())
}

/// Declares the hooks that exist once.
fn add_fixed_hooks(module: &mut Module) -> (fixed: FixedHooks)
    ensures
        fixed == fixed_hooks(old(module).functions.len() as int),
        final(module).functions.len() == old(module).functions.len() + 18,
        forall|before: Registered|
            before.module == old(module)@ ==> (#[trigger] before.fixed()).module == final(module)@,
{
    let none: Vec<ValType> = Vec::new();
    let one = types1(ValType::I32);
    let two = types2(ValType::I32, ValType::I32);
    let three = types3(ValType::I32, ValType::I32, ValType::I32);
    let if_ = add_hook(module, String::from_str("if_"), one.as_slice());
    let br = add_hook(module, String::from_str("br"), two.as_slice());
    let br_if = add_hook(module, String::from_str("br_if"), three.as_slice());
    let br_table = add_hook(module, String::from_str("br_table"), two.as_slice());
    let begin_function = add_hook(module, String::from_str("begin_function"), none.as_slice());
    let end_function = add_hook(module, String::from_str("end_function"), none.as_slice());
    let begin_block = add_hook(module, String::from_str("begin_block"), none.as_slice());
    let end_block = add_hook(module, String::from_str("end_block"), one.as_slice());
    let begin_loop = add_hook(module, String::from_str("begin_loop"), none.as_slice());
    let end_loop = add_hook(module, String::from_str("end_loop"), one.as_slice());
    let begin_if = add_hook(module, String::from_str("begin_if"), none.as_slice());
    let end_if = add_hook(module, String::from_str("end_if"), one.as_slice());
    let begin_else = add_hook(module, String::from_str("begin_else"), none.as_slice());
    let end_else = add_hook(module, String::from_str("end_else"), one.as_slice());
    let nop = add_hook(module, String::from_str("nop"), none.as_slice());
    let unreachable = add_hook(module, String::from_str("unreachable"), none.as_slice());
    let current_memory = add_hook(module, String::from_str("current_memory"), one.as_slice());
    let grow_memory = add_hook(module, String::from_str("grow_memory"), two.as_slice());
    FixedHooks {
        if_,
        br,
        br_if,
        br_table,
        begin_function,
        end_function,
        begin_block,
        end_block,
        begin_loop,
        end_loop,
        begin_if,
        end_if,
        begin_else,
        end_else,
        nop,
        unreachable,
        current_memory,
        grow_memory,
    }
}

/// The vectors of one type each.
fn primitive_list() -> (r: Vec<Vec<ValType>>)
    ensures
        type_views(r@) == primitive_types(),
{
    let r = vec![
        types1(ValType::I32),
        types1(ValType::I64),
        types1(ValType::F32),
        types1(ValType::F64),
    ];
    assert(type_views(r@) =~= primitive_types());
    r
}

fn select_list() -> (r: Vec<Vec<ValType>>)
    ensures
        type_views(r@) == select_types(),
{
    let r = vec![
        types2(ValType::I32, ValType::I32),
        types2(ValType::I64, ValType::I64),
        types2(ValType::F32, ValType::F32),
        types2(ValType::F64, ValType::F64),
    ];
    assert(type_views(r@) =~= select_types());
    r
}

/// What `before` has become through the registration of the hooks of
/// `instr`.
fn register_poly(
    module: &mut Module,
    polymorphic: &mut PolymorphicHookMap,
    js: &mut Vec<String>,
    instr: Instr,
    non_poly_args: &[ValType],
    tys: &[Vec<ValType>],
    Ghost(before): Ghost<Registered>,
) -> (after: Ghost<Registered>)
    requires
        forall|i: int| 0 <= i < tys@.len() ==> has_poly_js_hook(instr, (#[trigger] tys@[i])@),
        before.module == old(module)@,
        before.hooks.polymorphic == old(polymorphic)@,
        before.js == texts(old(js)@),
    ensures
        after@ == before.poly(instr, non_poly_args@, type_views(tys@)),
        after@.module == final(module)@,
        after@.hooks.polymorphic == final(polymorphic)@,
        after@.js == texts(final(js)@),
{
    assert(old(module)@.functions.len() == old(module).functions.len());
    polymorphic.add(module, instr, non_poly_args, tys, js);
    Ghost(before.poly(instr, non_poly_args@, type_views(tys@)))
}

/// Declares all hooks in the module. Returns them by their function
/// indices, with the JavaScript functions of those that are not part of
/// every generated file.
pub fn register_hooks(module: &mut Module, args: &Vec<Vec<ValType>>, results: &Vec<Vec<ValType>>) -> (r: (
    Hooks,
    Vec<String>,
))
    ensures
        registered(old(module)@, type_views(args@), type_views(results@)) == (Registered {
            module: final(module)@,
            hooks: r.0@,
            js: texts(r.1@),
        }),
{
    let mut js: Vec<String> = Vec::new();
    let mut polymorphic = PolymorphicHookMap::new();
    let one = types1(ValType::I32);
    let none: Vec<ValType> = Vec::new();
    let primitive = primitive_list();
    let select = select_list();
    let ghost start = Registered {
        module: module@,
        hooks: HookTable {
            fixed: fixed_hooks(0),
            polymorphic: Map::empty(),
            call_result: Map::empty(),
            monomorphic: Map::empty(),
        },
        js: seq![],
    };
    assert(texts(js@) =~= Seq::<Seq<char>>::empty());
    let reg = register_poly(
        module,
        &mut polymorphic,
        &mut js,
        Instr::Return,
        none.as_slice(),
        results.as_slice(),
        Ghost(start),
    );
    let reg = register_poly(
        module,
        &mut polymorphic,
        &mut js,
        Instr::GetLocal(Idx::new(0)),
        one.as_slice(),
        primitive.as_slice(),
        reg,
    );
    let reg = register_poly(
        module,
        &mut polymorphic,
        &mut js,
        Instr::SetLocal(Idx::new(0)),
        one.as_slice(),
        primitive.as_slice(),
        reg,
    );
    let reg = register_poly(
        module,
        &mut polymorphic,
        &mut js,
        Instr::TeeLocal(Idx::new(0)),
        one.as_slice(),
        primitive.as_slice(),
        reg,
    );
    let reg = register_poly(
        module,
        &mut polymorphic,
        &mut js,
        Instr::GetGlobal(Idx::new(0)),
        one.as_slice(),
        primitive.as_slice(),
        reg,
    );
    let reg = register_poly(
        module,
        &mut polymorphic,
        &mut js,
        Instr::SetGlobal(Idx::new(0)),
        one.as_slice(),
        primitive.as_slice(),
        reg,
    );
    let reg = register_poly(
        module,
        &mut polymorphic,
        &mut js,
        Instr::Drop,
        none.as_slice(),
        primitive.as_slice(),
        reg,
    );
    let reg = register_poly(
        module,
        &mut polymorphic,
        &mut js,
        Instr::Select,
        one.as_slice(),
        select.as_slice(),
        reg,
    );
    let reg = register_poly(
        module,
        &mut polymorphic,
        &mut js,
        Instr::Call(Idx::new(0)),
        one.as_slice(),
        args.as_slice(),
        reg,
    );
    let indirect = Instr::CallIndirect(FunctionType::new(Vec::new(), Vec::new()), Idx::new(0));
    let ghost direct = reg@;
    let reg = register_poly(
        module,
        &mut polymorphic,
        &mut js,
        indirect,
        one.as_slice(),
        args.as_slice(),
        reg,
    );
    proof {
        assert(poly_texts(indirect, type_views(args@)) =~= call_indirect_texts(type_views(args@)));
        assert(reg@ == direct.poly_by(
            "call_indirect"@,
            0x11,
            seq![ValType::I32],
            type_views(args@),
            call_indirect_texts(type_views(args@)),
        ));
    }
    finish_registration(module, polymorphic, js, results, reg)
}

/// Declares the hooks that come after those of the instructions whose
/// types vary.
fn finish_registration(
    module: &mut Module,
    polymorphic: PolymorphicHookMap,
    js: Vec<String>,
    results: &Vec<Vec<ValType>>,
    Ghost(before): Ghost<Registered>,
) -> (r: (Hooks, Vec<String>))
    requires
        before.module == old(module)@,
        before.hooks.polymorphic == polymorphic@,
        before.hooks.call_result == Map::<Seq<ValType>, Idx<Function>>::empty(),
        before.hooks.monomorphic == Map::<u8, Idx<Function>>::empty(),
        before.js == texts(js@),
    ensures
        before.call_results(type_views(results@)).fixed().mono(monomorphic_instrs()) == (Registered {
            module: final(module)@,
            hooks: r.0@,
            js: texts(r.1@),
        }),
{
    let mut js = js;
    let mut call_result = CallResultHookMap::new();
    assert(old(module)@.functions.len() == old(module).functions.len());
    call_result.add(module, results.as_slice());
    let ghost with_results = before.call_results(type_views(results@));
    assert(module@.functions.len() == module.functions.len());
    let fixed = add_fixed_hooks(module);
    let ghost with_fixed = with_results.fixed();
    assert(with_fixed.module == module@);
    let mut monomorphic = MonomorphicHookMap::new();
    let instrs = monomorphic_list();
    assert(module@.functions.len() == module.functions.len());
    assert forall|i: int| 0 <= i < instrs@.len() implies has_js_hook(#[trigger] instrs@[i]) by {
        lemma_monomorphic_instrs_have_hooks();
    }
    monomorphic.add(module, instrs.as_slice(), &mut js);
    (Hooks { fixed, polymorphic, call_result, monomorphic }, js)
}

/// Each of the instructions in `monomorphic_instrs` has a hook whose types
/// its group fixes.
pub proof fn lemma_monomorphic_instrs_have_hooks()
    ensures
        forall|i: int|
            0 <= i < monomorphic_instrs().len() ==> has_js_hook(#[trigger] monomorphic_instrs()[i]),
{
    assert forall|i: int| 0 <= i < monomorphic_instrs().len() implies has_js_hook(
        #[trigger] monomorphic_instrs()[i],
    ) by {
        lemma_grouped_has_hook(monomorphic_instrs()[i]);
    }
}

/// An instruction that is neither an access to a variable nor of the group
/// `Control` has a hook whose types its group fixes.
pub proof fn lemma_grouped_has_hook(instr: Instr)
    ensures
        has_js_hook(instr) <==> !(instr.group() is Local || instr.group() is Global
            || instr.group() is Control),
{
}

/// The vectors of parameter types of the functions, in lexicographic order
/// and each once.
pub open spec fn unique_arg_types(module: ModuleView) -> Seq<Seq<ValType>> {
    sorted_unique(module.functions.map_values(|f: FunctionView| f.type_.params))
}

/// The vectors of result types of the functions, in lexicographic order
/// and each once.
pub open spec fn unique_result_types(module: ModuleView) -> Seq<Seq<ValType>> {
    sorted_unique(module.functions.map_values(|f: FunctionView| f.type_.results))
}

/// The vectors of parameter types and the vectors of result types of the
/// functions of the module.
pub fn unique_types(module: &Module) -> (r: (Vec<Vec<ValType>>, Vec<Vec<ValType>>))
    ensures
        type_views(r.0@) == unique_arg_types(module@),
        type_views(r.1@) == unique_result_types(module@),
{
    let mut args: Vec<Vec<ValType>> = Vec::new();
    let mut results: Vec<Vec<ValType>> = Vec::new();
    let ghost all_args = module@.functions.map_values(|f: FunctionView| f.type_.params);
    let ghost all_results = module@.functions.map_values(|f: FunctionView| f.type_.results);
    assert(type_views(args@) =~= sorted_unique(all_args.take(0)));
    assert(type_views(results@) =~= sorted_unique(all_results.take(0)));
    let mut i: usize = 0;
    while i < module.functions.len()
        invariant
            i <= module.functions.len(),
            all_args == module@.functions.map_values(|f: FunctionView| f.type_.params),
            all_results == module@.functions.map_values(|f: FunctionView| f.type_.results),
            type_views(args@) == sorted_unique(all_args.take(i as int)),
            type_views(results@) == sorted_unique(all_results.take(i as int)),
        decreases module.functions.len() - i,
    {
        let ty = &module.functions[i].type_;
        proof {
            assert(module@.functions[i as int] == module.functions@[i as int]@);
            assert(all_args.take(i + 1).drop_last() =~= all_args.take(i as int));
            assert(all_results.take(i + 1).drop_last() =~= all_results.take(i as int));
        }
        insert_sorted(&mut args, &ty.params);
        insert_sorted(&mut results, &ty.results);
        i += 1;
    }
    proof {
        assert(all_args.take(all_args.len() as int) =~= all_args);
        assert(all_results.take(all_results.len() as int) =~= all_results);
    }
    (args, results)
}

/// The functions after the first `n` of them were rewritten, and the
/// tables of the `br_table` instructions met in them.
pub struct Progress {
    pub functions: Seq<FunctionView>,
    pub br_tables: Seq<BrTableView>,
}

/// The rewrite of the first `n` functions. A function without code stays
/// as it is.
pub open spec fn rewritten_functions(
    hooks: HookTable,
    info: ModuleInfoView,
    functions: Seq<FunctionView>,
    n: nat,
) -> Result<Progress, InstrumentError>
    decreases n,
{
    if n == 0 {
        Ok(Progress { functions: seq![], br_tables: info.br_tables })
    } else {
        match rewritten_functions(hooks, info, functions, (n - 1) as nat) {
            Err(e) => Err(e),
            Ok(prev) => {
                let f = functions[n - 1];
                match f.code {
                    None => Ok(Progress { functions: prev.functions.push(f), ..prev }),
                    Some(code) => match rewritten(
                        Context {
                            func: (n - 1) as usize,
                            type_: f.type_,
                            functions: info.functions,
                            globals: info.globals,
                            hooks,
                        },
                        code.locals,
                        prev.br_tables,
                        code.body,
                    ) {
                        Err(e) => Err(e),
                        Ok(done) => Ok(
                            Progress {
                                functions: prev.functions.push(
                                    FunctionView {
                                        type_: f.type_,
                                        code: Some(
                                            CodeView { locals: done.state.locals, body: done.emitted },
                                        ),
                                    },
                                ),
                                br_tables: done.state.br_tables,
                            },
                        ),
                    },
                }
            },
        }
    }
}

/// An instrumented module with what its JavaScript file is made of.
pub struct Instrumented {
    pub module: ModuleView,
    pub info: ModuleInfoView,
    pub js: Seq<Seq<char>>,
}

/// The module with its tables exported and its hooks declared, before its
/// functions are rewritten. The hooks are those for the types of the
/// functions that the module has.
pub open spec fn declared(module: ModuleView) -> Registered {
    registered(
        ModuleView { exports: with_table_exports(module.exports, module.tables.len()), ..module },
        unique_arg_types(module),
        unique_result_types(module),
    )
}

/// The instrumentation of a module, or where and why it stops. The static
/// information speaks of the module before it got its hooks.
pub open spec fn instrumented(module: ModuleView) -> Result<Instrumented, InstrumentError> {
    let info = ModuleInfo::of(module);
    let reg = declared(module);
    match rewritten_functions(reg.hooks, info, reg.module.functions, reg.module.functions.len()) {
        Err(e) => Err(e),
        Ok(done) => Ok(
            Instrumented {
                module: ModuleView { functions: done.functions, ..reg.module },
                info: ModuleInfoView { br_tables: done.br_tables, ..info },
                js: reg.js,
            },
        ),
    }
}

/// The contents of the functions.
pub open spec fn function_views(functions: Seq<Function>) -> Seq<FunctionView> {
    functions.map_values(|f: Function| f@)
}

/// The contents of the records.
pub open spec fn br_table_views(tables: Seq<BrTableInfo>) -> Seq<BrTableView> {
    tables.map_values(|t: BrTableInfo| t@)
}

/// A rewrite that has failed after `n` functions fails in the same way
/// after more.
pub proof fn lemma_rewrite_fails_on(
    hooks: HookTable,
    info: ModuleInfoView,
    functions: Seq<FunctionView>,
    n: nat,
    m: nat,
)
    requires
        n <= m,
        rewritten_functions(hooks, info, functions, n) is Err,
    ensures
        rewritten_functions(hooks, info, functions, m) == rewritten_functions(hooks, info, functions, n),
    decreases m,
{
    if n < m {
        lemma_rewrite_fails_on(hooks, info, functions, n, (m - 1) as nat);
    }
}

/// Rewrites the functions that have code.
fn instrument_functions(hooks: &Hooks, info: &ModuleInfo, functions: Vec<Function>) -> (r: Result<
    (Vec<Function>, Vec<BrTableInfo>),
    InstrumentError,
>)
    requires
        info@.br_tables.len() == 0,
    ensures
        match r {
            Ok(done) => rewritten_functions(
                hooks@,
                info@,
                function_views(functions@),
                functions@.len(),
            ) == Ok::<Progress, InstrumentError>(
                Progress { functions: function_views(done.0@), br_tables: br_table_views(done.1@) },
            ),
            Err(e) => rewritten_functions(hooks@, info@, function_views(functions@), functions@.len())
                == Err::<Progress, InstrumentError>(e),
        },
{
    let ghost given = function_views(functions@);
    let count = functions.len();
    let mut done: Vec<Function> = Vec::new();
    let mut br_tables: Vec<BrTableInfo> = Vec::new();
    proof {
        assert(function_views(done@) =~= Seq::<FunctionView>::empty());
        assert(br_table_views(br_tables@) =~= info@.br_tables);
    }
    let mut fidx: usize = 0;
    for function in it: functions
        invariant
            given == function_views(functions@),
            given.len() == count,
            it.seq() == functions@,
            fidx == it.index(),
            rewritten_functions(hooks@, info@, given, fidx as nat) == Ok::<Progress, InstrumentError>(
                Progress { functions: function_views(done@), br_tables: br_table_views(br_tables@) },
            ),
    {
        assert(fidx < count);
        assert(given[fidx as int] == function@);
        let ghost before = function_views(done@);
        let Function { type_, code } = function;
        match code {
            None => {
                done.push(Function { type_, code: None });
                assert(function_views(done@) =~= before.push(function@));
            },
            Some(code) => {
                let Code { locals, body } = code;
                let pass = Pass {
                    func: fidx,
                    type_: &type_,
                    functions: &info.functions,
                    globals: &info.globals,
                    hooks,
                };
                match instrument_body(&pass, locals, br_tables, body) {
                    Err(e) => {
                        proof {
                            assert(rewritten_functions(hooks@, info@, given, fidx as nat + 1) == Err::<
                                Progress,
                                InstrumentError,
                            >(e));
                            lemma_rewrite_fails_on(hooks@, info@, given, fidx as nat + 1, given.len());
                        }
                        return Err(e);
                    },
                    Ok(rewritten) => {
                        br_tables = rewritten.br_tables;
                        let ghost view = FunctionView {
                            type_: type_@,
                            code: Some(CodeView { locals: rewritten.locals@, body: rewritten.body@ }),
                        };
                        done.push(
                            Function {
                                type_,
                                code: Some(Code { locals: rewritten.locals, body: rewritten.body }),
                            },
                        );
                        assert(function_views(done@) =~= before.push(view));
                    },
                }
            },
        }
        fidx += 1;
    }
    Ok((done, br_tables))
}

/// Instruments the module: exports its tables, declares the hooks, and
/// rewrites every function that has code. Returns the static information
/// and the JavaScript functions of the hooks, which the generated file is
/// made of. After an error the module has its exports and its hooks, and
/// has lost its functions.
pub fn instrument(module: &mut Module) -> (r: Result<(ModuleInfo, Vec<String>), InstrumentError>)
    ensures
        match r {
            Ok(done) => instrumented(old(module)@) == Ok::<Instrumented, InstrumentError>(
                Instrumented { module: final(module)@, info: done.0@, js: texts(done.1@) },
            ),
            Err(e) => {
                &&& instrumented(old(module)@) == Err::<Instrumented, InstrumentError>(e)
                &&& final(module)@ == (ModuleView {
                    functions: seq![],
                    ..declared(old(module)@).module
                })
            },
        },
{
    export_tables(module);
    let info = ModuleInfo::from(&*module);
    let (args, results) = unique_types(module);
    proof {
        let exported = module@;
        assert(unique_arg_types(exported) == unique_arg_types(old(module)@));
        assert(unique_result_types(exported) == unique_result_types(old(module)@));
        assert(ModuleInfo::of(exported) == ModuleInfo::of(old(module)@));
    }
    let (hooks, js) = register_hooks(module, &args, &results);
    let ghost reg = module@;
    let mut functions: Vec<Function> = Vec::new();
    std::mem::swap(&mut module.functions, &mut functions);
    assert(function_views(functions@) =~= reg.functions);
    assert(module@.functions =~= Seq::<FunctionView>::empty());
    match instrument_functions(&hooks, &info, functions) {
        Err(e) => Err(e),
        Ok(done) => {
            let (functions, br_tables) = done;
            module.functions = functions;
            let info = ModuleInfo { functions: info.functions, globals: info.globals, br_tables };
            Ok((info, js))
        },
    }
}

/// Instruments every instruction of the module with a call of a hook that
/// takes the operands and results of the instruction and where it stands,
/// exports the table, and returns the JavaScript file that goes with the
/// module; `None` exactly where the static information could not be
/// written as JSON.
pub fn add_hooks(module: &mut Module) -> (js: Option<String>)
    requires
        instrumented(old(module)@) is Ok,
    ensures
        final(module)@ == instrumented(old(module)@).unwrap().module,
        match js {
            Some(text) => generated_file(
                instrumented(old(module)@).unwrap().info,
                instrumented(old(module)@).unwrap().js,
            ) == Some(text@),
            None => generated_file(
                instrumented(old(module)@).unwrap().info,
                instrumented(old(module)@).unwrap().js,
            ).is_none(),
        },
{
    match instrument(module) {
        Ok(done) => {
            let (info, hooks) = done;
            js_codegen(info, hooks.as_slice())
        },
        Err(_) => None,
    }
}

} // verus!
