//! The names of the hooks: the registry files every hook under a key from
//! which the name of its import follows.

use crate::add_hooks::{
    call_indirect_texts, fixed_hooks, primitive_types, registered, select_types, Registered,
};
use crate::ast::{Function, Idx, Instr, ModuleView, ValType};
use crate::group::mnemonic;
use crate::guarantees::{all_decls, fixed_decls, lemma_hook_count};
use crate::hooks::{FixedHooks, HookKey, HookTable};
use crate::js_codegen::mangled;
use crate::register::{
    mono_decls, mono_entries, monomorphic_instrs, poly_decls, poly_entries, result_decls,
    result_entries, HookDecl,
};
use vstd::prelude::*;

verus! {

/// The name under which the function `hook` is imported, where `decls` are
/// the hooks, declared as the functions from `first` on.
pub open spec fn declared_name(
    decls: Seq<HookDecl>,
    first: int,
    hook: Idx<Function>,
) -> Option<Seq<char>> {
    if first <= hook.0 < first + decls.len() {
        Some(decls[hook.0 - first].name)
    } else {
        None
    }
}

/// Every hook in the maps is declared under the name that follows from its
/// key: the mnemonic of the opcode, with the types where the hook is one of
/// several for the opcode; `call_result` with the types for a hook that
/// reports the results of a call.
pub open spec fn well_named(hooks: HookTable, decls: Seq<HookDecl>, first: int) -> bool {
    &&& forall|key: HookKey| #[trigger]
        hooks.polymorphic.contains_key(key) ==> declared_name(decls, first, hooks.polymorphic[key])
            == Some(mangled(mnemonic(key.0), key.1))
    &&& forall|tys: Seq<ValType>| #[trigger]
        hooks.call_result.contains_key(tys) ==> declared_name(decls, first, hooks.call_result[tys])
            == Some(mangled("call_result"@, tys))
    &&& forall|opcode: u8| #[trigger]
        hooks.monomorphic.contains_key(opcode) ==> declared_name(
            decls,
            first,
            hooks.monomorphic[opcode],
        ) == Some(mnemonic(opcode))
}

/// The hooks that exist once are declared under their names.
pub open spec fn fixed_named(fixed: FixedHooks, decls: Seq<HookDecl>, first: int) -> bool {
    &&& declared_name(decls, first, fixed.if_) == Some("if_"@)
    &&& declared_name(decls, first, fixed.br) == Some("br"@)
    &&& declared_name(decls, first, fixed.br_if) == Some("br_if"@)
    &&& declared_name(decls, first, fixed.br_table) == Some("br_table"@)
    &&& declared_name(decls, first, fixed.begin_function) == Some("begin_function"@)
    &&& declared_name(decls, first, fixed.end_function) == Some("end_function"@)
    &&& declared_name(decls, first, fixed.begin_block) == Some("begin_block"@)
    &&& declared_name(decls, first, fixed.end_block) == Some("end_block"@)
    &&& declared_name(decls, first, fixed.begin_loop) == Some("begin_loop"@)
    &&& declared_name(decls, first, fixed.end_loop) == Some("end_loop"@)
    &&& declared_name(decls, first, fixed.begin_if) == Some("begin_if"@)
    &&& declared_name(decls, first, fixed.end_if) == Some("end_if"@)
    &&& declared_name(decls, first, fixed.begin_else) == Some("begin_else"@)
    &&& declared_name(decls, first, fixed.end_else) == Some("end_else"@)
    &&& declared_name(decls, first, fixed.nop) == Some("nop"@)
    &&& declared_name(decls, first, fixed.unreachable) == Some("unreachable"@)
    &&& declared_name(decls, first, fixed.current_memory) == Some("current_memory"@)
    &&& declared_name(decls, first, fixed.grow_memory) == Some("grow_memory"@)
}

/// A key of the map with more hooks is a key of the map before, with the
/// hook that it had, or stands for one of the new hooks.
proof fn lemma_poly_entries(
    map: Map<HookKey, Idx<Function>>,
    first: int,
    opcode: u8,
    tys: Seq<Seq<ValType>>,
    key: HookKey,
)
    requires
        poly_entries(map, first, opcode, tys).contains_key(key),
    ensures
        ({
            let now = poly_entries(map, first, opcode, tys);
            ||| map.contains_key(key) && now[key] == map[key]
            ||| exists|k: int|
                0 <= k < tys.len() && key == (opcode, #[trigger] tys[k]) && now[key] == Idx::<
                    Function,
                >::of((first + k) as usize)
        }),
    decreases tys.len(),
{
    if tys.len() > 0 {
        let prev = poly_entries(map, first, opcode, tys.drop_last());
        if key == (opcode, tys.last()) {
            assert(key == (opcode, tys[tys.len() - 1]));
        } else {
            lemma_poly_entries(map, first, opcode, tys.drop_last(), key);
            if !(map.contains_key(key) && prev[key] == map[key]) {
                let k = choose|k: int|
                    0 <= k < tys.drop_last().len() && key == (opcode, #[trigger] tys.drop_last()[k])
                        && prev[key] == Idx::<Function>::of((first + k) as usize);
                assert(tys[k] == tys.drop_last()[k]);
            }
        }
    }
}

proof fn lemma_result_entries(
    map: Map<Seq<ValType>, Idx<Function>>,
    first: int,
    results: Seq<Seq<ValType>>,
    key: Seq<ValType>,
)
    requires
        result_entries(map, first, results).contains_key(key),
    ensures
        ({
            let now = result_entries(map, first, results);
            ||| map.contains_key(key) && now[key] == map[key]
            ||| exists|k: int|
                0 <= k < results.len() && key == #[trigger] results[k] && now[key] == Idx::<
                    Function,
                >::of((first + k) as usize)
        }),
    decreases results.len(),
{
    if results.len() > 0 {
        let prev = result_entries(map, first, results.drop_last());
        if key == results.last() {
            assert(key == results[results.len() - 1]);
        } else {
            lemma_result_entries(map, first, results.drop_last(), key);
            if !(map.contains_key(key) && prev[key] == map[key]) {
                let k = choose|k: int|
                    0 <= k < results.drop_last().len() && key == #[trigger] results.drop_last()[k]
                        && prev[key] == Idx::<Function>::of((first + k) as usize);
                assert(results[k] == results.drop_last()[k]);
            }
        }
    }
}

proof fn lemma_mono_entries(map: Map<u8, Idx<Function>>, first: int, instrs: Seq<Instr>, key: u8)
    requires
        mono_entries(map, first, instrs).contains_key(key),
    ensures
        ({
            let now = mono_entries(map, first, instrs);
            ||| map.contains_key(key) && now[key] == map[key]
            ||| exists|k: int|
                0 <= k < instrs.len() && key == (#[trigger] instrs[k]).opcode() && now[key] == Idx::<
                    Function,
                >::of((first + k) as usize)
        }),
    decreases instrs.len(),
{
    if instrs.len() > 0 {
        let prev = mono_entries(map, first, instrs.drop_last());
        if key == instrs.last().opcode() {
            assert(key == instrs[instrs.len() - 1].opcode());
        } else {
            lemma_mono_entries(map, first, instrs.drop_last(), key);
            if !(map.contains_key(key) && prev[key] == map[key]) {
                let rest = instrs.drop_last();
                let k = choose|k: int|
                    0 <= k < rest.len() && key == (#[trigger] rest[k]).opcode() && prev[key] == Idx::<
                        Function,
                    >::of((first + k) as usize);
                assert(instrs[k] == rest[k]);
            }
        }
    }
}

/// What is well named stays so when more hooks are declared after it.
proof fn lemma_names_stay(hooks: HookTable, decls: Seq<HookDecl>, more: Seq<HookDecl>, first: int)
    requires
        well_named(hooks, decls, first),
    ensures
        well_named(hooks, decls + more, first),
{
    assert forall|hook: Idx<Function>| declared_name(decls, first, hook) is Some implies declared_name(
        decls + more,
        first,
        hook,
    ) == declared_name(decls, first, hook) by {}
}

/// The hooks of an opcode whose types vary are well named.
proof fn lemma_poly_named(
    hooks: HookTable,
    decls: Seq<HookDecl>,
    first: int,
    opcode: u8,
    non_poly: Seq<ValType>,
    tys: Seq<Seq<ValType>>,
)
    requires
        well_named(hooks, decls, first),
        0 <= first,
        first + decls.len() + tys.len() <= usize::MAX,
    ensures
        well_named(
            HookTable {
                polymorphic: poly_entries(hooks.polymorphic, first + decls.len(), opcode, tys),
                ..hooks
            },
            decls + poly_decls(mnemonic(opcode), non_poly, tys),
            first,
        ),
{
    let more = poly_decls(mnemonic(opcode), non_poly, tys);
    let all = decls + more;
    let now = poly_entries(hooks.polymorphic, first + decls.len(), opcode, tys);
    lemma_names_stay(hooks, decls, more, first);
    assert forall|key: HookKey| #[trigger] now.contains_key(key) implies declared_name(
        all,
        first,
        now[key],
    ) == Some(mangled(mnemonic(key.0), key.1)) by {
        lemma_poly_entries(hooks.polymorphic, first + decls.len(), opcode, tys, key);
        if hooks.polymorphic.contains_key(key) && now[key] == hooks.polymorphic[key] {
        } else {
            let k = choose|k: int|
                0 <= k < tys.len() && key == (opcode, #[trigger] tys[k]) && now[key] == Idx::<
                    Function,
                >::of((first + decls.len() + k) as usize);
            assert(all[decls.len() + k] == more[k]);
        }
    }
}

proof fn lemma_results_named(
    hooks: HookTable,
    decls: Seq<HookDecl>,
    first: int,
    results: Seq<Seq<ValType>>,
)
    requires
        well_named(hooks, decls, first),
        0 <= first,
        first + decls.len() + results.len() <= usize::MAX,
    ensures
        well_named(
            HookTable {
                call_result: result_entries(hooks.call_result, first + decls.len(), results),
                ..hooks
            },
            decls + result_decls(results),
            first,
        ),
{
    let more = result_decls(results);
    let all = decls + more;
    let now = result_entries(hooks.call_result, first + decls.len(), results);
    lemma_names_stay(hooks, decls, more, first);
    assert forall|key: Seq<ValType>| #[trigger] now.contains_key(key) implies declared_name(
        all,
        first,
        now[key],
    ) == Some(mangled("call_result"@, key)) by {
        lemma_result_entries(hooks.call_result, first + decls.len(), results, key);
        if hooks.call_result.contains_key(key) && now[key] == hooks.call_result[key] {
        } else {
            let k = choose|k: int|
                0 <= k < results.len() && key == #[trigger] results[k] && now[key] == Idx::<
                    Function,
                >::of((first + decls.len() + k) as usize);
            assert(all[decls.len() + k] == more[k]);
        }
    }
}

proof fn lemma_mono_named(hooks: HookTable, decls: Seq<HookDecl>, first: int, instrs: Seq<Instr>)
    requires
        well_named(hooks, decls, first),
        0 <= first,
        first + decls.len() + instrs.len() <= usize::MAX,
    ensures
        well_named(
            HookTable {
                monomorphic: mono_entries(hooks.monomorphic, first + decls.len(), instrs),
                ..hooks
            },
            decls + mono_decls(instrs),
            first,
        ),
{
    let more = mono_decls(instrs);
    let all = decls + more;
    let now = mono_entries(hooks.monomorphic, first + decls.len(), instrs);
    lemma_names_stay(hooks, decls, more, first);
    assert forall|key: u8| #[trigger] now.contains_key(key) implies declared_name(all, first, now[key])
        == Some(mnemonic(key)) by {
        lemma_mono_entries(hooks.monomorphic, first + decls.len(), instrs, key);
        if hooks.monomorphic.contains_key(key) && now[key] == hooks.monomorphic[key] {
        } else {
            let k = choose|k: int|
                0 <= k < instrs.len() && key == (#[trigger] instrs[k]).opcode() && now[key] == Idx::<
                    Function,
                >::of((first + decls.len() + k) as usize);
            assert(all[decls.len() + k] == more[k]);
        }
    }
}

/// The state of the registration after the hooks `decls` were declared
/// in the module `given`: the module has these hooks, and the maps are
/// well named.
#[verifier::opaque]
pub open spec fn consistent(r: Registered, given: ModuleView, decls: Seq<HookDecl>) -> bool {
    &&& r.module == given.with_hooks(decls)
    &&& well_named(r.hooks, decls, given.functions.len() as int)
}

proof fn lemma_keeps_poly(
    r: Registered,
    given: ModuleView,
    decls: Seq<HookDecl>,
    opcode: u8,
    non_poly: Seq<ValType>,
    tys: Seq<Seq<ValType>>,
    js: Seq<Seq<char>>,
)
    requires
        consistent(r, given, decls),
        given.functions.len() + decls.len() + tys.len() <= usize::MAX,
    ensures
        consistent(
            r.poly_by(mnemonic(opcode), opcode, non_poly, tys, js),
            given,
            decls + poly_decls(mnemonic(opcode), non_poly, tys),
        ),
{
    reveal(consistent);
    let more = poly_decls(mnemonic(opcode), non_poly, tys);
    crate::guarantees::lemma_with_hooks(given, decls);
    crate::guarantees::lemma_with_hooks_concat(given, decls, more);
    lemma_poly_named(r.hooks, decls, given.functions.len() as int, opcode, non_poly, tys);
}

proof fn lemma_keeps_results(
    r: Registered,
    given: ModuleView,
    decls: Seq<HookDecl>,
    results: Seq<Seq<ValType>>,
)
    requires
        consistent(r, given, decls),
        given.functions.len() + decls.len() + results.len() <= usize::MAX,
    ensures
        consistent(r.call_results(results), given, decls + result_decls(results)),
{
    reveal(consistent);
    crate::guarantees::lemma_with_hooks(given, decls);
    crate::guarantees::lemma_with_hooks_concat(given, decls, result_decls(results));
    lemma_results_named(r.hooks, decls, given.functions.len() as int, results);
}

proof fn lemma_keeps_fixed(r: Registered, given: ModuleView, decls: Seq<HookDecl>)
    requires
        consistent(r, given, decls),
        given.functions.len() + decls.len() + 18 <= usize::MAX,
    ensures
        consistent(r.fixed(), given, decls + fixed_decls()),
        fixed_named(r.fixed().hooks.fixed, decls + fixed_decls(), given.functions.len() as int),
{
    reveal(consistent);
    let n = given.functions.len() as int;
    crate::guarantees::lemma_with_hooks(given, decls);
    crate::guarantees::lemma_with_hooks_concat(given, decls, fixed_decls());
    crate::guarantees::lemma_fixed(r);
    lemma_names_stay(r.hooks, decls, fixed_decls(), n);
    let all = decls + fixed_decls();
    assert forall|k: int| 0 <= k < 18 implies all[decls.len() + k] == fixed_decls()[k] by {}
    assert(r.module.functions.len() == n + decls.len());
    let base = decls.len() as int;
    let fixed = fixed_hooks(n + decls.len());
    assert(declared_name(all, n, fixed.if_) == Some(all[base + 0].name));
    assert(declared_name(all, n, fixed.br) == Some(all[base + 1].name));
    assert(declared_name(all, n, fixed.br_if) == Some(all[base + 2].name));
    assert(declared_name(all, n, fixed.br_table) == Some(all[base + 3].name));
    assert(declared_name(all, n, fixed.begin_function) == Some(all[base + 4].name));
    assert(declared_name(all, n, fixed.end_function) == Some(all[base + 5].name));
    assert(declared_name(all, n, fixed.begin_block) == Some(all[base + 6].name));
    assert(declared_name(all, n, fixed.end_block) == Some(all[base + 7].name));
    assert(declared_name(all, n, fixed.begin_loop) == Some(all[base + 8].name));
    assert(declared_name(all, n, fixed.end_loop) == Some(all[base + 9].name));
    assert(declared_name(all, n, fixed.begin_if) == Some(all[base + 10].name));
    assert(declared_name(all, n, fixed.end_if) == Some(all[base + 11].name));
    assert(declared_name(all, n, fixed.begin_else) == Some(all[base + 12].name));
    assert(declared_name(all, n, fixed.end_else) == Some(all[base + 13].name));
    assert(declared_name(all, n, fixed.nop) == Some(all[base + 14].name));
    assert(declared_name(all, n, fixed.unreachable) == Some(all[base + 15].name));
    assert(declared_name(all, n, fixed.current_memory) == Some(all[base + 16].name));
    assert(declared_name(all, n, fixed.grow_memory) == Some(all[base + 17].name));
}

proof fn lemma_keeps_mono(
    r: Registered,
    given: ModuleView,
    decls: Seq<HookDecl>,
    instrs: Seq<Instr>,
)
    requires
        consistent(r, given, decls),
        fixed_named(r.hooks.fixed, decls, given.functions.len() as int),
        given.functions.len() + decls.len() + instrs.len() <= usize::MAX,
    ensures
        consistent(r.mono(instrs), given, decls + mono_decls(instrs)),
        fixed_named(r.mono(instrs).hooks.fixed, decls + mono_decls(instrs), given.functions.len() as int),
{
    reveal(consistent);
    crate::guarantees::lemma_with_hooks(given, decls);
    crate::guarantees::lemma_with_hooks_concat(given, decls, mono_decls(instrs));
    lemma_mono_named(r.hooks, decls, given.functions.len() as int, instrs);
}

/// The step for the hooks of an instruction, by the instruction.
proof fn lemma_keeps_instr(
    r: Registered,
    given: ModuleView,
    decls: Seq<HookDecl>,
    instr: Instr,
    non_poly: Seq<ValType>,
    tys: Seq<Seq<ValType>>,
    bound: int,
)
    requires
        consistent(r, given, decls),
        given.functions.len() + decls.len() == bound,
        bound + tys.len() <= usize::MAX,
    ensures
        consistent(
            r.poly(instr, non_poly, tys),
            given,
            decls + poly_decls(instr.name(), non_poly, tys),
        ),
        (decls + poly_decls(instr.name(), non_poly, tys)).len() == decls.len() + tys.len(),
{
    lemma_keeps_poly(
        r,
        given,
        decls,
        instr.opcode(),
        non_poly,
        tys,
        crate::register::poly_texts(instr, tys),
    );
}

/// The hooks of `return` and of the accesses to variables.
pub open spec fn variable_decls(results: Seq<Seq<ValType>>) -> Seq<HookDecl> {
    poly_decls("return"@, seq![], results) + poly_decls(
        "get_local"@,
        seq![ValType::I32],
        primitive_types(),
    ) + poly_decls("set_local"@, seq![ValType::I32], primitive_types()) + poly_decls(
        "tee_local"@,
        seq![ValType::I32],
        primitive_types(),
    ) + poly_decls("get_global"@, seq![ValType::I32], primitive_types()) + poly_decls(
        "set_global"@,
        seq![ValType::I32],
        primitive_types(),
    )
}

/// The state of the registration after the hooks of `return` and of the
/// accesses to variables.
pub open spec fn with_variable_hooks(module: ModuleView, results: Seq<Seq<ValType>>) -> Registered {
    let start = Registered {
        module,
        hooks: HookTable {
            fixed: fixed_hooks(0),
            polymorphic: Map::empty(),
            call_result: Map::empty(),
            monomorphic: Map::empty(),
        },
        js: seq![],
    };
    start.poly(Instr::Return, seq![], results).poly(
        Instr::GetLocal(Idx::of(0)),
        seq![ValType::I32],
        primitive_types(),
    ).poly(Instr::SetLocal(Idx::of(0)), seq![ValType::I32], primitive_types()).poly(
        Instr::TeeLocal(Idx::of(0)),
        seq![ValType::I32],
        primitive_types(),
    ).poly(Instr::GetGlobal(Idx::of(0)), seq![ValType::I32], primitive_types()).poly(
        Instr::SetGlobal(Idx::of(0)),
        seq![ValType::I32],
        primitive_types(),
    )
}

proof fn lemma_variable_hooks(module: ModuleView, results: Seq<Seq<ValType>>)
    requires
        module.functions.len() + results.len() + 20 <= usize::MAX,
    ensures
        consistent(with_variable_hooks(module, results), module, variable_decls(results)),
        variable_decls(results).len() == results.len() + 20,
{
    let prim = primitive_types();
    let one = seq![ValType::I32];
    let none = Seq::<ValType>::empty();
    let n = module.functions.len() as int;
    let start = Registered {
        module,
        hooks: HookTable {
            fixed: fixed_hooks(0),
            polymorphic: Map::empty(),
            call_result: Map::empty(),
            monomorphic: Map::empty(),
        },
        js: seq![],
    };
    let e0 = Seq::<HookDecl>::empty();
    assert(consistent(start, module, e0)) by {
        reveal(consistent);
    }
    let r1 = start.poly(Instr::Return, none, results);
    let p1 = e0 + poly_decls(Instr::Return.name(), none, results);
    lemma_keeps_instr(start, module, e0, Instr::Return, none, results, n);
    let i2 = Instr::GetLocal(Idx::of(0));
    let r2 = r1.poly(i2, one, prim);
    let p2 = p1 + poly_decls(i2.name(), one, prim);
    lemma_keeps_instr(r1, module, p1, i2, one, prim, n + results.len());
    let i3 = Instr::SetLocal(Idx::of(0));
    let r3 = r2.poly(i3, one, prim);
    let p3 = p2 + poly_decls(i3.name(), one, prim);
    lemma_keeps_instr(r2, module, p2, i3, one, prim, n + results.len() + 4);
    let i4 = Instr::TeeLocal(Idx::of(0));
    let r4 = r3.poly(i4, one, prim);
    let p4 = p3 + poly_decls(i4.name(), one, prim);
    lemma_keeps_instr(r3, module, p3, i4, one, prim, n + results.len() + 8);
    let i5 = Instr::GetGlobal(Idx::of(0));
    let r5 = r4.poly(i5, one, prim);
    let p5 = p4 + poly_decls(i5.name(), one, prim);
    lemma_keeps_instr(r4, module, p4, i5, one, prim, n + results.len() + 12);
    let i6 = Instr::SetGlobal(Idx::of(0));
    let r6 = r5.poly(i6, one, prim);
    let p6 = p5 + poly_decls(i6.name(), one, prim);
    lemma_keeps_instr(r5, module, p5, i6, one, prim, n + results.len() + 16);
    assert(r6 == with_variable_hooks(module, results));
    assert(e0 + poly_decls("return"@, none, results) =~= poly_decls("return"@, none, results));
    assert(p6 == variable_decls(results));
}

proof fn lemma_call_hooks(
    r: Registered,
    given: ModuleView,
    decls: Seq<HookDecl>,
    args: Seq<Seq<ValType>>,
    bound: int,
)
    requires
        consistent(r, given, decls),
        given.functions.len() + decls.len() == bound,
        bound + 8 + 2 * args.len() <= usize::MAX,
    ensures
        ({
            let now = r.poly(Instr::Drop, seq![], primitive_types()).poly(
                Instr::Select,
                seq![ValType::I32],
                select_types(),
            ).poly(Instr::Call(Idx::of(0)), seq![ValType::I32], args).poly_by(
                "call_indirect"@,
                0x11,
                seq![ValType::I32],
                args,
                call_indirect_texts(args),
            );
            let all = decls + poly_decls("drop"@, seq![], primitive_types()) + poly_decls(
                "select"@,
                seq![ValType::I32],
                select_types(),
            ) + poly_decls("call"@, seq![ValType::I32], args) + poly_decls(
                "call_indirect"@,
                seq![ValType::I32],
                args,
            );
            consistent(now, given, all) && all.len() == decls.len() + 8 + 2 * args.len()
        }),
{
    let prim = primitive_types();
    let one = seq![ValType::I32];
    let none = Seq::<ValType>::empty();
    let r1 = r.poly(Instr::Drop, none, prim);
    let p1 = decls + poly_decls(Instr::Drop.name(), none, prim);
    lemma_keeps_instr(r, given, decls, Instr::Drop, none, prim, bound);
    let r2 = r1.poly(Instr::Select, one, select_types());
    let p2 = p1 + poly_decls(Instr::Select.name(), one, select_types());
    lemma_keeps_instr(r1, given, p1, Instr::Select, one, select_types(), bound + 4);
    let i3 = Instr::Call(Idx::of(0));
    let r3 = r2.poly(i3, one, args);
    let p3 = p2 + poly_decls(i3.name(), one, args);
    lemma_keeps_instr(r2, given, p2, i3, one, args, bound + 8);
    lemma_keeps_poly(r3, given, p3, 0x11, one, args, call_indirect_texts(args));
}

proof fn lemma_last_hooks(
    r: Registered,
    given: ModuleView,
    decls: Seq<HookDecl>,
    results: Seq<Seq<ValType>>,
    bound: int,
)
    requires
        consistent(r, given, decls),
        given.functions.len() + decls.len() == bound,
        bound + results.len() + 168 <= usize::MAX,
    ensures
        ({
            let now = r.call_results(results).fixed().mono(monomorphic_instrs());
            let all = decls + result_decls(results) + fixed_decls() + mono_decls(monomorphic_instrs());
            &&& well_named(now.hooks, all, given.functions.len() as int)
            &&& fixed_named(now.hooks.fixed, all, given.functions.len() as int)
        }),
{
    lemma_keeps_results(r, given, decls, results);
    let r1 = r.call_results(results);
    let p1 = decls + result_decls(results);
    lemma_keeps_fixed(r1, given, p1);
    let r2 = r1.fixed();
    let p2 = p1 + fixed_decls();
    lemma_keeps_mono(r2, given, p2, monomorphic_instrs());
    reveal(consistent);
}

/// The registry of a module files every hook under a key from which the
/// name of its import follows: the hook of an instruction whose group fixes
/// its types is imported under the mnemonic of the instruction; the hook of
/// an instruction whose types vary under the mnemonic and the types; a hook
/// for the results of a call under `call_result` and the types; and the
/// hooks that exist once under their names.
pub proof fn lemma_hooks_are_named(
    module: ModuleView,
    args: Seq<Seq<ValType>>,
    results: Seq<Seq<ValType>>,
)
    requires
        module.functions.len() + all_decls(args, results).len() <= usize::MAX,
    ensures
        well_named(
            registered(module, args, results).hooks,
            all_decls(args, results),
            module.functions.len() as int,
        ),
        fixed_named(
            registered(module, args, results).hooks.fixed,
            all_decls(args, results),
            module.functions.len() as int,
        ),
{
    lemma_hook_count(args, results);
    let n = module.functions.len() as int;
    lemma_variable_hooks(module, results);
    let r6 = with_variable_hooks(module, results);
    let p6 = variable_decls(results);
    lemma_call_hooks(r6, module, p6, args, n + results.len() + 20);
    let r10 = r6.poly(Instr::Drop, seq![], primitive_types()).poly(
        Instr::Select,
        seq![ValType::I32],
        select_types(),
    ).poly(Instr::Call(Idx::of(0)), seq![ValType::I32], args).poly_by(
        "call_indirect"@,
        0x11,
        seq![ValType::I32],
        args,
        call_indirect_texts(args),
    );
    let p10 = p6 + poly_decls("drop"@, seq![], primitive_types()) + poly_decls(
        "select"@,
        seq![ValType::I32],
        select_types(),
    ) + poly_decls("call"@, seq![ValType::I32], args) + poly_decls(
        "call_indirect"@,
        seq![ValType::I32],
        args,
    );
    lemma_last_hooks(r10, module, p10, results, n + results.len() + 28 + 2 * args.len());
    let r13 = r10.call_results(results).fixed().mono(monomorphic_instrs());
    let p13 = p10 + result_decls(results) + fixed_decls() + mono_decls(monomorphic_instrs());
    assert(r13 == registered(module, args, results));
    assert(p13 == all_decls(args, results));
}

} // verus!
