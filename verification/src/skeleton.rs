//! What the rewrite of a function body keeps: the instructions of the
//! body, in their order, and the nesting of its blocks.

use crate::ast::{BlockType, Function, Global, Idx, Instr, Label, Local, Signature, ValType};
use crate::block_stack::{labelled, Begin};
use crate::body::{body_start, prologue, rewritten, run};
use crate::convert_i64::split;
use crate::group::{GlobalOp, InstrGroup, LocalOp};
use crate::rewrite::{
    access_inputs, access_results, end_report, hook_after, hook_before, memarg_consts, prepared,
    result_report, select_type, step, step_binary, step_br, step_br_if, step_br_table, step_call,
    step_call_indirect, step_const, step_current_memory, step_drop, step_else, step_end,
    step_global, step_grow_memory, step_if, step_load, step_local, step_return, step_select,
    step_store, step_unary, BodyStateView, Context, Fault, Step,
};
use crate::splice::{local_run, location, restored, saved};
use crate::static_info::BrTableView;
use crate::type_stack::top_type;
use vstd::prelude::*;

verus! {

/// The instructions that open, divide or close a block.
pub open spec fn is_structural(instr: Instr) -> bool {
    instr is Block || instr is Loop || instr is If || instr is Else || instr is End
}

/// None of the instructions opens, divides or closes a block.
#[verifier::opaque]
pub open spec fn plain(instrs: Seq<Instr>) -> bool {
    forall|j: int| 0 <= j < instrs.len() ==> !is_structural(#[trigger] instrs[j])
}

/// The instructions that open, divide or close a block, in their order:
/// the nesting of the blocks.
pub open spec fn skeleton(instrs: Seq<Instr>) -> Seq<Instr>
    decreases instrs.len(),
{
    if instrs.len() == 0 {
        seq![]
    } else if is_structural(instrs.last()) {
        skeleton(instrs.drop_last()).push(instrs.last())
    } else {
        skeleton(instrs.drop_last())
    }
}

/// `a` is what is left of `b` when some of the instructions of `b` are
/// taken out: `at` gives for each instruction of `a` its place in `b`.
pub open spec fn embedded_at(a: Seq<Instr>, b: Seq<Instr>, at: Seq<int>) -> bool {
    &&& at.len() == a.len()
    &&& forall|i: int| 0 <= i < a.len() ==> 0 <= #[trigger] at[i] < b.len() && b[at[i]] == a[i]
    &&& forall|i: int, j: int| 0 <= i < j < a.len() ==> at[i] < at[j]
}

/// `a` is a subsequence of `b`.
pub open spec fn is_subsequence(a: Seq<Instr>, b: Seq<Instr>) -> bool {
    exists|at: Seq<int>| embedded_at(a, b, at)
}

pub proof fn lemma_skeleton_concat(a: Seq<Instr>, b: Seq<Instr>)
    ensures
        skeleton(a + b) == skeleton(a) + skeleton(b),
    decreases b.len(),
{
    if b.len() == 0 {
        assert(a + b =~= a);
        assert(skeleton(a) + skeleton(b) =~= skeleton(a));
    } else {
        assert((a + b).drop_last() =~= a + b.drop_last());
        assert((a + b).last() == b.last());
        lemma_skeleton_concat(a, b.drop_last());
        if is_structural(b.last()) {
            assert(skeleton(a + b) =~= skeleton(a) + skeleton(b));
        }
    }
}

pub proof fn lemma_skeleton_of_plain(a: Seq<Instr>)
    requires
        plain(a),
    ensures
        skeleton(a) == Seq::<Instr>::empty(),
    decreases a.len(),
{
    reveal(plain);
    if a.len() > 0 {
        assert(!is_structural(a[a.len() - 1]));
        assert forall|j: int| 0 <= j < a.drop_last().len() implies !is_structural(
            #[trigger] a.drop_last()[j],
        ) by {
            assert(a.drop_last()[j] == a[j]);
        }
        lemma_skeleton_of_plain(a.drop_last());
    }
}

pub proof fn lemma_restored_is_plain(locals: Seq<Idx<Local>>, tys: Seq<ValType>)
    ensures
        plain(restored(locals, tys)),
    decreases locals.len(),
{
    reveal(plain);
    if locals.len() != 0 && tys.len() == locals.len() {
        lemma_restored_is_plain(locals.drop_last(), tys.drop_last());
        let a = restored(locals.drop_last(), tys.drop_last());
        let b = split(Instr::GetLocal(locals.last()), tys.last());
        assert forall|j: int| 0 <= j < (a + b).len() implies !is_structural(#[trigger] (a + b)[j]) by {
            if j < a.len() {
                assert((a + b)[j] == a[j]);
            } else {
                assert((a + b)[j] == b[j - a.len()]);
            }
        }
    }
}

pub proof fn lemma_saved_is_plain(locals: Seq<Idx<Local>>)
    ensures
        plain(saved(locals)),
{
    reveal(plain);
}

pub proof fn lemma_plain_concat(a: Seq<Instr>, b: Seq<Instr>)
    requires
        plain(a),
        plain(b),
    ensures
        plain(a + b),
{
    reveal(plain);
    assert forall|j: int| 0 <= j < (a + b).len() implies !is_structural(#[trigger] (a + b)[j]) by {
        if j < a.len() {
            assert((a + b)[j] == a[j]);
        } else {
            assert((a + b)[j] == b[j - a.len()]);
        }
    }
}

/// Instructions none of which opens, divides or closes a block are plain.
pub proof fn lemma_plain_of(instrs: Seq<Instr>)
    requires
        forall|j: int| 0 <= j < instrs.len() ==> !is_structural(#[trigger] instrs[j]),
    ensures
        plain(instrs),
{
    reveal(plain);
}

pub proof fn lemma_plain_push(a: Seq<Instr>, x: Instr)
    requires
        plain(a),
        !is_structural(x),
    ensures
        plain(a.push(x)),
{
    reveal(plain);
}

pub proof fn lemma_location_is_plain(func: usize, iidx: usize)
    ensures
        plain(location(func, iidx)),
{
    reveal(plain);
}

pub proof fn lemma_split_is_plain(instr: Instr, ty: ValType)
    requires
        !is_structural(instr),
    ensures
        plain(split(instr, ty)),
{
    reveal(plain);
}

pub proof fn lemma_plain3(a: Seq<Instr>, b: Seq<Instr>, c: Seq<Instr>)
    requires
        plain(a),
        plain(b),
        plain(c),
    ensures
        plain(a + b + c),
{
    lemma_plain_concat(a, b);
    lemma_plain_concat(a + b, c);
}

pub proof fn lemma_plain4(a: Seq<Instr>, b: Seq<Instr>, c: Seq<Instr>, d: Seq<Instr>)
    requires
        plain(a),
        plain(b),
        plain(c),
        plain(d),
    ensures
        plain(a + b + c + d),
{
    lemma_plain3(a, b, c);
    lemma_plain_concat(a + b + c, d);
}

/// What a step puts around the instruction neither opens nor divides nor
/// closes a block.
pub open spec fn plain_step(r: Result<Step, Fault>) -> bool {
    r matches Ok(s) ==> plain(s.before) && plain(s.after)
}

proof fn lemma_hook_after_is_plain(
    state: BodyStateView,
    before: Seq<Instr>,
    after: Seq<Instr>,
    hook: Option<Instr>,
)
    requires
        plain(before),
        plain(after),
        hook matches Some(call) ==> call is Call,
    ensures
        plain_step(hook_after(state, before, after, hook)),
{
    match hook {
        Some(call) => lemma_plain_push(after, call),
        None => {},
    }
}

proof fn lemma_hook_before_is_plain(state: BodyStateView, before: Seq<Instr>, hook: Option<Instr>)
    requires
        plain(before),
        hook matches Some(call) ==> call is Call,
    ensures
        plain_step(hook_before(state, before, hook)),
{
    lemma_plain_of(Seq::<Instr>::empty());
    match hook {
        Some(call) => lemma_plain_push(before, call),
        None => {},
    }
}

proof fn lemma_located_call_is_plain(ctx: Context, iidx: usize, hook: Idx<Function>)
    ensures
        plain(location(ctx.func, iidx).push(Instr::Call(hook))),
        plain(Seq::<Instr>::empty()),
{
    lemma_location_is_plain(ctx.func, iidx);
    lemma_plain_push(location(ctx.func, iidx), Instr::Call(hook));
    lemma_plain_of(Seq::<Instr>::empty());
}

proof fn lemma_result_report_is_plain(ctx: Context, iidx: usize, first: int, tys: Seq<ValType>)
    ensures
        plain(result_report(ctx, iidx, first, tys)),
{
    lemma_restored_is_plain(local_run(first, tys.len()), tys);
    lemma_saved_is_plain(local_run(first, tys.len()));
    lemma_location_is_plain(ctx.func, iidx);
    lemma_plain3(
        saved(local_run(first, tys.len())),
        location(ctx.func, iidx),
        restored(local_run(first, tys.len()), tys),
    );
}

proof fn lemma_if_is_plain(ctx: Context, st: BodyStateView, iidx: usize, ty: BlockType)
    ensures
        plain_step(step_if(ctx, st, iidx, ty)),
{
    let c = ctx.tmp(st, 0);
    let head = seq![Instr::TeeLocal(c)];
    let tail = seq![Instr::GetLocal(c), Instr::Call(ctx.hooks.fixed.if_)];
    lemma_plain_of(head);
    lemma_plain_of(tail);
    lemma_location_is_plain(ctx.func, iidx);
    lemma_plain3(head, location(ctx.func, iidx), tail);
    lemma_located_call_is_plain(ctx, iidx, ctx.hooks.fixed.begin_if);
}

proof fn lemma_else_is_plain(ctx: Context, st: BodyStateView, iidx: usize)
    ensures
        plain_step(step_else(ctx, st, iidx)),
{
    lemma_location_is_plain(ctx.func, iidx);
    lemma_located_call_is_plain(ctx, iidx, ctx.hooks.fixed.begin_else);
    if st.blocks.len() > 0 {
        match st.blocks.last() {
            Begin::If(begin) => {
                let tail = seq![Instr::I32Const(begin as i32), Instr::Call(ctx.hooks.fixed.end_else)];
                lemma_plain_of(tail);
                lemma_plain_concat(location(ctx.func, iidx), tail);
            },
            _ => {},
        }
    }
}

proof fn lemma_end_is_plain(ctx: Context, st: BodyStateView, iidx: usize)
    ensures
        plain_step(step_end(ctx, st, iidx)),
{
    lemma_location_is_plain(ctx.func, iidx);
    lemma_plain_of(Seq::<Instr>::empty());
    if st.blocks.len() > 0 {
        lemma_plain_of(end_report(ctx, st.blocks.last()));
        lemma_plain_concat(location(ctx.func, iidx), end_report(ctx, st.blocks.last()));
    }
}

proof fn lemma_br_is_plain(ctx: Context, st: BodyStateView, iidx: usize, label: Idx<Label>)
    ensures
        plain_step(step_br(ctx, st, iidx, label)),
        plain_step(step_br_if(ctx, st, iidx, label)),
{
    lemma_location_is_plain(ctx.func, iidx);
    lemma_plain_of(Seq::<Instr>::empty());
    match labelled(st.blocks, label.0) {
        Some(begin) => {
            let tail = seq![
                Instr::I32Const(label.0 as i32),
                Instr::I32Const(begin.target() as i32),
                Instr::Call(ctx.hooks.fixed.br),
            ];
            lemma_plain_of(tail);
            lemma_plain_concat(location(ctx.func, iidx), tail);
            let head = seq![Instr::TeeLocal(ctx.tmp(st, 0))];
            let tail_if = seq![
                Instr::I32Const(label.0 as i32),
                Instr::I32Const(begin.target() as i32),
                Instr::GetLocal(ctx.tmp(st, 0)),
                Instr::Call(ctx.hooks.fixed.br_if),
            ];
            lemma_plain_of(head);
            lemma_plain_of(tail_if);
            lemma_plain3(head, location(ctx.func, iidx), tail_if);
        },
        None => {},
    }
}

proof fn lemma_br_table_is_plain(
    ctx: Context,
    st: BodyStateView,
    iidx: usize,
    table: Seq<Idx<Label>>,
    default: Idx<Label>,
)
    ensures
        plain_step(step_br_table(ctx, st, iidx, table, default)),
{
    lemma_location_is_plain(ctx.func, iidx);
    lemma_plain_of(Seq::<Instr>::empty());
    let head = seq![Instr::TeeLocal(ctx.tmp(st, 0))];
    let tail = seq![
        Instr::I32Const(st.br_tables.len() as usize as i32),
        Instr::GetLocal(ctx.tmp(st, 0)),
        Instr::Call(ctx.hooks.fixed.br_table),
    ];
    lemma_plain_of(head);
    lemma_plain_of(tail);
    lemma_plain3(head, location(ctx.func, iidx), tail);
}

proof fn lemma_return_is_plain(ctx: Context, st: BodyStateView, iidx: usize, instr: Instr)
    ensures
        plain_step(step_return(ctx, st, iidx, instr)),
{
    let tys = ctx.type_.results;
    let tmps = local_run(ctx.first_fresh(st), tys.len());
    lemma_restored_is_plain(tmps, tys);
    lemma_saved_is_plain(tmps);
    lemma_location_is_plain(ctx.func, iidx);
    lemma_plain3(saved(tmps), location(ctx.func, iidx), restored(tmps, tys));
    match prepared(ctx, st, seq![], seq![], tys) {
        Ok(state) => lemma_hook_before_is_plain(
            state,
            saved(tmps) + location(ctx.func, iidx) + restored(tmps, tys),
            ctx.poly_call(instr, tys),
        ),
        Err(_) => {},
    }
}

proof fn lemma_call_is_plain(
    ctx: Context,
    st: BodyStateView,
    iidx: usize,
    instr: Instr,
    target: Idx<Function>,
)
    ensures
        plain_step(step_call(ctx, st, iidx, instr, target)),
{
    if target.0 < ctx.functions.len() {
        let args = ctx.functions[target.0 as int].params;
        let results = ctx.functions[target.0 as int].results;
        let first = ctx.first_fresh(st);
        let tmps = local_run(first, args.len());
        let konst = seq![Instr::I32Const(target.0 as i32)];
        lemma_restored_is_plain(tmps, args);
        lemma_saved_is_plain(tmps);
        lemma_location_is_plain(ctx.func, iidx);
        lemma_plain_of(konst);
        lemma_plain4(saved(tmps), location(ctx.func, iidx), konst, restored(tmps, args));
        lemma_result_report_is_plain(ctx, iidx, first + args.len(), results);
        match (prepared(ctx, st, args, results, args + results), ctx.poly_call(instr, args)) {
            (Ok(state), Some(call)) => {
                let before = saved(tmps) + location(ctx.func, iidx) + konst + restored(tmps, args);
                lemma_plain_push(before, call);
                lemma_hook_after_is_plain(
                    state,
                    before.push(call),
                    result_report(ctx, iidx, first + args.len(), results),
                    ctx.result_call(results),
                );
            },
            _ => {},
        }
    }
}

proof fn lemma_call_indirect_is_plain(
    ctx: Context,
    st: BodyStateView,
    iidx: usize,
    instr: Instr,
    ty: Signature,
)
    ensures
        plain_step(step_call_indirect(ctx, st, iidx, instr, ty)),
{
    let args = ty.params;
    let results = ty.results;
    let first = ctx.first_fresh(st) + 1;
    let tmps = local_run(first, args.len());
    let set = seq![Instr::SetLocal(ctx.tmp(st, 0))];
    let get = seq![Instr::GetLocal(ctx.tmp(st, 0))];
    lemma_restored_is_plain(tmps, args);
    lemma_saved_is_plain(tmps);
    lemma_location_is_plain(ctx.func, iidx);
    lemma_plain_of(set);
    lemma_plain_of(get);
    lemma_plain3(set, saved(tmps), get);
    lemma_plain4(set + saved(tmps) + get, location(ctx.func, iidx), get, restored(tmps, args));
    lemma_result_report_is_plain(ctx, iidx, first + args.len(), results);
    match (
        prepared(ctx, st, args, results, seq![ValType::I32] + args + results),
        ctx.poly_call(instr, args),
    ) {
        (Ok(state), Some(call)) => {
            let before = set + saved(tmps) + get + location(ctx.func, iidx) + get + restored(tmps, args);
            lemma_plain_push(before, call);
            lemma_hook_after_is_plain(
                state,
                before.push(call),
                result_report(ctx, iidx, first + args.len(), results),
                ctx.result_call(results),
            );
        },
        _ => {},
    }
}

proof fn lemma_drop_is_plain(ctx: Context, st: BodyStateView, iidx: usize, instr: Instr)
    ensures
        plain_step(step_drop(ctx, st, iidx, instr)),
{
    match top_type(st.types) {
        Some(ty) => {
            let set = seq![Instr::SetLocal(ctx.tmp(st, 0))];
            lemma_plain_of(set);
            lemma_location_is_plain(ctx.func, iidx);
            lemma_split_is_plain(Instr::GetLocal(ctx.tmp(st, 0)), ty);
            lemma_plain3(set, location(ctx.func, iidx), split(Instr::GetLocal(ctx.tmp(st, 0)), ty));
            match prepared(ctx, st, seq![ty], seq![], seq![ty]) {
                Ok(state) => lemma_hook_before_is_plain(
                    state,
                    set + location(ctx.func, iidx) + split(Instr::GetLocal(ctx.tmp(st, 0)), ty),
                    ctx.poly_call(instr, seq![ty]),
                ),
                Err(_) => {},
            }
        },
        None => {},
    }
}

proof fn lemma_select_is_plain(ctx: Context, st: BodyStateView, iidx: usize, instr: Instr)
    ensures
        plain_step(step_select(ctx, st, iidx, instr)),
{
    match select_type(st.types) {
        Some(ty) => {
            let get = seq![Instr::GetLocal(ctx.tmp(st, 0))];
            let args = seq![ctx.tmp(st, 1), ctx.tmp(st, 2)];
            let all = seq![ctx.tmp(st, 1), ctx.tmp(st, 2), ctx.tmp(st, 0)];
            lemma_plain_of(get);
            lemma_saved_is_plain(all);
            lemma_location_is_plain(ctx.func, iidx);
            lemma_restored_is_plain(args, seq![ty, ty]);
            lemma_plain3(location(ctx.func, iidx), get, restored(args, seq![ty, ty]));
            match prepared(ctx, st, seq![ty, ty, ValType::I32], seq![ty], seq![ValType::I32, ty, ty]) {
                Ok(state) => lemma_hook_after_is_plain(
                    state,
                    saved(all),
                    location(ctx.func, iidx) + get + restored(args, seq![ty, ty]),
                    ctx.poly_call(instr, seq![ty, ty]),
                ),
                Err(_) => {},
            }
        },
        None => {},
    }
}

proof fn lemma_memory_size_is_plain(ctx: Context, st: BodyStateView, iidx: usize)
    ensures
        plain_step(step_current_memory(ctx, st, iidx)),
        plain_step(step_grow_memory(ctx, st, iidx)),
{
    lemma_location_is_plain(ctx.func, iidx);
    lemma_plain_of(Seq::<Instr>::empty());
    let tee0 = seq![Instr::TeeLocal(ctx.tmp(st, 0))];
    let tee1 = seq![Instr::TeeLocal(ctx.tmp(st, 1))];
    let size = seq![Instr::GetLocal(ctx.tmp(st, 0)), Instr::Call(ctx.hooks.fixed.current_memory)];
    let grow = seq![
        Instr::GetLocal(ctx.tmp(st, 0)),
        Instr::GetLocal(ctx.tmp(st, 1)),
        Instr::Call(ctx.hooks.fixed.grow_memory),
    ];
    lemma_plain_of(tee0);
    lemma_plain_of(tee1);
    lemma_plain_of(size);
    lemma_plain_of(grow);
    lemma_plain3(tee0, location(ctx.func, iidx), size);
    lemma_plain3(tee1, location(ctx.func, iidx), grow);
}

proof fn lemma_access_is_plain(
    ctx: Context,
    state: BodyStateView,
    iidx: usize,
    index: usize,
    read: Instr,
    ty: ValType,
    hook: Option<Instr>,
)
    requires
        !is_structural(read),
        hook matches Some(call) ==> call is Call,
    ensures
        plain_step(
            hook_after(
                state,
                seq![],
                location(ctx.func, iidx) + seq![Instr::I32Const(index as i32)] + split(read, ty),
                hook,
            ),
        ),
{
    let konst = seq![Instr::I32Const(index as i32)];
    lemma_plain_of(Seq::<Instr>::empty());
    lemma_plain_of(konst);
    lemma_location_is_plain(ctx.func, iidx);
    lemma_split_is_plain(read, ty);
    lemma_plain3(location(ctx.func, iidx), konst, split(read, ty));
    lemma_hook_after_is_plain(
        state,
        seq![],
        location(ctx.func, iidx) + konst + split(read, ty),
        hook,
    );
}

proof fn lemma_local_is_plain(
    ctx: Context,
    st: BodyStateView,
    iidx: usize,
    instr: Instr,
    op: LocalOp,
    idx: Idx<Local>,
)
    ensures
        plain_step(step_local(ctx, st, iidx, instr, op, idx)),
{
    match ctx.local_type(st, idx.0) {
        Some(ty) => {
            match prepared(
                ctx,
                st,
                access_inputs(op == LocalOp::SetLocal, ty),
                access_results(op == LocalOp::GetLocal, ty),
                seq![],
            ) {
                Ok(state) => lemma_access_is_plain(
                    ctx,
                    state,
                    iidx,
                    idx.0,
                    Instr::GetLocal(idx),
                    ty,
                    ctx.poly_call(instr, seq![ty]),
                ),
                Err(_) => {},
            }
        },
        None => {},
    }
}

proof fn lemma_global_is_plain(
    ctx: Context,
    st: BodyStateView,
    iidx: usize,
    instr: Instr,
    op: GlobalOp,
    idx: Idx<Global>,
)
    ensures
        plain_step(step_global(ctx, st, iidx, instr, op, idx)),
{
    if idx.0 < ctx.globals.len() {
        let ty = ctx.globals[idx.0 as int];
        match prepared(
            ctx,
            st,
            access_inputs(op == GlobalOp::SetGlobal, ty),
            access_results(op == GlobalOp::GetGlobal, ty),
            seq![],
        ) {
            Ok(state) => lemma_access_is_plain(
                ctx,
                state,
                iidx,
                idx.0,
                Instr::GetGlobal(idx),
                ty,
                ctx.poly_call(instr, seq![ty]),
            ),
            Err(_) => {},
        }
    }
}

proof fn lemma_const_is_plain(
    ctx: Context,
    st: BodyStateView,
    iidx: usize,
    instr: Instr,
    ty: ValType,
)
    requires
        !is_structural(instr),
    ensures
        plain_step(step_const(ctx, st, iidx, instr, ty)),
{
    lemma_location_is_plain(ctx.func, iidx);
    lemma_split_is_plain(instr, ty);
    lemma_plain_concat(location(ctx.func, iidx), split(instr, ty));
    match prepared(ctx, st, seq![], seq![ty], seq![]) {
        Ok(state) => lemma_hook_before_is_plain(
            state,
            location(ctx.func, iidx) + split(instr, ty),
            ctx.mono_call(instr),
        ),
        Err(_) => {},
    }
}

/// The instructions that keep operands and results in the locals `tmps`:
/// what reads the locals back for the hook, after `head` and the location
/// and `consts`, is plain.
proof fn lemma_numeric_is_plain(
    ctx: Context,
    state: BodyStateView,
    iidx: usize,
    before: Seq<Instr>,
    head: Seq<Instr>,
    consts: Seq<Instr>,
    tmps: Seq<Idx<Local>>,
    tys: Seq<ValType>,
    hook: Option<Instr>,
)
    requires
        plain(before),
        plain(head),
        plain(consts),
        hook matches Some(call) ==> call is Call,
    ensures
        plain_step(
            hook_after(
                state,
                before,
                head + location(ctx.func, iidx) + consts + restored(tmps, tys),
                hook,
            ),
        ),
{
    lemma_location_is_plain(ctx.func, iidx);
    lemma_restored_is_plain(tmps, tys);
    lemma_plain4(head, location(ctx.func, iidx), consts, restored(tmps, tys));
    lemma_hook_after_is_plain(
        state,
        before,
        head + location(ctx.func, iidx) + consts + restored(tmps, tys),
        hook,
    );
}

proof fn lemma_unary_is_plain(
    ctx: Context,
    st: BodyStateView,
    iidx: usize,
    instr: Instr,
    input_ty: ValType,
    result_ty: ValType,
)
    ensures
        plain_step(step_unary(ctx, st, iidx, instr, input_ty, result_ty)),
{
    let before = seq![Instr::TeeLocal(ctx.tmp(st, 0))];
    let head = seq![Instr::TeeLocal(ctx.tmp(st, 1))];
    let none = Seq::<Instr>::empty();
    let tmps = seq![ctx.tmp(st, 0), ctx.tmp(st, 1)];
    let tys = seq![input_ty, result_ty];
    lemma_plain_of(before);
    lemma_plain_of(head);
    lemma_plain_of(none);
    assert(head + location(ctx.func, iidx) + none =~= head + location(ctx.func, iidx));
    match prepared(ctx, st, seq![input_ty], seq![result_ty], seq![input_ty, result_ty]) {
        Ok(state) => lemma_numeric_is_plain(
            ctx,
            state,
            iidx,
            before,
            head,
            none,
            tmps,
            tys,
            ctx.mono_call(instr),
        ),
        Err(_) => {},
    }
}

proof fn lemma_binary_is_plain(
    ctx: Context,
    st: BodyStateView,
    iidx: usize,
    instr: Instr,
    first_ty: ValType,
    second_ty: ValType,
    result_ty: ValType,
)
    ensures
        plain_step(step_binary(ctx, st, iidx, instr, first_ty, second_ty, result_ty)),
{
    let before = saved(seq![ctx.tmp(st, 0), ctx.tmp(st, 1)]);
    let head = seq![Instr::TeeLocal(ctx.tmp(st, 2))];
    let none = Seq::<Instr>::empty();
    let tmps = seq![ctx.tmp(st, 0), ctx.tmp(st, 1), ctx.tmp(st, 2)];
    let tys = seq![first_ty, second_ty, result_ty];
    lemma_saved_is_plain(seq![ctx.tmp(st, 0), ctx.tmp(st, 1)]);
    lemma_plain_of(head);
    lemma_plain_of(none);
    assert(head + location(ctx.func, iidx) + none =~= head + location(ctx.func, iidx));
    match prepared(
        ctx,
        st,
        seq![first_ty, second_ty],
        seq![result_ty],
        seq![first_ty, second_ty, result_ty],
    ) {
        Ok(state) => lemma_numeric_is_plain(
            ctx,
            state,
            iidx,
            before,
            head,
            none,
            tmps,
            tys,
            ctx.mono_call(instr),
        ),
        Err(_) => {},
    }
}

proof fn lemma_load_is_plain(
    ctx: Context,
    st: BodyStateView,
    iidx: usize,
    instr: Instr,
    ty: ValType,
    memarg: crate::ast::Memarg,
)
    ensures
        plain_step(step_load(ctx, st, iidx, instr, ty, memarg)),
{
    let before = seq![Instr::TeeLocal(ctx.tmp(st, 0))];
    let head = seq![Instr::TeeLocal(ctx.tmp(st, 1))];
    let tmps = seq![ctx.tmp(st, 0), ctx.tmp(st, 1)];
    let tys = seq![ValType::I32, ty];
    lemma_plain_of(before);
    lemma_plain_of(head);
    lemma_plain_of(memarg_consts(memarg));
    match prepared(ctx, st, seq![ValType::I32], seq![ty], seq![ValType::I32, ty]) {
        Ok(state) => lemma_numeric_is_plain(
            ctx,
            state,
            iidx,
            before,
            head,
            memarg_consts(memarg),
            tmps,
            tys,
            ctx.mono_call(instr),
        ),
        Err(_) => {},
    }
}

proof fn lemma_store_is_plain(
    ctx: Context,
    st: BodyStateView,
    iidx: usize,
    instr: Instr,
    ty: ValType,
    memarg: crate::ast::Memarg,
)
    ensures
        plain_step(step_store(ctx, st, iidx, instr, ty, memarg)),
{
    let tmps = seq![ctx.tmp(st, 0), ctx.tmp(st, 1)];
    let before = saved(tmps);
    let head = Seq::<Instr>::empty();
    let tys = seq![ValType::I32, ty];
    lemma_saved_is_plain(tmps);
    lemma_plain_of(head);
    lemma_plain_of(memarg_consts(memarg));
    assert(head + location(ctx.func, iidx) =~= location(ctx.func, iidx));
    match prepared(ctx, st, seq![ValType::I32, ty], seq![], seq![ValType::I32, ty]) {
        Ok(state) => lemma_numeric_is_plain(
            ctx,
            state,
            iidx,
            before,
            head,
            memarg_consts(memarg),
            tmps,
            tys,
            ctx.mono_call(instr),
        ),
        Err(_) => {},
    }
}

proof fn lemma_control_is_plain(ctx: Context, st: BodyStateView, iidx: usize, instr: Instr)
    requires
        instr.group() == InstrGroup::Control,
    ensures
        plain_step(step(ctx, st, iidx, instr)),
{
    reveal(step);
    match instr {
        Instr::Nop => lemma_located_call_is_plain(ctx, iidx, ctx.hooks.fixed.nop),
        Instr::Unreachable => lemma_located_call_is_plain(ctx, iidx, ctx.hooks.fixed.unreachable),
        Instr::Block(_) => lemma_located_call_is_plain(ctx, iidx, ctx.hooks.fixed.begin_block),
        Instr::Loop(_) => lemma_located_call_is_plain(ctx, iidx, ctx.hooks.fixed.begin_loop),
        Instr::If(ty) => lemma_if_is_plain(ctx, st, iidx, ty),
        Instr::Else => lemma_else_is_plain(ctx, st, iidx),
        Instr::End => lemma_end_is_plain(ctx, st, iidx),
        Instr::Br(label) => lemma_br_is_plain(ctx, st, iidx, label),
        Instr::BrIf(label) => lemma_br_is_plain(ctx, st, iidx, label),
        Instr::BrTable(table, default) => lemma_br_table_is_plain(ctx, st, iidx, table@, default),
        Instr::Return => lemma_return_is_plain(ctx, st, iidx, instr),
        Instr::Call(target) => lemma_call_is_plain(ctx, st, iidx, instr, target),
        Instr::CallIndirect(ty, _) => lemma_call_indirect_is_plain(ctx, st, iidx, instr, ty@),
        Instr::Drop => lemma_drop_is_plain(ctx, st, iidx, instr),
        Instr::Select => lemma_select_is_plain(ctx, st, iidx, instr),
        Instr::CurrentMemory(_) => lemma_memory_size_is_plain(ctx, st, iidx),
        Instr::GrowMemory(_) => lemma_memory_size_is_plain(ctx, st, iidx),
        _ => {},
    }
}

proof fn lemma_grouped_is_plain(ctx: Context, st: BodyStateView, iidx: usize, instr: Instr)
    requires
        instr.group() != InstrGroup::Control,
    ensures
        plain_step(step(ctx, st, iidx, instr)),
{
    reveal(step);
    match instr.group() {
        InstrGroup::Const(ty) => lemma_const_is_plain(ctx, st, iidx, instr, ty),
        InstrGroup::Unary { input_ty, result_ty } => lemma_unary_is_plain(
            ctx,
            st,
            iidx,
            instr,
            input_ty,
            result_ty,
        ),
        InstrGroup::Binary { first_ty, second_ty, result_ty } => lemma_binary_is_plain(
            ctx,
            st,
            iidx,
            instr,
            first_ty,
            second_ty,
            result_ty,
        ),
        InstrGroup::MemoryLoad(ty, memarg) => lemma_load_is_plain(ctx, st, iidx, instr, ty, memarg),
        InstrGroup::MemoryStore(ty, memarg) => lemma_store_is_plain(ctx, st, iidx, instr, ty, memarg),
        InstrGroup::Local(op, idx) => lemma_local_is_plain(ctx, st, iidx, instr, op, idx),
        InstrGroup::Global(op, idx) => lemma_global_is_plain(ctx, st, iidx, instr, op, idx),
        InstrGroup::Control => {},
    }
}

/// What the rewrite puts around an instruction neither opens nor divides
/// nor closes a block.
pub proof fn lemma_step_is_plain(ctx: Context, st: BodyStateView, iidx: usize, instr: Instr)
    requires
        step(ctx, st, iidx, instr) is Ok,
    ensures
        plain(step(ctx, st, iidx, instr).unwrap().before),
        plain(step(ctx, st, iidx, instr).unwrap().after),
{
    if instr.group() == InstrGroup::Control {
        lemma_control_is_plain(ctx, st, iidx, instr);
    } else {
        lemma_grouped_is_plain(ctx, st, iidx, instr);
    }
}

/// A subsequence stays one when the longer sequence grows at its end, and
/// grows itself by an instruction that is among the new ones.
pub proof fn lemma_subsequence_extends(
    a: Seq<Instr>,
    b: Seq<Instr>,
    x: Instr,
    c: Seq<Instr>,
    p: int,
)
    requires
        is_subsequence(a, b),
        0 <= p < c.len(),
        c[p] == x,
    ensures
        is_subsequence(a.push(x), b + c),
{
    let at = choose|at: Seq<int>| embedded_at(a, b, at);
    let next = at.push(b.len() + p);
    assert forall|i: int| 0 <= i < a.push(x).len() implies 0 <= #[trigger] next[i] < (b + c).len() && (b
        + c)[next[i]] == a.push(x)[i] by {
        if i < a.len() {
            assert(next[i] == at[i]);
        }
    }
    assert forall|i: int, j: int| 0 <= i < j < a.push(x).len() implies next[i] < next[j] by {
        assert(next[i] == at[i]);
        if j < a.len() {
            assert(next[j] == at[j]);
        }
    }
    assert(embedded_at(a.push(x), b + c, next));
}

/// No instruction of the body is a `drop`.
pub open spec fn without_drop(body: Seq<Instr>) -> bool {
    forall|i: int| 0 <= i < body.len() ==> !(#[trigger] body[i] is Drop)
}

/// After `n` instructions the emitted instructions have the nesting of
/// those `n` instructions, and hold them in their order, but for a `drop`.
pub proof fn lemma_run_keeps(ctx: Context, start: BodyStateView, body: Seq<Instr>, n: nat)
    requires
        n <= body.len(),
        run(ctx, start, body, n) is Ok,
    ensures
        skeleton(run(ctx, start, body, n).unwrap().emitted) == skeleton(body.take(n as int)),
        without_drop(body) ==> is_subsequence(
            body.take(n as int),
            run(ctx, start, body, n).unwrap().emitted,
        ),
    decreases n,
{
    if n == 0 {
        lemma_plain_of(prologue(ctx));
        lemma_skeleton_of_plain(prologue(ctx));
        assert(body.take(0) =~= Seq::<Instr>::empty());
        assert(embedded_at(body.take(0), prologue(ctx), Seq::<int>::empty()));
    } else {
        lemma_run_keeps(ctx, start, body, (n - 1) as nat);
        let prev = run(ctx, start, body, (n - 1) as nat).unwrap();
        let instr = body[n - 1];
        let next = step(ctx, prev.state, (n - 1) as usize, instr).unwrap();
        lemma_step_is_plain(ctx, prev.state, (n - 1) as usize, instr);
        let chunk = next.emitted(instr);
        let done = body.take(n - 1);
        assert(body.take(n as int) =~= done.push(instr));
        assert(body.take(n as int).drop_last() =~= done);
        lemma_skeleton_concat(prev.emitted, chunk);
        lemma_skeleton_of_plain(next.before);
        lemma_skeleton_of_plain(next.after);
        if instr is Drop {
            lemma_skeleton_concat(next.before, next.after);
            assert(skeleton(chunk) =~= Seq::<Instr>::empty());
            assert(skeleton(prev.emitted) + skeleton(chunk) =~= skeleton(prev.emitted));
        } else {
            lemma_skeleton_concat(next.before + seq![instr], next.after);
            lemma_skeleton_concat(next.before, seq![instr]);
            assert(seq![instr].drop_last() =~= Seq::<Instr>::empty());
            assert(skeleton(seq![instr].drop_last()) =~= Seq::<Instr>::empty());
            if is_structural(instr) {
                assert(skeleton(seq![instr]) =~= seq![instr]);
                assert(skeleton(chunk) =~= seq![instr]);
                assert(skeleton(prev.emitted) + skeleton(chunk) =~= skeleton(done).push(instr));
            } else {
                assert(skeleton(seq![instr]) =~= Seq::<Instr>::empty());
                assert(skeleton(chunk) =~= Seq::<Instr>::empty());
                assert(skeleton(prev.emitted) + skeleton(chunk) =~= skeleton(done));
            }
            if without_drop(body) {
                assert(chunk[next.before.len() as int] == instr);
                lemma_subsequence_extends(done, prev.emitted, instr, chunk, next.before.len() as int);
            }
        }
    }
}

/// The rewritten body has the blocks of the body, nested as in the body:
/// the instructions that open, divide or close a block are those of the
/// body, in their order.
pub proof fn lemma_rewrite_keeps_nesting(
    ctx: Context,
    locals: Seq<ValType>,
    br_tables: Seq<BrTableView>,
    body: Seq<Instr>,
)
    requires
        rewritten(ctx, locals, br_tables, body) is Ok,
    ensures
        skeleton(rewritten(ctx, locals, br_tables, body).unwrap().emitted) == skeleton(body),
{
    lemma_run_keeps(ctx, body_start(locals, br_tables), body, body.len());
    assert(body.take(body.len() as int) =~= body);
}

/// The rewritten body holds the instructions of the body in their order,
/// if none of them is a `drop`: in place of a `drop` stands a `set_local`.
pub proof fn lemma_rewrite_keeps_instructions(
    ctx: Context,
    locals: Seq<ValType>,
    br_tables: Seq<BrTableView>,
    body: Seq<Instr>,
)
    requires
        rewritten(ctx, locals, br_tables, body) is Ok,
        without_drop(body),
    ensures
        is_subsequence(body, rewritten(ctx, locals, br_tables, body).unwrap().emitted),
{
    lemma_run_keeps(ctx, body_start(locals, br_tables), body, body.len());
    assert(body.take(body.len() as int) =~= body);
}

/// The locals after a step begin with the locals before it: a step adds
/// locals at the end and leaves the others as they are.
pub open spec fn grows(st: BodyStateView, r: Result<Step, Fault>) -> bool {
    r matches Ok(s) ==> st.locals.len() <= s.state.locals.len() && s.state.locals.take(
        st.locals.len() as int,
    ) == st.locals
}

proof fn lemma_prepared_grows(
    ctx: Context,
    st: BodyStateView,
    inputs: Seq<ValType>,
    results: Seq<ValType>,
    fresh: Seq<ValType>,
)
    ensures
        prepared(ctx, st, inputs, results, fresh) matches Ok(state) ==> state.locals == st.locals
            + fresh && state.locals.take(st.locals.len() as int) == st.locals && state.blocks
            == st.blocks && state.br_tables == st.br_tables,
{
    assert((st.locals + fresh).take(st.locals.len() as int) =~= st.locals);
}

proof fn lemma_control_grows(ctx: Context, st: BodyStateView, iidx: usize, instr: Instr)
    requires
        instr.group() == InstrGroup::Control,
    ensures
        grows(st, step(ctx, st, iidx, instr)),
{
    reveal(step);
    assert(st.locals.take(st.locals.len() as int) =~= st.locals);
    assert forall|other: BodyStateView, inputs: Seq<ValType>, results: Seq<ValType>, fresh: Seq<ValType>|
        other.locals == st.locals implies (#[trigger] prepared(ctx, other, inputs, results, fresh) matches Ok(
        state,
    ) ==> state.locals.take(st.locals.len() as int) == st.locals && st.locals.len()
        <= state.locals.len()) by {
        lemma_prepared_grows(ctx, other, inputs, results, fresh);
    }
}

proof fn lemma_grouped_grows(ctx: Context, st: BodyStateView, iidx: usize, instr: Instr)
    requires
        instr.group() != InstrGroup::Control,
    ensures
        grows(st, step(ctx, st, iidx, instr)),
{
    reveal(step);
    let i32 = ValType::I32;
    match instr.group() {
        InstrGroup::Const(ty) => lemma_prepared_grows(ctx, st, seq![], seq![ty], seq![]),
        InstrGroup::Unary { input_ty, result_ty } => lemma_prepared_grows(
            ctx,
            st,
            seq![input_ty],
            seq![result_ty],
            seq![input_ty, result_ty],
        ),
        InstrGroup::Binary { first_ty, second_ty, result_ty } => lemma_prepared_grows(
            ctx,
            st,
            seq![first_ty, second_ty],
            seq![result_ty],
            seq![first_ty, second_ty, result_ty],
        ),
        InstrGroup::MemoryLoad(ty, _) => lemma_prepared_grows(ctx, st, seq![i32], seq![ty], seq![i32, ty]),
        InstrGroup::MemoryStore(ty, _) => lemma_prepared_grows(
            ctx,
            st,
            seq![i32, ty],
            seq![],
            seq![i32, ty],
        ),
        InstrGroup::Local(op, idx) => match ctx.local_type(st, idx.0) {
            Some(ty) => lemma_prepared_grows(
                ctx,
                st,
                access_inputs(op == LocalOp::SetLocal, ty),
                access_results(op == LocalOp::GetLocal, ty),
                seq![],
            ),
            None => {},
        },
        InstrGroup::Global(op, idx) => if idx.0 < ctx.globals.len() {
            lemma_prepared_grows(
                ctx,
                st,
                access_inputs(op == GlobalOp::SetGlobal, ctx.globals[idx.0 as int]),
                access_results(op == GlobalOp::GetGlobal, ctx.globals[idx.0 as int]),
                seq![],
            )
        },
        InstrGroup::Control => {},
    }
}

/// A step adds locals at the end and leaves the others as they are.
pub proof fn lemma_step_grows(ctx: Context, st: BodyStateView, iidx: usize, instr: Instr)
    requires
        step(ctx, st, iidx, instr) is Ok,
    ensures
        st.locals.len() <= step(ctx, st, iidx, instr).unwrap().state.locals.len(),
        step(ctx, st, iidx, instr).unwrap().state.locals.take(st.locals.len() as int) == st.locals,
{
    if instr.group() == InstrGroup::Control {
        lemma_control_grows(ctx, st, iidx, instr);
    } else {
        lemma_grouped_grows(ctx, st, iidx, instr);
    }
}

/// The rewrite adds locals after those that the function has and leaves
/// the others as they are, so that the indices of the locals still name
/// what they named.
pub proof fn lemma_rewrite_keeps_locals(
    ctx: Context,
    locals: Seq<ValType>,
    br_tables: Seq<BrTableView>,
    body: Seq<Instr>,
)
    requires
        rewritten(ctx, locals, br_tables, body) is Ok,
    ensures
        locals.len() <= rewritten(ctx, locals, br_tables, body).unwrap().state.locals.len(),
        rewritten(ctx, locals, br_tables, body).unwrap().state.locals.take(locals.len() as int)
            == locals,
{
    lemma_run_keeps_locals(ctx, body_start(locals, br_tables), body, body.len());
}

proof fn lemma_run_keeps_locals(ctx: Context, start: BodyStateView, body: Seq<Instr>, n: nat)
    requires
        run(ctx, start, body, n) is Ok,
    ensures
        start.locals.len() <= run(ctx, start, body, n).unwrap().state.locals.len(),
        run(ctx, start, body, n).unwrap().state.locals.take(start.locals.len() as int) == start.locals,
    decreases n,
{
    if n == 0 {
        assert(start.locals.take(start.locals.len() as int) =~= start.locals);
    } else {
        lemma_run_keeps_locals(ctx, start, body, (n - 1) as nat);
        let prev = run(ctx, start, body, (n - 1) as nat).unwrap();
        let instr = body[n - 1];
        if instr.group() == InstrGroup::Control {
            lemma_control_grows(ctx, prev.state, (n - 1) as usize, instr);
        } else {
            lemma_grouped_grows(ctx, prev.state, (n - 1) as usize, instr);
        }
        let now = run(ctx, start, body, n).unwrap();
        assert(now.state.locals.take(start.locals.len() as int) =~= prev.state.locals.take(
            start.locals.len() as int,
        ));
    }
}

} // verus!
