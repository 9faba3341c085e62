//! What the instructions of a rewritten body refer to: the locals that
//! they read and write are parameters or locals of the function after the
//! rewrite, and the functions that they call are functions of the module.

use crate::ast::{BlockType, Function, Global, Idx, Instr, Label, Local, Signature, ValType};
use crate::block_stack::{labelled, Begin};
use crate::body::{body_start, prologue, rewritten, run};
use crate::convert_i64::split;
use crate::group::{GlobalOp, InstrGroup, LocalOp};
use crate::hooks::{HookKey, HookTable};
use crate::rewrite::{
    access_inputs, access_results, end_report, hook_after, memarg_consts, prepared, result_report,
    select_type, step, step_binary, step_br, step_br_if, step_br_table, step_call,
    step_call_indirect, step_const, step_current_memory, step_drop, step_else, step_end,
    step_global, step_grow_memory, step_if, step_load, step_local, step_return, step_select,
    step_store, step_unary, BodyStateView, Context, Fault, Step,
};
use crate::skeleton::lemma_step_grows;
use crate::splice::{local_run, location, restored, saved};
use crate::static_info::BrTableView;
use crate::type_stack::top_type;
use vstd::prelude::*;

verus! {

/// The local that the instruction reads or writes, if it is an access to
/// a local.
pub open spec fn local_of(instr: Instr) -> Option<usize> {
    match instr {
        Instr::GetLocal(l) | Instr::SetLocal(l) | Instr::TeeLocal(l) => Some(l.0),
        _ => None,
    }
}

/// The function that the instruction calls, if it is a call.
pub open spec fn callee_of(instr: Instr) -> Option<usize> {
    match instr {
        Instr::Call(f) => Some(f.0),
        _ => None,
    }
}

/// The instruction reads or writes no local but one with an index below
/// `bound`, and calls no function but one with an index below `funcs`.
pub open spec fn refers_within(instr: Instr, bound: int, funcs: int) -> bool {
    &&& local_of(instr) matches Some(l) ==> l < bound
    &&& callee_of(instr) matches Some(f) ==> f < funcs
}

/// Every local that the instructions read or write has an index below
/// `bound`, and every function that they call has an index below `funcs`.
#[verifier::opaque]
pub open spec fn within(instrs: Seq<Instr>, bound: int, funcs: int) -> bool {
    forall|j: int| 0 <= j < instrs.len() ==> refers_within(#[trigger] instrs[j], bound, funcs)
}

/// Every hook of the registry is a function with an index below `funcs`.
pub open spec fn hooks_below(hooks: HookTable, funcs: int) -> bool {
    &&& hooks.fixed.if_.0 < funcs
    &&& hooks.fixed.br.0 < funcs
    &&& hooks.fixed.br_if.0 < funcs
    &&& hooks.fixed.br_table.0 < funcs
    &&& hooks.fixed.begin_function.0 < funcs
    &&& hooks.fixed.end_function.0 < funcs
    &&& hooks.fixed.begin_block.0 < funcs
    &&& hooks.fixed.end_block.0 < funcs
    &&& hooks.fixed.begin_loop.0 < funcs
    &&& hooks.fixed.end_loop.0 < funcs
    &&& hooks.fixed.begin_if.0 < funcs
    &&& hooks.fixed.end_if.0 < funcs
    &&& hooks.fixed.begin_else.0 < funcs
    &&& hooks.fixed.end_else.0 < funcs
    &&& hooks.fixed.nop.0 < funcs
    &&& hooks.fixed.unreachable.0 < funcs
    &&& hooks.fixed.current_memory.0 < funcs
    &&& hooks.fixed.grow_memory.0 < funcs
    &&& forall|key: HookKey| #[trigger]
        hooks.polymorphic.contains_key(key) ==> hooks.polymorphic[key].0 < funcs
    &&& forall|tys: Seq<ValType>| #[trigger]
        hooks.call_result.contains_key(tys) ==> hooks.call_result[tys].0 < funcs
    &&& forall|opcode: u8| #[trigger]
        hooks.monomorphic.contains_key(opcode) ==> hooks.monomorphic[opcode].0 < funcs
}

pub proof fn lemma_within_of(instrs: Seq<Instr>, bound: int, funcs: int)
    requires
        forall|j: int| 0 <= j < instrs.len() ==> refers_within(#[trigger] instrs[j], bound, funcs),
    ensures
        within(instrs, bound, funcs),
{
    reveal(within);
}

pub proof fn lemma_within_concat(a: Seq<Instr>, b: Seq<Instr>, bound: int, funcs: int)
    requires
        within(a, bound, funcs),
        within(b, bound, funcs),
    ensures
        within(a + b, bound, funcs),
{
    reveal(within);
    assert forall|j: int| 0 <= j < (a + b).len() implies refers_within(
        #[trigger] (a + b)[j],
        bound,
        funcs,
    ) by {
        if j < a.len() {
            assert((a + b)[j] == a[j]);
        } else {
            assert((a + b)[j] == b[j - a.len()]);
        }
    }
}

pub proof fn lemma_within3(a: Seq<Instr>, b: Seq<Instr>, c: Seq<Instr>, bound: int, funcs: int)
    requires
        within(a, bound, funcs),
        within(b, bound, funcs),
        within(c, bound, funcs),
    ensures
        within(a + b + c, bound, funcs),
{
    lemma_within_concat(a, b, bound, funcs);
    lemma_within_concat(a + b, c, bound, funcs);
}

pub proof fn lemma_within4(a: Seq<Instr>, b: Seq<Instr>, c: Seq<Instr>, d: Seq<Instr>, bound: int, funcs: int)
    requires
        within(a, bound, funcs),
        within(b, bound, funcs),
        within(c, bound, funcs),
        within(d, bound, funcs),
    ensures
        within(a + b + c + d, bound, funcs),
{
    lemma_within3(a, b, c, bound, funcs);
    lemma_within_concat(a + b + c, d, bound, funcs);
}

pub proof fn lemma_within_push(a: Seq<Instr>, x: Instr, bound: int, funcs: int)
    requires
        within(a, bound, funcs),
        refers_within(x, bound, funcs),
    ensures
        within(a.push(x), bound, funcs),
{
    reveal(within);
}

pub proof fn lemma_location_within(func: usize, iidx: usize, bound: int, funcs: int)
    ensures
        within(location(func, iidx), bound, funcs),
{
    reveal(within);
}

/// All of the locals have an index below `bound`.
pub open spec fn below(locals: Seq<Idx<Local>>, bound: int) -> bool {
    forall|i: int| 0 <= i < locals.len() ==> (#[trigger] locals[i]).0 < bound
}

pub proof fn lemma_saved_within(locals: Seq<Idx<Local>>, bound: int, funcs: int)
    requires
        below(locals, bound),
    ensures
        within(saved(locals), bound, funcs),
{
    reveal(within);
}

pub proof fn lemma_split_within(instr: Instr, ty: ValType, bound: int, funcs: int)
    requires
        refers_within(instr, bound, funcs),
    ensures
        within(split(instr, ty), bound, funcs),
{
    reveal(within);
}

pub proof fn lemma_restored_within(locals: Seq<Idx<Local>>, tys: Seq<ValType>, bound: int, funcs: int)
    requires
        below(locals, bound),
    ensures
        within(restored(locals, tys), bound, funcs),
    decreases locals.len(),
{
    if locals.len() != 0 && tys.len() == locals.len() {
        assert forall|i: int| 0 <= i < locals.drop_last().len() implies (#[trigger] locals.drop_last()[i]).0
            < bound by {
            assert(locals.drop_last()[i] == locals[i]);
        }
        lemma_restored_within(locals.drop_last(), tys.drop_last(), bound, funcs);
        assert(locals[locals.len() - 1].0 < bound);
        lemma_split_within(Instr::GetLocal(locals.last()), tys.last(), bound, funcs);
        lemma_within_concat(
            restored(locals.drop_last(), tys.drop_last()),
            split(Instr::GetLocal(locals.last()), tys.last()),
            bound,
            funcs,
        );
    } else {
        lemma_within_of(restored(locals, tys), bound, funcs);
    }
}

pub proof fn lemma_run_below(first: int, n: nat, bound: int)
    requires
        0 <= first,
        first + n <= bound <= usize::MAX,
    ensures
        below(local_run(first, n), bound),
{
}

/// What a step puts around the instruction uses only locals that the
/// function has after the step, and calls only functions with an index
/// below `funcs`.
pub open spec fn refers_to_known(ctx: Context, r: Result<Step, Fault>, funcs: int) -> bool {
    r matches Ok(s) ==> within(s.before, ctx.first_fresh(s.state), funcs) && within(
        s.after,
        ctx.first_fresh(s.state),
        funcs,
    )
}

/// The instructions around an instruction, where they are made of
/// `before` and of `head`, the location, `consts` and the reading of the
/// locals `tmps`, with the call of the hook at the end.
proof fn lemma_hooked_within(
    ctx: Context,
    state: BodyStateView,
    iidx: usize,
    before: Seq<Instr>,
    head: Seq<Instr>,
    consts: Seq<Instr>,
    tmps: Seq<Idx<Local>>,
    tys: Seq<ValType>,
    hook: Option<Instr>,
    funcs: int,
)
    requires
        within(before, ctx.first_fresh(state), funcs),
        within(head, ctx.first_fresh(state), funcs),
        within(consts, ctx.first_fresh(state), funcs),
        below(tmps, ctx.first_fresh(state)),
        hook matches Some(call) ==> refers_within(call, ctx.first_fresh(state), funcs),
    ensures
        refers_to_known(
            ctx,
            hook_after(
                state,
                before,
                head + location(ctx.func, iidx) + consts + restored(tmps, tys),
                hook,
            ),
            funcs,
        ),
{
    let bound = ctx.first_fresh(state);
    lemma_location_within(ctx.func, iidx, bound, funcs);
    lemma_restored_within(tmps, tys, bound, funcs);
    lemma_within4(head, location(ctx.func, iidx), consts, restored(tmps, tys), bound, funcs);
    match hook {
        Some(call) => lemma_within_push(
            head + location(ctx.func, iidx) + consts + restored(tmps, tys),
            call,
            bound,
            funcs,
        ),
        None => {},
    }
}

proof fn lemma_const_known(ctx: Context, st: BodyStateView, iidx: usize, instr: Instr, ty: ValType, funcs: int)
    requires
        local_of(instr) is None,
        callee_of(instr) is None,
        hooks_below(ctx.hooks, funcs),
    ensures
        refers_to_known(ctx, step_const(ctx, st, iidx, instr, ty), funcs),
{
    let loc = location(ctx.func, iidx);
    match prepared(ctx, st, seq![], seq![ty], seq![]) {
        Ok(state) => {
            let bound = ctx.first_fresh(state);
            lemma_location_within(ctx.func, iidx, bound, funcs);
            lemma_split_within(instr, ty, bound, funcs);
            lemma_within_concat(loc, split(instr, ty), bound, funcs);
            lemma_within_of(Seq::<Instr>::empty(), bound, funcs);
            match ctx.mono_call(instr) {
                Some(call) => lemma_within_push(loc + split(instr, ty), call, bound, funcs),
                None => {},
            }
        },
        Err(_) => {},
    }
}

proof fn lemma_unary_known(
    ctx: Context,
    st: BodyStateView,
    iidx: usize,
    instr: Instr,
    input_ty: ValType,
    result_ty: ValType,
    funcs: int,
)
    requires
        hooks_below(ctx.hooks, funcs),
    ensures
        refers_to_known(ctx, step_unary(ctx, st, iidx, instr, input_ty, result_ty), funcs),
{
    let t0 = ctx.tmp(st, 0);
    let t1 = ctx.tmp(st, 1);
    let none = Seq::<Instr>::empty();
    let loc = location(ctx.func, iidx);
    match prepared(ctx, st, seq![input_ty], seq![result_ty], seq![input_ty, result_ty]) {
        Ok(state) => {
            let bound = ctx.first_fresh(state);
            lemma_within_of(seq![Instr::TeeLocal(t0)], bound, funcs);
            lemma_within_of(seq![Instr::TeeLocal(t1)], bound, funcs);
            lemma_within_of(none, bound, funcs);
            assert(seq![Instr::TeeLocal(t1)] + loc + none =~= seq![Instr::TeeLocal(t1)] + loc);
            lemma_hooked_within(
                ctx,
                state,
                iidx,
                seq![Instr::TeeLocal(t0)],
                seq![Instr::TeeLocal(t1)],
                none,
                seq![t0, t1],
                seq![input_ty, result_ty],
                ctx.mono_call(instr),
                funcs,
            );
        },
        Err(_) => {},
    }
}

proof fn lemma_binary_known(
    ctx: Context,
    st: BodyStateView,
    iidx: usize,
    instr: Instr,
    first_ty: ValType,
    second_ty: ValType,
    result_ty: ValType,
    funcs: int,
)
    requires
        hooks_below(ctx.hooks, funcs),
    ensures
        refers_to_known(ctx, step_binary(ctx, st, iidx, instr, first_ty, second_ty, result_ty), funcs),
{
    let t0 = ctx.tmp(st, 0);
    let t1 = ctx.tmp(st, 1);
    let t2 = ctx.tmp(st, 2);
    let none = Seq::<Instr>::empty();
    let loc = location(ctx.func, iidx);
    match prepared(
        ctx,
        st,
        seq![first_ty, second_ty],
        seq![result_ty],
        seq![first_ty, second_ty, result_ty],
    ) {
        Ok(state) => {
            let bound = ctx.first_fresh(state);
            lemma_saved_within(seq![t0, t1], bound, funcs);
            lemma_within_of(seq![Instr::TeeLocal(t2)], bound, funcs);
            lemma_within_of(none, bound, funcs);
            assert(seq![Instr::TeeLocal(t2)] + loc + none =~= seq![Instr::TeeLocal(t2)] + loc);
            lemma_hooked_within(
                ctx,
                state,
                iidx,
                saved(seq![t0, t1]),
                seq![Instr::TeeLocal(t2)],
                none,
                seq![t0, t1, t2],
                seq![first_ty, second_ty, result_ty],
                ctx.mono_call(instr),
                funcs,
            );
        },
        Err(_) => {},
    }
}

proof fn lemma_load_known(
    ctx: Context,
    st: BodyStateView,
    iidx: usize,
    instr: Instr,
    ty: ValType,
    memarg: crate::ast::Memarg,
    funcs: int,
)
    requires
        hooks_below(ctx.hooks, funcs),
    ensures
        refers_to_known(ctx, step_load(ctx, st, iidx, instr, ty, memarg), funcs),
{
    let i32 = ValType::I32;
    let t0 = ctx.tmp(st, 0);
    let t1 = ctx.tmp(st, 1);
    match prepared(ctx, st, seq![i32], seq![ty], seq![i32, ty]) {
        Ok(state) => {
            let bound = ctx.first_fresh(state);
            lemma_within_of(seq![Instr::TeeLocal(t0)], bound, funcs);
            lemma_within_of(seq![Instr::TeeLocal(t1)], bound, funcs);
            lemma_within_of(memarg_consts(memarg), bound, funcs);
            lemma_hooked_within(
                ctx,
                state,
                iidx,
                seq![Instr::TeeLocal(t0)],
                seq![Instr::TeeLocal(t1)],
                memarg_consts(memarg),
                seq![t0, t1],
                seq![i32, ty],
                ctx.mono_call(instr),
                funcs,
            );
        },
        Err(_) => {},
    }
}

proof fn lemma_store_known(
    ctx: Context,
    st: BodyStateView,
    iidx: usize,
    instr: Instr,
    ty: ValType,
    memarg: crate::ast::Memarg,
    funcs: int,
)
    requires
        hooks_below(ctx.hooks, funcs),
    ensures
        refers_to_known(ctx, step_store(ctx, st, iidx, instr, ty, memarg), funcs),
{
    let i32 = ValType::I32;
    let t0 = ctx.tmp(st, 0);
    let t1 = ctx.tmp(st, 1);
    let none = Seq::<Instr>::empty();
    let loc = location(ctx.func, iidx);
    match prepared(ctx, st, seq![i32, ty], seq![], seq![i32, ty]) {
        Ok(state) => {
            let bound = ctx.first_fresh(state);
            lemma_saved_within(seq![t0, t1], bound, funcs);
            lemma_within_of(none, bound, funcs);
            lemma_within_of(memarg_consts(memarg), bound, funcs);
            assert(none + loc =~= loc);
            lemma_hooked_within(
                ctx,
                state,
                iidx,
                saved(seq![t0, t1]),
                none,
                memarg_consts(memarg),
                seq![t0, t1],
                seq![i32, ty],
                ctx.mono_call(instr),
                funcs,
            );
        },
        Err(_) => {},
    }
}

/// The report of an access to a variable, which reads the variable with
/// `read`.
proof fn lemma_access_known(
    ctx: Context,
    state: BodyStateView,
    iidx: usize,
    index: usize,
    read: Instr,
    ty: ValType,
    hook: Option<Instr>,
    funcs: int,
)
    requires
        refers_within(read, ctx.first_fresh(state), funcs),
        hook matches Some(call) ==> refers_within(call, ctx.first_fresh(state), funcs),
    ensures
        refers_to_known(
            ctx,
            hook_after(
                state,
                seq![],
                location(ctx.func, iidx) + seq![Instr::I32Const(index as i32)] + split(read, ty),
                hook,
            ),
            funcs,
        ),
{
    let bound = ctx.first_fresh(state);
    let loc = location(ctx.func, iidx);
    let konst = seq![Instr::I32Const(index as i32)];
    lemma_within_of(Seq::<Instr>::empty(), bound, funcs);
    lemma_within_of(konst, bound, funcs);
    lemma_location_within(ctx.func, iidx, bound, funcs);
    lemma_split_within(read, ty, bound, funcs);
    lemma_within3(loc, konst, split(read, ty), bound, funcs);
    match hook {
        Some(call) => lemma_within_push(loc + konst + split(read, ty), call, bound, funcs),
        None => {},
    }
}

proof fn lemma_local_known(
    ctx: Context,
    st: BodyStateView,
    iidx: usize,
    instr: Instr,
    op: LocalOp,
    idx: Idx<Local>,
    funcs: int,
)
    requires
        hooks_below(ctx.hooks, funcs),
    ensures
        refers_to_known(ctx, step_local(ctx, st, iidx, instr, op, idx), funcs),
{
    match ctx.local_type(st, idx.0) {
        Some(ty) => match prepared(
            ctx,
            st,
            access_inputs(op == LocalOp::SetLocal, ty),
            access_results(op == LocalOp::GetLocal, ty),
            seq![],
        ) {
            Ok(state) => lemma_access_known(
                ctx,
                state,
                iidx,
                idx.0,
                Instr::GetLocal(idx),
                ty,
                ctx.poly_call(instr, seq![ty]),
                funcs,
            ),
            Err(_) => {},
        },
        None => {},
    }
}

proof fn lemma_global_known(
    ctx: Context,
    st: BodyStateView,
    iidx: usize,
    instr: Instr,
    op: GlobalOp,
    idx: Idx<Global>,
    funcs: int,
)
    requires
        hooks_below(ctx.hooks, funcs),
    ensures
        refers_to_known(ctx, step_global(ctx, st, iidx, instr, op, idx), funcs),
{
    if idx.0 < ctx.globals.len() {
        let ty = ctx.globals[idx.0 as int];
        match prepared(
            ctx,
            st,
            access_inputs(op == GlobalOp::SetGlobal, ty),
            access_results(op == GlobalOp::GetGlobal, ty),
            seq![],
        ) {
            Ok(state) => lemma_access_known(
                ctx,
                state,
                iidx,
                idx.0,
                Instr::GetGlobal(idx),
                ty,
                ctx.poly_call(instr, seq![ty]),
                funcs,
            ),
            Err(_) => {},
        }
    }
}

proof fn lemma_grouped_known(ctx: Context, st: BodyStateView, iidx: usize, instr: Instr, funcs: int)
    requires
        hooks_below(ctx.hooks, funcs),
        instr.group() != InstrGroup::Control,
    ensures
        refers_to_known(ctx, step(ctx, st, iidx, instr), funcs),
{
    reveal(step);
    match instr.group() {
        InstrGroup::Const(ty) => lemma_const_known(ctx, st, iidx, instr, ty, funcs),
        InstrGroup::Unary { input_ty, result_ty } => lemma_unary_known(
            ctx,
            st,
            iidx,
            instr,
            input_ty,
            result_ty,
            funcs,
        ),
        InstrGroup::Binary { first_ty, second_ty, result_ty } => lemma_binary_known(
            ctx,
            st,
            iidx,
            instr,
            first_ty,
            second_ty,
            result_ty,
            funcs,
        ),
        InstrGroup::MemoryLoad(ty, memarg) => lemma_load_known(ctx, st, iidx, instr, ty, memarg, funcs),
        InstrGroup::MemoryStore(ty, memarg) => lemma_store_known(ctx, st, iidx, instr, ty, memarg, funcs),
        InstrGroup::Local(op, idx) => lemma_local_known(ctx, st, iidx, instr, op, idx, funcs),
        InstrGroup::Global(op, idx) => lemma_global_known(ctx, st, iidx, instr, op, idx, funcs),
        InstrGroup::Control => {},
    }
}

/// The location and the call of a hook use no local.
proof fn lemma_located_call_within(ctx: Context, iidx: usize, hook: Idx<Function>, bound: int, funcs: int)
    requires
        hook.0 < funcs,
    ensures
        within(location(ctx.func, iidx).push(Instr::Call(hook)), bound, funcs),
        within(Seq::<Instr>::empty(), bound, funcs),
{
    lemma_location_within(ctx.func, iidx, bound, funcs);
    lemma_within_push(location(ctx.func, iidx), Instr::Call(hook), bound, funcs);
    lemma_within_of(Seq::<Instr>::empty(), bound, funcs);
}

proof fn lemma_if_known(ctx: Context, st: BodyStateView, iidx: usize, ty: BlockType, funcs: int)
    requires
        hooks_below(ctx.hooks, funcs),
    ensures
        refers_to_known(ctx, step_if(ctx, st, iidx, ty), funcs),
{
    let c = ctx.tmp(st, 0);
    if ctx.first_fresh(st) + 1 <= usize::MAX {
        let bound = ctx.first_fresh(st) + 1;
        let head = seq![Instr::TeeLocal(c)];
        let tail = seq![Instr::GetLocal(c), Instr::Call(ctx.hooks.fixed.if_)];
        lemma_within_of(head, bound, funcs);
        lemma_within_of(tail, bound, funcs);
        lemma_location_within(ctx.func, iidx, bound, funcs);
        lemma_within3(head, location(ctx.func, iidx), tail, bound, funcs);
        lemma_located_call_within(ctx, iidx, ctx.hooks.fixed.begin_if, bound, funcs);
    }
}

proof fn lemma_else_known(ctx: Context, st: BodyStateView, iidx: usize, funcs: int)
    requires
        hooks_below(ctx.hooks, funcs),
    ensures
        refers_to_known(ctx, step_else(ctx, st, iidx), funcs),
{
    let bound = ctx.first_fresh(st);
    lemma_location_within(ctx.func, iidx, bound, funcs);
    lemma_located_call_within(ctx, iidx, ctx.hooks.fixed.begin_else, bound, funcs);
    if st.blocks.len() > 0 {
        match st.blocks.last() {
            Begin::If(begin) => {
                let tail = seq![Instr::I32Const(begin as i32), Instr::Call(ctx.hooks.fixed.end_else)];
                lemma_within_of(tail, bound, funcs);
                lemma_within_concat(location(ctx.func, iidx), tail, bound, funcs);
            },
            _ => {},
        }
    }
}

proof fn lemma_end_known(ctx: Context, st: BodyStateView, iidx: usize, funcs: int)
    requires
        hooks_below(ctx.hooks, funcs),
    ensures
        refers_to_known(ctx, step_end(ctx, st, iidx), funcs),
{
    let bound = ctx.first_fresh(st);
    lemma_location_within(ctx.func, iidx, bound, funcs);
    lemma_within_of(Seq::<Instr>::empty(), bound, funcs);
    if st.blocks.len() > 0 {
        lemma_within_of(end_report(ctx, st.blocks.last()), bound, funcs);
        lemma_within_concat(location(ctx.func, iidx), end_report(ctx, st.blocks.last()), bound, funcs);
    }
}

proof fn lemma_br_known(ctx: Context, st: BodyStateView, iidx: usize, label: Idx<Label>, funcs: int)
    requires
        hooks_below(ctx.hooks, funcs),
    ensures
        refers_to_known(ctx, step_br(ctx, st, iidx, label), funcs),
        refers_to_known(ctx, step_br_if(ctx, st, iidx, label), funcs),
{
    match labelled(st.blocks, label.0) {
        Some(begin) => {
            let bound = ctx.first_fresh(st);
            let tail = seq![
                Instr::I32Const(label.0 as i32),
                Instr::I32Const(begin.target() as i32),
                Instr::Call(ctx.hooks.fixed.br),
            ];
            lemma_location_within(ctx.func, iidx, bound, funcs);
            lemma_within_of(Seq::<Instr>::empty(), bound, funcs);
            lemma_within_of(tail, bound, funcs);
            lemma_within_concat(location(ctx.func, iidx), tail, bound, funcs);
            if bound + 1 <= usize::MAX {
                let more = bound + 1;
                let head = seq![Instr::TeeLocal(ctx.tmp(st, 0))];
                let tail_if = seq![
                    Instr::I32Const(label.0 as i32),
                    Instr::I32Const(begin.target() as i32),
                    Instr::GetLocal(ctx.tmp(st, 0)),
                    Instr::Call(ctx.hooks.fixed.br_if),
                ];
                lemma_location_within(ctx.func, iidx, more, funcs);
                lemma_within_of(Seq::<Instr>::empty(), more, funcs);
                lemma_within_of(head, more, funcs);
                lemma_within_of(tail_if, more, funcs);
                lemma_within3(head, location(ctx.func, iidx), tail_if, more, funcs);
            }
        },
        None => {},
    }
}

proof fn lemma_br_table_known(
    ctx: Context,
    st: BodyStateView,
    iidx: usize,
    table: Seq<Idx<Label>>,
    default: Idx<Label>,
    funcs: int,
)
    requires
        hooks_below(ctx.hooks, funcs),
    ensures
        refers_to_known(ctx, step_br_table(ctx, st, iidx, table, default), funcs),
{
    if ctx.first_fresh(st) + 1 <= usize::MAX {
        let bound = ctx.first_fresh(st) + 1;
        let head = seq![Instr::TeeLocal(ctx.tmp(st, 0))];
        let tail = seq![
            Instr::I32Const(st.br_tables.len() as usize as i32),
            Instr::GetLocal(ctx.tmp(st, 0)),
            Instr::Call(ctx.hooks.fixed.br_table),
        ];
        lemma_location_within(ctx.func, iidx, bound, funcs);
        lemma_within_of(Seq::<Instr>::empty(), bound, funcs);
        lemma_within_of(head, bound, funcs);
        lemma_within_of(tail, bound, funcs);
        lemma_within3(head, location(ctx.func, iidx), tail, bound, funcs);
    }
}

proof fn lemma_memory_known(ctx: Context, st: BodyStateView, iidx: usize, funcs: int)
    requires
        hooks_below(ctx.hooks, funcs),
    ensures
        refers_to_known(ctx, step_current_memory(ctx, st, iidx), funcs),
        refers_to_known(ctx, step_grow_memory(ctx, st, iidx), funcs),
{
    let first = ctx.first_fresh(st);
    let t0 = ctx.tmp(st, 0);
    let t1 = ctx.tmp(st, 1);
    if first + 1 <= usize::MAX {
        let bound = first + 1;
        let tee = seq![Instr::TeeLocal(t0)];
        let size = seq![Instr::GetLocal(t0), Instr::Call(ctx.hooks.fixed.current_memory)];
        lemma_location_within(ctx.func, iidx, bound, funcs);
        lemma_within_of(Seq::<Instr>::empty(), bound, funcs);
        lemma_within_of(tee, bound, funcs);
        lemma_within_of(size, bound, funcs);
        lemma_within3(tee, location(ctx.func, iidx), size, bound, funcs);
    }
    if first + 2 <= usize::MAX {
        let bound = first + 2;
        let tee0 = seq![Instr::TeeLocal(t0)];
        let tee1 = seq![Instr::TeeLocal(t1)];
        let grow = seq![
            Instr::GetLocal(t0),
            Instr::GetLocal(t1),
            Instr::Call(ctx.hooks.fixed.grow_memory),
        ];
        lemma_location_within(ctx.func, iidx, bound, funcs);
        lemma_within_of(tee0, bound, funcs);
        lemma_within_of(tee1, bound, funcs);
        lemma_within_of(grow, bound, funcs);
        lemma_within3(tee1, location(ctx.func, iidx), grow, bound, funcs);
    }
}

proof fn lemma_return_known(ctx: Context, st: BodyStateView, iidx: usize, instr: Instr, funcs: int)
    requires
        hooks_below(ctx.hooks, funcs),
    ensures
        refers_to_known(ctx, step_return(ctx, st, iidx, instr), funcs),
{
    let tys = ctx.type_.results;
    let first = ctx.first_fresh(st);
    let tmps = local_run(first, tys.len());
    match prepared(ctx, st, seq![], seq![], tys) {
        Ok(state) => {
            let bound = ctx.first_fresh(state);
            lemma_run_below(first, tys.len(), bound);
            lemma_saved_within(tmps, bound, funcs);
            lemma_restored_within(tmps, tys, bound, funcs);
            lemma_location_within(ctx.func, iidx, bound, funcs);
            lemma_within3(saved(tmps), location(ctx.func, iidx), restored(tmps, tys), bound, funcs);
            lemma_within_of(Seq::<Instr>::empty(), bound, funcs);
            match ctx.poly_call(instr, tys) {
                Some(call) => lemma_within_push(
                    saved(tmps) + location(ctx.func, iidx) + restored(tmps, tys),
                    call,
                    bound,
                    funcs,
                ),
                None => {},
            }
        },
        Err(_) => {},
    }
}

proof fn lemma_result_report_within(ctx: Context, iidx: usize, first: int, tys: Seq<ValType>, bound: int, funcs: int)
    requires
        0 <= first,
        first + tys.len() <= bound <= usize::MAX,
    ensures
        within(result_report(ctx, iidx, first, tys), bound, funcs),
{
    let tmps = local_run(first, tys.len());
    lemma_run_below(first, tys.len(), bound);
    lemma_saved_within(tmps, bound, funcs);
    lemma_restored_within(tmps, tys, bound, funcs);
    lemma_location_within(ctx.func, iidx, bound, funcs);
    lemma_within3(saved(tmps), location(ctx.func, iidx), restored(tmps, tys), bound, funcs);
}

proof fn lemma_call_known(ctx: Context, st: BodyStateView, iidx: usize, instr: Instr, target: Idx<Function>, funcs: int)
    requires
        hooks_below(ctx.hooks, funcs),
    ensures
        refers_to_known(ctx, step_call(ctx, st, iidx, instr, target), funcs),
{
    if target.0 < ctx.functions.len() {
        let args = ctx.functions[target.0 as int].params;
        let results = ctx.functions[target.0 as int].results;
        let first = ctx.first_fresh(st);
        let tmps = local_run(first, args.len());
        let konst = seq![Instr::I32Const(target.0 as i32)];
        match (prepared(ctx, st, args, results, args + results), ctx.poly_call(instr, args)) {
            (Ok(state), Some(call)) => {
                let bound = ctx.first_fresh(state);
                lemma_run_below(first, args.len(), bound);
                lemma_saved_within(tmps, bound, funcs);
                lemma_restored_within(tmps, args, bound, funcs);
                lemma_location_within(ctx.func, iidx, bound, funcs);
                lemma_within_of(konst, bound, funcs);
                lemma_within4(saved(tmps), location(ctx.func, iidx), konst, restored(tmps, args), bound, funcs);
                let before = saved(tmps) + location(ctx.func, iidx) + konst + restored(tmps, args);
                lemma_within_push(before, call, bound, funcs);
                lemma_result_report_within(ctx, iidx, first + args.len(), results, bound, funcs);
                match ctx.result_call(results) {
                    Some(after) => lemma_within_push(
                        result_report(ctx, iidx, first + args.len(), results),
                        after,
                        bound,
                        funcs,
                    ),
                    None => {},
                }
            },
            _ => {},
        }
    }
}

proof fn lemma_call_indirect_known(
    ctx: Context,
    st: BodyStateView,
    iidx: usize,
    instr: Instr,
    ty: Signature,
    funcs: int,
)
    requires
        hooks_below(ctx.hooks, funcs),
    ensures
        refers_to_known(ctx, step_call_indirect(ctx, st, iidx, instr, ty), funcs),
{
    let args = ty.params;
    let results = ty.results;
    let first = ctx.first_fresh(st) + 1;
    let tmps = local_run(first, args.len());
    let set = seq![Instr::SetLocal(ctx.tmp(st, 0))];
    let get = seq![Instr::GetLocal(ctx.tmp(st, 0))];
    match (
        prepared(ctx, st, args, results, seq![ValType::I32] + args + results),
        ctx.poly_call(instr, args),
    ) {
        (Ok(state), Some(call)) => {
            let bound = ctx.first_fresh(state);
            lemma_run_below(first, args.len(), bound);
            lemma_saved_within(tmps, bound, funcs);
            lemma_restored_within(tmps, args, bound, funcs);
            lemma_location_within(ctx.func, iidx, bound, funcs);
            lemma_within_of(set, bound, funcs);
            lemma_within_of(get, bound, funcs);
            lemma_within3(set, saved(tmps), get, bound, funcs);
            lemma_within4(
                set + saved(tmps) + get,
                location(ctx.func, iidx),
                get,
                restored(tmps, args),
                bound,
                funcs,
            );
            let before = set + saved(tmps) + get + location(ctx.func, iidx) + get + restored(tmps, args);
            lemma_within_push(before, call, bound, funcs);
            lemma_result_report_within(ctx, iidx, first + args.len(), results, bound, funcs);
            match ctx.result_call(results) {
                Some(after) => lemma_within_push(
                    result_report(ctx, iidx, first + args.len(), results),
                    after,
                    bound,
                    funcs,
                ),
                None => {},
            }
        },
        _ => {},
    }
}

proof fn lemma_drop_known(ctx: Context, st: BodyStateView, iidx: usize, instr: Instr, funcs: int)
    requires
        hooks_below(ctx.hooks, funcs),
    ensures
        refers_to_known(ctx, step_drop(ctx, st, iidx, instr), funcs),
{
    match top_type(st.types) {
        Some(ty) => match prepared(ctx, st, seq![ty], seq![], seq![ty]) {
            Ok(state) => {
                let bound = ctx.first_fresh(state);
                let set = seq![Instr::SetLocal(ctx.tmp(st, 0))];
                let read = split(Instr::GetLocal(ctx.tmp(st, 0)), ty);
                lemma_within_of(set, bound, funcs);
                lemma_location_within(ctx.func, iidx, bound, funcs);
                lemma_split_within(Instr::GetLocal(ctx.tmp(st, 0)), ty, bound, funcs);
                lemma_within3(set, location(ctx.func, iidx), read, bound, funcs);
                lemma_within_of(Seq::<Instr>::empty(), bound, funcs);
                match ctx.poly_call(instr, seq![ty]) {
                    Some(call) => lemma_within_push(set + location(ctx.func, iidx) + read, call, bound, funcs),
                    None => {},
                }
            },
            Err(_) => {},
        },
        None => {},
    }
}

proof fn lemma_select_known(ctx: Context, st: BodyStateView, iidx: usize, instr: Instr, funcs: int)
    requires
        hooks_below(ctx.hooks, funcs),
    ensures
        refers_to_known(ctx, step_select(ctx, st, iidx, instr), funcs),
{
    match select_type(st.types) {
        Some(ty) => match prepared(
            ctx,
            st,
            seq![ty, ty, ValType::I32],
            seq![ty],
            seq![ValType::I32, ty, ty],
        ) {
            Ok(state) => {
                let bound = ctx.first_fresh(state);
                let get = seq![Instr::GetLocal(ctx.tmp(st, 0))];
                let args = seq![ctx.tmp(st, 1), ctx.tmp(st, 2)];
                let all = seq![ctx.tmp(st, 1), ctx.tmp(st, 2), ctx.tmp(st, 0)];
                lemma_within_of(get, bound, funcs);
                lemma_saved_within(all, bound, funcs);
                lemma_location_within(ctx.func, iidx, bound, funcs);
                lemma_restored_within(args, seq![ty, ty], bound, funcs);
                lemma_within3(location(ctx.func, iidx), get, restored(args, seq![ty, ty]), bound, funcs);
                match ctx.poly_call(instr, seq![ty, ty]) {
                    Some(call) => lemma_within_push(
                        location(ctx.func, iidx) + get + restored(args, seq![ty, ty]),
                        call,
                        bound,
                        funcs,
                    ),
                    None => {},
                }
            },
            Err(_) => {},
        },
        None => {},
    }
}

proof fn lemma_control_known(ctx: Context, st: BodyStateView, iidx: usize, instr: Instr, funcs: int)
    requires
        hooks_below(ctx.hooks, funcs),
        instr.group() == InstrGroup::Control,
    ensures
        refers_to_known(ctx, step(ctx, st, iidx, instr), funcs),
{
    reveal(step);
    let bound = ctx.first_fresh(st);
    match instr {
        Instr::Nop => lemma_located_call_within(ctx, iidx, ctx.hooks.fixed.nop, bound, funcs),
        Instr::Unreachable => lemma_located_call_within(ctx, iidx, ctx.hooks.fixed.unreachable, bound, funcs),
        Instr::Block(_) => lemma_located_call_within(ctx, iidx, ctx.hooks.fixed.begin_block, bound, funcs),
        Instr::Loop(_) => lemma_located_call_within(ctx, iidx, ctx.hooks.fixed.begin_loop, bound, funcs),
        Instr::If(ty) => lemma_if_known(ctx, st, iidx, ty, funcs),
        Instr::Else => lemma_else_known(ctx, st, iidx, funcs),
        Instr::End => lemma_end_known(ctx, st, iidx, funcs),
        Instr::Br(label) => lemma_br_known(ctx, st, iidx, label, funcs),
        Instr::BrIf(label) => lemma_br_known(ctx, st, iidx, label, funcs),
        Instr::BrTable(table, default) => lemma_br_table_known(ctx, st, iidx, table@, default, funcs),
        Instr::Return => lemma_return_known(ctx, st, iidx, instr, funcs),
        Instr::Call(target) => lemma_call_known(ctx, st, iidx, instr, target, funcs),
        Instr::CallIndirect(ty, _) => lemma_call_indirect_known(ctx, st, iidx, instr, ty@, funcs),
        Instr::Drop => lemma_drop_known(ctx, st, iidx, instr, funcs),
        Instr::Select => lemma_select_known(ctx, st, iidx, instr, funcs),
        Instr::CurrentMemory(_) => lemma_memory_known(ctx, st, iidx, funcs),
        Instr::GrowMemory(_) => lemma_memory_known(ctx, st, iidx, funcs),
        _ => {},
    }
}

/// What the rewrite puts around an instruction reads and writes only
/// parameters and locals that the function has after the step: the fresh
/// locals of the step, and for an access to a local the local itself. It
/// calls only hooks.
pub proof fn lemma_step_refers_to_known(ctx: Context, st: BodyStateView, iidx: usize, instr: Instr, funcs: int)
    requires
        hooks_below(ctx.hooks, funcs),
        step(ctx, st, iidx, instr) is Ok,
    ensures
        within(
            step(ctx, st, iidx, instr).unwrap().before,
            ctx.first_fresh(step(ctx, st, iidx, instr).unwrap().state),
            funcs,
        ),
        within(
            step(ctx, st, iidx, instr).unwrap().after,
            ctx.first_fresh(step(ctx, st, iidx, instr).unwrap().state),
            funcs,
        ),
{
    if instr.group() == InstrGroup::Control {
        lemma_control_known(ctx, st, iidx, instr, funcs);
    } else {
        lemma_grouped_known(ctx, st, iidx, instr, funcs);
    }
}

pub proof fn lemma_within_widens(instrs: Seq<Instr>, bound: int, wider: int, funcs: int)
    requires
        within(instrs, bound, funcs),
        bound <= wider,
    ensures
        within(instrs, wider, funcs),
{
    reveal(within);
}

/// An access to a local that is rewritten is an access to a parameter or
/// local of the function, and a call that is rewritten is a call of a
/// function that is known.
proof fn lemma_instr_known(ctx: Context, st: BodyStateView, iidx: usize, instr: Instr, funcs: int)
    requires
        step(ctx, st, iidx, instr) is Ok,
    ensures
        refers_within(instr, ctx.first_fresh(st), ctx.functions.len() as int),
{
    reveal(step);
}

/// After `n` instructions every local that the emitted instructions read
/// or write is a parameter or a local that the function then has.
proof fn lemma_run_refers_to_known(ctx: Context, start: BodyStateView, body: Seq<Instr>, n: nat, funcs: int)
    requires
        hooks_below(ctx.hooks, funcs),
        ctx.functions.len() <= funcs,
        n <= body.len(),
        run(ctx, start, body, n) is Ok,
    ensures
        within(
            run(ctx, start, body, n).unwrap().emitted,
            ctx.first_fresh(run(ctx, start, body, n).unwrap().state),
            funcs,
        ),
        start.locals.len() <= run(ctx, start, body, n).unwrap().state.locals.len(),
    decreases n,
{
    if n == 0 {
        lemma_within_of(prologue(ctx), ctx.first_fresh(start), funcs);
    } else {
        lemma_run_refers_to_known(ctx, start, body, (n - 1) as nat, funcs);
        let prev = run(ctx, start, body, (n - 1) as nat).unwrap();
        let instr = body[n - 1];
        let next = step(ctx, prev.state, (n - 1) as usize, instr).unwrap();
        let bound = ctx.first_fresh(next.state);
        lemma_step_refers_to_known(ctx, prev.state, (n - 1) as usize, instr, funcs);
        lemma_instr_known(ctx, prev.state, (n - 1) as usize, instr, funcs);
        lemma_step_grows(ctx, prev.state, (n - 1) as usize, instr);
        lemma_within_widens(prev.emitted, ctx.first_fresh(prev.state), bound, funcs);
        lemma_within_of(seq![instr], bound, funcs);
        if instr is Drop {
            lemma_within_concat(next.before, next.after, bound, funcs);
        } else {
            lemma_within3(next.before, seq![instr], next.after, bound, funcs);
        }
        lemma_within_concat(prev.emitted, next.emitted(instr), bound, funcs);
    }
}

/// Every local that an instruction of a rewritten body reads or writes is
/// a parameter of the function or one of its locals after the rewrite, and
/// every function that it calls is a hook or a function that is known.
pub proof fn lemma_rewrite_refers_to_known(
    ctx: Context,
    locals: Seq<ValType>,
    br_tables: Seq<BrTableView>,
    body: Seq<Instr>,
    funcs: int,
)
    requires
        hooks_below(ctx.hooks, funcs),
        ctx.functions.len() <= funcs,
        rewritten(ctx, locals, br_tables, body) is Ok,
    ensures
        within(
            rewritten(ctx, locals, br_tables, body).unwrap().emitted,
            (ctx.type_.params.len() + rewritten(
                ctx,
                locals,
                br_tables,
                body,
            ).unwrap().state.locals.len()) as int,
            funcs,
        ),
{
    lemma_run_refers_to_known(ctx, body_start(locals, br_tables), body, body.len(), funcs);
}

} // verus!
