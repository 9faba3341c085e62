//! Which hook reports an instruction: the hook that the registry holds for
//! the instruction, and for an instruction whose types vary for the types
//! that it has where it stands.

use crate::ast::{BlockType, Function, Global, Idx, Instr, Label, Local, ValType};
use crate::block_stack::{labelled, Begin};
use crate::body::{body_start, rewritten, run};
use crate::group::InstrGroup;
use crate::rewrite::{
    end_report, select_type, step, step_br, step_br_if, step_br_table, step_current_memory,
    step_else, step_end, step_grow_memory, step_if, BodyStateView, Context, Fault, Step,
};
use crate::static_info::BrTableView;
use crate::type_stack::top_type;
use vstd::prelude::*;

verus! {

/// The types that the hook of an instruction whose types vary is chosen
/// by: the results of the function for `return`, the parameters of the
/// called function for a call, the type of the variable for an access to a
/// local or global, and for `drop` and `select` the types on the type
/// stack.
pub open spec fn observed_types(
    ctx: Context,
    st: BodyStateView,
    instr: Instr,
) -> Option<Seq<ValType>> {
    match instr {
        Instr::Return => Some(ctx.type_.results),
        Instr::Call(target) => if target.0 < ctx.functions.len() {
            Some(ctx.functions[target.0 as int].params)
        } else {
            None
        },
        Instr::CallIndirect(ty, _) => Some(ty@.params),
        Instr::Drop => match top_type(st.types) {
            Some(ty) => Some(seq![ty]),
            None => None,
        },
        Instr::Select => match select_type(st.types) {
            Some(ty) => Some(seq![ty, ty]),
            None => None,
        },
        Instr::GetLocal(idx) | Instr::SetLocal(idx) | Instr::TeeLocal(idx) => match ctx.local_type(
            st,
            idx.0,
        ) {
            Some(ty) => Some(seq![ty]),
            None => None,
        },
        Instr::GetGlobal(idx) | Instr::SetGlobal(idx) => if idx.0 < ctx.globals.len() {
            Some(seq![ctx.globals[idx.0 as int]])
        } else {
            None
        },
        _ => None,
    }
}

/// The hook that ends the block that `begin` opened.
pub open spec fn end_hook(ctx: Context, begin: Begin) -> Idx<Function> {
    match begin {
        Begin::Function => ctx.hooks.fixed.end_function,
        Begin::Block(_) => ctx.hooks.fixed.end_block,
        Begin::Loop(_) => ctx.hooks.fixed.end_loop,
        Begin::If(_) => ctx.hooks.fixed.end_if,
        Begin::Else(_) => ctx.hooks.fixed.end_else,
    }
}

/// The hook of an instruction whose types vary, for the types that it has
/// where it stands.
pub open spec fn poly_hook_of(
    ctx: Context,
    st: BodyStateView,
    instr: Instr,
) -> Option<Idx<Function>> {
    match observed_types(ctx, st, instr) {
        Some(tys) => if ctx.hooks.polymorphic.contains_key((instr.opcode(), tys)) {
            Some(ctx.hooks.polymorphic[(instr.opcode(), tys)])
        } else {
            None
        },
        None => None,
    }
}

/// The hook that reports the instruction: for an instruction whose group
/// fixes its types the one filed under its opcode; for one whose types
/// vary the one filed under its opcode and its types; for the others the
/// one that exists once. An `if` is reported by the hook for its
/// condition, an `else` by the hook that ends the part before it.
pub open spec fn hook_of(ctx: Context, st: BodyStateView, instr: Instr) -> Option<Idx<Function>> {
    match instr.group() {
        InstrGroup::Local(_, _) | InstrGroup::Global(_, _) => poly_hook_of(ctx, st, instr),
        InstrGroup::Control => match instr {
            Instr::Nop => Some(ctx.hooks.fixed.nop),
            Instr::Unreachable => Some(ctx.hooks.fixed.unreachable),
            Instr::Block(_) => Some(ctx.hooks.fixed.begin_block),
            Instr::Loop(_) => Some(ctx.hooks.fixed.begin_loop),
            Instr::If(_) => Some(ctx.hooks.fixed.if_),
            Instr::Else => Some(ctx.hooks.fixed.end_else),
            Instr::End => if st.blocks.len() > 0 {
                Some(end_hook(ctx, st.blocks.last()))
            } else {
                None
            },
            Instr::Br(_) => Some(ctx.hooks.fixed.br),
            Instr::BrIf(_) => Some(ctx.hooks.fixed.br_if),
            Instr::BrTable(_, _) => Some(ctx.hooks.fixed.br_table),
            Instr::CurrentMemory(_) => Some(ctx.hooks.fixed.current_memory),
            Instr::GrowMemory(_) => Some(ctx.hooks.fixed.grow_memory),
            Instr::Return | Instr::Call(_) | Instr::CallIndirect(_, _) | Instr::Drop | Instr::Select => {
                poly_hook_of(ctx, st, instr)
            },
            _ => None,
        },
        _ => if ctx.hooks.monomorphic.contains_key(instr.opcode()) {
            Some(ctx.hooks.monomorphic[instr.opcode()])
        } else {
            None
        },
    }
}

/// The call of `hook` is the last instruction before the instruction, or
/// the last one after it.
pub open spec fn calls(s: Step, hook: Idx<Function>) -> bool {
    ||| s.before.len() > 0 && s.before.last() == Instr::Call(hook)
    ||| s.after.len() > 0 && s.after.last() == Instr::Call(hook)
}

/// Where there is a step, it calls the hook.
pub open spec fn reports(r: Result<Step, Fault>, hook: Option<Idx<Function>>) -> bool {
    r matches Ok(s) ==> hook matches Some(h) && calls(s, h)
}

proof fn lemma_seq_ends(a: Seq<Instr>, b: Seq<Instr>)
    requires
        b.len() > 0,
    ensures
        (a + b).len() > 0,
        (a + b).last() == b.last(),
{
}

proof fn lemma_control_reports(ctx: Context, st: BodyStateView, iidx: usize, instr: Instr)
    requires
        instr.group() == InstrGroup::Control,
    ensures
        reports(step(ctx, st, iidx, instr), hook_of(ctx, st, instr)),
{
    reveal(step);
    match instr {
        Instr::If(ty) => lemma_if_reports(ctx, st, iidx, ty),
        Instr::Else => lemma_else_reports(ctx, st, iidx),
        Instr::End => lemma_end_reports(ctx, st, iidx),
        Instr::Br(label) => lemma_br_reports(ctx, st, iidx, label),
        Instr::BrIf(label) => lemma_br_reports(ctx, st, iidx, label),
        Instr::BrTable(table, default) => lemma_br_table_reports(ctx, st, iidx, table@, default),
        Instr::CurrentMemory(_) => lemma_memory_reports(ctx, st, iidx),
        Instr::GrowMemory(_) => lemma_memory_reports(ctx, st, iidx),
        _ => {},
    }
}

proof fn lemma_if_reports(ctx: Context, st: BodyStateView, iidx: usize, ty: BlockType)
    ensures
        reports(step_if(ctx, st, iidx, ty), Some(ctx.hooks.fixed.if_)),
{
    let c = ctx.tmp(st, 0);
    lemma_seq_ends(
        seq![Instr::TeeLocal(c)] + crate::splice::location(ctx.func, iidx),
        seq![Instr::GetLocal(c), Instr::Call(ctx.hooks.fixed.if_)],
    );
}

proof fn lemma_else_reports(ctx: Context, st: BodyStateView, iidx: usize)
    ensures
        reports(step_else(ctx, st, iidx), Some(ctx.hooks.fixed.end_else)),
{
    if st.blocks.len() > 0 {
        match st.blocks.last() {
            Begin::If(begin) => {
                lemma_seq_ends(
                    crate::splice::location(ctx.func, iidx),
                    seq![Instr::I32Const(begin as i32), Instr::Call(ctx.hooks.fixed.end_else)],
                );
            },
            _ => {},
        }
    }
}

proof fn lemma_end_reports(ctx: Context, st: BodyStateView, iidx: usize)
    ensures
        reports(
            step_end(ctx, st, iidx),
            if st.blocks.len() > 0 {
                Some(end_hook(ctx, st.blocks.last()))
            } else {
                None
            },
        ),
{
    if st.blocks.len() > 0 {
        lemma_seq_ends(crate::splice::location(ctx.func, iidx), end_report(ctx, st.blocks.last()));
    }
}

proof fn lemma_br_reports(ctx: Context, st: BodyStateView, iidx: usize, label: Idx<Label>)
    ensures
        reports(step_br(ctx, st, iidx, label), Some(ctx.hooks.fixed.br)),
        reports(step_br_if(ctx, st, iidx, label), Some(ctx.hooks.fixed.br_if)),
{
    match labelled(st.blocks, label.0) {
        Some(begin) => {
            lemma_seq_ends(
                crate::splice::location(ctx.func, iidx),
                seq![
                    Instr::I32Const(label.0 as i32),
                    Instr::I32Const(begin.target() as i32),
                    Instr::Call(ctx.hooks.fixed.br),
                ],
            );
            lemma_seq_ends(
                seq![Instr::TeeLocal(ctx.tmp(st, 0))] + crate::splice::location(ctx.func, iidx),
                seq![
                    Instr::I32Const(label.0 as i32),
                    Instr::I32Const(begin.target() as i32),
                    Instr::GetLocal(ctx.tmp(st, 0)),
                    Instr::Call(ctx.hooks.fixed.br_if),
                ],
            );
        },
        None => {},
    }
}

proof fn lemma_br_table_reports(
    ctx: Context,
    st: BodyStateView,
    iidx: usize,
    table: Seq<Idx<Label>>,
    default: Idx<Label>,
)
    ensures
        reports(step_br_table(ctx, st, iidx, table, default), Some(ctx.hooks.fixed.br_table)),
{
    lemma_seq_ends(
        seq![Instr::TeeLocal(ctx.tmp(st, 0))] + crate::splice::location(ctx.func, iidx),
        seq![
            Instr::I32Const(st.br_tables.len() as usize as i32),
            Instr::GetLocal(ctx.tmp(st, 0)),
            Instr::Call(ctx.hooks.fixed.br_table),
        ],
    );
}

proof fn lemma_memory_reports(ctx: Context, st: BodyStateView, iidx: usize)
    ensures
        reports(step_current_memory(ctx, st, iidx), Some(ctx.hooks.fixed.current_memory)),
        reports(step_grow_memory(ctx, st, iidx), Some(ctx.hooks.fixed.grow_memory)),
{
    lemma_seq_ends(
        seq![Instr::TeeLocal(ctx.tmp(st, 0))] + crate::splice::location(ctx.func, iidx),
        seq![Instr::GetLocal(ctx.tmp(st, 0)), Instr::Call(ctx.hooks.fixed.current_memory)],
    );
    lemma_seq_ends(
        seq![Instr::TeeLocal(ctx.tmp(st, 1))] + crate::splice::location(ctx.func, iidx),
        seq![
            Instr::GetLocal(ctx.tmp(st, 0)),
            Instr::GetLocal(ctx.tmp(st, 1)),
            Instr::Call(ctx.hooks.fixed.grow_memory),
        ],
    );
}

proof fn lemma_grouped_reports(ctx: Context, st: BodyStateView, iidx: usize, instr: Instr)
    requires
        instr.group() != InstrGroup::Control,
    ensures
        reports(step(ctx, st, iidx, instr), hook_of(ctx, st, instr)),
{
    reveal(step);
}

/// Every instruction that is rewritten is reported: what is put around it
/// calls the hook of the instruction, right before the instruction or at
/// the very end.
pub proof fn lemma_step_reports(ctx: Context, st: BodyStateView, iidx: usize, instr: Instr)
    requires
        step(ctx, st, iidx, instr) is Ok,
    ensures
        hook_of(ctx, st, instr) matches Some(hook) && calls(step(ctx, st, iidx, instr).unwrap(), hook),
{
    if instr.group() == InstrGroup::Control {
        lemma_control_reports(ctx, st, iidx, instr);
    } else {
        lemma_grouped_reports(ctx, st, iidx, instr);
    }
}

/// What was emitted after `m` instructions is the beginning of what is
/// emitted after more.
pub proof fn lemma_run_extends(ctx: Context, start: BodyStateView, body: Seq<Instr>, m: nat, n: nat)
    requires
        m <= n,
        run(ctx, start, body, n) is Ok,
    ensures
        run(ctx, start, body, m) is Ok,
        run(ctx, start, body, m).unwrap().emitted.len() <= run(ctx, start, body, n).unwrap().emitted.len(),
        run(ctx, start, body, m).unwrap().emitted == run(ctx, start, body, n).unwrap().emitted.take(
            run(ctx, start, body, m).unwrap().emitted.len() as int,
        ),
    decreases n,
{
    let now = run(ctx, start, body, n).unwrap().emitted;
    if m == n {
        assert(now.take(now.len() as int) =~= now);
    } else {
        lemma_run_extends(ctx, start, body, m, (n - 1) as nat);
        let prev = run(ctx, start, body, (n - 1) as nat).unwrap().emitted;
        let first = run(ctx, start, body, m).unwrap().emitted;
        assert(now.take(first.len() as int) =~= prev.take(first.len() as int));
    }
}

/// Every instruction of a rewritten body is reported: the rewritten body
/// calls the hook of the instruction, which is the hook for the state in
/// which the rewrite has reached the instruction.
pub proof fn lemma_body_reports(
    ctx: Context,
    locals: Seq<ValType>,
    br_tables: Seq<BrTableView>,
    body: Seq<Instr>,
    j: int,
)
    requires
        rewritten(ctx, locals, br_tables, body) is Ok,
        0 <= j < body.len(),
    ensures
        run(ctx, body_start(locals, br_tables), body, j as nat) matches Ok(reached) && hook_of(
            ctx,
            reached.state,
            body[j],
        ) matches Some(hook) && rewritten(ctx, locals, br_tables, body).unwrap().emitted.contains(
            Instr::Call(hook),
        ),
{
    let start = body_start(locals, br_tables);
    let n = body.len();
    lemma_run_extends(ctx, start, body, (j + 1) as nat, n);
    lemma_run_extends(ctx, start, body, j as nat, (j + 1) as nat);
    let reached = run(ctx, start, body, j as nat).unwrap();
    let next = run(ctx, start, body, (j + 1) as nat).unwrap();
    let all = run(ctx, start, body, n).unwrap().emitted;
    let s = step(ctx, reached.state, j as usize, body[j]).unwrap();
    lemma_step_reports(ctx, reached.state, j as usize, body[j]);
    let hook = hook_of(ctx, reached.state, body[j]).unwrap();
    let chunk = s.emitted(body[j]);
    let at = if s.after.len() > 0 && s.after.last() == Instr::Call(hook) {
        chunk.len() - 1
    } else {
        s.before.len() - 1
    };
    assert(chunk[at] == Instr::Call(hook));
    assert(next.emitted[reached.emitted.len() + at] == chunk[at]);
    assert(all[reached.emitted.len() + at] == next.emitted.take(next.emitted.len() as int)[reached.emitted.len()
        + at]);
    assert(all[reached.emitted.len() + at] == Instr::Call(hook));
}

} // verus!
