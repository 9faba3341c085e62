//! The rewrite of one instruction: what the instrumentation puts in its
//! place, and how the state of the pass over a function body moves on.

use crate::ast::{BlockType, Function, FunctionType, Global, Idx, Instr, Label, Local, Signature, ValType};
use crate::block_stack::{label_to_instr_idx, labelled, Begin};
use crate::convert_i64::{convert_i64_instr, split};
use crate::group::{types1, types2, types3, GlobalOp, InstrGroup, LocalOp};
use crate::hooks::{HookTable, Hooks};
use crate::splice::{
    index_const, local_indices, local_run, location, location_instrs, restore_locals_with_i64_handling,
    restored, save_stack_to_locals, saved,
};
use crate::static_info::{BrTableInfo, BrTableView, FunctionInfo, label_numbers};
use crate::type_stack::{as_values, has_on_top, last_marker, top_type, TypeStack, TypeStackElement};
use vstd::prelude::*;

verus! {

/// Why a function body cannot be instrumented.
#[derive(Clone, Copy, Debug, PartialEq, Eq, Structural, Hash)]
pub enum Fault {
    /// An `end` or an `else` stands where no block is open, an `else` does
    /// not follow an `if`, or the body ends inside a block.
    Nesting,
    /// The type stack does not hold what the instruction takes.
    TypeStack,
    /// No hook was registered for the instruction with its types.
    MissingHook,
    UnknownLocal,
    UnknownGlobal,
    UnknownFunction,
    /// A branch names a label that no open block has.
    UnknownLabel,
    /// The indices of the locals would leave the range of `usize`.
    TooManyLocals,
}

/// What stays the same while a function body is rewritten.
pub struct Context {
    /// The index of the function.
    pub func: usize,
    /// The type of the function.
    pub type_: Signature,
    /// The types of the functions that can be called.
    pub functions: Seq<Signature>,
    /// The types of the globals.
    pub globals: Seq<ValType>,
    pub hooks: HookTable,
}

/// What changes from instruction to instruction.
pub struct BodyStateView {
    /// The open blocks, the innermost last.
    pub blocks: Seq<Begin>,
    pub types: Seq<TypeStackElement>,
    /// The locals of the function that follow its parameters.
    pub locals: Seq<ValType>,
    /// The tables of the `br_table` instructions met so far, in the whole
    /// module.
    pub br_tables: Seq<BrTableView>,
}

/// The rewrite of one instruction: the state after it, and what is put
/// before and after the instruction, which itself stays.
pub struct Step {
    pub state: BodyStateView,
    pub before: Seq<Instr>,
    pub after: Seq<Instr>,
}

impl Step {
    /// The instructions that take the place of `instr`: `instr` itself
    /// between `before` and `after`. Only a `drop` does not stay, since
    /// what is put in its place has taken the value off the stack.
    pub open spec fn emitted(self, instr: Instr) -> Seq<Instr> {
        if instr is Drop {
            self.before + self.after
        } else {
            self.before + seq![instr] + self.after
        }
    }
}

impl Context {
    /// The index that the next fresh local gets.
    pub open spec fn first_fresh(self, st: BodyStateView) -> int {
        (self.type_.params.len() + st.locals.len()) as int
    }

    /// The `k`-th of the locals that a step adds.
    pub open spec fn tmp(self, st: BodyStateView, k: int) -> Idx<Local> {
        Idx::<Local>::of((self.first_fresh(st) + k) as usize)
    }

    /// The type of a parameter or local.
    pub open spec fn local_type(self, st: BodyStateView, idx: usize) -> Option<ValType> {
        if idx < self.type_.params.len() {
            Some(self.type_.params[idx as int])
        } else if idx < self.type_.params.len() + st.locals.len() {
            Some(st.locals[idx - self.type_.params.len()])
        } else {
            None
        }
    }

    pub open spec fn mono_call(self, instr: Instr) -> Option<Instr> {
        if self.hooks.monomorphic.contains_key(instr.opcode()) {
            Some(Instr::Call(self.hooks.monomorphic[instr.opcode()]))
        } else {
            None
        }
    }

    pub open spec fn poly_call(self, instr: Instr, tys: Seq<ValType>) -> Option<Instr> {
        if self.hooks.polymorphic.contains_key((instr.opcode(), tys)) {
            Some(Instr::Call(self.hooks.polymorphic[(instr.opcode(), tys)]))
        } else {
            None
        }
    }

    pub open spec fn result_call(self, tys: Seq<ValType>) -> Option<Instr> {
        if self.hooks.call_result.contains_key(tys) {
            Some(Instr::Call(self.hooks.call_result[tys]))
        } else {
            None
        }
    }
}

/// The state after the type stack gave `inputs` and took `results`, and
/// the function got locals of the types `fresh`.
pub open spec fn prepared(
    ctx: Context,
    st: BodyStateView,
    inputs: Seq<ValType>,
    results: Seq<ValType>,
    fresh: Seq<ValType>,
) -> Result<BodyStateView, Fault> {
    if !has_on_top(st.types, inputs) {
        Err(Fault::TypeStack)
    } else if ctx.first_fresh(st) + fresh.len() > usize::MAX {
        Err(Fault::TooManyLocals)
    } else {
        Ok(
            BodyStateView {
                types: st.types.take(st.types.len() - inputs.len()) + as_values(results),
                locals: st.locals + fresh,
                ..st
            },
        )
    }
}

/// A step whose hook is called after the instruction: `after` ends with the
/// call.
pub open spec fn hook_after(
    state: BodyStateView,
    before: Seq<Instr>,
    after: Seq<Instr>,
    hook: Option<Instr>,
) -> Result<Step, Fault> {
    match hook {
        Some(call) => Ok(Step { state, before, after: after.push(call) }),
        None => Err(Fault::MissingHook),
    }
}

/// A step whose hook is called before the instruction: `before` ends with
/// the call.
pub open spec fn hook_before(state: BodyStateView, before: Seq<Instr>, hook: Option<Instr>) -> Result<
    Step,
    Fault,
> {
    match hook {
        Some(call) => Ok(Step { state, before: before.push(call), after: seq![] }),
        None => Err(Fault::MissingHook),
    }
}

/// `nop` and `unreachable`: the instruction, then its hook.
pub open spec fn step_plain(ctx: Context, st: BodyStateView, iidx: usize, hook: Idx<Function>) -> Result<
    Step,
    Fault,
> {
    Ok(Step { state: st, before: seq![], after: location(ctx.func, iidx).push(Instr::Call(hook)) })
}

/// `block` and `loop`: the block is opened, then its begin hook runs
/// inside.
pub open spec fn step_begin(
    ctx: Context,
    st: BodyStateView,
    iidx: usize,
    begin: Begin,
    ty: BlockType,
    hook: Idx<Function>,
) -> Result<Step, Fault> {
    Ok(
        Step {
            state: BodyStateView {
                blocks: st.blocks.push(begin),
                types: st.types.push(TypeStackElement::BlockBegin(ty)),
                ..st
            },
            before: seq![],
            after: location(ctx.func, iidx).push(Instr::Call(hook)),
        },
    )
}

/// `if`: the condition is kept in a fresh local and reported before the
/// block is opened; the begin hook runs inside the block.
pub open spec fn step_if(
    ctx: Context,
    st: BodyStateView,
    iidx: usize,
    ty: BlockType,
) -> Result<Step, Fault> {
    let opened = BodyStateView {
        blocks: st.blocks.push(Begin::If(iidx)),
        types: st.types.push(TypeStackElement::BlockBegin(ty)),
        ..st
    };
    match prepared(ctx, opened, seq![], seq![], seq![ValType::I32]) {
        Err(fault) => Err(fault),
        Ok(state) => Ok(
            Step {
                state,
                before: seq![Instr::TeeLocal(ctx.tmp(st, 0))] + location(ctx.func, iidx) + seq![
                    Instr::GetLocal(ctx.tmp(st, 0)),
                    Instr::Call(ctx.hooks.fixed.if_),
                ],
                after: location(ctx.func, iidx).push(Instr::Call(ctx.hooks.fixed.begin_if)),
            },
        ),
    }
}

/// `else`: closes the `if` part, which the end hook of the `else` reports
/// with the index of the `if`, and opens the `else` part.
pub open spec fn step_else(ctx: Context, st: BodyStateView, iidx: usize) -> Result<Step, Fault> {
    if st.blocks.len() == 0 {
        Err(Fault::Nesting)
    } else {
        match st.blocks.last() {
            Begin::If(begin) => match last_marker(st.types) {
                None => Err(Fault::TypeStack),
                Some(k) => Ok(
                    Step {
                        state: BodyStateView {
                            blocks: st.blocks.drop_last().push(Begin::Else(iidx)),
                            types: st.types.take(k + 1),
                            ..st
                        },
                        before: location(ctx.func, iidx) + seq![
                            Instr::I32Const(begin as i32),
                            Instr::Call(ctx.hooks.fixed.end_else),
                        ],
                        after: location(ctx.func, iidx).push(Instr::Call(ctx.hooks.fixed.begin_else)),
                    },
                ),
            },
            _ => Err(Fault::Nesting),
        }
    }
}

/// What follows the location in the report of an `end`: for a block its
/// begin and the end hook of its kind, for the function the end hook alone.
pub open spec fn end_report(ctx: Context, begin: Begin) -> Seq<Instr> {
    match begin {
        Begin::Function => seq![Instr::Call(ctx.hooks.fixed.end_function)],
        Begin::Block(i) => seq![Instr::I32Const(i as i32), Instr::Call(ctx.hooks.fixed.end_block)],
        Begin::Loop(i) => seq![Instr::I32Const(i as i32), Instr::Call(ctx.hooks.fixed.end_loop)],
        Begin::If(i) => seq![Instr::I32Const(i as i32), Instr::Call(ctx.hooks.fixed.end_if)],
        Begin::Else(i) => seq![Instr::I32Const(i as i32), Instr::Call(ctx.hooks.fixed.end_else)],
    }
}

/// `end`: the end hook runs inside the block that the `end` closes.
pub open spec fn step_end(ctx: Context, st: BodyStateView, iidx: usize) -> Result<Step, Fault> {
    if st.blocks.len() == 0 {
        Err(Fault::Nesting)
    } else {
        let begin = st.blocks.last();
        let before = location(ctx.func, iidx) + end_report(ctx, begin);
        if begin == Begin::Function {
            Ok(
                Step {
                    state: BodyStateView { blocks: st.blocks.drop_last(), ..st },
                    before,
                    after: seq![],
                },
            )
        } else {
            match last_marker(st.types) {
                None => Err(Fault::TypeStack),
                Some(k) => Ok(
                    Step {
                        state: BodyStateView {
                            blocks: st.blocks.drop_last(),
                            types: st.types.take(k),
                            ..st
                        },
                        before,
                        after: seq![],
                    },
                ),
            }
        }
    }
}

/// `drop`: the value goes to a fresh local of the type on top of the type
/// stack, and the hook gets it from there.
pub open spec fn step_drop(
    ctx: Context,
    st: BodyStateView,
    iidx: usize,
    instr: Instr,
) -> Result<Step, Fault> {
    match top_type(st.types) {
        None => Err(Fault::TypeStack),
        Some(ty) => match prepared(ctx, st, seq![ty], seq![], seq![ty]) {
            Err(fault) => Err(fault),
            Ok(state) => hook_before(
                state,
                seq![Instr::SetLocal(ctx.tmp(st, 0))] + location(ctx.func, iidx) + split(
                    Instr::GetLocal(ctx.tmp(st, 0)),
                    ty,
                ),
                ctx.poly_call(instr, seq![ty]),
            ),
        },
    }
}

/// The type of the two values that a `select` chooses from, if the type
/// stack holds two values of one type below a condition.
pub open spec fn select_type(types: Seq<TypeStackElement>) -> Option<ValType> {
    if types.len() >= 3 && types[types.len() - 1] == TypeStackElement::Val(ValType::I32) {
        match types[types.len() - 2] {
            TypeStackElement::Val(ty) => if types[types.len() - 3] == TypeStackElement::Val(ty) {
                Some(ty)
            } else {
                None
            },
            TypeStackElement::BlockBegin(_) => None,
        }
    } else {
        None
    }
}

/// `select`: the condition and both values go to fresh locals before the
/// instruction, and the hook gets them after it.
pub open spec fn step_select(
    ctx: Context,
    st: BodyStateView,
    iidx: usize,
    instr: Instr,
) -> Result<Step, Fault> {
    match select_type(st.types) {
        None => Err(Fault::TypeStack),
        Some(ty) => match prepared(
            ctx,
            st,
            seq![ty, ty, ValType::I32],
            seq![ty],
            seq![ValType::I32, ty, ty],
        ) {
            Err(fault) => Err(fault),
            Ok(state) => hook_after(
                state,
                saved(seq![ctx.tmp(st, 1), ctx.tmp(st, 2), ctx.tmp(st, 0)]),
                location(ctx.func, iidx) + seq![Instr::GetLocal(ctx.tmp(st, 0))] + restored(
                    seq![ctx.tmp(st, 1), ctx.tmp(st, 2)],
                    seq![ty, ty],
                ),
                ctx.poly_call(instr, seq![ty, ty]),
            ),
        },
    }
}

/// `current_memory`: the result is kept in a fresh local for the hook.
pub open spec fn step_current_memory(
    ctx: Context,
    st: BodyStateView,
    iidx: usize,
) -> Result<Step, Fault> {
    match prepared(ctx, st, seq![], seq![ValType::I32], seq![ValType::I32]) {
        Err(fault) => Err(fault),
        Ok(state) => Ok(
            Step {
                state,
                before: seq![],
                after: seq![Instr::TeeLocal(ctx.tmp(st, 0))] + location(ctx.func, iidx) + seq![
                    Instr::GetLocal(ctx.tmp(st, 0)),
                    Instr::Call(ctx.hooks.fixed.current_memory),
                ],
            },
        ),
    }
}

/// `grow_memory`: the operand and the result are kept in fresh locals for
/// the hook.
pub open spec fn step_grow_memory(
    ctx: Context,
    st: BodyStateView,
    iidx: usize,
) -> Result<Step, Fault> {
    match prepared(ctx, st, seq![ValType::I32], seq![ValType::I32], seq![ValType::I32, ValType::I32]) {
        Err(fault) => Err(fault),
        Ok(state) => Ok(
            Step {
                state,
                before: seq![Instr::TeeLocal(ctx.tmp(st, 0))],
                after: seq![Instr::TeeLocal(ctx.tmp(st, 1))] + location(ctx.func, iidx) + seq![
                    Instr::GetLocal(ctx.tmp(st, 0)),
                    Instr::GetLocal(ctx.tmp(st, 1)),
                    Instr::Call(ctx.hooks.fixed.grow_memory),
                ],
            },
        ),
    }
}

/// What an access to a local or global of type `ty` takes from the stack.
pub open spec fn access_inputs(sets: bool, ty: ValType) -> Seq<ValType> {
    if sets {
        seq![ty]
    } else {
        seq![]
    }
}

/// What an access to a local or global of type `ty` leaves on the stack.
pub open spec fn access_results(gets: bool, ty: ValType) -> Seq<ValType> {
    if gets {
        seq![ty]
    } else {
        seq![]
    }
}

/// An access to a local: after the instruction the hook gets the index of
/// the local and the value that the local then has. A `tee_local` leaves
/// the type stack as it is.
pub open spec fn step_local(
    ctx: Context,
    st: BodyStateView,
    iidx: usize,
    instr: Instr,
    op: LocalOp,
    idx: Idx<Local>,
) -> Result<Step, Fault> {
    match ctx.local_type(st, idx.0) {
        None => Err(Fault::UnknownLocal),
        Some(ty) => match prepared(
            ctx,
            st,
            access_inputs(op == LocalOp::SetLocal, ty),
            access_results(op == LocalOp::GetLocal, ty),
            seq![],
        ) {
            Err(fault) => Err(fault),
            Ok(state) => hook_after(
                state,
                seq![],
                location(ctx.func, iidx) + seq![Instr::I32Const(idx.0 as i32)] + split(
                    Instr::GetLocal(idx),
                    ty,
                ),
                ctx.poly_call(instr, seq![ty]),
            ),
        },
    }
}

/// An access to a global: as for a local.
pub open spec fn step_global(
    ctx: Context,
    st: BodyStateView,
    iidx: usize,
    instr: Instr,
    op: GlobalOp,
    idx: Idx<Global>,
) -> Result<Step, Fault> {
    if idx.0 >= ctx.globals.len() {
        Err(Fault::UnknownGlobal)
    } else {
        let ty = ctx.globals[idx.0 as int];
        match prepared(
            ctx,
            st,
            access_inputs(op == GlobalOp::SetGlobal, ty),
            access_results(op == GlobalOp::GetGlobal, ty),
            seq![],
        ) {
            Err(fault) => Err(fault),
            Ok(state) => hook_after(
                state,
                seq![],
                location(ctx.func, iidx) + seq![Instr::I32Const(idx.0 as i32)] + split(
                    Instr::GetGlobal(idx),
                    ty,
                ),
                ctx.poly_call(instr, seq![ty]),
            ),
        }
    }
}

/// `return`: the results of the function are saved in fresh locals and
/// reported before the function returns.
pub open spec fn step_return(
    ctx: Context,
    st: BodyStateView,
    iidx: usize,
    instr: Instr,
) -> Result<Step, Fault> {
    let tys = ctx.type_.results;
    match prepared(ctx, st, seq![], seq![], tys) {
        Err(fault) => Err(fault),
        Ok(state) => {
            let tmps = local_run(ctx.first_fresh(st), tys.len());
            hook_before(
                state,
                saved(tmps) + location(ctx.func, iidx) + restored(tmps, tys),
                ctx.poly_call(instr, tys),
            )
        },
    }
}

/// The report of what a call has returned: the results are saved in fresh
/// locals, `first` being the first of them, and handed to the hook for
/// their types.
pub open spec fn result_report(
    ctx: Context,
    iidx: usize,
    first: int,
    tys: Seq<ValType>,
) -> Seq<Instr> {
    saved(local_run(first, tys.len())) + location(ctx.func, iidx) + restored(
        local_run(first, tys.len()),
        tys,
    )
}

/// `call`: the arguments are saved in fresh locals and reported with the
/// index of the called function before the call; the results are reported
/// after it.
pub open spec fn step_call(
    ctx: Context,
    st: BodyStateView,
    iidx: usize,
    instr: Instr,
    target: Idx<Function>,
) -> Result<Step, Fault> {
    if target.0 >= ctx.functions.len() {
        Err(Fault::UnknownFunction)
    } else {
        let args = ctx.functions[target.0 as int].params;
        let results = ctx.functions[target.0 as int].results;
        match prepared(ctx, st, args, results, args + results) {
            Err(fault) => Err(fault),
            Ok(state) => {
                let first = ctx.first_fresh(st);
                match ctx.poly_call(instr, args) {
                    None => Err(Fault::MissingHook),
                    Some(call) => hook_after(
                        state,
                        (saved(local_run(first, args.len())) + location(ctx.func, iidx) + seq![
                            Instr::I32Const(target.0 as i32),
                        ] + restored(local_run(first, args.len()), args)).push(call),
                        result_report(ctx, iidx, first + args.len(), results),
                        ctx.result_call(results),
                    ),
                }
            },
        }
    }
}

/// `call_indirect`: as for `call`, but the function is reported by its
/// index in the table, which is on top of the arguments and goes to a
/// fresh local of its own.
pub open spec fn step_call_indirect(
    ctx: Context,
    st: BodyStateView,
    iidx: usize,
    instr: Instr,
    ty: Signature,
) -> Result<Step, Fault> {
    let args = ty.params;
    let results = ty.results;
    match prepared(ctx, st, args, results, seq![ValType::I32] + args + results) {
        Err(fault) => Err(fault),
        Ok(state) => {
            let first = ctx.first_fresh(st) + 1;
            match ctx.poly_call(instr, args) {
                None => Err(Fault::MissingHook),
                Some(call) => hook_after(
                    state,
                    (seq![Instr::SetLocal(ctx.tmp(st, 0))] + saved(local_run(first, args.len())) + seq![
                        Instr::GetLocal(ctx.tmp(st, 0)),
                    ] + location(ctx.func, iidx) + seq![Instr::GetLocal(ctx.tmp(st, 0))] + restored(
                        local_run(first, args.len()),
                        args,
                    )).push(call),
                    result_report(ctx, iidx, first + args.len(), results),
                    ctx.result_call(results),
                ),
            }
        },
    }
}

/// A constant: the hook gets the value before the instruction runs.
pub open spec fn step_const(
    ctx: Context,
    st: BodyStateView,
    iidx: usize,
    instr: Instr,
    ty: ValType,
) -> Result<Step, Fault> {
    match prepared(ctx, st, seq![], seq![ty], seq![]) {
        Err(fault) => Err(fault),
        Ok(state) => hook_before(
            state,
            location(ctx.func, iidx) + split(instr, ty),
            ctx.mono_call(instr),
        ),
    }
}

/// An instruction with one operand and one result: both are kept in fresh
/// locals for the hook.
pub open spec fn step_unary(
    ctx: Context,
    st: BodyStateView,
    iidx: usize,
    instr: Instr,
    input_ty: ValType,
    result_ty: ValType,
) -> Result<Step, Fault> {
    match prepared(ctx, st, seq![input_ty], seq![result_ty], seq![input_ty, result_ty]) {
        Err(fault) => Err(fault),
        Ok(state) => hook_after(
            state,
            seq![Instr::TeeLocal(ctx.tmp(st, 0))],
            seq![Instr::TeeLocal(ctx.tmp(st, 1))] + location(ctx.func, iidx) + restored(
                seq![ctx.tmp(st, 0), ctx.tmp(st, 1)],
                seq![input_ty, result_ty],
            ),
            ctx.mono_call(instr),
        ),
    }
}

/// An instruction with two operands and one result: all three are kept in
/// fresh locals for the hook.
pub open spec fn step_binary(
    ctx: Context,
    st: BodyStateView,
    iidx: usize,
    instr: Instr,
    first_ty: ValType,
    second_ty: ValType,
    result_ty: ValType,
) -> Result<Step, Fault> {
    match prepared(
        ctx,
        st,
        seq![first_ty, second_ty],
        seq![result_ty],
        seq![first_ty, second_ty, result_ty],
    ) {
        Err(fault) => Err(fault),
        Ok(state) => hook_after(
            state,
            saved(seq![ctx.tmp(st, 0), ctx.tmp(st, 1)]),
            seq![Instr::TeeLocal(ctx.tmp(st, 2))] + location(ctx.func, iidx) + restored(
                seq![ctx.tmp(st, 0), ctx.tmp(st, 1), ctx.tmp(st, 2)],
                seq![first_ty, second_ty, result_ty],
            ),
            ctx.mono_call(instr),
        ),
    }
}

/// The offset and the alignment of a memory access, as the hooks get them
/// after the location.
pub open spec fn memarg_consts(memarg: crate::ast::Memarg) -> Seq<Instr> {
    seq![Instr::I32Const(memarg.offset as i32), Instr::I32Const(memarg.alignment as i32)]
}

/// A load: the address and the value read are kept in fresh locals for the
/// hook.
pub open spec fn step_load(
    ctx: Context,
    st: BodyStateView,
    iidx: usize,
    instr: Instr,
    ty: ValType,
    memarg: crate::ast::Memarg,
) -> Result<Step, Fault> {
    match prepared(ctx, st, seq![ValType::I32], seq![ty], seq![ValType::I32, ty]) {
        Err(fault) => Err(fault),
        Ok(state) => hook_after(
            state,
            seq![Instr::TeeLocal(ctx.tmp(st, 0))],
            seq![Instr::TeeLocal(ctx.tmp(st, 1))] + location(ctx.func, iidx) + memarg_consts(memarg)
                + restored(seq![ctx.tmp(st, 0), ctx.tmp(st, 1)], seq![ValType::I32, ty]),
            ctx.mono_call(instr),
        ),
    }
}

/// A store: the address and the value are saved in fresh locals before the
/// instruction and handed to the hook after it.
pub open spec fn step_store(
    ctx: Context,
    st: BodyStateView,
    iidx: usize,
    instr: Instr,
    ty: ValType,
    memarg: crate::ast::Memarg,
) -> Result<Step, Fault> {
    match prepared(ctx, st, seq![ValType::I32, ty], seq![], seq![ValType::I32, ty]) {
        Err(fault) => Err(fault),
        Ok(state) => hook_after(
            state,
            saved(seq![ctx.tmp(st, 0), ctx.tmp(st, 1)]),
            location(ctx.func, iidx) + memarg_consts(memarg) + restored(
                seq![ctx.tmp(st, 0), ctx.tmp(st, 1)],
                seq![ValType::I32, ty],
            ),
            ctx.mono_call(instr),
        ),
    }
}

/// `br`: the hook gets the label and the instruction that the label
/// resolves to, before the branch.
pub open spec fn step_br(
    ctx: Context,
    st: BodyStateView,
    iidx: usize,
    label: Idx<Label>,
) -> Result<Step, Fault> {
    match labelled(st.blocks, label.0) {
        None => Err(Fault::UnknownLabel),
        Some(begin) => Ok(
            Step {
                state: st,
                before: location(ctx.func, iidx) + seq![
                    Instr::I32Const(label.0 as i32),
                    Instr::I32Const(begin.target() as i32),
                    Instr::Call(ctx.hooks.fixed.br),
                ],
                after: seq![],
            },
        ),
    }
}

/// `br_if`: as for `br`, and the hook gets the condition, which is kept in
/// a fresh local.
pub open spec fn step_br_if(
    ctx: Context,
    st: BodyStateView,
    iidx: usize,
    label: Idx<Label>,
) -> Result<Step, Fault> {
    match prepared(ctx, st, seq![ValType::I32], seq![], seq![ValType::I32]) {
        Err(fault) => Err(fault),
        Ok(state) => match labelled(st.blocks, label.0) {
            None => Err(Fault::UnknownLabel),
            Some(begin) => Ok(
                Step {
                    state,
                    before: seq![Instr::TeeLocal(ctx.tmp(st, 0))] + location(ctx.func, iidx) + seq![
                        Instr::I32Const(label.0 as i32),
                        Instr::I32Const(begin.target() as i32),
                        Instr::GetLocal(ctx.tmp(st, 0)),
                        Instr::Call(ctx.hooks.fixed.br_if),
                    ],
                    after: seq![],
                },
            ),
        },
    }
}

/// `br_table`: the labels are recorded, and the hook gets the index of the
/// record and the operand, which is kept in a fresh local.
pub open spec fn step_br_table(
    ctx: Context,
    st: BodyStateView,
    iidx: usize,
    table: Seq<Idx<Label>>,
    default: Idx<Label>,
) -> Result<Step, Fault> {
    match prepared(ctx, st, seq![ValType::I32], seq![], seq![ValType::I32]) {
        Err(fault) => Err(fault),
        Ok(state) => Ok(
            Step {
                state: BodyStateView {
                    br_tables: st.br_tables.push(
                        BrTableView { table: label_numbers(table), default: default.0 },
                    ),
                    ..state
                },
                before: seq![Instr::TeeLocal(ctx.tmp(st, 0))] + location(ctx.func, iidx) + seq![
                    Instr::I32Const(st.br_tables.len() as usize as i32),
                    Instr::GetLocal(ctx.tmp(st, 0)),
                    Instr::Call(ctx.hooks.fixed.br_table),
                ],
                after: seq![],
            },
        ),
    }
}

/// The rewrite of the instruction `instr`, which has the index `iidx` in
/// its function body: what is put around it, and the state after it; or the
/// reason why there is none.
#[verifier::opaque]
pub open spec fn step(
    ctx: Context,
    st: BodyStateView,
    iidx: usize,
    instr: Instr,
) -> Result<Step, Fault> {
    match instr.group() {
        InstrGroup::Const(ty) => step_const(ctx, st, iidx, instr, ty),
        InstrGroup::Unary { input_ty, result_ty } => step_unary(ctx, st, iidx, instr, input_ty, result_ty),
        InstrGroup::Binary { first_ty, second_ty, result_ty } => step_binary(
            ctx,
            st,
            iidx,
            instr,
            first_ty,
            second_ty,
            result_ty,
        ),
        InstrGroup::MemoryLoad(ty, memarg) => step_load(ctx, st, iidx, instr, ty, memarg),
        InstrGroup::MemoryStore(ty, memarg) => step_store(ctx, st, iidx, instr, ty, memarg),
        InstrGroup::Local(op, idx) => step_local(ctx, st, iidx, instr, op, idx),
        InstrGroup::Global(op, idx) => step_global(ctx, st, iidx, instr, op, idx),
        InstrGroup::Control => match instr {
            Instr::Nop => step_plain(ctx, st, iidx, ctx.hooks.fixed.nop),
            Instr::Unreachable => step_plain(ctx, st, iidx, ctx.hooks.fixed.unreachable),
            Instr::Block(ty) => step_begin(
                ctx,
                st,
                iidx,
                Begin::Block(iidx),
                ty,
                ctx.hooks.fixed.begin_block,
            ),
            Instr::Loop(ty) => step_begin(ctx, st, iidx, Begin::Loop(iidx), ty, ctx.hooks.fixed.begin_loop),
            Instr::If(ty) => step_if(ctx, st, iidx, ty),
            Instr::Else => step_else(ctx, st, iidx),
            Instr::End => step_end(ctx, st, iidx),
            Instr::Br(label) => step_br(ctx, st, iidx, label),
            Instr::BrIf(label) => step_br_if(ctx, st, iidx, label),
            Instr::BrTable(table, default) => step_br_table(ctx, st, iidx, table@, default),
            Instr::Return => step_return(ctx, st, iidx, instr),
            Instr::Call(target) => step_call(ctx, st, iidx, instr, target),
            Instr::CallIndirect(ty, _) => step_call_indirect(ctx, st, iidx, instr, ty@),
            Instr::Drop => step_drop(ctx, st, iidx, instr),
            Instr::Select => step_select(ctx, st, iidx, instr),
            Instr::CurrentMemory(_) => step_current_memory(ctx, st, iidx),
            Instr::GrowMemory(_) => step_grow_memory(ctx, st, iidx),
            _ => Err(Fault::MissingHook),
        },
    }
}

/// What stays the same while a function body is rewritten.
pub struct Pass<'a> {
    pub func: usize,
    pub type_: &'a FunctionType,
    pub functions: &'a Vec<FunctionInfo>,
    pub globals: &'a Vec<ValType>,
    pub hooks: &'a Hooks,
}

impl<'a> View for Pass<'a> {
    type V = Context;

    open spec fn view(&self) -> Context {
        Context {
            func: self.func,
            type_: self.type_@,
            functions: self.functions@.map_values(|f: FunctionInfo| f.type_@),
            globals: self.globals@,
            hooks: self.hooks@,
        }
    }
}

/// What changes from instruction to instruction.
pub struct BodyState {
    pub block_stack: Vec<Begin>,
    pub type_stack: TypeStack,
    pub locals: Vec<Local>,
    pub br_tables: Vec<BrTableInfo>,
}

impl View for BodyState {
    type V = BodyStateView;

    open spec fn view(&self) -> BodyStateView {
        BodyStateView {
            blocks: self.block_stack@,
            types: self.type_stack@,
            locals: self.locals@,
            br_tables: self.br_tables@.map_values(|t: BrTableInfo| t@),
        }
    }
}

/// The result of the executable rewrite is what the rewrite is defined to
/// be.
pub open spec fn agrees(
    r: Result<Vec<Instr>, Fault>,
    after: BodyStateView,
    instr: Instr,
    want: Result<Step, Fault>,
) -> bool {
    match r {
        Ok(chunk) => want matches Ok(step) && step.state == after && chunk@ == step.emitted(instr),
        Err(fault) => want == Err::<Step, Fault>(fault),
    }
}

fn prepare(pass: &Pass, st: &mut BodyState, inputs: &[ValType], results: &[ValType], fresh: &[ValType]) -> (r:
    Result<usize, Fault>)
    ensures
        match r {
            Ok(first) => {
                &&& prepared(pass@, old(st)@, inputs@, results@, fresh@) == Ok::<BodyStateView, Fault>(
                    final(st)@,
                )
                &&& first == pass@.first_fresh(old(st)@)
                &&& first + fresh@.len() <= usize::MAX
            },
            Err(fault) => prepared(pass@, old(st)@, inputs@, results@, fresh@) == Err::<
                BodyStateView,
                Fault,
            >(fault),
        },
{
    if !st.type_stack.accepts(inputs) {
        return Err(Fault::TypeStack);
    }
    let params = pass.type_.params.len();
    if st.locals.len() > usize::MAX - params {
        return Err(Fault::TooManyLocals);
    }
    let first = params + st.locals.len();
    if fresh.len() > usize::MAX - first {
        return Err(Fault::TooManyLocals);
    }
    st.type_stack.op(inputs, results);
    let mut i: usize = 0;
    while i < fresh.len()
        invariant
            i <= fresh.len(),
            st.locals@ == old(st).locals@ + fresh@.take(i as int),
            st.block_stack == old(st).block_stack,
            st.br_tables == old(st).br_tables,
            st.type_stack@ == old(st).type_stack@.take(old(st).type_stack@.len() - inputs@.len())
                + as_values(results@),
        decreases fresh.len() - i,
    {
        st.locals.push(fresh[i]);
        assert(st.locals@ =~= old(st).locals@ + fresh@.take(i + 1));
        i += 1;
    }
    assert(fresh@.take(fresh@.len() as int) =~= fresh@);
    Ok(first)
}

/// The vector of one instruction.
fn single(instr: Instr) -> (r: Vec<Instr>)
    ensures
        r@ == seq![instr],
{
    let r = vec![instr];
    assert(r@ =~= seq![instr]);
    r
}

/// `before`, then the instruction, then `after`.
fn assemble(before: Vec<Instr>, instr: Instr, after: Vec<Instr>) -> (chunk: Vec<Instr>)
    ensures
        chunk@ == before@ + seq![instr] + after@,
{
    let mut chunk = before;
    let mut rest = after;
    chunk.push(instr);
    chunk.append(&mut rest);
    assert(chunk@ =~= before@ + seq![instr] + after@);
    chunk
}

/// The call of the hook at the end of `after`, where there is a hook.
fn call_after(before: Vec<Instr>, instr: Instr, after: Vec<Instr>, hook: Option<Idx<Function>>) -> (r:
    Result<Vec<Instr>, Fault>)
    ensures
        match r {
            Ok(chunk) => hook matches Some(h) && chunk@ == before@ + seq![instr] + after@.push(
                Instr::Call(h),
            ),
            Err(fault) => hook.is_none() && fault == Fault::MissingHook,
        },
{
    match hook {
        None => Err(Fault::MissingHook),
        Some(h) => {
            let mut after = after;
            after.push(Instr::Call(h));
            Ok(assemble(before, instr, after))
        },
    }
}

/// The call of the hook at the end of `before`, where there is a hook.
fn call_before(before: Vec<Instr>, instr: Instr, hook: Option<Idx<Function>>) -> (r: Result<
    Vec<Instr>,
    Fault,
>)
    ensures
        match r {
            Ok(chunk) => hook matches Some(h) && chunk@ == before@.push(Instr::Call(h)) + seq![instr]
                + Seq::<Instr>::empty(),
            Err(fault) => hook.is_none() && fault == Fault::MissingHook,
        },
{
    match hook {
        None => Err(Fault::MissingHook),
        Some(h) => {
            let mut before = before;
            before.push(Instr::Call(h));
            Ok(assemble(before, instr, Vec::new()))
        },
    }
}

/// The location and the call of a hook that takes no more.
fn located_call(pass: &Pass, iidx: usize, hook: Idx<Function>) -> (r: Vec<Instr>)
    ensures
        r@ == location(pass.func, iidx).push(Instr::Call(hook)),
{
    let mut r = location_instrs(pass.func, iidx);
    r.push(Instr::Call(hook));
    r
}

fn rewrite_plain(pass: &Pass, st: &mut BodyState, iidx: usize, instr: Instr, hook: Idx<Function>) -> (r: Result<
    Vec<Instr>,
    Fault,
>)
    requires
        !(instr is Drop),
    ensures
        agrees(r, final(st)@, instr, step_plain(pass@, old(st)@, iidx, hook)),
{
    Ok(assemble(Vec::new(), instr, located_call(pass, iidx, hook)))
}

fn rewrite_begin(
    pass: &Pass,
    st: &mut BodyState,
    iidx: usize,
    instr: Instr,
    begin: Begin,
    ty: BlockType,
    hook: Idx<Function>,
) -> (r: Result<Vec<Instr>, Fault>)
    requires
        !(instr is Drop),
    ensures
        agrees(r, final(st)@, instr, step_begin(pass@, old(st)@, iidx, begin, ty, hook)),
{
    st.block_stack.push(begin);
    st.type_stack.begin_block(ty);
    Ok(assemble(Vec::new(), instr, located_call(pass, iidx, hook)))
}

fn rewrite_if(pass: &Pass, st: &mut BodyState, iidx: usize, instr: Instr, ty: BlockType) -> (r: Result<
    Vec<Instr>,
    Fault,
>)
    requires
        !(instr is Drop),
    ensures
        agrees(r, final(st)@, instr, step_if(pass@, old(st)@, iidx, ty)),
{
    st.block_stack.push(Begin::If(iidx));
    st.type_stack.begin_block(ty);
    let none: Vec<ValType> = Vec::new();
    let fresh = types1(ValType::I32);
    let first = match prepare(pass, st, none.as_slice(), none.as_slice(), fresh.as_slice()) {
        Err(fault) => {
            return Err(fault);
        },
        Ok(first) => first,
    };
    let cond: Idx<Local> = Idx::new(first);
    let mut before = vec![Instr::TeeLocal(cond)];
    let mut loc = location_instrs(pass.func, iidx);
    before.append(&mut loc);
    before.push(Instr::GetLocal(cond));
    before.push(Instr::Call(pass.hooks.fixed.if_));
    assert(before@ =~= step_if(pass@, old(st)@, iidx, ty).unwrap().before);
    Ok(assemble(before, instr, located_call(pass, iidx, pass.hooks.fixed.begin_if)))
}

fn rewrite_else(
    pass: &Pass,
    st: &mut BodyState,
    iidx: usize,
    instr: Instr,
) -> (r: Result<Vec<Instr>, Fault>)
    requires
        !(instr is Drop),
    ensures
        agrees(r, final(st)@, instr, step_else(pass@, old(st)@, iidx)),
{
    let begin = match st.block_stack.pop() {
        Some(Begin::If(begin)) => begin,
        _ => {
            return Err(Fault::Nesting);
        },
    };
    if !st.type_stack.in_block() {
        return Err(Fault::TypeStack);
    }
    let ghost marker = last_marker(st@.types).unwrap();
    proof {
        crate::type_stack::lemma_last_marker(st@.types);
    }
    let block_ty = st.type_stack.end_block();
    st.type_stack.begin_block(block_ty);
    st.block_stack.push(Begin::Else(iidx));
    let mut before = location_instrs(pass.func, iidx);
    before.push(index_const(begin));
    before.push(Instr::Call(pass.hooks.fixed.end_else));
    proof {
        let want = step_else(pass@, old(st)@, iidx).unwrap();
        assert(st@.types =~= old(st)@.types.take(marker + 1));
        assert(st@.blocks =~= want.state.blocks);
        assert(before@ =~= want.before);
    }
    Ok(assemble(before, instr, located_call(pass, iidx, pass.hooks.fixed.begin_else)))
}

fn rewrite_end(
    pass: &Pass,
    st: &mut BodyState,
    iidx: usize,
    instr: Instr,
) -> (r: Result<Vec<Instr>, Fault>)
    requires
        !(instr is Drop),
    ensures
        agrees(r, final(st)@, instr, step_end(pass@, old(st)@, iidx)),
{
    let begin = match st.block_stack.pop() {
        Some(begin) => begin,
        None => {
            return Err(Fault::Nesting);
        },
    };
    let fixed = &pass.hooks.fixed;
    let mut before = location_instrs(pass.func, iidx);
    match begin {
        Begin::Function => {
            before.push(Instr::Call(fixed.end_function));
        },
        Begin::Block(i) => {
            before.push(index_const(i));
            before.push(Instr::Call(fixed.end_block));
        },
        Begin::Loop(i) => {
            before.push(index_const(i));
            before.push(Instr::Call(fixed.end_loop));
        },
        Begin::If(i) => {
            before.push(index_const(i));
            before.push(Instr::Call(fixed.end_if));
        },
        Begin::Else(i) => {
            before.push(index_const(i));
            before.push(Instr::Call(fixed.end_else));
        },
    }
    assert(before@ =~= location(pass.func, iidx) + end_report(pass@, begin));
    match begin {
        Begin::Function => {},
        _ => {
            if !st.type_stack.in_block() {
                return Err(Fault::TypeStack);
            }
            let _ = st.type_stack.end_block();
        },
    }
    assert(st@.blocks =~= old(st)@.blocks.drop_last());
    Ok(assemble(before, instr, Vec::new()))
}

fn rewrite_drop(
    pass: &Pass,
    st: &mut BodyState,
    iidx: usize,
    instr: Instr,
) -> (r: Result<Vec<Instr>, Fault>)
    requires
        instr is Drop,
    ensures
        agrees(r, final(st)@, instr, step_drop(pass@, old(st)@, iidx, instr)),
{
    let ty = match st.type_stack.peek() {
        None => {
            return Err(Fault::TypeStack);
        },
        Some(ty) => ty,
    };
    let one = types1(ty);
    let none: Vec<ValType> = Vec::new();
    assert(has_on_top(st@.types, one@));
    let first = match prepare(pass, st, one.as_slice(), none.as_slice(), one.as_slice()) {
        Err(fault) => {
            return Err(fault);
        },
        Ok(first) => first,
    };
    let tmp: Idx<Local> = Idx::new(first);
    let mut chunk = vec![Instr::SetLocal(tmp)];
    let mut loc = location_instrs(pass.func, iidx);
    chunk.append(&mut loc);
    let mut read = convert_i64_instr(Instr::GetLocal(tmp), ty);
    chunk.append(&mut read);
    assert(chunk@ =~= seq![Instr::SetLocal(tmp)] + location(pass.func, iidx) + split(
        Instr::GetLocal(tmp),
        ty,
    ));
    match pass.hooks.polymorphic.get(instr.opcode(), one.as_slice()) {
        None => Err(Fault::MissingHook),
        Some(hook) => {
            let ghost before = chunk@;
            chunk.push(Instr::Call(hook));
            assert(chunk@ =~= before.push(Instr::Call(hook)) + Seq::<Instr>::empty());
            Ok(chunk)
        },
    }
}

fn rewrite_select(
    pass: &Pass,
    st: &mut BodyState,
    iidx: usize,
    instr: Instr,
) -> (r: Result<Vec<Instr>, Fault>)
    requires
        !(instr is Drop),
    ensures
        agrees(r, final(st)@, instr, step_select(pass@, old(st)@, iidx, instr)),
{
    let n = st.type_stack.0.len();
    if n < 3 {
        return Err(Fault::TypeStack);
    }
    match st.type_stack.0[n - 1] {
        TypeStackElement::Val(ValType::I32) => {},
        _ => {
            return Err(Fault::TypeStack);
        },
    }
    let ty = match st.type_stack.0[n - 2] {
        TypeStackElement::Val(ty) => ty,
        TypeStackElement::BlockBegin(_) => {
            return Err(Fault::TypeStack);
        },
    };
    match st.type_stack.0[n - 3] {
        TypeStackElement::Val(other) => {
            if other != ty {
                return Err(Fault::TypeStack);
            }
        },
        TypeStackElement::BlockBegin(_) => {
            return Err(Fault::TypeStack);
        },
    }
    assert(select_type(st@.types) == Some(ty));
    let inputs = types3(ty, ty, ValType::I32);
    let results = types1(ty);
    let fresh = types3(ValType::I32, ty, ty);
    assert(has_on_top(st@.types, inputs@));
    let first = match prepare(pass, st, inputs.as_slice(), results.as_slice(), fresh.as_slice()) {
        Err(fault) => {
            return Err(fault);
        },
        Ok(first) => first,
    };
    let cond: Idx<Local> = Idx::new(first);
    let arg0: Idx<Local> = Idx::new(first + 1);
    let arg1: Idx<Local> = Idx::new(first + 2);
    let all = vec![arg0, arg1, cond];
    assert(all@ =~= seq![arg0, arg1, cond]);
    let args = vec![arg0, arg1];
    assert(args@ =~= seq![arg0, arg1]);
    let tys = types2(ty, ty);
    let before = save_stack_to_locals(all.as_slice());
    let mut after = location_instrs(pass.func, iidx);
    after.push(Instr::GetLocal(cond));
    let mut read = restore_locals_with_i64_handling(args.as_slice(), tys.as_slice());
    after.append(&mut read);
    assert(after@ =~= location(pass.func, iidx) + seq![Instr::GetLocal(cond)] + restored(
        seq![arg0, arg1],
        seq![ty, ty],
    ));
    let hook = pass.hooks.polymorphic.get(instr.opcode(), tys.as_slice());
    call_after(before, instr, after, hook)
}

fn rewrite_current_memory(pass: &Pass, st: &mut BodyState, iidx: usize, instr: Instr) -> (r: Result<
    Vec<Instr>,
    Fault,
>)
    requires
        !(instr is Drop),
    ensures
        agrees(r, final(st)@, instr, step_current_memory(pass@, old(st)@, iidx)),
{
    let none: Vec<ValType> = Vec::new();
    let one = types1(ValType::I32);
    let first = match prepare(pass, st, none.as_slice(), one.as_slice(), one.as_slice()) {
        Err(fault) => {
            return Err(fault);
        },
        Ok(first) => first,
    };
    let result: Idx<Local> = Idx::new(first);
    let mut after = vec![Instr::TeeLocal(result)];
    let mut loc = location_instrs(pass.func, iidx);
    after.append(&mut loc);
    after.push(Instr::GetLocal(result));
    after.push(Instr::Call(pass.hooks.fixed.current_memory));
    assert(after@ =~= step_current_memory(pass@, old(st)@, iidx).unwrap().after);
    Ok(assemble(Vec::new(), instr, after))
}

fn rewrite_grow_memory(pass: &Pass, st: &mut BodyState, iidx: usize, instr: Instr) -> (r: Result<
    Vec<Instr>,
    Fault,
>)
    requires
        !(instr is Drop),
    ensures
        agrees(r, final(st)@, instr, step_grow_memory(pass@, old(st)@, iidx)),
{
    let one = types1(ValType::I32);
    let two = types2(ValType::I32, ValType::I32);
    let first = match prepare(pass, st, one.as_slice(), one.as_slice(), two.as_slice()) {
        Err(fault) => {
            return Err(fault);
        },
        Ok(first) => first,
    };
    let input: Idx<Local> = Idx::new(first);
    let result: Idx<Local> = Idx::new(first + 1);
    let before = single(Instr::TeeLocal(input));
    let mut after = vec![Instr::TeeLocal(result)];
    let mut loc = location_instrs(pass.func, iidx);
    after.append(&mut loc);
    after.push(Instr::GetLocal(input));
    after.push(Instr::GetLocal(result));
    after.push(Instr::Call(pass.hooks.fixed.grow_memory));
    assert(after@ =~= step_grow_memory(pass@, old(st)@, iidx).unwrap().after);
    Ok(assemble(before, instr, after))
}

/// The vector of the one type, or of none.
fn types_if(present: bool, ty: ValType) -> (r: Vec<ValType>)
    ensures
        r@ == access_inputs(present, ty),
        r@ == access_results(present, ty),
{
    if present {
        types1(ty)
    } else {
        Vec::new()
    }
}

fn rewrite_local(pass: &Pass, st: &mut BodyState, iidx: usize, instr: Instr, op: LocalOp, idx: Idx<Local>) -> (r:
    Result<Vec<Instr>, Fault>)
    requires
        !(instr is Drop),
    ensures
        agrees(r, final(st)@, instr, step_local(pass@, old(st)@, iidx, instr, op, idx)),
{
    let params = pass.type_.params.len();
    let ty = if idx.0 < params {
        pass.type_.params[idx.0]
    } else if idx.0 - params < st.locals.len() {
        st.locals[idx.0 - params]
    } else {
        return Err(Fault::UnknownLocal);
    };
    let inputs = types_if(op == LocalOp::SetLocal, ty);
    let results = types_if(op == LocalOp::GetLocal, ty);
    let none: Vec<ValType> = Vec::new();
    match prepare(pass, st, inputs.as_slice(), results.as_slice(), none.as_slice()) {
        Err(fault) => {
            return Err(fault);
        },
        Ok(_) => {},
    }
    let mut after = location_instrs(pass.func, iidx);
    after.push(index_const(idx.0));
    let mut read = convert_i64_instr(Instr::GetLocal(idx), ty);
    after.append(&mut read);
    assert(after@ =~= location(pass.func, iidx) + seq![Instr::I32Const(idx.0 as i32)] + split(
        Instr::GetLocal(idx),
        ty,
    ));
    let one = types1(ty);
    let hook = pass.hooks.polymorphic.get(instr.opcode(), one.as_slice());
    call_after(Vec::new(), instr, after, hook)
}

fn rewrite_global(pass: &Pass, st: &mut BodyState, iidx: usize, instr: Instr, op: GlobalOp, idx: Idx<Global>) -> (r:
    Result<Vec<Instr>, Fault>)
    requires
        !(instr is Drop),
    ensures
        agrees(r, final(st)@, instr, step_global(pass@, old(st)@, iidx, instr, op, idx)),
{
    if idx.0 >= pass.globals.len() {
        return Err(Fault::UnknownGlobal);
    }
    let ty = pass.globals[idx.0];
    let inputs = types_if(op == GlobalOp::SetGlobal, ty);
    let results = types_if(op == GlobalOp::GetGlobal, ty);
    let none: Vec<ValType> = Vec::new();
    match prepare(pass, st, inputs.as_slice(), results.as_slice(), none.as_slice()) {
        Err(fault) => {
            return Err(fault);
        },
        Ok(_) => {},
    }
    let mut after = location_instrs(pass.func, iidx);
    after.push(index_const(idx.0));
    let mut read = convert_i64_instr(Instr::GetGlobal(idx), ty);
    after.append(&mut read);
    assert(after@ =~= location(pass.func, iidx) + seq![Instr::I32Const(idx.0 as i32)] + split(
        Instr::GetGlobal(idx),
        ty,
    ));
    let one = types1(ty);
    let hook = pass.hooks.polymorphic.get(instr.opcode(), one.as_slice());
    call_after(Vec::new(), instr, after, hook)
}

fn rewrite_return(
    pass: &Pass,
    st: &mut BodyState,
    iidx: usize,
    instr: Instr,
) -> (r: Result<Vec<Instr>, Fault>)
    requires
        !(instr is Drop),
    ensures
        agrees(r, final(st)@, instr, step_return(pass@, old(st)@, iidx, instr)),
{
    let none: Vec<ValType> = Vec::new();
    let tys = pass.type_.results.as_slice();
    let first = match prepare(pass, st, none.as_slice(), none.as_slice(), tys) {
        Err(fault) => {
            return Err(fault);
        },
        Ok(first) => first,
    };
    let tmps = local_indices(first, tys.len());
    let mut before = save_stack_to_locals(tmps.as_slice());
    let mut loc = location_instrs(pass.func, iidx);
    before.append(&mut loc);
    let mut read = restore_locals_with_i64_handling(tmps.as_slice(), tys);
    before.append(&mut read);
    assert(before@ =~= saved(tmps@) + location(pass.func, iidx) + restored(tmps@, tys@));
    let hook = pass.hooks.polymorphic.get(instr.opcode(), tys);
    call_before(before, instr, hook)
}

/// The instructions that report what a call has returned.
fn report_results(pass: &Pass, iidx: usize, first: usize, tys: &[ValType]) -> (r: Vec<Instr>)
    requires
        first + tys@.len() <= usize::MAX,
    ensures
        r@ == result_report(pass@, iidx, first as int, tys@),
{
    let tmps = local_indices(first, tys.len());
    let mut chunk = save_stack_to_locals(tmps.as_slice());
    let mut loc = location_instrs(pass.func, iidx);
    chunk.append(&mut loc);
    let mut read = restore_locals_with_i64_handling(tmps.as_slice(), tys);
    chunk.append(&mut read);
    assert(chunk@ =~= result_report(pass@, iidx, first as int, tys@));
    chunk
}

/// The types of `a`, then those of `b`.
fn joined(a: &[ValType], b: &[ValType]) -> (r: Vec<ValType>)
    ensures
        r@ == a@ + b@,
{
    let mut r: Vec<ValType> = Vec::new();
    let mut i: usize = 0;
    while i < a.len()
        invariant
            i <= a.len(),
            r@ == a@.take(i as int),
        decreases a.len() - i,
    {
        r.push(a[i]);
        i += 1;
    }
    let mut j: usize = 0;
    while j < b.len()
        invariant
            j <= b.len(),
            r@ == a@ + b@.take(j as int),
        decreases b.len() - j,
    {
        r.push(b[j]);
        assert(r@ =~= a@ + b@.take(j + 1));
        j += 1;
    }
    assert(b@.take(b@.len() as int) =~= b@);
    r
}

fn rewrite_call(pass: &Pass, st: &mut BodyState, iidx: usize, instr: Instr, target: Idx<Function>) -> (r: Result<
    Vec<Instr>,
    Fault,
>)
    requires
        !(instr is Drop),
    ensures
        agrees(r, final(st)@, instr, step_call(pass@, old(st)@, iidx, instr, target)),
{
    if target.0 >= pass.functions.len() {
        return Err(Fault::UnknownFunction);
    }
    let args = pass.functions[target.0].type_.params.as_slice();
    let results = pass.functions[target.0].type_.results.as_slice();
    let fresh = joined(args, results);
    let first = match prepare(pass, st, args, results, fresh.as_slice()) {
        Err(fault) => {
            return Err(fault);
        },
        Ok(first) => first,
    };
    let call = match pass.hooks.polymorphic.get(instr.opcode(), args) {
        None => {
            return Err(Fault::MissingHook);
        },
        Some(hook) => hook,
    };
    let tmps = local_indices(first, args.len());
    let mut before = save_stack_to_locals(tmps.as_slice());
    let mut loc = location_instrs(pass.func, iidx);
    before.append(&mut loc);
    before.push(index_const(target.0));
    let mut read = restore_locals_with_i64_handling(tmps.as_slice(), args);
    before.append(&mut read);
    before.push(Instr::Call(call));
    assert(before@ =~= (saved(tmps@) + location(pass.func, iidx) + seq![Instr::I32Const(target.0 as i32)]
        + restored(tmps@, args@)).push(Instr::Call(call)));
    let after = report_results(pass, iidx, first + args.len(), results);
    let hook = pass.hooks.call_result.get(results);
    call_after(before, instr, after, hook)
}

fn rewrite_call_indirect(
    pass: &Pass,
    st: &mut BodyState,
    iidx: usize,
    instr: Instr,
    args: Vec<ValType>,
    results: Vec<ValType>,
) -> (r: Result<Vec<Instr>, Fault>)
    requires
        !(instr is Drop),
    ensures
        agrees(
            r,
            final(st)@,
            instr,
            step_call_indirect(
                pass@,
                old(st)@,
                iidx,
                instr,
                Signature { params: args@, results: results@ },
            ),
        ),
{
    let index = types1(ValType::I32);
    let rest = joined(args.as_slice(), results.as_slice());
    let fresh = joined(index.as_slice(), rest.as_slice());
    assert(fresh@ =~= seq![ValType::I32] + args@ + results@);
    let base = match prepare(pass, st, args.as_slice(), results.as_slice(), fresh.as_slice()) {
        Err(fault) => {
            return Err(fault);
        },
        Ok(first) => first,
    };
    let call = match pass.hooks.polymorphic.get(instr.opcode(), args.as_slice()) {
        None => {
            return Err(Fault::MissingHook);
        },
        Some(hook) => hook,
    };
    let target: Idx<Local> = Idx::new(base);
    let first = base + 1;
    let tmps = local_indices(first, args.len());
    let mut before = vec![Instr::SetLocal(target)];
    let mut save = save_stack_to_locals(tmps.as_slice());
    before.append(&mut save);
    before.push(Instr::GetLocal(target));
    let mut loc = location_instrs(pass.func, iidx);
    before.append(&mut loc);
    before.push(Instr::GetLocal(target));
    let mut read = restore_locals_with_i64_handling(tmps.as_slice(), args.as_slice());
    before.append(&mut read);
    before.push(Instr::Call(call));
    assert(before@ =~= (seq![Instr::SetLocal(target)] + saved(tmps@) + seq![Instr::GetLocal(target)]
        + location(pass.func, iidx) + seq![Instr::GetLocal(target)] + restored(tmps@, args@)).push(
        Instr::Call(call),
    ));
    let after = report_results(pass, iidx, first + args.len(), results.as_slice());
    let hook = pass.hooks.call_result.get(results.as_slice());
    call_after(before, instr, after, hook)
}

fn rewrite_const(pass: &Pass, st: &mut BodyState, iidx: usize, instr: Instr, ty: ValType) -> (r: Result<
    Vec<Instr>,
    Fault,
>)
    requires
        instr.is_flat(),
        !(instr is Drop),
    ensures
        agrees(r, final(st)@, instr, step_const(pass@, old(st)@, iidx, instr, ty)),
{
    let none: Vec<ValType> = Vec::new();
    let one = types1(ty);
    match prepare(pass, st, none.as_slice(), one.as_slice(), none.as_slice()) {
        Err(fault) => {
            return Err(fault);
        },
        Ok(_) => {},
    }
    let mut before = location_instrs(pass.func, iidx);
    let mut value = convert_i64_instr(instr.duplicate(), ty);
    before.append(&mut value);
    assert(before@ =~= location(pass.func, iidx) + split(instr, ty));
    let hook = pass.hooks.monomorphic.get(instr.opcode());
    call_before(before, instr, hook)
}

fn rewrite_unary(
    pass: &Pass,
    st: &mut BodyState,
    iidx: usize,
    instr: Instr,
    input_ty: ValType,
    result_ty: ValType,
) -> (r: Result<Vec<Instr>, Fault>)
    requires
        !(instr is Drop),
    ensures
        agrees(r, final(st)@, instr, step_unary(pass@, old(st)@, iidx, instr, input_ty, result_ty)),
{
    let inputs = types1(input_ty);
    let results = types1(result_ty);
    let tys = types2(input_ty, result_ty);
    let first = match prepare(pass, st, inputs.as_slice(), results.as_slice(), tys.as_slice()) {
        Err(fault) => {
            return Err(fault);
        },
        Ok(first) => first,
    };
    let input: Idx<Local> = Idx::new(first);
    let result: Idx<Local> = Idx::new(first + 1);
    let tmps = vec![input, result];
    assert(tmps@ =~= seq![input, result]);
    let before = single(Instr::TeeLocal(input));
    let mut after = vec![Instr::TeeLocal(result)];
    let mut loc = location_instrs(pass.func, iidx);
    after.append(&mut loc);
    let mut read = restore_locals_with_i64_handling(tmps.as_slice(), tys.as_slice());
    after.append(&mut read);
    assert(after@ =~= seq![Instr::TeeLocal(result)] + location(pass.func, iidx) + restored(
        seq![input, result],
        seq![input_ty, result_ty],
    ));
    let hook = pass.hooks.monomorphic.get(instr.opcode());
    call_after(before, instr, after, hook)
}

fn rewrite_binary(
    pass: &Pass,
    st: &mut BodyState,
    iidx: usize,
    instr: Instr,
    first_ty: ValType,
    second_ty: ValType,
    result_ty: ValType,
) -> (r: Result<Vec<Instr>, Fault>)
    requires
        !(instr is Drop),
    ensures
        agrees(
            r,
            final(st)@,
            instr,
            step_binary(pass@, old(st)@, iidx, instr, first_ty, second_ty, result_ty),
        ),
{
    let inputs = types2(first_ty, second_ty);
    let results = types1(result_ty);
    let tys = types3(first_ty, second_ty, result_ty);
    let base = match prepare(pass, st, inputs.as_slice(), results.as_slice(), tys.as_slice()) {
        Err(fault) => {
            return Err(fault);
        },
        Ok(first) => first,
    };
    let first: Idx<Local> = Idx::new(base);
    let second: Idx<Local> = Idx::new(base + 1);
    let result: Idx<Local> = Idx::new(base + 2);
    let operands = vec![first, second];
    assert(operands@ =~= seq![first, second]);
    let tmps = vec![first, second, result];
    assert(tmps@ =~= seq![first, second, result]);
    let before = save_stack_to_locals(operands.as_slice());
    let mut after = vec![Instr::TeeLocal(result)];
    let mut loc = location_instrs(pass.func, iidx);
    after.append(&mut loc);
    let mut read = restore_locals_with_i64_handling(tmps.as_slice(), tys.as_slice());
    after.append(&mut read);
    assert(after@ =~= seq![Instr::TeeLocal(result)] + location(pass.func, iidx) + restored(
        seq![first, second, result],
        seq![first_ty, second_ty, result_ty],
    ));
    let hook = pass.hooks.monomorphic.get(instr.opcode());
    call_after(before, instr, after, hook)
}

/// The offset and the alignment as constants.
fn memarg_instrs(memarg: crate::ast::Memarg) -> (r: Vec<Instr>)
    ensures
        r@ == memarg_consts(memarg),
{
    let r = vec![
        Instr::I32Const(#[verifier::truncate] (memarg.offset as i32)),
        Instr::I32Const(#[verifier::truncate] (memarg.alignment as i32)),
    ];
    assert(r@ =~= memarg_consts(memarg));
    r
}

fn rewrite_load(
    pass: &Pass,
    st: &mut BodyState,
    iidx: usize,
    instr: Instr,
    ty: ValType,
    memarg: crate::ast::Memarg,
) -> (r: Result<Vec<Instr>, Fault>)
    requires
        !(instr is Drop),
    ensures
        agrees(r, final(st)@, instr, step_load(pass@, old(st)@, iidx, instr, ty, memarg)),
{
    let inputs = types1(ValType::I32);
    let results = types1(ty);
    let tys = types2(ValType::I32, ty);
    let first = match prepare(pass, st, inputs.as_slice(), results.as_slice(), tys.as_slice()) {
        Err(fault) => {
            return Err(fault);
        },
        Ok(first) => first,
    };
    let addr: Idx<Local> = Idx::new(first);
    let value: Idx<Local> = Idx::new(first + 1);
    let tmps = vec![addr, value];
    assert(tmps@ =~= seq![addr, value]);
    let before = single(Instr::TeeLocal(addr));
    let mut after = vec![Instr::TeeLocal(value)];
    let mut loc = location_instrs(pass.func, iidx);
    after.append(&mut loc);
    let mut consts = memarg_instrs(memarg);
    after.append(&mut consts);
    let mut read = restore_locals_with_i64_handling(tmps.as_slice(), tys.as_slice());
    after.append(&mut read);
    assert(after@ =~= seq![Instr::TeeLocal(value)] + location(pass.func, iidx) + memarg_consts(memarg)
        + restored(seq![addr, value], seq![ValType::I32, ty]));
    let hook = pass.hooks.monomorphic.get(instr.opcode());
    call_after(before, instr, after, hook)
}

fn rewrite_store(
    pass: &Pass,
    st: &mut BodyState,
    iidx: usize,
    instr: Instr,
    ty: ValType,
    memarg: crate::ast::Memarg,
) -> (r: Result<Vec<Instr>, Fault>)
    requires
        !(instr is Drop),
    ensures
        agrees(r, final(st)@, instr, step_store(pass@, old(st)@, iidx, instr, ty, memarg)),
{
    let none: Vec<ValType> = Vec::new();
    let tys = types2(ValType::I32, ty);
    let first = match prepare(pass, st, tys.as_slice(), none.as_slice(), tys.as_slice()) {
        Err(fault) => {
            return Err(fault);
        },
        Ok(first) => first,
    };
    let addr: Idx<Local> = Idx::new(first);
    let value: Idx<Local> = Idx::new(first + 1);
    let tmps = vec![addr, value];
    assert(tmps@ =~= seq![addr, value]);
    let before = save_stack_to_locals(tmps.as_slice());
    let mut after = location_instrs(pass.func, iidx);
    let mut consts = memarg_instrs(memarg);
    after.append(&mut consts);
    let mut read = restore_locals_with_i64_handling(tmps.as_slice(), tys.as_slice());
    after.append(&mut read);
    assert(after@ =~= location(pass.func, iidx) + memarg_consts(memarg) + restored(
        seq![addr, value],
        seq![ValType::I32, ty],
    ));
    let hook = pass.hooks.monomorphic.get(instr.opcode());
    call_after(before, instr, after, hook)
}

fn rewrite_br(pass: &Pass, st: &mut BodyState, iidx: usize, instr: Instr, label: Idx<Label>) -> (r: Result<
    Vec<Instr>,
    Fault,
>)
    requires
        !(instr is Drop),
    ensures
        agrees(r, final(st)@, instr, step_br(pass@, old(st)@, iidx, label)),
{
    if label.0 >= st.block_stack.len() {
        return Err(Fault::UnknownLabel);
    }
    let target = label_to_instr_idx(st.block_stack.as_slice(), label);
    let mut before = location_instrs(pass.func, iidx);
    before.push(index_const(label.0));
    before.push(index_const(target));
    before.push(Instr::Call(pass.hooks.fixed.br));
    assert(before@ =~= step_br(pass@, old(st)@, iidx, label).unwrap().before);
    Ok(assemble(before, instr, Vec::new()))
}

fn rewrite_br_if(pass: &Pass, st: &mut BodyState, iidx: usize, instr: Instr, label: Idx<Label>) -> (r: Result<
    Vec<Instr>,
    Fault,
>)
    requires
        !(instr is Drop),
    ensures
        agrees(r, final(st)@, instr, step_br_if(pass@, old(st)@, iidx, label)),
{
    let none: Vec<ValType> = Vec::new();
    let one = types1(ValType::I32);
    let first = match prepare(pass, st, one.as_slice(), none.as_slice(), one.as_slice()) {
        Err(fault) => {
            return Err(fault);
        },
        Ok(first) => first,
    };
    if label.0 >= st.block_stack.len() {
        return Err(Fault::UnknownLabel);
    }
    let target = label_to_instr_idx(st.block_stack.as_slice(), label);
    let cond: Idx<Local> = Idx::new(first);
    let mut before = vec![Instr::TeeLocal(cond)];
    let mut loc = location_instrs(pass.func, iidx);
    before.append(&mut loc);
    before.push(index_const(label.0));
    before.push(index_const(target));
    before.push(Instr::GetLocal(cond));
    before.push(Instr::Call(pass.hooks.fixed.br_if));
    assert(before@ =~= step_br_if(pass@, old(st)@, iidx, label).unwrap().before);
    Ok(assemble(before, instr, Vec::new()))
}

fn rewrite_br_table(pass: &Pass, st: &mut BodyState, iidx: usize, instr: Instr, info: BrTableInfo) -> (r: Result<
    Vec<Instr>,
    Fault,
>)
    ensures
        match r {
            Ok(chunk) => {
                &&& prepared(pass@, old(st)@, seq![ValType::I32], seq![], seq![ValType::I32]) matches Ok(
                    state,
                )
                &&& final(st)@ == (BodyStateView {
                    br_tables: old(st)@.br_tables.push(info@),
                    ..state
                })
                &&& chunk@ == seq![Instr::TeeLocal(pass@.tmp(old(st)@, 0))] + location(pass.func, iidx)
                    + seq![
                    Instr::I32Const(old(st)@.br_tables.len() as usize as i32),
                    Instr::GetLocal(pass@.tmp(old(st)@, 0)),
                    Instr::Call(pass.hooks.fixed.br_table),
                ] + seq![instr] + Seq::<Instr>::empty()
            },
            Err(fault) => prepared(pass@, old(st)@, seq![ValType::I32], seq![], seq![ValType::I32])
                == Err::<BodyStateView, Fault>(fault),
        },
{
    let none: Vec<ValType> = Vec::new();
    let one = types1(ValType::I32);
    let first = match prepare(pass, st, one.as_slice(), none.as_slice(), one.as_slice()) {
        Err(fault) => {
            return Err(fault);
        },
        Ok(first) => first,
    };
    let record = st.br_tables.len();
    st.br_tables.push(info);
    let index: Idx<Local> = Idx::new(first);
    let mut before = vec![Instr::TeeLocal(index)];
    let mut loc = location_instrs(pass.func, iidx);
    before.append(&mut loc);
    before.push(index_const(record));
    before.push(Instr::GetLocal(index));
    before.push(Instr::Call(pass.hooks.fixed.br_table));
    proof {
        assert(before@ =~= seq![Instr::TeeLocal(index)] + location(pass.func, iidx) + seq![
            Instr::I32Const(record as i32),
            Instr::GetLocal(index),
            Instr::Call(pass.hooks.fixed.br_table),
        ]);
        assert(st@.br_tables =~= old(st)@.br_tables.push(info@));
    }
    Ok(assemble(before, instr, Vec::new()))
}

/// Rewrites one instruction of the group `Control`.
fn rewrite_control(
    pass: &Pass,
    st: &mut BodyState,
    iidx: usize,
    instr: Instr,
) -> (r: Result<Vec<Instr>, Fault>)
    requires
        instr.group() == InstrGroup::Control,
    ensures
        agrees(r, final(st)@, instr, step(pass@, old(st)@, iidx, instr)),
{
    proof {
        reveal(step);
    }
    let fixed = &pass.hooks.fixed;
    match &instr {
        Instr::Nop => rewrite_plain(pass, st, iidx, instr, fixed.nop),
        Instr::Unreachable => rewrite_plain(pass, st, iidx, instr, fixed.unreachable),
        Instr::Block(ty) => {
            let ty = *ty;
            rewrite_begin(pass, st, iidx, instr, Begin::Block(iidx), ty, fixed.begin_block)
        },
        Instr::Loop(ty) => {
            let ty = *ty;
            rewrite_begin(pass, st, iidx, instr, Begin::Loop(iidx), ty, fixed.begin_loop)
        },
        Instr::If(ty) => {
            let ty = *ty;
            rewrite_if(pass, st, iidx, instr, ty)
        },
        Instr::Else => rewrite_else(pass, st, iidx, instr),
        Instr::End => rewrite_end(pass, st, iidx, instr),
        Instr::Br(label) => {
            let label = *label;
            rewrite_br(pass, st, iidx, instr, label)
        },
        Instr::BrIf(label) => {
            let label = *label;
            rewrite_br_if(pass, st, iidx, instr, label)
        },
        Instr::BrTable(table, default) => {
            let info = BrTableInfo::from_labels(table, *default);
            rewrite_br_table(pass, st, iidx, instr, info)
        },
        Instr::Return => rewrite_return(pass, st, iidx, instr),
        Instr::Call(target) => {
            let target = *target;
            rewrite_call(pass, st, iidx, instr, target)
        },
        Instr::CallIndirect(ty, _) => {
            let args = crate::ast::clone_types(&ty.params);
            let results = crate::ast::clone_types(&ty.results);
            rewrite_call_indirect(pass, st, iidx, instr, args, results)
        },
        Instr::Drop => rewrite_drop(pass, st, iidx, instr),
        Instr::Select => rewrite_select(pass, st, iidx, instr),
        Instr::CurrentMemory(_) => rewrite_current_memory(pass, st, iidx, instr),
        Instr::GrowMemory(_) => rewrite_grow_memory(pass, st, iidx, instr),
        _ => Err(Fault::MissingHook),
    }
}

/// Rewrites the instruction with the index `iidx` in its function body:
/// returns what takes its place and moves the state on. After a fault the
/// state is of no further use.
pub fn rewrite_instr(
    pass: &Pass,
    st: &mut BodyState,
    iidx: usize,
    instr: Instr,
) -> (r: Result<Vec<Instr>, Fault>)
    ensures
        agrees(r, final(st)@, instr, step(pass@, old(st)@, iidx, instr)),
{
    proof {
        reveal(step);
    }
    match instr.group() {
        InstrGroup::Const(ty) => rewrite_const(pass, st, iidx, instr, ty),
        InstrGroup::Unary { input_ty, result_ty } => rewrite_unary(pass, st, iidx, instr, input_ty, result_ty),
        InstrGroup::Binary { first_ty, second_ty, result_ty } => rewrite_binary(
            pass,
            st,
            iidx,
            instr,
            first_ty,
            second_ty,
            result_ty,
        ),
        InstrGroup::MemoryLoad(ty, memarg) => rewrite_load(pass, st, iidx, instr, ty, memarg),
        InstrGroup::MemoryStore(ty, memarg) => rewrite_store(pass, st, iidx, instr, ty, memarg),
        InstrGroup::Local(op, idx) => rewrite_local(pass, st, iidx, instr, op, idx),
        InstrGroup::Global(op, idx) => rewrite_global(pass, st, iidx, instr, op, idx),
        InstrGroup::Control => rewrite_control(pass, st, iidx, instr),
    }
}

} // verus!
