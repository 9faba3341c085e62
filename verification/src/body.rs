//! The rewrite of a function body: the instructions are rewritten one
//! after the other, between the begin hook of the function and the check
//! that every block was closed.

use crate::ast::{Function, Instr, Local, ValType};
use crate::block_stack::Begin;
use crate::rewrite::{rewrite_instr, step, BodyState, BodyStateView, Context, Fault, Pass};
use crate::splice::index_const;
use crate::static_info::{BrTableInfo, BrTableView};
use crate::type_stack::TypeStack;
use vstd::prelude::*;

verus! {

/// Where and why the instrumentation of a module stopped.
#[derive(Clone, Copy, Debug, PartialEq, Eq, Structural, Hash)]
pub struct InstrumentError {
    /// The index of the function.
    pub func: usize,
    /// The index of the instruction in the function body, or the length of
    /// the body if the body ended inside a block.
    pub instr: usize,
    pub fault: Fault,
}

/// The state in which the rewrite of a body begins: inside the function
/// and with nothing on the type stack.
pub open spec fn body_start(locals: Seq<ValType>, br_tables: Seq<BrTableView>) -> BodyStateView {
    BodyStateView { blocks: seq![Begin::Function], types: seq![], locals, br_tables }
}

/// The call of the begin hook of a function. It belongs to no instruction
/// and is reported with the instruction index -1.
pub open spec fn prologue(ctx: Context) -> Seq<Instr> {
    seq![
        Instr::I32Const(ctx.func as i32),
        Instr::I32Const(-1i32),
        Instr::Call(ctx.hooks.fixed.begin_function),
    ]
}

/// A function body in the course of its rewrite: the state of the pass
/// and what was emitted so far.
pub struct Partial {
    pub state: BodyStateView,
    pub emitted: Seq<Instr>,
}

/// The rewrite of the first `n` instructions of `body`.
pub open spec fn run(ctx: Context, start: BodyStateView, body: Seq<Instr>, n: nat) -> Result<
    Partial,
    InstrumentError,
>
    decreases n,
{
    if n == 0 {
        Ok(Partial { state: start, emitted: prologue(ctx) })
    } else {
        match run(ctx, start, body, (n - 1) as nat) {
            Err(e) => Err(e),
            Ok(prev) => match step(ctx, prev.state, (n - 1) as usize, body[n - 1]) {
                Err(fault) => Err(
                    InstrumentError { func: ctx.func, instr: (n - 1) as usize, fault },
                ),
                Ok(next) => Ok(
                    Partial {
                        state: next.state,
                        emitted: prev.emitted + next.emitted(body[n - 1]),
                    },
                ),
            },
        }
    }
}

/// The rewrite of a whole body, which has to close every block and the
/// function itself.
pub open spec fn rewritten(
    ctx: Context,
    locals: Seq<ValType>,
    br_tables: Seq<BrTableView>,
    body: Seq<Instr>,
) -> Result<Partial, InstrumentError> {
    match run(ctx, body_start(locals, br_tables), body, body.len()) {
        Err(e) => Err(e),
        Ok(done) => if done.state.blocks.len() == 0 {
            Ok(done)
        } else {
            Err(
                InstrumentError {
                    func: ctx.func,
                    instr: body.len() as usize,
                    fault: Fault::Nesting,
                },
            )
        },
    }
}

/// A rewritten body with what comes with it: the locals of the function
/// and the tables of the `br_table` instructions.
pub struct Rewritten {
    pub body: Vec<Instr>,
    pub locals: Vec<Local>,
    pub br_tables: Vec<BrTableInfo>,
}

/// Rewrites the body of a function with the given locals.
pub fn instrument_body(pass: &Pass, locals: Vec<Local>, br_tables: Vec<BrTableInfo>, body: Vec<Instr>) -> (r:
    Result<Rewritten, InstrumentError>)
    ensures
        match r {
            Ok(done) => {
                &&& rewritten(pass@, locals@, br_tables@.map_values(|t: BrTableInfo| t@), body@) matches Ok(
                    want,
                )
                &&& want.emitted == done.body@
                &&& want.state.locals == done.locals@
                &&& want.state.br_tables == done.br_tables@.map_values(|t: BrTableInfo| t@)
            },
            Err(e) => rewritten(pass@, locals@, br_tables@.map_values(|t: BrTableInfo| t@), body@)
                == Err::<Partial, InstrumentError>(e),
        },
{
    let ghost start = body_start(locals@, br_tables@.map_values(|t: BrTableInfo| t@));
    let ghost instrs = body@;
    let count = body.len();
    let mut st = BodyState {
        block_stack: vec![Begin::Function],
        type_stack: TypeStack::new(),
        locals,
        br_tables,
    };
    let mut out: Vec<Instr> = vec![
        index_const(pass.func),
        Instr::I32Const(-1),
        Instr::Call(pass.hooks.fixed.begin_function),
    ];
    proof {
        assert(st@.blocks =~= start.blocks);
        assert(out@ =~= prologue(pass@));
    }
    let mut iidx: usize = 0;
    for instr in it: body
        invariant
            instrs == body@,
            instrs.len() == count,
            start == body_start(locals@, br_tables@.map_values(|t: BrTableInfo| t@)),
            it.seq() == instrs,
            iidx == it.index(),
            run(pass@, start, instrs, iidx as nat) == Ok::<Partial, InstrumentError>(
                Partial { state: st@, emitted: out@ },
            ),
    {
        assert(iidx < instrs.len());
        assert(instr == instrs[iidx as int]);
        match rewrite_instr(pass, &mut st, iidx, instr) {
            Err(fault) => {
                let e = InstrumentError { func: pass.func, instr: iidx, fault };
                proof {
                    assert(run(pass@, start, instrs, iidx as nat + 1) == Err::<Partial, InstrumentError>(e));
                    lemma_run_fails_on(pass@, start, instrs, iidx as nat + 1, instrs.len());
                }
                return Err(e);
            },
            Ok(chunk) => {
                let mut chunk = chunk;
                out.append(&mut chunk);
            },
        }
        iidx += 1;
    }
    if st.block_stack.len() != 0 {
        return Err(InstrumentError { func: pass.func, instr: iidx, fault: Fault::Nesting });
    }
    Ok(Rewritten { body: out, locals: st.locals, br_tables: st.br_tables })
}

/// A rewrite that has failed after `n` instructions fails in the same way
/// after more.
pub proof fn lemma_run_fails_on(
    ctx: Context,
    start: BodyStateView,
    body: Seq<Instr>,
    n: nat,
    m: nat,
)
    requires
        n <= m,
        run(ctx, start, body, n) is Err,
    ensures
        run(ctx, start, body, m) == run(ctx, start, body, n),
    decreases m,
{
    if n < m {
        lemma_run_fails_on(ctx, start, body, n, (m - 1) as nat);
    }
}

} // verus!
