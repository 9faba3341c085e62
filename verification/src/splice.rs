//! The instruction sequences that the instrumentation splices in around an
//! instruction: the location of the instruction, and what saves the
//! operands of the instruction in locals and hands them to a hook.

use crate::ast::{Idx, Instr, Local, ValType};
use crate::convert_i64::{convert_i64_instr, split};
use vstd::prelude::*;

verus! {

/// The two constants that every hook call begins with: the index of the
/// function and the index of the instruction in it. Both are cut down to 32
/// bits.
pub open spec fn location(func: usize, instr: usize) -> Seq<Instr> {
    seq![Instr::I32Const(func as i32), Instr::I32Const(instr as i32)]
}

pub fn location_instrs(func: usize, instr: usize) -> (r: Vec<Instr>)
    ensures
        r@ == location(func, instr),
{
    let r = vec![
        Instr::I32Const(#[verifier::truncate] (func as i32)),
        Instr::I32Const(#[verifier::truncate] (instr as i32)),
    ];
    assert(r@ =~= location(func, instr));
    r
}

/// The constant instruction for an index, cut down to 32 bits.
pub fn index_const(i: usize) -> (r: Instr)
    ensures
        r == Instr::I32Const(i as i32),
{
    Instr::I32Const(#[verifier::truncate] (i as i32))
}

/// Saves the topmost values of the stack in the locals and leaves the stack
/// as it was: the values are taken off from the top into the last local
/// down to the second, the first local gets its value by `tee_local`, and
/// the others are read back in order.
pub open spec fn saved(locals: Seq<Idx<Local>>) -> Seq<Instr> {
    if locals.len() == 0 {
        seq![]
    } else {
        Seq::new((locals.len() - 1) as nat, |i: int| Instr::SetLocal(locals[locals.len() - 1 - i]))
            + seq![Instr::TeeLocal(locals[0])] + Seq::new(
            (locals.len() - 1) as nat,
            |i: int| Instr::GetLocal(locals[i + 1]),
        )
    }
}

/// The instructions that save the topmost `locals.len()` values of the
/// stack in the locals. The types of the locals are the caller's concern.
pub fn save_stack_to_locals(locals: &[Idx<Local>]) -> (instrs: Vec<Instr>)
    ensures
        instrs@ == saved(locals@),
{
    let mut instrs: Vec<Instr> = Vec::new();
    let n = locals.len();
    if n == 0 {
        return instrs;
    }
    let mut i: usize = n - 1;
    while i > 0
        invariant
            n == locals.len(),
            n > 0,
            i < n,
            instrs@.len() == n - 1 - i,
            forall|k: int| 0 <= k < instrs@.len() ==> instrs@[k] == Instr::SetLocal(locals@[n - 1 - k]),
        decreases i,
    {
        instrs.push(Instr::SetLocal(locals[i]));
        i -= 1;
    }
    instrs.push(Instr::TeeLocal(locals[0]));
    let mut j: usize = 1;
    while j < n
        invariant
            n == locals.len(),
            1 <= j <= n,
            instrs@.len() == n - 1 + j,
            forall|k: int| 0 <= k < n - 1 ==> instrs@[k] == Instr::SetLocal(locals@[n - 1 - k]),
            instrs@[n - 1] == Instr::TeeLocal(locals@[0]),
            forall|k: int| n <= k < n - 1 + j ==> #[trigger] instrs@[k] == Instr::GetLocal(locals@[k - n + 1]),
        decreases n - j,
    {
        instrs.push(Instr::GetLocal(locals[j]));
        j += 1;
    }
    assert(instrs@ =~= saved(locals@));
    instrs
}

/// Puts the values of the locals on the stack as a hook takes them: each
/// local is read, and a local of type `i64` is read as its two halves.
pub open spec fn restored(locals: Seq<Idx<Local>>, tys: Seq<ValType>) -> Seq<Instr>
    decreases locals.len(),
{
    if locals.len() == 0 || tys.len() != locals.len() {
        seq![]
    } else {
        restored(locals.drop_last(), tys.drop_last()) + split(
            Instr::GetLocal(locals.last()),
            tys.last(),
        )
    }
}

pub fn restore_locals_with_i64_handling(locals: &[Idx<Local>], local_tys: &[ValType]) -> (instrs:
    Vec<Instr>)
    requires
        locals@.len() == local_tys@.len(),
    ensures
        instrs@ == restored(locals@, local_tys@),
{
    let mut instrs: Vec<Instr> = Vec::new();
    let mut i: usize = 0;
    while i < locals.len()
        invariant
            i <= locals.len(),
            locals@.len() == local_tys@.len(),
            instrs@ == restored(locals@.take(i as int), local_tys@.take(i as int)),
        decreases locals.len() - i,
    {
        let mut read = convert_i64_instr(Instr::GetLocal(locals[i]), local_tys[i]);
        instrs.append(&mut read);
        proof {
            assert(locals@.take(i + 1).drop_last() =~= locals@.take(i as int));
            assert(local_tys@.take(i + 1).drop_last() =~= local_tys@.take(i as int));
        }
        i += 1;
    }
    proof {
        assert(locals@.take(locals@.len() as int) =~= locals@);
        assert(local_tys@.take(local_tys@.len() as int) =~= local_tys@);
    }
    instrs
}

/// The indices of `n` locals in a row, from `first` on.
pub open spec fn local_run(first: int, n: nat) -> Seq<Idx<Local>> {
    Seq::new(n, |k: int| Idx::<Local>::of((first + k) as usize))
}

pub fn local_indices(first: usize, n: usize) -> (r: Vec<Idx<Local>>)
    requires
        first + n <= usize::MAX,
    ensures
        r@ == local_run(first as int, n as nat),
{
    let mut r: Vec<Idx<Local>> = Vec::new();
    let mut k: usize = 0;
    while k < n
        invariant
            k <= n,
            first + n <= usize::MAX,
            r@.len() == k,
            forall|j: int| 0 <= j < k ==> r@[j] == Idx::<Local>::of((first + j) as usize),
        decreases n - k,
    {
        r.push(Idx::new(first + k));
        k += 1;
    }
    assert(r@ =~= local_run(first as int, n as nat));
    r
}

} // verus!
