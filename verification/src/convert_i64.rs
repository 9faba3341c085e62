//! Values of type `i64` cannot be handed to JavaScript. Wherever a hook
//! observes one, it receives two `i32` instead: the low and the high half.

use crate::ast::{Instr, ValType};
use vstd::prelude::*;

verus! {

/// The types that a hook has in place of one observed value.
pub open spec fn halved(ty: ValType) -> Seq<ValType> {
    if ty == ValType::I64 {
        seq![ValType::I32, ValType::I32]
    } else {
        seq![ty]
    }
}

/// The types that a hook has in place of the observed values `tys`.
pub open spec fn halved_all(tys: Seq<ValType>) -> Seq<ValType>
    decreases tys.len(),
{
    if tys.len() == 0 {
        seq![]
    } else {
        halved_all(tys.drop_last()) + halved(tys.last())
    }
}

pub fn convert_i64_type(ty: ValType) -> (r: Vec<ValType>)
    ensures
        r@ == halved(ty),
{
    match ty {
        ValType::I64 => {
            let r = vec![ValType::I32, ValType::I32];
            assert(r@ =~= halved(ty));
            r
        },
        _ => {
            let r = vec![ty];
            assert(r@ =~= halved(ty));
            r
        },
    }
}

/// The instructions that put the value of `instr` on the stack as a hook
/// takes it, where `instr` puts one value of type `ty` on the stack: the
/// instruction itself, or for an `i64` the instruction cut down to the low
/// 32 bits, and once more, shifted right by 32 bits and cut down.
pub open spec fn split(instr: Instr, ty: ValType) -> Seq<Instr> {
    if ty == ValType::I64 {
        seq![instr, Instr::I32WrapI64, instr, Instr::I64Const(32), Instr::I64ShrU, Instr::I32WrapI64]
    } else {
        seq![instr]
    }
}

pub fn convert_i64_instr(instr: Instr, ty: ValType) -> (r: Vec<Instr>)
    ensures
        r@.len() == split(instr, ty).len(),
        forall|i: int| 0 < i < r@.len() ==> r@[i] == split(instr, ty)[i],
        instr.is_flat() || ty != ValType::I64 ==> r@ == split(instr, ty),
{
    match ty {
        ValType::I64 => {
            let again = instr.duplicate();
            let r = vec![
                again,
                Instr::I32WrapI64,
                instr,
                Instr::I64Const(32),
                Instr::I64ShrU,
                Instr::I32WrapI64,
            ];
            proof {
                if instr.is_flat() {
                    assert(r@ =~= split(instr, ty));
                }
            }
            r
        },
        _ => {
            let r = vec![instr];
            assert(r@ =~= split(instr, ty));
            r
        },
    }
}

} // verus!
