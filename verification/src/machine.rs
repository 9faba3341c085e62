//! What the spliced-in instructions do when they run: a model of the
//! operand stack and the locals, for the few instructions that the
//! instrumentation itself emits around a hook call. On this model the
//! saving of operands is shown to leave the stack as it was, and the halves
//! of an `i64` to make up the value again.

use crate::ast::{Idx, Instr, Local, ValType};
use crate::convert_i64::split;
use crate::splice::saved;
use vstd::prelude::*;

verus! {

/// A value on the stack or in a local. Floats stand by their bits.
#[derive(Clone, Copy, Debug, PartialEq, Eq, Structural)]
pub enum Operand {
    I32(u32),
    I64(u64),
    F32(u32),
    F64(u64),
}

impl Operand {
    pub open spec fn ty(self) -> ValType {
        match self {
            Operand::I32(_) => ValType::I32,
            Operand::I64(_) => ValType::I64,
            Operand::F32(_) => ValType::F32,
            Operand::F64(_) => ValType::F64,
        }
    }
}

/// The operand stack, its top last, and the locals by their index.
pub struct Machine {
    pub stack: Seq<Operand>,
    pub locals: Map<usize, Operand>,
}

/// The low 32 bits of an `i64`, which `i32.wrap/i64` keeps.
pub open spec fn low_half(v: u64) -> u32 {
    (v & 0xffff_ffff) as u32
}

/// The high 32 bits of an `i64`, which a shift right by 32 and
/// `i32.wrap/i64` keep.
pub open spec fn high_half(v: u64) -> u32 {
    ((v >> 32) & 0xffff_ffff) as u32
}

/// The `i64` that JavaScript makes of the two halves, `Long(low, high)`.
pub open spec fn long(low: u32, high: u32) -> u64 {
    (low as u64) | ((high as u64) << 32)
}

/// The two halves that a hook receives make up the value again, bit for
/// bit, and no other pair of halves does.
pub proof fn lemma_halves_make_up_the_value(v: u64)
    ensures
        long(low_half(v), high_half(v)) == v,
        forall|low: u32, high: u32| #[trigger]
            long(low, high) == v ==> low == low_half(v) && high == high_half(v),
{
    assert(((v & 0xffff_ffff) as u32 as u64) | ((((v >> 32) & 0xffff_ffff) as u32 as u64) << 32) == v)
        by (bit_vector);
    assert forall|low: u32, high: u32| #[trigger] long(low, high) == v implies low == low_half(v)
        && high == high_half(v) by {
        let w = (low as u64) | ((high as u64) << 32);
        assert((w & 0xffff_ffff) as u32 == low) by (bit_vector)
            requires
                w == (low as u64) | ((high as u64) << 32),
        ;
        assert(((w >> 32) & 0xffff_ffff) as u32 == high) by (bit_vector)
            requires
                w == (low as u64) | ((high as u64) << 32),
        ;
    }
}

/// One step of the machine. Only the instructions that the instrumentation
/// puts around a hook call are modelled; on the others, and where the stack
/// or a local does not hold what the instruction takes, there is no step.
pub open spec fn run_one(m: Machine, instr: Instr) -> Option<Machine> {
    match instr {
        Instr::GetLocal(l) => if m.locals.contains_key(l.0) {
            Some(Machine { stack: m.stack.push(m.locals[l.0]), ..m })
        } else {
            None
        },
        Instr::SetLocal(l) => if m.stack.len() > 0 {
            Some(Machine { stack: m.stack.drop_last(), locals: m.locals.insert(l.0, m.stack.last()) })
        } else {
            None
        },
        Instr::TeeLocal(l) => if m.stack.len() > 0 {
            Some(Machine { locals: m.locals.insert(l.0, m.stack.last()), ..m })
        } else {
            None
        },
        Instr::I32Const(c) => Some(Machine { stack: m.stack.push(Operand::I32(c as u32)), ..m }),
        Instr::I64Const(c) => Some(Machine { stack: m.stack.push(Operand::I64(c as u64)), ..m }),
        Instr::I32WrapI64 => if m.stack.len() > 0 {
            match m.stack.last() {
                Operand::I64(v) => Some(
                    Machine { stack: m.stack.drop_last().push(Operand::I32(low_half(v))), ..m },
                ),
                _ => None,
            }
        } else {
            None
        },
        Instr::I64ShrU => if m.stack.len() > 1 {
            match (m.stack[m.stack.len() - 2], m.stack.last()) {
                (Operand::I64(v), Operand::I64(by)) => Some(
                    Machine {
                        stack: m.stack.drop_last().drop_last().push(Operand::I64(v >> (by % 64))),
                        ..m
                    },
                ),
                _ => None,
            }
        } else {
            None
        },
        _ => None,
    }
}

/// The machine after the instructions ran one after the other.
pub open spec fn run_all(m: Machine, instrs: Seq<Instr>) -> Option<Machine>
    decreases instrs.len(),
{
    if instrs.len() == 0 {
        Some(m)
    } else {
        match run_one(m, instrs[0]) {
            Some(next) => run_all(next, instrs.skip(1)),
            None => None,
        }
    }
}

/// Running `a + b` is running `a` and then `b`.
pub proof fn lemma_run_all_concat(m: Machine, a: Seq<Instr>, b: Seq<Instr>)
    ensures
        run_all(m, a + b) == match run_all(m, a) {
            Some(mid) => run_all(mid, b),
            None => None,
        },
    decreases a.len(),
{
    if a.len() == 0 {
        assert(a + b =~= b);
    } else {
        assert((a + b)[0] == a[0]);
        assert((a + b).skip(1) =~= a.skip(1) + b);
        match run_one(m, a[0]) {
            Some(next) => lemma_run_all_concat(next, a.skip(1), b),
            None => {},
        }
    }
}

/// No local occurs twice.
pub open spec fn distinct(locals: Seq<Idx<Local>>) -> bool {
    forall|i: int, j: int| 0 <= i < j < locals.len() ==> locals[i].0 != locals[j].0
}

/// Whether `l` is the index of one of the locals.
pub open spec fn names(locals: Seq<Idx<Local>>, l: usize) -> bool {
    exists|i: int| 0 <= i < locals.len() && (#[trigger] locals[i]).0 == l
}

/// The instructions that take the topmost values off the stack into the
/// locals, the topmost into the last local.
pub open spec fn sets(locals: Seq<Idx<Local>>) -> Seq<Instr> {
    Seq::new(locals.len(), |i: int| Instr::SetLocal(locals[locals.len() - 1 - i]))
}

/// The instructions that put the locals on the stack in order.
pub open spec fn gets(locals: Seq<Idx<Local>>) -> Seq<Instr> {
    Seq::new(locals.len(), |i: int| Instr::GetLocal(locals[i]))
}

/// The locals of `m` with the topmost values of its stack in `locals`.
pub open spec fn stored(m: Machine, locals: Seq<Idx<Local>>) -> Map<usize, Operand>
    decreases locals.len(),
{
    if locals.len() == 0 || m.stack.len() < locals.len() {
        m.locals
    } else {
        stored(
            Machine {
                stack: m.stack.drop_last(),
                locals: m.locals.insert(locals.last().0, m.stack.last()),
            },
            locals.drop_last(),
        )
    }
}

/// Taking the topmost values off the stack puts them in the locals.
pub proof fn lemma_sets(m: Machine, locals: Seq<Idx<Local>>)
    requires
        locals.len() <= m.stack.len(),
    ensures
        run_all(m, sets(locals)) == Some(
            Machine {
                stack: m.stack.take(m.stack.len() - locals.len()),
                locals: stored(m, locals),
            },
        ),
    decreases locals.len(),
{
    if locals.len() == 0 {
        assert(m.stack.take(m.stack.len() as int) =~= m.stack);
    } else {
        let next = Machine {
            stack: m.stack.drop_last(),
            locals: m.locals.insert(locals.last().0, m.stack.last()),
        };
        assert(sets(locals)[0] == Instr::SetLocal(locals.last()));
        assert(sets(locals).skip(1) =~= sets(locals.drop_last()));
        lemma_sets(next, locals.drop_last());
        assert(next.stack.take(next.stack.len() - locals.drop_last().len()) =~= m.stack.take(
            m.stack.len() - locals.len(),
        ));
    }
}

/// Where no local occurs twice, each of the locals holds its value after
/// the topmost values of the stack were stored in them, and every other
/// local is as before.
pub proof fn lemma_stored(m: Machine, locals: Seq<Idx<Local>>)
    requires
        locals.len() <= m.stack.len(),
        distinct(locals),
    ensures
        forall|i: int|
            0 <= i < locals.len() ==> stored(m, locals).contains_key(#[trigger] locals[i].0)
                && stored(m, locals)[locals[i].0] == m.stack[m.stack.len() - locals.len() + i],
        forall|l: usize|
            !names(locals, l) ==> (#[trigger] stored(m, locals).contains_key(l)
                <==> m.locals.contains_key(l)),
        forall|l: usize|
            !names(locals, l) && m.locals.contains_key(l) ==> #[trigger] stored(m, locals)[l]
                == m.locals[l],
    decreases locals.len(),
{
    if locals.len() > 0 {
        let next = Machine {
            stack: m.stack.drop_last(),
            locals: m.locals.insert(locals.last().0, m.stack.last()),
        };
        let rest = locals.drop_last();
        lemma_stored(next, rest);
        assert forall|l: usize| !names(locals, l) implies !names(rest, l) by {
            if names(rest, l) {
                let k = choose|k: int| 0 <= k < rest.len() && (#[trigger] rest[k]).0 == l;
                assert(locals[k].0 == l);
            }
        }
        assert forall|i: int| 0 <= i < locals.len() implies stored(m, locals).contains_key(
            #[trigger] locals[i].0,
        ) && stored(m, locals)[locals[i].0] == m.stack[m.stack.len() - locals.len() + i] by {
            if i < rest.len() {
                assert(rest[i] == locals[i]);
                assert(next.stack[next.stack.len() - rest.len() + i] == m.stack[m.stack.len()
                    - locals.len() + i]);
            } else {
                let l = locals[i].0;
                if names(rest, l) {
                    let k = choose|k: int| 0 <= k < rest.len() && (#[trigger] rest[k]).0 == l;
                    assert(locals[k].0 == l);
                }
                assert(next.locals.contains_key(l));
                assert(stored(next, rest).contains_key(l));
                assert(stored(next, rest)[l] == next.locals[l]);
            }
        }
        assert forall|l: usize| !names(locals, l) implies (#[trigger] stored(m, locals).contains_key(l)
            <==> m.locals.contains_key(l)) by {
            assert(locals[locals.len() - 1].0 != l);
            assert(stored(next, rest).contains_key(l) <==> next.locals.contains_key(l));
        }
        assert forall|l: usize| !names(locals, l) && m.locals.contains_key(l) implies #[trigger] stored(
            m,
            locals,
        )[l] == m.locals[l] by {
            assert(locals[locals.len() - 1].0 != l);
            assert(next.locals.contains_key(l));
            assert(stored(next, rest)[l] == next.locals[l]);
        }
    }
}

/// Reading locals that hold the values `values` puts the values on the
/// stack.
pub proof fn lemma_gets(m: Machine, locals: Seq<Idx<Local>>, values: Seq<Operand>)
    requires
        values.len() == locals.len(),
        forall|i: int|
            0 <= i < locals.len() ==> m.locals.contains_key(#[trigger] locals[i].0)
                && m.locals[locals[i].0] == values[i],
    ensures
        run_all(m, gets(locals)) == Some(Machine { stack: m.stack + values, ..m }),
    decreases locals.len(),
{
    if locals.len() == 0 {
        assert(m.stack + values =~= m.stack);
    } else {
        let next = Machine { stack: m.stack.push(values[0]), ..m };
        assert(gets(locals)[0] == Instr::GetLocal(locals[0]));
        assert(gets(locals).skip(1) =~= gets(locals.skip(1)));
        assert(m.locals.contains_key(locals[0].0) && m.locals[locals[0].0] == values[0]);
        assert forall|i: int| 0 <= i < locals.skip(1).len() implies next.locals.contains_key(
            #[trigger] locals.skip(1)[i].0,
        ) && next.locals[locals.skip(1)[i].0] == values.skip(1)[i] by {
            assert(locals.skip(1)[i] == locals[i + 1]);
        }
        lemma_gets(next, locals.skip(1), values.skip(1));
        assert(next.stack + values.skip(1) =~= m.stack + values);
    }
}

/// Saving the topmost values of the stack in locals leaves the stack as it
/// was. It holds of every stack that has a value for each of the locals,
/// where no local occurs twice; after it each local holds its value, and
/// the other locals are as before.
pub proof fn lemma_saving_keeps_the_stack(m: Machine, locals: Seq<Idx<Local>>)
    requires
        locals.len() <= m.stack.len(),
        distinct(locals),
    ensures
        run_all(m, saved(locals)) == Some(Machine { stack: m.stack, locals: stored(m, locals) }),
        forall|i: int|
            0 <= i < locals.len() ==> stored(m, locals).contains_key(#[trigger] locals[i].0)
                && stored(m, locals)[locals[i].0] == m.stack[m.stack.len() - locals.len() + i],
        forall|l: usize|
            !names(locals, l) ==> (#[trigger] stored(m, locals).contains_key(l)
                <==> m.locals.contains_key(l)),
        forall|l: usize|
            !names(locals, l) && m.locals.contains_key(l) ==> #[trigger] stored(m, locals)[l]
                == m.locals[l],
{
    lemma_stored(m, locals);
    if locals.len() == 0 {
        assert(saved(locals) =~= Seq::<Instr>::empty());
    } else {
        // The same instructions with a `set_local` and a `get_local` in
        // place of the `tee_local` take all values off and put all back.
        let n = locals.len() as int;
        let below = m.stack.take(m.stack.len() - n);
        let values = m.stack.skip(m.stack.len() - n);
        let rest = locals.skip(1);
        let down = Seq::new((n - 1) as nat, |i: int| Instr::SetLocal(locals[n - 1 - i]));
        let up = Seq::new((n - 1) as nat, |i: int| Instr::GetLocal(locals[i + 1]));
        assert(saved(locals) =~= down + seq![Instr::TeeLocal(locals[0])] + up);
        assert(down =~= sets(rest)) by {
            assert forall|i: int| 0 <= i < n - 1 implies down[i] == sets(rest)[i] by {
                assert(rest[rest.len() - 1 - i] == locals[n - 1 - i]);
            }
        }
        assert(up =~= gets(rest));
        lemma_sets(m, rest);
        let after_sets = Machine { stack: m.stack.take(m.stack.len() - (n - 1)), locals: stored(m, rest) };
        assert(after_sets.stack.last() == m.stack[m.stack.len() - n]);
        let after_tee = Machine {
            locals: after_sets.locals.insert(locals[0].0, after_sets.stack.last()),
            ..after_sets
        };
        assert(run_one(after_sets, Instr::TeeLocal(locals[0])) == Some(after_tee));
        lemma_run_all_concat(m, down, seq![Instr::TeeLocal(locals[0])]);
        assert(run_all(after_sets, seq![Instr::TeeLocal(locals[0])]) == Some(after_tee)) by {
            assert(seq![Instr::TeeLocal(locals[0])].skip(1) =~= Seq::<Instr>::empty());
            assert(run_all(after_tee, Seq::<Instr>::empty()) == Some(after_tee));
        }
        lemma_run_all_concat(m, down + seq![Instr::TeeLocal(locals[0])], up);
        lemma_stored_in_two_steps(m, locals);
        assert(after_tee.locals =~= stored(m, locals));
        assert forall|i: int| 0 <= i < rest.len() implies after_tee.locals.contains_key(
            #[trigger] rest[i].0,
        ) && after_tee.locals[rest[i].0] == values.skip(1)[i] by {
            assert(rest[i] == locals[i + 1]);
            assert(stored(m, locals).contains_key(locals[i + 1].0));
        }
        lemma_gets(after_tee, rest, values.skip(1));
        assert(after_tee.stack + values.skip(1) =~= m.stack);
    }
}

/// Storing into all locals is storing into all but the first, and then
/// into the first.
pub proof fn lemma_stored_in_two_steps(m: Machine, locals: Seq<Idx<Local>>)
    requires
        0 < locals.len() <= m.stack.len(),
    ensures
        stored(m, locals) == stored(m, locals.skip(1)).insert(
            locals[0].0,
            m.stack[m.stack.len() - locals.len()],
        ),
    decreases locals.len(),
{
    if locals.len() == 1 {
        assert(locals.drop_last() =~= locals.skip(1));
        assert(stored(m, locals.skip(1)) == m.locals);
        let next = Machine {
            stack: m.stack.drop_last(),
            locals: m.locals.insert(locals.last().0, m.stack.last()),
        };
        assert(stored(next, locals.drop_last()) == next.locals);
    } else {
        let next = Machine {
            stack: m.stack.drop_last(),
            locals: m.locals.insert(locals.last().0, m.stack.last()),
        };
        lemma_stored_in_two_steps(next, locals.drop_last());
        assert(locals.drop_last().skip(1) =~= locals.skip(1).drop_last());
        assert(locals.skip(1).last() == locals.last());
        assert(locals.drop_last()[0] == locals[0]);
    }
}

/// The instructions that hand an `i64` in a local to a hook put its low
/// half and then its high half on the stack, which make up the value
/// again.
pub proof fn lemma_split_puts_the_halves(m: Machine, local: Idx<Local>, v: u64)
    requires
        m.locals.contains_key(local.0),
        m.locals[local.0] == Operand::I64(v),
    ensures
        run_all(m, split(Instr::GetLocal(local), ValType::I64)) == Some(
            Machine {
                stack: m.stack.push(Operand::I32(low_half(v))).push(Operand::I32(high_half(v))),
                ..m
            },
        ),
        long(low_half(v), high_half(v)) == v,
{
    lemma_halves_make_up_the_value(v);
    let code = split(Instr::GetLocal(local), ValType::I64);
    let m1 = Machine { stack: m.stack.push(Operand::I64(v)), ..m };
    let m2 = Machine { stack: m.stack.push(Operand::I32(low_half(v))), ..m };
    let m3 = Machine { stack: m2.stack.push(Operand::I64(v)), ..m };
    let m4 = Machine { stack: m3.stack.push(Operand::I64(32)), ..m };
    let m5 = Machine { stack: m2.stack.push(Operand::I64(v >> 32)), ..m };
    let m6 = Machine { stack: m2.stack.push(Operand::I32(high_half(v))), ..m };
    assert(run_one(m, code[0]) == Some(m1));
    assert(run_one(m1, code[1]) == Some(m2)) by {
        assert(m1.stack.drop_last() =~= m.stack);
    }
    assert(run_one(m2, code[2]) == Some(m3));
    assert(run_one(m3, code[3]) == Some(m4));
    assert(run_one(m4, code[4]) == Some(m5)) by {
        assert(m4.stack.drop_last().drop_last() =~= m2.stack);
        assert(32u64 % 64 == 32) by (bit_vector);
    }
    assert(run_one(m5, code[5]) == Some(m6)) by {
        assert(m5.stack.drop_last() =~= m2.stack);
        assert(low_half(v >> 32) == high_half(v)) by {
            let w = v >> 32;
            assert(((w & 0xffff_ffff) as u32) == (((v >> 32) & 0xffff_ffff) as u32));
        }
    }
    let c1 = code.skip(1);
    let c2 = c1.skip(1);
    let c3 = c2.skip(1);
    let c4 = c3.skip(1);
    let c5 = c4.skip(1);
    let c6 = c5.skip(1);
    assert(c1[0] == code[1] && c2[0] == code[2] && c3[0] == code[3] && c4[0] == code[4] && c5[0]
        == code[5]);
    assert(c6.len() == 0);
    assert(run_all(m6, c6) == Some(m6));
    assert(run_all(m5, c5) == Some(m6));
    assert(run_all(m4, c4) == Some(m6));
    assert(run_all(m3, c3) == Some(m6));
    assert(run_all(m2, c2) == Some(m6));
    assert(run_all(m1, c1) == Some(m6));
}

} // verus!
