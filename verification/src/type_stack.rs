//! An abstract operand stack that holds the types of the values, used to
//! find the operand types of the instructions that do not fix them.

use crate::ast::{BlockType, ValType};
use vstd::prelude::*;

verus! {

#[derive(Clone, Copy, Debug, PartialEq, Eq, Hash)]
pub enum TypeStackElement {
    Val(ValType),
    /// Marks where a block began, and holds the block's declared type.
    BlockBegin(BlockType),
}

/// The index of the topmost block marker, if there is one.
pub open spec fn last_marker(s: Seq<TypeStackElement>) -> Option<int>
    decreases s.len(),
{
    if s.len() == 0 {
        None
    } else if s.last() is BlockBegin {
        Some(s.len() - 1)
    } else {
        last_marker(s.drop_last())
    }
}

/// The topmost elements of the stack are values of the types `inputs`, the
/// last of them on top.
pub open spec fn has_on_top(s: Seq<TypeStackElement>, inputs: Seq<ValType>) -> bool {
    &&& inputs.len() <= s.len()
    &&& forall|i: int|
        0 <= i < inputs.len() ==> s[s.len() - inputs.len() + i] == TypeStackElement::Val(
            #[trigger] inputs[i],
        )
}

/// The types as stack elements.
pub open spec fn as_values(tys: Seq<ValType>) -> Seq<TypeStackElement> {
    tys.map_values(|ty: ValType| TypeStackElement::Val(ty))
}

/// The type of the value on top, if a value is on top.
pub open spec fn top_type(s: Seq<TypeStackElement>) -> Option<ValType> {
    if s.len() > 0 {
        match s.last() {
            TypeStackElement::Val(ty) => Some(ty),
            TypeStackElement::BlockBegin(_) => None,
        }
    } else {
        None
    }
}

pub proof fn lemma_last_marker(s: Seq<TypeStackElement>)
    ensures
        match last_marker(s) {
            Some(k) => {
                &&& 0 <= k < s.len()
                &&& s[k] is BlockBegin
                &&& forall|j: int| k < j < s.len() ==> s[j] is Val
            },
            None => forall|j: int| 0 <= j < s.len() ==> s[j] is Val,
        },
    decreases s.len(),
{
    if s.len() > 0 && !(s.last() is BlockBegin) {
        let t = s.drop_last();
        lemma_last_marker(t);
        assert forall|j: int| 0 <= j < t.len() implies t[j] == s[j] by {}
        match last_marker(t) {
            Some(k) => {
                assert forall|j: int| k < j < s.len() implies s[j] is Val by {
                    if j < t.len() {
                        assert(t[j] is Val);
                    }
                }
            },
            None => {
                assert forall|j: int| 0 <= j < s.len() implies s[j] is Val by {
                    if j < t.len() {
                        assert(t[j] is Val);
                    }
                }
            },
        }
    }
}

#[derive(Clone, Debug, PartialEq, Eq, Hash)]
pub struct TypeStack(pub Vec<TypeStackElement>);

impl View for TypeStack {
    type V = Seq<TypeStackElement>;

    open spec fn view(&self) -> Seq<TypeStackElement> {
        self.0@
    }
}

impl TypeStack {
    pub fn new() -> (r: TypeStack)
        ensures
            r@ == Seq::<TypeStackElement>::empty(),
    {
        TypeStack(Vec::new())
    }

    pub fn push(&mut self, ty: ValType)
        ensures
            final(self)@ == old(self)@.push(TypeStackElement::Val(ty)),
    {
        self.0.push(TypeStackElement::Val(ty));
    }

    /// The type on top, without a change to the stack.
    pub fn peek(&self) -> (r: Option<ValType>)
        ensures
            r == top_type(self@),
    {
        if self.0.len() == 0 {
            None
        } else {
            match self.0[self.0.len() - 1] {
                TypeStackElement::Val(ty) => Some(ty),
                TypeStackElement::BlockBegin(_) => None,
            }
        }
    }

    /// Takes the value on top off the stack.
    pub fn pop(&mut self) -> (ty: ValType)
        requires
            top_type(old(self)@).is_some(),
        ensures
            Some(ty) == top_type(old(self)@),
            final(self)@ == old(self)@.drop_last(),
    {
        match self.0.pop() {
            Some(TypeStackElement::Val(ty)) => ty,
            _ => {
                proof {
                    assert(false);
                }
                ValType::I32
            },
        }
    }

    /// Whether `op` with these inputs finds them on the stack.
    pub fn accepts(&self, inputs: &[ValType]) -> (r: bool)
        ensures
            r == has_on_top(self@, inputs@),
    {
        if inputs.len() > self.0.len() {
            return false;
        }
        let base = self.0.len() - inputs.len();
        let mut i: usize = 0;
        while i < inputs.len()
            invariant
                i <= inputs.len(),
                base + inputs.len() == self.0.len(),
                forall|j: int|
                    0 <= j < i ==> self@[base + j] == TypeStackElement::Val(#[trigger] inputs@[j]),
            decreases inputs.len() - i,
        {
            let found = match self.0[base + i] {
                TypeStackElement::Val(ty) => ty == inputs[i],
                TypeStackElement::BlockBegin(_) => false,
            };
            if !found {
                assert(self@[self@.len() - inputs@.len() + i] != TypeStackElement::Val(
                    inputs@[i as int],
                ));
                return false;
            }
            i += 1;
        }
        true
    }

    /// The effect of an instruction that takes `inputs` and leaves
    /// `results`.
    pub fn op(&mut self, inputs: &[ValType], results: &[ValType])
        requires
            has_on_top(old(self)@, inputs@),
        ensures
            final(self)@ == old(self)@.take(old(self)@.len() - inputs@.len()) + as_values(
                results@,
            ),
    {
        let rest = self.0.len() - inputs.len();
        self.0.truncate(rest);
        let mut i: usize = 0;
        while i < results.len()
            invariant
                i <= results.len(),
                self@ == old(self)@.take(rest as int) + as_values(results@.take(i as int)),
            decreases results.len() - i,
        {
            self.0.push(TypeStackElement::Val(results[i]));
            assert(results@.take(i + 1) =~= results@.take(i as int).push(results@[i as int]));
            assert(self@ =~= old(self)@.take(rest as int) + as_values(results@.take(i + 1)));
            i += 1;
        }
        assert(results@.take(results@.len() as int) =~= results@);
    }

    pub fn begin_block(&mut self, block_ty: BlockType)
        ensures
            final(self)@ == old(self)@.push(TypeStackElement::BlockBegin(block_ty)),
    {
        self.0.push(TypeStackElement::BlockBegin(block_ty));
    }

    /// Whether a block was begun and not ended.
    pub fn in_block(&self) -> (r: bool)
        ensures
            r == last_marker(self@).is_some(),
    {
        let mut i: usize = self.0.len();
        assert(self@.take(i as int) =~= self@);
        while i > 0
            invariant
                i <= self.0.len(),
                last_marker(self@) == last_marker(self@.take(i as int)),
            decreases i,
        {
            i -= 1;
            assert(self@.take(i + 1).drop_last() =~= self@.take(i as int));
            match self.0[i] {
                TypeStackElement::BlockBegin(_) => {
                    return true;
                },
                TypeStackElement::Val(_) => {},
            }
        }
        assert(self@.take(0).len() == 0);
        false
    }

    /// Ends the innermost block: takes off the stack whatever is above its
    /// marker, and the marker, and returns the block's declared type.
    pub fn end_block(&mut self) -> (block_ty: BlockType)
        requires
            last_marker(old(self)@).is_some(),
        ensures
            final(self)@ == old(self)@.take(last_marker(old(self)@).unwrap()),
            old(self)@[last_marker(old(self)@).unwrap()] == TypeStackElement::BlockBegin(
                block_ty,
            ),
    {
        proof {
            lemma_last_marker(self@);
        }
        let mut found: BlockType = None;
        let mut done = false;
        while !done
            invariant
                self@.len() <= old(self)@.len(),
                self@ == old(self)@.take(self@.len() as int),
                !done ==> last_marker(old(self)@).unwrap() < self@.len(),
                done ==> self@.len() == last_marker(old(self)@).unwrap(),
                done ==> old(self)@[last_marker(old(self)@).unwrap()]
                    == TypeStackElement::BlockBegin(found),
                last_marker(old(self)@) matches Some(k) && 0 <= k < old(self)@.len() && old(
                    self,
                )@[k] is BlockBegin && forall|j: int| k < j < old(self)@.len() ==> old(self)@[j] is Val,
            decreases self@.len() + if done { 0int } else { 1int },
        {
            let ghost before = self@;
            match self.0.pop() {
                Some(TypeStackElement::BlockBegin(block_ty)) => {
                    found = block_ty;
                    done = true;
                },
                _ => {},
            }
            assert(self@ =~= old(self)@.take(self@.len() as int));
        }
        found
    }
}

} // verus!
