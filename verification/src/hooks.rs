//! The registry of the hooks: which imported function an instruction's
//! hook is.

use crate::ast::{Function, Idx, Instr, ValType};
use vstd::prelude::*;

verus! {

/// Whether two vectors hold the same types.
pub fn same_types(a: &[ValType], b: &[ValType]) -> (r: bool)
    ensures
        r == (a@ == b@),
{
    if a.len() != b.len() {
        return false;
    }
    let mut i: usize = 0;
    while i < a.len()
        invariant
            i <= a.len(),
            a.len() == b.len(),
            forall|j: int| 0 <= j < i ==> a@[j] == b@[j],
        decreases a.len() - i,
    {
        if a[i] != b[i] {
            return false;
        }
        i += 1;
    }
    assert(a@ =~= b@);
    true
}

/// A hook is filed under the opcode of its instruction and the types that
/// it was made for.
pub type HookKey = (u8, Seq<ValType>);

#[derive(Clone, Debug, PartialEq, Eq)]
pub struct HookEntry {
    pub opcode: u8,
    pub tys: Vec<ValType>,
    pub hook: Idx<Function>,
}

/// The map that a list of entries stands for: a later entry replaces an
/// earlier one with the same key.
pub open spec fn entries_map(entries: Seq<HookEntry>) -> Map<HookKey, Idx<Function>>
    decreases entries.len(),
{
    if entries.len() == 0 {
        Map::empty()
    } else {
        entries_map(entries.drop_last()).insert(
            (entries.last().opcode, entries.last().tys@),
            entries.last().hook,
        )
    }
}

/// The hooks of the instructions whose operand types vary: one for each
/// instruction and each vector of types that it was registered with.
#[derive(Clone, Debug, PartialEq, Eq)]
pub struct PolymorphicHookMap(pub Vec<HookEntry>);

impl View for PolymorphicHookMap {
    type V = Map<HookKey, Idx<Function>>;

    open spec fn view(&self) -> Map<HookKey, Idx<Function>> {
        entries_map(self.0@)
    }
}

impl PolymorphicHookMap {
    pub fn new() -> (r: PolymorphicHookMap)
        ensures
            r@ == Map::<HookKey, Idx<Function>>::empty(),
    {
        PolymorphicHookMap(Vec::new())
    }

    /// Files `hook` under the key, in place of what was filed there.
    pub fn insert(&mut self, opcode: u8, tys: Vec<ValType>, hook: Idx<Function>)
        ensures
            final(self)@ == old(self)@.insert((opcode, tys@), hook),
    {
        self.0.push(HookEntry { opcode, tys, hook });
        assert(self.0@.drop_last() =~= old(self).0@);
    }

    /// The hook filed under the key.
    pub fn get(&self, opcode: u8, tys: &[ValType]) -> (r: Option<Idx<Function>>)
        ensures
            r == if self@.contains_key((opcode, tys@)) {
                Some(self@[(opcode, tys@)])
            } else {
                None
            },
    {
        let ghost key = (opcode, tys@);
        let mut i: usize = self.0.len();
        assert(self.0@.take(i as int) =~= self.0@);
        while i > 0
            invariant
                i <= self.0.len(),
                key == (opcode, tys@),
                self@.contains_key(key) == entries_map(self.0@.take(i as int)).contains_key(key),
                self@.contains_key(key) ==> self@[key] == entries_map(self.0@.take(i as int))[key],
            decreases i,
        {
            i -= 1;
            assert(self.0@.take(i + 1).drop_last() =~= self.0@.take(i as int));
            let entry = &self.0[i];
            if entry.opcode == opcode && same_types(entry.tys.as_slice(), tys) {
                return Some(entry.hook);
            }
        }
        None
    }

    /// The call of the hook of `instr` for the types `tys`.
    pub fn get_call(&self, instr: &Instr, tys: Vec<ValType>) -> (call: Instr)
        requires
            self@.contains_key((instr.opcode(), tys@)),
        ensures
            call == Instr::Call(self@[(instr.opcode(), tys@)]),
    {
        match self.get(instr.opcode(), tys.as_slice()) {
            Some(hook) => Instr::Call(hook),
            None => Instr::Unreachable,
        }
    }
}

/// The hooks of the instructions whose operand types the opcode fixes: one
/// for each instruction.
#[derive(Clone, Debug, PartialEq, Eq)]
pub struct MonomorphicHookMap(pub PolymorphicHookMap);

impl View for MonomorphicHookMap {
    type V = Map<u8, Idx<Function>>;

    open spec fn view(&self) -> Map<u8, Idx<Function>> {
        Map::new(
            |opcode: u8| self.0@.contains_key((opcode, Seq::<ValType>::empty())),
            |opcode: u8| self.0@[(opcode, Seq::<ValType>::empty())],
        )
    }
}

impl MonomorphicHookMap {
    pub fn new() -> (r: MonomorphicHookMap)
        ensures
            r@ == Map::<u8, Idx<Function>>::empty(),
    {
        let r = MonomorphicHookMap(PolymorphicHookMap::new());
        assert(r@ =~= Map::<u8, Idx<Function>>::empty());
        r
    }

    pub fn insert(&mut self, opcode: u8, hook: Idx<Function>)
        ensures
            final(self)@ == old(self)@.insert(opcode, hook),
    {
        self.0.insert(opcode, Vec::new(), hook);
        assert(final(self)@ =~= old(self)@.insert(opcode, hook));
    }

    pub fn get(&self, opcode: u8) -> (r: Option<Idx<Function>>)
        ensures
            r == if self@.contains_key(opcode) {
                Some(self@[opcode])
            } else {
                None
            },
    {
        let none: Vec<ValType> = Vec::new();
        self.0.get(opcode, none.as_slice())
    }
}

/// The hooks that report what a call has returned: one for each vector of
/// result types.
#[derive(Clone, Debug, PartialEq, Eq)]
pub struct CallResultHookMap(pub PolymorphicHookMap);

impl View for CallResultHookMap {
    type V = Map<Seq<ValType>, Idx<Function>>;

    open spec fn view(&self) -> Map<Seq<ValType>, Idx<Function>> {
        Map::new(
            |tys: Seq<ValType>| self.0@.contains_key((0x10u8, tys)),
            |tys: Seq<ValType>| self.0@[(0x10u8, tys)],
        )
    }
}

impl CallResultHookMap {
    pub fn new() -> (r: CallResultHookMap)
        ensures
            r@ == Map::<Seq<ValType>, Idx<Function>>::empty(),
    {
        let r = CallResultHookMap(PolymorphicHookMap::new());
        assert(r@ =~= Map::<Seq<ValType>, Idx<Function>>::empty());
        r
    }

    pub fn insert(&mut self, tys: Vec<ValType>, hook: Idx<Function>)
        ensures
            final(self)@ == old(self)@.insert(tys@, hook),
    {
        self.0.insert(0x10, tys, hook);
        assert(final(self)@ =~= old(self)@.insert(tys@, hook));
    }

    pub fn get(&self, tys: &[ValType]) -> (r: Option<Idx<Function>>)
        ensures
            r == if self@.contains_key(tys@) {
                Some(self@[tys@])
            } else {
                None
            },
    {
        self.0.get(0x10, tys)
    }
}

/// The hooks that exist once in every instrumented module.
#[derive(Clone, Copy, Debug, PartialEq, Eq)]
pub struct FixedHooks {
    pub if_: Idx<Function>,
    pub br: Idx<Function>,
    pub br_if: Idx<Function>,
    pub br_table: Idx<Function>,
    pub begin_function: Idx<Function>,
    pub end_function: Idx<Function>,
    pub begin_block: Idx<Function>,
    pub end_block: Idx<Function>,
    pub begin_loop: Idx<Function>,
    pub end_loop: Idx<Function>,
    pub begin_if: Idx<Function>,
    pub end_if: Idx<Function>,
    pub begin_else: Idx<Function>,
    pub end_else: Idx<Function>,
    pub nop: Idx<Function>,
    pub unreachable: Idx<Function>,
    pub current_memory: Idx<Function>,
    pub grow_memory: Idx<Function>,
}

/// All hooks of a module.
#[derive(Clone, Debug, PartialEq, Eq)]
pub struct Hooks {
    pub fixed: FixedHooks,
    pub polymorphic: PolymorphicHookMap,
    pub call_result: CallResultHookMap,
    pub monomorphic: MonomorphicHookMap,
}

pub struct HookTable {
    pub fixed: FixedHooks,
    pub polymorphic: Map<HookKey, Idx<Function>>,
    pub call_result: Map<Seq<ValType>, Idx<Function>>,
    pub monomorphic: Map<u8, Idx<Function>>,
}

impl View for Hooks {
    type V = HookTable;

    open spec fn view(&self) -> HookTable {
        HookTable {
            fixed: self.fixed,
            polymorphic: self.polymorphic@,
            call_result: self.call_result@,
            monomorphic: self.monomorphic@,
        }
    }
}

} // verus!
