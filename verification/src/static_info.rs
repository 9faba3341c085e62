//! What is known of a module before it runs and is handed to the analysis:
//! the types of its functions and globals, and the tables of its `br_table`
//! instructions.

use crate::ast::{clone_types, FunctionType, Idx, Label, Module, Signature, ValType};
use vstd::prelude::*;

verus! {

#[derive(Clone, Debug, PartialEq, Eq)]
pub struct FunctionInfo {
    pub type_: FunctionType,
}

/// The labels of one `br_table` instruction.
#[derive(Clone, Debug, PartialEq, Eq)]
pub struct BrTableInfo {
    pub table: Vec<usize>,
    pub default: usize,
}

pub struct BrTableView {
    pub table: Seq<usize>,
    pub default: usize,
}

impl View for BrTableInfo {
    type V = BrTableView;

    open spec fn view(&self) -> BrTableView {
        BrTableView { table: self.table@, default: self.default }
    }
}

/// The numbers of the labels.
pub open spec fn label_numbers(labels: Seq<Idx<Label>>) -> Seq<usize> {
    labels.map_values(|l: Idx<Label>| l.0)
}

impl BrTableInfo {
    pub fn new(table: Vec<usize>, default: usize) -> (r: BrTableInfo)
        ensures
            r@ == (BrTableView { table: table@, default }),
    {
        BrTableInfo { table, default }
    }

    /// The record of a `br_table` with these labels.
    pub fn from_labels(table: &Vec<Idx<Label>>, default: Idx<Label>) -> (r: BrTableInfo)
        ensures
            r@ == (BrTableView { table: label_numbers(table@), default: default.0 }),
    {
        let mut numbers: Vec<usize> = Vec::new();
        let mut i: usize = 0;
        while i < table.len()
            invariant
                i <= table.len(),
                numbers@ == label_numbers(table@.take(i as int)),
            decreases table.len() - i,
        {
            numbers.push(table[i].0);
            assert(numbers@ =~= label_numbers(table@.take(i + 1)));
            i += 1;
        }
        assert(table@.take(table@.len() as int) =~= table@);
        BrTableInfo { table: numbers, default: default.0 }
    }
}

#[derive(Clone, Debug, PartialEq, Eq)]
pub struct ModuleInfo {
    pub functions: Vec<FunctionInfo>,
    pub globals: Vec<ValType>,
    pub br_tables: Vec<BrTableInfo>,
}

pub struct ModuleInfoView {
    pub functions: Seq<Signature>,
    pub globals: Seq<ValType>,
    pub br_tables: Seq<BrTableView>,
}

impl View for ModuleInfo {
    type V = ModuleInfoView;

    open spec fn view(&self) -> ModuleInfoView {
        ModuleInfoView {
            functions: self.functions@.map_values(|f: FunctionInfo| f.type_@),
            globals: self.globals@,
            br_tables: self.br_tables@.map_values(|t: BrTableInfo| t@),
        }
    }
}

impl ModuleInfo {
    /// The types of the module's functions and globals, and as yet no
    /// `br_table`.
    pub open spec fn of(module: crate::ast::ModuleView) -> ModuleInfoView {
        ModuleInfoView {
            functions: module.functions.map_values(|f: crate::ast::FunctionView| f.type_),
            globals: module.globals.map_values(|g: crate::ast::Global| g.type_.0),
            br_tables: seq![],
        }
    }
}

impl<'a> From<&'a Module> for ModuleInfo {
    fn from(module: &'a Module) -> (r: ModuleInfo)
        ensures
            r@ == ModuleInfo::of(module@),
    {
        let mut functions: Vec<FunctionInfo> = Vec::new();
        let mut i: usize = 0;
        while i < module.functions.len()
            invariant
                i <= module.functions.len(),
                functions@.len() == i,
                forall|k: int|
                    0 <= k < i ==> (#[trigger] functions@[k]).type_@ == module.functions@[k].type_@,
            decreases module.functions.len() - i,
        {
            let ty = &module.functions[i].type_;
            let copy = FunctionType::new(clone_types(&ty.params), clone_types(&ty.results));
            functions.push(FunctionInfo { type_: copy });
            i += 1;
        }
        let mut globals: Vec<ValType> = Vec::new();
        let mut j: usize = 0;
        while j < module.globals.len()
            invariant
                j <= module.globals.len(),
                globals@ == ModuleInfo::of(module@).globals.take(j as int),
            decreases module.globals.len() - j,
        {
            globals.push(module.globals[j].type_.0);
            assert(globals@ =~= ModuleInfo::of(module@).globals.take(j + 1));
            j += 1;
        }
        let r = ModuleInfo { functions, globals, br_tables: Vec::new() };
        proof {
            let want = ModuleInfo::of(module@);
            assert(r@.functions =~= want.functions);
            assert(want.globals.take(want.globals.len() as int) =~= want.globals);
            assert(r@.br_tables =~= want.br_tables);
        }
        r
    }
}

impl<'a> vstd::std_specs::convert::FromSpecImpl<&'a Module> for ModuleInfo {
    /// The result is stated by its content, in the `ensures` of `from`.
    open spec fn obeys_from_spec() -> bool {
        false
    }

    open spec fn from_spec(module: &'a Module) -> ModuleInfo {
        arbitrary()
    }
}

} // verus!
