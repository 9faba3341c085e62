//! The registration of the hooks: every hook is a function that the module
//! imports from the module `hooks`, and comes with the JavaScript function
//! that serves it.

use crate::ast::{
    Function, FunctionType, Idx, Instr, Memarg, Module, ModuleView, Signature, ValType,
};
use crate::convert_i64::{convert_i64_type, halved_all};
use crate::group::{types1, types2, types3, InstrGroup};
use crate::hooks::{CallResultHookMap, HookKey, MonomorphicHookMap, PolymorphicHookMap};
use crate::js_codegen::{
    append_mangled_tys, has_js_hook, has_poly_js_hook, js_hook_text, mangled, poly_js_hook_text,
    texts,
};
use crate::type_vectors::type_views;
use vstd::prelude::*;
use vstd::string::*;

verus! {

/// A hook by its name and the types of what it observes.
pub struct HookDecl {
    pub name: Seq<char>,
    pub args: Seq<ValType>,
}

/// The type of a hook: it takes the index of the function and the index of
/// the instruction, then what it observes, an `i64` as two `i32`, and
/// returns nothing.
pub open spec fn hook_signature(args: Seq<ValType>) -> Signature {
    Signature { params: seq![ValType::I32, ValType::I32] + halved_all(args), results: seq![] }
}

impl ModuleView {
    /// The module with one more hook.
    pub open spec fn with_hook(self, decl: HookDecl) -> ModuleView {
        self.with_function_import(hook_signature(decl.args), "hooks"@, decl.name)
    }

    /// The module with more hooks, in their order.
    pub open spec fn with_hooks(self, decls: Seq<HookDecl>) -> ModuleView
        decreases decls.len(),
    {
        if decls.len() == 0 {
            self
        } else {
            self.with_hooks(decls.drop_last()).with_hook(decls.last())
        }
    }
}

/// Declares a hook in the module and returns its function index.
pub fn add_hook(module: &mut Module, name: String, arg_tys_: &[ValType]) -> (idx: Idx<Function>)
    ensures
        idx == Idx::<Function>::of(old(module).functions.len()),
        final(module).functions.len() == old(module).functions.len() + 1,
        final(module)@ == old(module)@.with_hook(HookDecl { name: name@, args: arg_tys_@ }),
{
    let mut arg_tys = types2(ValType::I32, ValType::I32);
    let mut i: usize = 0;
    while i < arg_tys_.len()
        invariant
            i <= arg_tys_.len(),
            arg_tys@ == seq![ValType::I32, ValType::I32] + halved_all(arg_tys_@.take(i as int)),
        decreases arg_tys_.len() - i,
    {
        let mut halves = convert_i64_type(arg_tys_[i]);
        arg_tys.append(&mut halves);
        proof {
            assert(arg_tys_@.take(i + 1).drop_last() =~= arg_tys_@.take(i as int));
            assert(arg_tys@ =~= seq![ValType::I32, ValType::I32] + halved_all(arg_tys_@.take(i + 1)));
        }
        i += 1;
    }
    assert(arg_tys_@.take(arg_tys_@.len() as int) =~= arg_tys_@);
    module.add_function_import(
        FunctionType::new(arg_tys, Vec::new()),
        String::from_str("hooks"),
        name,
    )
}

/// What the hook of an instruction observes, where the group of the
/// instruction fixes it: the value of a constant; the operands and the
/// result of a numeric instruction; the offset, the alignment, the address
/// and the value of a memory access.
pub open spec fn mono_args(instr: Instr) -> Seq<ValType> {
    match instr.group() {
        InstrGroup::Const(ty) => seq![ty],
        InstrGroup::Unary { input_ty, result_ty } => seq![input_ty, result_ty],
        InstrGroup::Binary { first_ty, second_ty, result_ty } => seq![first_ty, second_ty, result_ty],
        InstrGroup::MemoryLoad(ty, _) => seq![ValType::I32, ValType::I32, ValType::I32, ty],
        InstrGroup::MemoryStore(ty, _) => seq![ValType::I32, ValType::I32, ValType::I32, ty],
        _ => seq![],
    }
}

pub open spec fn mono_decl(instr: Instr) -> HookDecl {
    HookDecl { name: instr.name(), args: mono_args(instr) }
}

fn four(a: ValType, b: ValType, c: ValType, d: ValType) -> (r: Vec<ValType>)
    ensures
        r@ == seq![a, b, c, d],
{
    let r = vec![a, b, c, d];
    assert(r@ =~= seq![a, b, c, d]);
    r
}

/// Declares the hook of an instruction whose group fixes its types, and
/// adds its JavaScript function to `hooks`. Returns the opcode of the
/// instruction and the function index of the hook.
pub fn add_hook_from_instr(module: &mut Module, instr: &Instr, hooks: &mut Vec<String>) -> (r: (
    u8,
    Idx<Function>,
))
    requires
        has_js_hook(*instr),
    ensures
        r.0 == instr.opcode(),
        r.1 == Idx::<Function>::of(old(module).functions.len()),
        final(module).functions.len() == old(module).functions.len() + 1,
        final(module)@ == old(module)@.with_hook(mono_decl(*instr)),
        texts(final(hooks)@) == texts(old(hooks)@).push(js_hook_text(*instr)),
{
    hooks.push(instr.to_js_hook());
    assert(texts(hooks@) =~= texts(old(hooks)@).push(js_hook_text(*instr)));
    let args = match instr.group() {
        InstrGroup::Const(ty) => types1(ty),
        InstrGroup::Unary { input_ty, result_ty } => types2(input_ty, result_ty),
        InstrGroup::Binary { first_ty, second_ty, result_ty } => types3(first_ty, second_ty, result_ty),
        InstrGroup::MemoryLoad(ty, _) => four(ValType::I32, ValType::I32, ValType::I32, ty),
        InstrGroup::MemoryStore(ty, _) => four(ValType::I32, ValType::I32, ValType::I32, ty),
        _ => Vec::new(),
    };
    let idx = add_hook(module, String::from_str(instr.to_instr_name()), args.as_slice());
    (instr.opcode(), idx)
}

/// The hooks of an instruction with the given name for the types `tys`:
/// each observes `non_poly` and then the types it was made for.
pub open spec fn poly_decls(name: Seq<char>, non_poly: Seq<ValType>, tys: Seq<Seq<ValType>>) -> Seq<
    HookDecl,
> {
    tys.map_values(|t: Seq<ValType>| HookDecl { name: mangled(name, t), args: non_poly + t })
}

/// The map with the hooks of an opcode for the types `tys`, which have the
/// function indices from `first` on.
pub open spec fn poly_entries(
    map: Map<HookKey, Idx<Function>>,
    first: int,
    opcode: u8,
    tys: Seq<Seq<ValType>>,
) -> Map<HookKey, Idx<Function>>
    decreases tys.len(),
{
    if tys.len() == 0 {
        map
    } else {
        poly_entries(map, first, opcode, tys.drop_last()).insert(
            (opcode, tys.last()),
            Idx::<Function>::of((first + tys.len() - 1) as usize),
        )
    }
}

/// The JavaScript functions of an instruction for the types `tys`.
pub open spec fn poly_texts(instr: Instr, tys: Seq<Seq<ValType>>) -> Seq<Seq<char>> {
    tys.map_values(|t: Seq<ValType>| poly_js_hook_text(instr, t))
}

impl PolymorphicHookMap {
    /// Declares the hooks of `instr` for each of `tys`, files them in the
    /// map, and adds their JavaScript functions to `hooks`.
    pub fn add(
        &mut self,
        module: &mut Module,
        instr: Instr,
        non_poly_args: &[ValType],
        tys: &[Vec<ValType>],
        hooks: &mut Vec<String>,
    )
        requires
            forall|i: int| 0 <= i < tys@.len() ==> has_poly_js_hook(instr, (#[trigger] tys@[i])@),
        ensures
            final(self)@ == poly_entries(
                old(self)@,
                old(module).functions.len() as int,
                instr.opcode(),
                type_views(tys@),
            ),
            final(module)@ == old(module)@.with_hooks(
                poly_decls(instr.name(), non_poly_args@, type_views(tys@)),
            ),
            texts(final(hooks)@) == texts(old(hooks)@) + poly_texts(instr, type_views(tys@)),
    {
        let ghost all = type_views(tys@);
        let ghost first = module.functions.len() as int;
        let mut i: usize = 0;
        while i < tys.len()
            invariant
                i <= tys.len(),
                all == type_views(tys@),
                first == old(module).functions.len(),
                forall|i: int| 0 <= i < tys@.len() ==> has_poly_js_hook(instr, (#[trigger] tys@[i])@),
                module.functions.len() == first + i,
                self@ == poly_entries(old(self)@, first, instr.opcode(), all.take(i as int)),
                module@ == old(module)@.with_hooks(
                    poly_decls(instr.name(), non_poly_args@, all.take(i as int)),
                ),
                texts(hooks@) == texts(old(hooks)@) + poly_texts(instr, all.take(i as int)),
            decreases tys.len() - i,
        {
            let t = &tys[i];
            assert(all[i as int] == t@);
            let ghost texts_before = texts(hooks@);
            hooks.push(instr.to_poly_js_hook(t.as_slice()));
            assert(texts(hooks@) =~= texts_before.push(poly_js_hook_text(instr, t@)));
            let hook_name = append_mangled_tys(String::from_str(instr.to_instr_name()), t.as_slice());
            let mut args = crate::ast::clone_types_of(non_poly_args);
            let mut own = crate::ast::clone_types(t);
            args.append(&mut own);
            let hook_idx = add_hook(module, hook_name, args.as_slice());
            self.insert(instr.opcode(), crate::ast::clone_types(t), hook_idx);
            proof {
                let next = all.take(i + 1);
                assert(next.drop_last() =~= all.take(i as int));
                assert(next.last() == t@);
                assert(poly_decls(instr.name(), non_poly_args@, next).drop_last() =~= poly_decls(
                    instr.name(),
                    non_poly_args@,
                    all.take(i as int),
                ));
                assert(poly_texts(instr, next) =~= poly_texts(instr, all.take(i as int)).push(
                    poly_js_hook_text(instr, t@),
                ));
                assert(texts(hooks@) =~= texts(old(hooks)@) + poly_texts(instr, next));
            }
            i += 1;
        }
        assert(all.take(all.len() as int) =~= all);
    }
}

/// The hooks that report what a call has returned, one for each vector of
/// result types: each observes the results.
pub open spec fn result_decls(results: Seq<Seq<ValType>>) -> Seq<HookDecl> {
    results.map_values(|t: Seq<ValType>| HookDecl { name: mangled("call_result"@, t), args: t })
}

/// The map with the hooks for the result types `results`, which have the
/// function indices from `first` on.
pub open spec fn result_entries(
    map: Map<Seq<ValType>, Idx<Function>>,
    first: int,
    results: Seq<Seq<ValType>>,
) -> Map<Seq<ValType>, Idx<Function>>
    decreases results.len(),
{
    if results.len() == 0 {
        map
    } else {
        result_entries(map, first, results.drop_last()).insert(
            results.last(),
            Idx::<Function>::of((first + results.len() - 1) as usize),
        )
    }
}

impl CallResultHookMap {
    /// Declares a hook for each of the vectors of result types and files
    /// it in the map.
    pub fn add(&mut self, module: &mut Module, results: &[Vec<ValType>])
        ensures
            final(self)@ == result_entries(
                old(self)@,
                old(module).functions.len() as int,
                type_views(results@),
            ),
            final(module)@ == old(module)@.with_hooks(result_decls(type_views(results@))),
    {
        let ghost all = type_views(results@);
        let ghost first = module.functions.len() as int;
        let mut i: usize = 0;
        while i < results.len()
            invariant
                i <= results.len(),
                all == type_views(results@),
                first == old(module).functions.len(),
                module.functions.len() == first + i,
                self@ == result_entries(old(self)@, first, all.take(i as int)),
                module@ == old(module)@.with_hooks(result_decls(all.take(i as int))),
            decreases results.len() - i,
        {
            let t = &results[i];
            assert(all[i as int] == t@);
            let hook_name = append_mangled_tys(String::from_str("call_result"), t.as_slice());
            let hook_idx = add_hook(module, hook_name, t.as_slice());
            self.insert(crate::ast::clone_types(t), hook_idx);
            proof {
                let next = all.take(i + 1);
                assert(next.drop_last() =~= all.take(i as int));
                assert(next.last() == t@);
                assert(result_decls(next).drop_last() =~= result_decls(all.take(i as int)));
            }
            i += 1;
        }
        assert(all.take(all.len() as int) =~= all);
    }
}

/// The instructions whose group fixes the types of their hook, in the
/// order in which their hooks are declared.
pub open spec fn monomorphic_instrs() -> Seq<Instr> {
    seq![
        Instr::I32Const(0),
        Instr::I64Const(0),
        Instr::F32Const(0),
        Instr::F64Const(0),
        Instr::I32Eqz,
        Instr::I64Eqz,
        Instr::I32Clz,
        Instr::I32Ctz,
        Instr::I32Popcnt,
        Instr::I64Clz,
        Instr::I64Ctz,
        Instr::I64Popcnt,
        Instr::F32Abs,
        Instr::F32Neg,
        Instr::F32Ceil,
        Instr::F32Floor,
        Instr::F32Trunc,
        Instr::F32Nearest,
        Instr::F32Sqrt,
        Instr::F64Abs,
        Instr::F64Neg,
        Instr::F64Ceil,
        Instr::F64Floor,
        Instr::F64Trunc,
        Instr::F64Nearest,
        Instr::F64Sqrt,
        Instr::I32WrapI64,
        Instr::I32TruncSF32,
        Instr::I32TruncUF32,
        Instr::I32TruncSF64,
        Instr::I32TruncUF64,
        Instr::I64ExtendSI32,
        Instr::I64ExtendUI32,
        Instr::I64TruncSF32,
        Instr::I64TruncUF32,
        Instr::I64TruncSF64,
        Instr::I64TruncUF64,
        Instr::F32ConvertSI32,
        Instr::F32ConvertUI32,
        Instr::F32ConvertSI64,
        Instr::F32ConvertUI64,
        Instr::F32DemoteF64,
        Instr::F64ConvertSI32,
        Instr::F64ConvertUI32,
        Instr::F64ConvertSI64,
        Instr::F64ConvertUI64,
        Instr::F64PromoteF32,
        Instr::I32ReinterpretF32,
        Instr::I64ReinterpretF64,
        Instr::F32ReinterpretI32,
        Instr::F64ReinterpretI64,
        Instr::I32Eq,
        Instr::I32Ne,
        Instr::I32LtS,
        Instr::I32LtU,
        Instr::I32GtS,
        Instr::I32GtU,
        Instr::I32LeS,
        Instr::I32LeU,
        Instr::I32GeS,
        Instr::I32GeU,
        Instr::I64Eq,
        Instr::I64Ne,
        Instr::I64LtS,
        Instr::I64LtU,
        Instr::I64GtS,
        Instr::I64GtU,
        Instr::I64LeS,
        Instr::I64LeU,
        Instr::I64GeS,
        Instr::I64GeU,
        Instr::F32Eq,
        Instr::F32Ne,
        Instr::F32Lt,
        Instr::F32Gt,
        Instr::F32Le,
        Instr::F32Ge,
        Instr::F64Eq,
        Instr::F64Ne,
        Instr::F64Lt,
        Instr::F64Gt,
        Instr::F64Le,
        Instr::F64Ge,
        Instr::I32Add,
        Instr::I32Sub,
        Instr::I32Mul,
        Instr::I32DivS,
        Instr::I32DivU,
        Instr::I32RemS,
        Instr::I32RemU,
        Instr::I32And,
        Instr::I32Or,
        Instr::I32Xor,
        Instr::I32Shl,
        Instr::I32ShrS,
        Instr::I32ShrU,
        Instr::I32Rotl,
        Instr::I32Rotr,
        Instr::I64Add,
        Instr::I64Sub,
        Instr::I64Mul,
        Instr::I64DivS,
        Instr::I64DivU,
        Instr::I64RemS,
        Instr::I64RemU,
        Instr::I64And,
        Instr::I64Or,
        Instr::I64Xor,
        Instr::I64Shl,
        Instr::I64ShrS,
        Instr::I64ShrU,
        Instr::I64Rotl,
        Instr::I64Rotr,
        Instr::F32Add,
        Instr::F32Sub,
        Instr::F32Mul,
        Instr::F32Div,
        Instr::F32Min,
        Instr::F32Max,
        Instr::F32Copysign,
        Instr::F64Add,
        Instr::F64Sub,
        Instr::F64Mul,
        Instr::F64Div,
        Instr::F64Min,
        Instr::F64Max,
        Instr::F64Copysign,
        Instr::I32Load(Memarg { alignment: 0, offset: 0 }),
        Instr::I32Load8S(Memarg { alignment: 0, offset: 0 }),
        Instr::I32Load8U(Memarg { alignment: 0, offset: 0 }),
        Instr::I32Load16S(Memarg { alignment: 0, offset: 0 }),
        Instr::I32Load16U(Memarg { alignment: 0, offset: 0 }),
        Instr::I64Load(Memarg { alignment: 0, offset: 0 }),
        Instr::I64Load8S(Memarg { alignment: 0, offset: 0 }),
        Instr::I64Load8U(Memarg { alignment: 0, offset: 0 }),
        Instr::I64Load16S(Memarg { alignment: 0, offset: 0 }),
        Instr::I64Load16U(Memarg { alignment: 0, offset: 0 }),
        Instr::I64Load32S(Memarg { alignment: 0, offset: 0 }),
        Instr::I64Load32U(Memarg { alignment: 0, offset: 0 }),
        Instr::F32Load(Memarg { alignment: 0, offset: 0 }),
        Instr::F64Load(Memarg { alignment: 0, offset: 0 }),
        Instr::I32Store(Memarg { alignment: 0, offset: 0 }),
        Instr::I32Store8(Memarg { alignment: 0, offset: 0 }),
        Instr::I32Store16(Memarg { alignment: 0, offset: 0 }),
        Instr::I64Store(Memarg { alignment: 0, offset: 0 }),
        Instr::I64Store8(Memarg { alignment: 0, offset: 0 }),
        Instr::I64Store16(Memarg { alignment: 0, offset: 0 }),
        Instr::I64Store32(Memarg { alignment: 0, offset: 0 }),
        Instr::F32Store(Memarg { alignment: 0, offset: 0 }),
        Instr::F64Store(Memarg { alignment: 0, offset: 0 }),
    ]
}

pub fn monomorphic_list() -> (r: Vec<Instr>)
    ensures
        r@ == monomorphic_instrs(),
{
    let r = vec![
        Instr::I32Const(0),
        Instr::I64Const(0),
        Instr::F32Const(0),
        Instr::F64Const(0),
        Instr::I32Eqz,
        Instr::I64Eqz,
        Instr::I32Clz,
        Instr::I32Ctz,
        Instr::I32Popcnt,
        Instr::I64Clz,
        Instr::I64Ctz,
        Instr::I64Popcnt,
        Instr::F32Abs,
        Instr::F32Neg,
        Instr::F32Ceil,
        Instr::F32Floor,
        Instr::F32Trunc,
        Instr::F32Nearest,
        Instr::F32Sqrt,
        Instr::F64Abs,
        Instr::F64Neg,
        Instr::F64Ceil,
        Instr::F64Floor,
        Instr::F64Trunc,
        Instr::F64Nearest,
        Instr::F64Sqrt,
        Instr::I32WrapI64,
        Instr::I32TruncSF32,
        Instr::I32TruncUF32,
        Instr::I32TruncSF64,
        Instr::I32TruncUF64,
        Instr::I64ExtendSI32,
        Instr::I64ExtendUI32,
        Instr::I64TruncSF32,
        Instr::I64TruncUF32,
        Instr::I64TruncSF64,
        Instr::I64TruncUF64,
        Instr::F32ConvertSI32,
        Instr::F32ConvertUI32,
        Instr::F32ConvertSI64,
        Instr::F32ConvertUI64,
        Instr::F32DemoteF64,
        Instr::F64ConvertSI32,
        Instr::F64ConvertUI32,
        Instr::F64ConvertSI64,
        Instr::F64ConvertUI64,
        Instr::F64PromoteF32,
        Instr::I32ReinterpretF32,
        Instr::I64ReinterpretF64,
        Instr::F32ReinterpretI32,
        Instr::F64ReinterpretI64,
        Instr::I32Eq,
        Instr::I32Ne,
        Instr::I32LtS,
        Instr::I32LtU,
        Instr::I32GtS,
        Instr::I32GtU,
        Instr::I32LeS,
        Instr::I32LeU,
        Instr::I32GeS,
        Instr::I32GeU,
        Instr::I64Eq,
        Instr::I64Ne,
        Instr::I64LtS,
        Instr::I64LtU,
        Instr::I64GtS,
        Instr::I64GtU,
        Instr::I64LeS,
        Instr::I64LeU,
        Instr::I64GeS,
        Instr::I64GeU,
        Instr::F32Eq,
        Instr::F32Ne,
        Instr::F32Lt,
        Instr::F32Gt,
        Instr::F32Le,
        Instr::F32Ge,
        Instr::F64Eq,
        Instr::F64Ne,
        Instr::F64Lt,
        Instr::F64Gt,
        Instr::F64Le,
        Instr::F64Ge,
        Instr::I32Add,
        Instr::I32Sub,
        Instr::I32Mul,
        Instr::I32DivS,
        Instr::I32DivU,
        Instr::I32RemS,
        Instr::I32RemU,
        Instr::I32And,
        Instr::I32Or,
        Instr::I32Xor,
        Instr::I32Shl,
        Instr::I32ShrS,
        Instr::I32ShrU,
        Instr::I32Rotl,
        Instr::I32Rotr,
        Instr::I64Add,
        Instr::I64Sub,
        Instr::I64Mul,
        Instr::I64DivS,
        Instr::I64DivU,
        Instr::I64RemS,
        Instr::I64RemU,
        Instr::I64And,
        Instr::I64Or,
        Instr::I64Xor,
        Instr::I64Shl,
        Instr::I64ShrS,
        Instr::I64ShrU,
        Instr::I64Rotl,
        Instr::I64Rotr,
        Instr::F32Add,
        Instr::F32Sub,
        Instr::F32Mul,
        Instr::F32Div,
        Instr::F32Min,
        Instr::F32Max,
        Instr::F32Copysign,
        Instr::F64Add,
        Instr::F64Sub,
        Instr::F64Mul,
        Instr::F64Div,
        Instr::F64Min,
        Instr::F64Max,
        Instr::F64Copysign,
        Instr::I32Load(Memarg { alignment: 0, offset: 0 }),
        Instr::I32Load8S(Memarg { alignment: 0, offset: 0 }),
        Instr::I32Load8U(Memarg { alignment: 0, offset: 0 }),
        Instr::I32Load16S(Memarg { alignment: 0, offset: 0 }),
        Instr::I32Load16U(Memarg { alignment: 0, offset: 0 }),
        Instr::I64Load(Memarg { alignment: 0, offset: 0 }),
        Instr::I64Load8S(Memarg { alignment: 0, offset: 0 }),
        Instr::I64Load8U(Memarg { alignment: 0, offset: 0 }),
        Instr::I64Load16S(Memarg { alignment: 0, offset: 0 }),
        Instr::I64Load16U(Memarg { alignment: 0, offset: 0 }),
        Instr::I64Load32S(Memarg { alignment: 0, offset: 0 }),
        Instr::I64Load32U(Memarg { alignment: 0, offset: 0 }),
        Instr::F32Load(Memarg { alignment: 0, offset: 0 }),
        Instr::F64Load(Memarg { alignment: 0, offset: 0 }),
        Instr::I32Store(Memarg { alignment: 0, offset: 0 }),
        Instr::I32Store8(Memarg { alignment: 0, offset: 0 }),
        Instr::I32Store16(Memarg { alignment: 0, offset: 0 }),
        Instr::I64Store(Memarg { alignment: 0, offset: 0 }),
        Instr::I64Store8(Memarg { alignment: 0, offset: 0 }),
        Instr::I64Store16(Memarg { alignment: 0, offset: 0 }),
        Instr::I64Store32(Memarg { alignment: 0, offset: 0 }),
        Instr::F32Store(Memarg { alignment: 0, offset: 0 }),
        Instr::F64Store(Memarg { alignment: 0, offset: 0 }),
    ];
    assert(r@ =~= monomorphic_instrs());
    r
}

pub open spec fn mono_decls(instrs: Seq<Instr>) -> Seq<HookDecl> {
    instrs.map_values(|i: Instr| mono_decl(i))
}

/// The map with the hooks of `instrs`, which have the function indices
/// from `first` on.
pub open spec fn mono_entries(map: Map<u8, Idx<Function>>, first: int, instrs: Seq<Instr>) -> Map<
    u8,
    Idx<Function>,
>
    decreases instrs.len(),
{
    if instrs.len() == 0 {
        map
    } else {
        mono_entries(map, first, instrs.drop_last()).insert(
            instrs.last().opcode(),
            Idx::<Function>::of((first + instrs.len() - 1) as usize),
        )
    }
}

pub open spec fn mono_texts(instrs: Seq<Instr>) -> Seq<Seq<char>> {
    instrs.map_values(|i: Instr| js_hook_text(i))
}

impl MonomorphicHookMap {
    /// Declares the hook of each of `instrs`, files it in the map, and adds
    /// its JavaScript function to `hooks`.
    pub fn add(&mut self, module: &mut Module, instrs: &[Instr], hooks: &mut Vec<String>)
        requires
            forall|i: int| 0 <= i < instrs@.len() ==> has_js_hook(#[trigger] instrs@[i]),
        ensures
            final(self)@ == mono_entries(old(self)@, old(module).functions.len() as int, instrs@),
            final(module)@ == old(module)@.with_hooks(mono_decls(instrs@)),
            texts(final(hooks)@) == texts(old(hooks)@) + mono_texts(instrs@),
    {
        let ghost first = module.functions.len() as int;
        let mut i: usize = 0;
        while i < instrs.len()
            invariant
                i <= instrs.len(),
                first == old(module).functions.len(),
                forall|i: int| 0 <= i < instrs@.len() ==> has_js_hook(#[trigger] instrs@[i]),
                module.functions.len() == first + i,
                self@ == mono_entries(old(self)@, first, instrs@.take(i as int)),
                module@ == old(module)@.with_hooks(mono_decls(instrs@.take(i as int))),
                texts(hooks@) == texts(old(hooks)@) + mono_texts(instrs@.take(i as int)),
            decreases instrs.len() - i,
        {
            let (opcode, hook_idx) = add_hook_from_instr(module, &instrs[i], hooks);
            self.insert(opcode, hook_idx);
            proof {
                let next = instrs@.take(i + 1);
                assert(next.drop_last() =~= instrs@.take(i as int));
                assert(mono_decls(next).drop_last() =~= mono_decls(instrs@.take(i as int)));
                assert(mono_texts(next) =~= mono_texts(instrs@.take(i as int)).push(
                    js_hook_text(instrs@[i as int]),
                ));
                assert(texts(hooks@) =~= texts(old(hooks)@) + mono_texts(next));
            }
            i += 1;
        }
        assert(instrs@.take(instrs@.len() as int) =~= instrs@);
    }
}

} // verus!
