//! Classification of the instructions: the name of each, its opcode, and
//! the group that fixes the shape of its instrumentation.

use crate::ast::{FunctionType, Global, Idx, Instr, Local, Memarg, Signature, ValType};
use vstd::prelude::*;

verus! {

#[derive(Clone, Copy, Debug, PartialEq, Eq, Structural, Hash)]
pub enum LocalOp {
    GetLocal,
    SetLocal,
    TeeLocal,
}

#[derive(Clone, Copy, Debug, PartialEq, Eq, Structural, Hash)]
pub enum GlobalOp {
    GetGlobal,
    SetGlobal,
}

/// The groups of instructions. Instructions of one group are instrumented
/// alike; those that need a treatment of their own are `Control`.
#[derive(Clone, Copy, Debug, PartialEq, Eq, Hash)]
pub enum InstrGroup {
    /// No input, one result of the given type.
    Const(ValType),
    Unary { input_ty: ValType, result_ty: ValType },
    Binary { first_ty: ValType, second_ty: ValType, result_ty: ValType },
    /// Reads a value of the given type from an address.
    MemoryLoad(ValType, Memarg),
    /// Writes a value of the given type to an address.
    MemoryStore(ValType, Memarg),
    Local(LocalOp, Idx<Local>),
    Global(GlobalOp, Idx<Global>),
    Control,
}

/// The mnemonic of the instructions with the given opcode.
pub open spec fn mnemonic(opcode: u8) -> Seq<char> {
    if opcode == 0x00 {
        "unreachable"@
    } else if opcode == 0x01 {
        "nop"@
    } else if opcode == 0x02 {
        "block"@
    } else if opcode == 0x03 {
        "loop"@
    } else if opcode == 0x04 {
        "if"@
    } else if opcode == 0x05 {
        "else"@
    } else if opcode == 0x0b {
        "end"@
    } else if opcode == 0x0c {
        "br"@
    } else if opcode == 0x0d {
        "br_if"@
    } else if opcode == 0x0e {
        "br_table"@
    } else if opcode == 0x0f {
        "return"@
    } else if opcode == 0x10 {
        "call"@
    } else if opcode == 0x11 {
        "call_indirect"@
    } else if opcode == 0x1a {
        "drop"@
    } else if opcode == 0x1b {
        "select"@
    } else if opcode == 0x20 {
        "get_local"@
    } else if opcode == 0x21 {
        "set_local"@
    } else if opcode == 0x22 {
        "tee_local"@
    } else if opcode == 0x23 {
        "get_global"@
    } else if opcode == 0x24 {
        "set_global"@
    } else if opcode == 0x28 {
        "i32.load"@
    } else if opcode == 0x29 {
        "i64.load"@
    } else if opcode == 0x2a {
        "f32.load"@
    } else if opcode == 0x2b {
        "f64.load"@
    } else if opcode == 0x2c {
        "i32.load8_s"@
    } else if opcode == 0x2d {
        "i32.load8_u"@
    } else if opcode == 0x2e {
        "i32.load16_s"@
    } else if opcode == 0x2f {
        "i32.load16_u"@
    } else if opcode == 0x30 {
        "i64.load8_s"@
    } else if opcode == 0x31 {
        "i64.load8_u"@
    } else if opcode == 0x32 {
        "i64.load16_s"@
    } else if opcode == 0x33 {
        "i64.load16_u"@
    } else if opcode == 0x34 {
        "i64.load32_s"@
    } else if opcode == 0x35 {
        "i64.load32_u"@
    } else if opcode == 0x36 {
        "i32.store"@
    } else if opcode == 0x37 {
        "i64.store"@
    } else if opcode == 0x38 {
        "f32.store"@
    } else if opcode == 0x39 {
        "f64.store"@
    } else if opcode == 0x3a {
        "i32.store8"@
    } else if opcode == 0x3b {
        "i32.store16"@
    } else if opcode == 0x3c {
        "i64.store8"@
    } else if opcode == 0x3d {
        "i64.store16"@
    } else if opcode == 0x3e {
        "i64.store32"@
    } else if opcode == 0x3f {
        "current_memory"@
    } else if opcode == 0x40 {
        "grow_memory"@
    } else if opcode == 0x41 {
        "i32.const"@
    } else if opcode == 0x42 {
        "i64.const"@
    } else if opcode == 0x43 {
        "f32.const"@
    } else if opcode == 0x44 {
        "f64.const"@
    } else if opcode == 0x45 {
        "i32.eqz"@
    } else if opcode == 0x46 {
        "i32.eq"@
    } else if opcode == 0x47 {
        "i32.ne"@
    } else if opcode == 0x48 {
        "i32.lt_s"@
    } else if opcode == 0x49 {
        "i32.lt_u"@
    } else if opcode == 0x4a {
        "i32.gt_s"@
    } else if opcode == 0x4b {
        "i32.gt_u"@
    } else if opcode == 0x4c {
        "i32.le_s"@
    } else if opcode == 0x4d {
        "i32.le_u"@
    } else if opcode == 0x4e {
        "i32.ge_s"@
    } else if opcode == 0x4f {
        "i32.ge_u"@
    } else if opcode == 0x50 {
        "i64.eqz"@
    } else if opcode == 0x51 {
        "i64.eq"@
    } else if opcode == 0x52 {
        "i64.ne"@
    } else if opcode == 0x53 {
        "i64.lt_s"@
    } else if opcode == 0x54 {
        "i64.lt_u"@
    } else if opcode == 0x55 {
        "i64.gt_s"@
    } else if opcode == 0x56 {
        "i64.gt_u"@
    } else if opcode == 0x57 {
        "i64.le_s"@
    } else if opcode == 0x58 {
        "i64.le_u"@
    } else if opcode == 0x59 {
        "i64.ge_s"@
    } else if opcode == 0x5a {
        "i64.ge_u"@
    } else if opcode == 0x5b {
        "f32.eq"@
    } else if opcode == 0x5c {
        "f32.ne"@
    } else if opcode == 0x5d {
        "f32.lt"@
    } else if opcode == 0x5e {
        "f32.gt"@
    } else if opcode == 0x5f {
        "f32.le"@
    } else if opcode == 0x60 {
        "f32.ge"@
    } else if opcode == 0x61 {
        "f64.eq"@
    } else if opcode == 0x62 {
        "f64.ne"@
    } else if opcode == 0x63 {
        "f64.lt"@
    } else if opcode == 0x64 {
        "f64.gt"@
    } else if opcode == 0x65 {
        "f64.le"@
    } else if opcode == 0x66 {
        "f64.ge"@
    } else if opcode == 0x67 {
        "i32.clz"@
    } else if opcode == 0x68 {
        "i32.ctz"@
    } else if opcode == 0x69 {
        "i32.popcnt"@
    } else if opcode == 0x6a {
        "i32.add"@
    } else if opcode == 0x6b {
        "i32.sub"@
    } else if opcode == 0x6c {
        "i32.mul"@
    } else if opcode == 0x6d {
        "i32.div_s"@
    } else if opcode == 0x6e {
        "i32.div_u"@
    } else if opcode == 0x6f {
        "i32.rem_s"@
    } else if opcode == 0x70 {
        "i32.rem_u"@
    } else if opcode == 0x71 {
        "i32.and"@
    } else if opcode == 0x72 {
        "i32.or"@
    } else if opcode == 0x73 {
        "i32.xor"@
    } else if opcode == 0x74 {
        "i32.shl"@
    } else if opcode == 0x75 {
        "i32.shr_s"@
    } else if opcode == 0x76 {
        "i32.shr_u"@
    } else if opcode == 0x77 {
        "i32.rotl"@
    } else if opcode == 0x78 {
        "i32.rotr"@
    } else if opcode == 0x79 {
        "i64.clz"@
    } else if opcode == 0x7a {
        "i64.ctz"@
    } else if opcode == 0x7b {
        "i64.popcnt"@
    } else if opcode == 0x7c {
        "i64.add"@
    } else if opcode == 0x7d {
        "i64.sub"@
    } else if opcode == 0x7e {
        "i64.mul"@
    } else if opcode == 0x7f {
        "i64.div_s"@
    } else if opcode == 0x80 {
        "i64.div_u"@
    } else if opcode == 0x81 {
        "i64.rem_s"@
    } else if opcode == 0x82 {
        "i64.rem_u"@
    } else if opcode == 0x83 {
        "i64.and"@
    } else if opcode == 0x84 {
        "i64.or"@
    } else if opcode == 0x85 {
        "i64.xor"@
    } else if opcode == 0x86 {
        "i64.shl"@
    } else if opcode == 0x87 {
        "i64.shr_s"@
    } else if opcode == 0x88 {
        "i64.shr_u"@
    } else if opcode == 0x89 {
        "i64.rotl"@
    } else if opcode == 0x8a {
        "i64.rotr"@
    } else if opcode == 0x8b {
        "f32.abs"@
    } else if opcode == 0x8c {
        "f32.neg"@
    } else if opcode == 0x8d {
        "f32.ceil"@
    } else if opcode == 0x8e {
        "f32.floor"@
    } else if opcode == 0x8f {
        "f32.trunc"@
    } else if opcode == 0x90 {
        "f32.nearest"@
    } else if opcode == 0x91 {
        "f32.sqrt"@
    } else if opcode == 0x92 {
        "f32.add"@
    } else if opcode == 0x93 {
        "f32.sub"@
    } else if opcode == 0x94 {
        "f32.mul"@
    } else if opcode == 0x95 {
        "f32.div"@
    } else if opcode == 0x96 {
        "f32.min"@
    } else if opcode == 0x97 {
        "f32.max"@
    } else if opcode == 0x98 {
        "f32.copysign"@
    } else if opcode == 0x99 {
        "f64.abs"@
    } else if opcode == 0x9a {
        "f64.neg"@
    } else if opcode == 0x9b {
        "f64.ceil"@
    } else if opcode == 0x9c {
        "f64.floor"@
    } else if opcode == 0x9d {
        "f64.trunc"@
    } else if opcode == 0x9e {
        "f64.nearest"@
    } else if opcode == 0x9f {
        "f64.sqrt"@
    } else if opcode == 0xa0 {
        "f64.add"@
    } else if opcode == 0xa1 {
        "f64.sub"@
    } else if opcode == 0xa2 {
        "f64.mul"@
    } else if opcode == 0xa3 {
        "f64.div"@
    } else if opcode == 0xa4 {
        "f64.min"@
    } else if opcode == 0xa5 {
        "f64.max"@
    } else if opcode == 0xa6 {
        "f64.copysign"@
    } else if opcode == 0xa7 {
        "i32.wrap/i64"@
    } else if opcode == 0xa8 {
        "i32.trunc_s/f32"@
    } else if opcode == 0xa9 {
        "i32.trunc_u/f32"@
    } else if opcode == 0xaa {
        "i32.trunc_s/f64"@
    } else if opcode == 0xab {
        "i32.trunc_u/f64"@
    } else if opcode == 0xac {
        "i64.extend_s/i32"@
    } else if opcode == 0xad {
        "i64.extend_u/i32"@
    } else if opcode == 0xae {
        "i64.trunc_s/f32"@
    } else if opcode == 0xaf {
        "i64.trunc_u/f32"@
    } else if opcode == 0xb0 {
        "i64.trunc_s/f64"@
    } else if opcode == 0xb1 {
        "i64.trunc_u/f64"@
    } else if opcode == 0xb2 {
        "f32.convert_s/i32"@
    } else if opcode == 0xb3 {
        "f32.convert_u/i32"@
    } else if opcode == 0xb4 {
        "f32.convert_s/i64"@
    } else if opcode == 0xb5 {
        "f32.convert_u/i64"@
    } else if opcode == 0xb6 {
        "f32.demote/f64"@
    } else if opcode == 0xb7 {
        "f64.convert_s/i32"@
    } else if opcode == 0xb8 {
        "f64.convert_u/i32"@
    } else if opcode == 0xb9 {
        "f64.convert_s/i64"@
    } else if opcode == 0xba {
        "f64.convert_u/i64"@
    } else if opcode == 0xbb {
        "f64.promote/f32"@
    } else if opcode == 0xbc {
        "i32.reinterpret/f32"@
    } else if opcode == 0xbd {
        "i64.reinterpret/f64"@
    } else if opcode == 0xbe {
        "f32.reinterpret/i32"@
    } else if opcode == 0xbf {
        "f64.reinterpret/i64"@
    } else {
        seq![]
    }
}

impl Instr {
    /// The mnemonic of the instruction.
    pub open spec fn name(self) -> Seq<char> {
        mnemonic(self.opcode())
    }

    pub fn to_instr_name(&self) -> (r: &'static str)
        ensures
            r@ == self.name(),
    {
        match self {
            Instr::Unreachable => "unreachable",
            Instr::Nop => "nop",
            Instr::Block(_) => "block",
            Instr::Loop(_) => "loop",
            Instr::If(_) => "if",
            Instr::Else => "else",
            Instr::End => "end",
            Instr::Br(_) => "br",
            Instr::BrIf(_) => "br_if",
            Instr::BrTable(_, _) => "br_table",
            Instr::Return => "return",
            Instr::Call(_) => "call",
            Instr::CallIndirect(_, _) => "call_indirect",
            Instr::Drop => "drop",
            Instr::Select => "select",
            Instr::GetLocal(_) => "get_local",
            Instr::SetLocal(_) => "set_local",
            Instr::TeeLocal(_) => "tee_local",
            Instr::GetGlobal(_) => "get_global",
            Instr::SetGlobal(_) => "set_global",
            Instr::I32Load(_) => "i32.load",
            Instr::I64Load(_) => "i64.load",
            Instr::F32Load(_) => "f32.load",
            Instr::F64Load(_) => "f64.load",
            Instr::I32Load8S(_) => "i32.load8_s",
            Instr::I32Load8U(_) => "i32.load8_u",
            Instr::I32Load16S(_) => "i32.load16_s",
            Instr::I32Load16U(_) => "i32.load16_u",
            Instr::I64Load8S(_) => "i64.load8_s",
            Instr::I64Load8U(_) => "i64.load8_u",
            Instr::I64Load16S(_) => "i64.load16_s",
            Instr::I64Load16U(_) => "i64.load16_u",
            Instr::I64Load32S(_) => "i64.load32_s",
            Instr::I64Load32U(_) => "i64.load32_u",
            Instr::I32Store(_) => "i32.store",
            Instr::I64Store(_) => "i64.store",
            Instr::F32Store(_) => "f32.store",
            Instr::F64Store(_) => "f64.store",
            Instr::I32Store8(_) => "i32.store8",
            Instr::I32Store16(_) => "i32.store16",
            Instr::I64Store8(_) => "i64.store8",
            Instr::I64Store16(_) => "i64.store16",
            Instr::I64Store32(_) => "i64.store32",
            Instr::CurrentMemory(_) => "current_memory",
            Instr::GrowMemory(_) => "grow_memory",
            Instr::I32Const(_) => "i32.const",
            Instr::I64Const(_) => "i64.const",
            Instr::F32Const(_) => "f32.const",
            Instr::F64Const(_) => "f64.const",
            Instr::I32Eqz => "i32.eqz",
            Instr::I32Eq => "i32.eq",
            Instr::I32Ne => "i32.ne",
            Instr::I32LtS => "i32.lt_s",
            Instr::I32LtU => "i32.lt_u",
            Instr::I32GtS => "i32.gt_s",
            Instr::I32GtU => "i32.gt_u",
            Instr::I32LeS => "i32.le_s",
            Instr::I32LeU => "i32.le_u",
            Instr::I32GeS => "i32.ge_s",
            Instr::I32GeU => "i32.ge_u",
            Instr::I64Eqz => "i64.eqz",
            Instr::I64Eq => "i64.eq",
            Instr::I64Ne => "i64.ne",
            Instr::I64LtS => "i64.lt_s",
            Instr::I64LtU => "i64.lt_u",
            Instr::I64GtS => "i64.gt_s",
            Instr::I64GtU => "i64.gt_u",
            Instr::I64LeS => "i64.le_s",
            Instr::I64LeU => "i64.le_u",
            Instr::I64GeS => "i64.ge_s",
            Instr::I64GeU => "i64.ge_u",
            Instr::F32Eq => "f32.eq",
            Instr::F32Ne => "f32.ne",
            Instr::F32Lt => "f32.lt",
            Instr::F32Gt => "f32.gt",
            Instr::F32Le => "f32.le",
            Instr::F32Ge => "f32.ge",
            Instr::F64Eq => "f64.eq",
            Instr::F64Ne => "f64.ne",
            Instr::F64Lt => "f64.lt",
            Instr::F64Gt => "f64.gt",
            Instr::F64Le => "f64.le",
            Instr::F64Ge => "f64.ge",
            Instr::I32Clz => "i32.clz",
            Instr::I32Ctz => "i32.ctz",
            Instr::I32Popcnt => "i32.popcnt",
            Instr::I32Add => "i32.add",
            Instr::I32Sub => "i32.sub",
            Instr::I32Mul => "i32.mul",
            Instr::I32DivS => "i32.div_s",
            Instr::I32DivU => "i32.div_u",
            Instr::I32RemS => "i32.rem_s",
            Instr::I32RemU => "i32.rem_u",
            Instr::I32And => "i32.and",
            Instr::I32Or => "i32.or",
            Instr::I32Xor => "i32.xor",
            Instr::I32Shl => "i32.shl",
            Instr::I32ShrS => "i32.shr_s",
            Instr::I32ShrU => "i32.shr_u",
            Instr::I32Rotl => "i32.rotl",
            Instr::I32Rotr => "i32.rotr",
            Instr::I64Clz => "i64.clz",
            Instr::I64Ctz => "i64.ctz",
            Instr::I64Popcnt => "i64.popcnt",
            Instr::I64Add => "i64.add",
            Instr::I64Sub => "i64.sub",
            Instr::I64Mul => "i64.mul",
            Instr::I64DivS => "i64.div_s",
            Instr::I64DivU => "i64.div_u",
            Instr::I64RemS => "i64.rem_s",
            Instr::I64RemU => "i64.rem_u",
            Instr::I64And => "i64.and",
            Instr::I64Or => "i64.or",
            Instr::I64Xor => "i64.xor",
            Instr::I64Shl => "i64.shl",
            Instr::I64ShrS => "i64.shr_s",
            Instr::I64ShrU => "i64.shr_u",
            Instr::I64Rotl => "i64.rotl",
            Instr::I64Rotr => "i64.rotr",
            Instr::F32Abs => "f32.abs",
            Instr::F32Neg => "f32.neg",
            Instr::F32Ceil => "f32.ceil",
            Instr::F32Floor => "f32.floor",
            Instr::F32Trunc => "f32.trunc",
            Instr::F32Nearest => "f32.nearest",
            Instr::F32Sqrt => "f32.sqrt",
            Instr::F32Add => "f32.add",
            Instr::F32Sub => "f32.sub",
            Instr::F32Mul => "f32.mul",
            Instr::F32Div => "f32.div",
            Instr::F32Min => "f32.min",
            Instr::F32Max => "f32.max",
            Instr::F32Copysign => "f32.copysign",
            Instr::F64Abs => "f64.abs",
            Instr::F64Neg => "f64.neg",
            Instr::F64Ceil => "f64.ceil",
            Instr::F64Floor => "f64.floor",
            Instr::F64Trunc => "f64.trunc",
            Instr::F64Nearest => "f64.nearest",
            Instr::F64Sqrt => "f64.sqrt",
            Instr::F64Add => "f64.add",
            Instr::F64Sub => "f64.sub",
            Instr::F64Mul => "f64.mul",
            Instr::F64Div => "f64.div",
            Instr::F64Min => "f64.min",
            Instr::F64Max => "f64.max",
            Instr::F64Copysign => "f64.copysign",
            Instr::I32WrapI64 => "i32.wrap/i64",
            Instr::I32TruncSF32 => "i32.trunc_s/f32",
            Instr::I32TruncUF32 => "i32.trunc_u/f32",
            Instr::I32TruncSF64 => "i32.trunc_s/f64",
            Instr::I32TruncUF64 => "i32.trunc_u/f64",
            Instr::I64ExtendSI32 => "i64.extend_s/i32",
            Instr::I64ExtendUI32 => "i64.extend_u/i32",
            Instr::I64TruncSF32 => "i64.trunc_s/f32",
            Instr::I64TruncUF32 => "i64.trunc_u/f32",
            Instr::I64TruncSF64 => "i64.trunc_s/f64",
            Instr::I64TruncUF64 => "i64.trunc_u/f64",
            Instr::F32ConvertSI32 => "f32.convert_s/i32",
            Instr::F32ConvertUI32 => "f32.convert_u/i32",
            Instr::F32ConvertSI64 => "f32.convert_s/i64",
            Instr::F32ConvertUI64 => "f32.convert_u/i64",
            Instr::F32DemoteF64 => "f32.demote/f64",
            Instr::F64ConvertSI32 => "f64.convert_s/i32",
            Instr::F64ConvertUI32 => "f64.convert_u/i32",
            Instr::F64ConvertSI64 => "f64.convert_s/i64",
            Instr::F64ConvertUI64 => "f64.convert_u/i64",
            Instr::F64PromoteF32 => "f64.promote/f32",
            Instr::I32ReinterpretF32 => "i32.reinterpret/f32",
            Instr::I64ReinterpretF64 => "i64.reinterpret/f64",
            Instr::F32ReinterpretI32 => "f32.reinterpret/i32",
            Instr::F64ReinterpretI64 => "f64.reinterpret/i64",
        }
    }

    /// The byte that encodes the instruction in the binary format. It
    /// tells the variants apart and ignores the immediates.
    pub open spec fn opcode_spec(&self) -> u8 {
        match *self {
            Instr::Unreachable => 0x00,
            Instr::Nop => 0x01,
            Instr::Block(_) => 0x02,
            Instr::Loop(_) => 0x03,
            Instr::If(_) => 0x04,
            Instr::Else => 0x05,
            Instr::End => 0x0b,
            Instr::Br(_) => 0x0c,
            Instr::BrIf(_) => 0x0d,
            Instr::BrTable(_, _) => 0x0e,
            Instr::Return => 0x0f,
            Instr::Call(_) => 0x10,
            Instr::CallIndirect(_, _) => 0x11,
            Instr::Drop => 0x1a,
            Instr::Select => 0x1b,
            Instr::GetLocal(_) => 0x20,
            Instr::SetLocal(_) => 0x21,
            Instr::TeeLocal(_) => 0x22,
            Instr::GetGlobal(_) => 0x23,
            Instr::SetGlobal(_) => 0x24,
            Instr::I32Load(_) => 0x28,
            Instr::I64Load(_) => 0x29,
            Instr::F32Load(_) => 0x2a,
            Instr::F64Load(_) => 0x2b,
            Instr::I32Load8S(_) => 0x2c,
            Instr::I32Load8U(_) => 0x2d,
            Instr::I32Load16S(_) => 0x2e,
            Instr::I32Load16U(_) => 0x2f,
            Instr::I64Load8S(_) => 0x30,
            Instr::I64Load8U(_) => 0x31,
            Instr::I64Load16S(_) => 0x32,
            Instr::I64Load16U(_) => 0x33,
            Instr::I64Load32S(_) => 0x34,
            Instr::I64Load32U(_) => 0x35,
            Instr::I32Store(_) => 0x36,
            Instr::I64Store(_) => 0x37,
            Instr::F32Store(_) => 0x38,
            Instr::F64Store(_) => 0x39,
            Instr::I32Store8(_) => 0x3a,
            Instr::I32Store16(_) => 0x3b,
            Instr::I64Store8(_) => 0x3c,
            Instr::I64Store16(_) => 0x3d,
            Instr::I64Store32(_) => 0x3e,
            Instr::CurrentMemory(_) => 0x3f,
            Instr::GrowMemory(_) => 0x40,
            Instr::I32Const(_) => 0x41,
            Instr::I64Const(_) => 0x42,
            Instr::F32Const(_) => 0x43,
            Instr::F64Const(_) => 0x44,
            Instr::I32Eqz => 0x45,
            Instr::I32Eq => 0x46,
            Instr::I32Ne => 0x47,
            Instr::I32LtS => 0x48,
            Instr::I32LtU => 0x49,
            Instr::I32GtS => 0x4a,
            Instr::I32GtU => 0x4b,
            Instr::I32LeS => 0x4c,
            Instr::I32LeU => 0x4d,
            Instr::I32GeS => 0x4e,
            Instr::I32GeU => 0x4f,
            Instr::I64Eqz => 0x50,
            Instr::I64Eq => 0x51,
            Instr::I64Ne => 0x52,
            Instr::I64LtS => 0x53,
            Instr::I64LtU => 0x54,
            Instr::I64GtS => 0x55,
            Instr::I64GtU => 0x56,
            Instr::I64LeS => 0x57,
            Instr::I64LeU => 0x58,
            Instr::I64GeS => 0x59,
            Instr::I64GeU => 0x5a,
            Instr::F32Eq => 0x5b,
            Instr::F32Ne => 0x5c,
            Instr::F32Lt => 0x5d,
            Instr::F32Gt => 0x5e,
            Instr::F32Le => 0x5f,
            Instr::F32Ge => 0x60,
            Instr::F64Eq => 0x61,
            Instr::F64Ne => 0x62,
            Instr::F64Lt => 0x63,
            Instr::F64Gt => 0x64,
            Instr::F64Le => 0x65,
            Instr::F64Ge => 0x66,
            Instr::I32Clz => 0x67,
            Instr::I32Ctz => 0x68,
            Instr::I32Popcnt => 0x69,
            Instr::I32Add => 0x6a,
            Instr::I32Sub => 0x6b,
            Instr::I32Mul => 0x6c,
            Instr::I32DivS => 0x6d,
            Instr::I32DivU => 0x6e,
            Instr::I32RemS => 0x6f,
            Instr::I32RemU => 0x70,
            Instr::I32And => 0x71,
            Instr::I32Or => 0x72,
            Instr::I32Xor => 0x73,
            Instr::I32Shl => 0x74,
            Instr::I32ShrS => 0x75,
            Instr::I32ShrU => 0x76,
            Instr::I32Rotl => 0x77,
            Instr::I32Rotr => 0x78,
            Instr::I64Clz => 0x79,
            Instr::I64Ctz => 0x7a,
            Instr::I64Popcnt => 0x7b,
            Instr::I64Add => 0x7c,
            Instr::I64Sub => 0x7d,
            Instr::I64Mul => 0x7e,
            Instr::I64DivS => 0x7f,
            Instr::I64DivU => 0x80,
            Instr::I64RemS => 0x81,
            Instr::I64RemU => 0x82,
            Instr::I64And => 0x83,
            Instr::I64Or => 0x84,
            Instr::I64Xor => 0x85,
            Instr::I64Shl => 0x86,
            Instr::I64ShrS => 0x87,
            Instr::I64ShrU => 0x88,
            Instr::I64Rotl => 0x89,
            Instr::I64Rotr => 0x8a,
            Instr::F32Abs => 0x8b,
            Instr::F32Neg => 0x8c,
            Instr::F32Ceil => 0x8d,
            Instr::F32Floor => 0x8e,
            Instr::F32Trunc => 0x8f,
            Instr::F32Nearest => 0x90,
            Instr::F32Sqrt => 0x91,
            Instr::F32Add => 0x92,
            Instr::F32Sub => 0x93,
            Instr::F32Mul => 0x94,
            Instr::F32Div => 0x95,
            Instr::F32Min => 0x96,
            Instr::F32Max => 0x97,
            Instr::F32Copysign => 0x98,
            Instr::F64Abs => 0x99,
            Instr::F64Neg => 0x9a,
            Instr::F64Ceil => 0x9b,
            Instr::F64Floor => 0x9c,
            Instr::F64Trunc => 0x9d,
            Instr::F64Nearest => 0x9e,
            Instr::F64Sqrt => 0x9f,
            Instr::F64Add => 0xa0,
            Instr::F64Sub => 0xa1,
            Instr::F64Mul => 0xa2,
            Instr::F64Div => 0xa3,
            Instr::F64Min => 0xa4,
            Instr::F64Max => 0xa5,
            Instr::F64Copysign => 0xa6,
            Instr::I32WrapI64 => 0xa7,
            Instr::I32TruncSF32 => 0xa8,
            Instr::I32TruncUF32 => 0xa9,
            Instr::I32TruncSF64 => 0xaa,
            Instr::I32TruncUF64 => 0xab,
            Instr::I64ExtendSI32 => 0xac,
            Instr::I64ExtendUI32 => 0xad,
            Instr::I64TruncSF32 => 0xae,
            Instr::I64TruncUF32 => 0xaf,
            Instr::I64TruncSF64 => 0xb0,
            Instr::I64TruncUF64 => 0xb1,
            Instr::F32ConvertSI32 => 0xb2,
            Instr::F32ConvertUI32 => 0xb3,
            Instr::F32ConvertSI64 => 0xb4,
            Instr::F32ConvertUI64 => 0xb5,
            Instr::F32DemoteF64 => 0xb6,
            Instr::F64ConvertSI32 => 0xb7,
            Instr::F64ConvertUI32 => 0xb8,
            Instr::F64ConvertSI64 => 0xb9,
            Instr::F64ConvertUI64 => 0xba,
            Instr::F64PromoteF32 => 0xbb,
            Instr::I32ReinterpretF32 => 0xbc,
            Instr::I64ReinterpretF64 => 0xbd,
            Instr::F32ReinterpretI32 => 0xbe,
            Instr::F64ReinterpretI64 => 0xbf,
        }
    }

    #[verifier::when_used_as_spec(opcode_spec)]
    pub fn opcode(&self) -> (r: u8)
        ensures
            r == self.opcode(),
    {
        match self {
            Instr::Unreachable => 0x00,
            Instr::Nop => 0x01,
            Instr::Block(_) => 0x02,
            Instr::Loop(_) => 0x03,
            Instr::If(_) => 0x04,
            Instr::Else => 0x05,
            Instr::End => 0x0b,
            Instr::Br(_) => 0x0c,
            Instr::BrIf(_) => 0x0d,
            Instr::BrTable(_, _) => 0x0e,
            Instr::Return => 0x0f,
            Instr::Call(_) => 0x10,
            Instr::CallIndirect(_, _) => 0x11,
            Instr::Drop => 0x1a,
            Instr::Select => 0x1b,
            Instr::GetLocal(_) => 0x20,
            Instr::SetLocal(_) => 0x21,
            Instr::TeeLocal(_) => 0x22,
            Instr::GetGlobal(_) => 0x23,
            Instr::SetGlobal(_) => 0x24,
            Instr::I32Load(_) => 0x28,
            Instr::I64Load(_) => 0x29,
            Instr::F32Load(_) => 0x2a,
            Instr::F64Load(_) => 0x2b,
            Instr::I32Load8S(_) => 0x2c,
            Instr::I32Load8U(_) => 0x2d,
            Instr::I32Load16S(_) => 0x2e,
            Instr::I32Load16U(_) => 0x2f,
            Instr::I64Load8S(_) => 0x30,
            Instr::I64Load8U(_) => 0x31,
            Instr::I64Load16S(_) => 0x32,
            Instr::I64Load16U(_) => 0x33,
            Instr::I64Load32S(_) => 0x34,
            Instr::I64Load32U(_) => 0x35,
            Instr::I32Store(_) => 0x36,
            Instr::I64Store(_) => 0x37,
            Instr::F32Store(_) => 0x38,
            Instr::F64Store(_) => 0x39,
            Instr::I32Store8(_) => 0x3a,
            Instr::I32Store16(_) => 0x3b,
            Instr::I64Store8(_) => 0x3c,
            Instr::I64Store16(_) => 0x3d,
            Instr::I64Store32(_) => 0x3e,
            Instr::CurrentMemory(_) => 0x3f,
            Instr::GrowMemory(_) => 0x40,
            Instr::I32Const(_) => 0x41,
            Instr::I64Const(_) => 0x42,
            Instr::F32Const(_) => 0x43,
            Instr::F64Const(_) => 0x44,
            Instr::I32Eqz => 0x45,
            Instr::I32Eq => 0x46,
            Instr::I32Ne => 0x47,
            Instr::I32LtS => 0x48,
            Instr::I32LtU => 0x49,
            Instr::I32GtS => 0x4a,
            Instr::I32GtU => 0x4b,
            Instr::I32LeS => 0x4c,
            Instr::I32LeU => 0x4d,
            Instr::I32GeS => 0x4e,
            Instr::I32GeU => 0x4f,
            Instr::I64Eqz => 0x50,
            Instr::I64Eq => 0x51,
            Instr::I64Ne => 0x52,
            Instr::I64LtS => 0x53,
            Instr::I64LtU => 0x54,
            Instr::I64GtS => 0x55,
            Instr::I64GtU => 0x56,
            Instr::I64LeS => 0x57,
            Instr::I64LeU => 0x58,
            Instr::I64GeS => 0x59,
            Instr::I64GeU => 0x5a,
            Instr::F32Eq => 0x5b,
            Instr::F32Ne => 0x5c,
            Instr::F32Lt => 0x5d,
            Instr::F32Gt => 0x5e,
            Instr::F32Le => 0x5f,
            Instr::F32Ge => 0x60,
            Instr::F64Eq => 0x61,
            Instr::F64Ne => 0x62,
            Instr::F64Lt => 0x63,
            Instr::F64Gt => 0x64,
            Instr::F64Le => 0x65,
            Instr::F64Ge => 0x66,
            Instr::I32Clz => 0x67,
            Instr::I32Ctz => 0x68,
            Instr::I32Popcnt => 0x69,
            Instr::I32Add => 0x6a,
            Instr::I32Sub => 0x6b,
            Instr::I32Mul => 0x6c,
            Instr::I32DivS => 0x6d,
            Instr::I32DivU => 0x6e,
            Instr::I32RemS => 0x6f,
            Instr::I32RemU => 0x70,
            Instr::I32And => 0x71,
            Instr::I32Or => 0x72,
            Instr::I32Xor => 0x73,
            Instr::I32Shl => 0x74,
            Instr::I32ShrS => 0x75,
            Instr::I32ShrU => 0x76,
            Instr::I32Rotl => 0x77,
            Instr::I32Rotr => 0x78,
            Instr::I64Clz => 0x79,
            Instr::I64Ctz => 0x7a,
            Instr::I64Popcnt => 0x7b,
            Instr::I64Add => 0x7c,
            Instr::I64Sub => 0x7d,
            Instr::I64Mul => 0x7e,
            Instr::I64DivS => 0x7f,
            Instr::I64DivU => 0x80,
            Instr::I64RemS => 0x81,
            Instr::I64RemU => 0x82,
            Instr::I64And => 0x83,
            Instr::I64Or => 0x84,
            Instr::I64Xor => 0x85,
            Instr::I64Shl => 0x86,
            Instr::I64ShrS => 0x87,
            Instr::I64ShrU => 0x88,
            Instr::I64Rotl => 0x89,
            Instr::I64Rotr => 0x8a,
            Instr::F32Abs => 0x8b,
            Instr::F32Neg => 0x8c,
            Instr::F32Ceil => 0x8d,
            Instr::F32Floor => 0x8e,
            Instr::F32Trunc => 0x8f,
            Instr::F32Nearest => 0x90,
            Instr::F32Sqrt => 0x91,
            Instr::F32Add => 0x92,
            Instr::F32Sub => 0x93,
            Instr::F32Mul => 0x94,
            Instr::F32Div => 0x95,
            Instr::F32Min => 0x96,
            Instr::F32Max => 0x97,
            Instr::F32Copysign => 0x98,
            Instr::F64Abs => 0x99,
            Instr::F64Neg => 0x9a,
            Instr::F64Ceil => 0x9b,
            Instr::F64Floor => 0x9c,
            Instr::F64Trunc => 0x9d,
            Instr::F64Nearest => 0x9e,
            Instr::F64Sqrt => 0x9f,
            Instr::F64Add => 0xa0,
            Instr::F64Sub => 0xa1,
            Instr::F64Mul => 0xa2,
            Instr::F64Div => 0xa3,
            Instr::F64Min => 0xa4,
            Instr::F64Max => 0xa5,
            Instr::F64Copysign => 0xa6,
            Instr::I32WrapI64 => 0xa7,
            Instr::I32TruncSF32 => 0xa8,
            Instr::I32TruncUF32 => 0xa9,
            Instr::I32TruncSF64 => 0xaa,
            Instr::I32TruncUF64 => 0xab,
            Instr::I64ExtendSI32 => 0xac,
            Instr::I64ExtendUI32 => 0xad,
            Instr::I64TruncSF32 => 0xae,
            Instr::I64TruncUF32 => 0xaf,
            Instr::I64TruncSF64 => 0xb0,
            Instr::I64TruncUF64 => 0xb1,
            Instr::F32ConvertSI32 => 0xb2,
            Instr::F32ConvertUI32 => 0xb3,
            Instr::F32ConvertSI64 => 0xb4,
            Instr::F32ConvertUI64 => 0xb5,
            Instr::F32DemoteF64 => 0xb6,
            Instr::F64ConvertSI32 => 0xb7,
            Instr::F64ConvertUI32 => 0xb8,
            Instr::F64ConvertSI64 => 0xb9,
            Instr::F64ConvertUI64 => 0xba,
            Instr::F64PromoteF32 => 0xbb,
            Instr::I32ReinterpretF32 => 0xbc,
            Instr::I64ReinterpretF64 => 0xbd,
            Instr::F32ReinterpretI32 => 0xbe,
            Instr::F64ReinterpretI64 => 0xbf,
        }
    }

    pub open spec fn group_spec(&self) -> InstrGroup {
        match *self {
            Instr::Unreachable
            | Instr::Nop
            | Instr::Block(_)
            | Instr::Loop(_)
            | Instr::If(_)
            | Instr::Else
            | Instr::End
            | Instr::Br(_)
            | Instr::BrIf(_)
            | Instr::BrTable(_, _)
            | Instr::Return
            | Instr::Call(_)
            | Instr::CallIndirect(_, _)
            | Instr::Drop
            | Instr::Select => {
                InstrGroup::Control
            },
            Instr::GetLocal(idx) => InstrGroup::Local(LocalOp::GetLocal, idx),
            Instr::SetLocal(idx) => InstrGroup::Local(LocalOp::SetLocal, idx),
            Instr::TeeLocal(idx) => InstrGroup::Local(LocalOp::TeeLocal, idx),
            Instr::GetGlobal(idx) => InstrGroup::Global(GlobalOp::GetGlobal, idx),
            Instr::SetGlobal(idx) => InstrGroup::Global(GlobalOp::SetGlobal, idx),
            Instr::I32Load(memarg) => InstrGroup::MemoryLoad(ValType::I32, memarg),
            Instr::I64Load(memarg) => InstrGroup::MemoryLoad(ValType::I64, memarg),
            Instr::F32Load(memarg) => InstrGroup::MemoryLoad(ValType::F32, memarg),
            Instr::F64Load(memarg) => InstrGroup::MemoryLoad(ValType::F64, memarg),
            Instr::I32Load8S(memarg) => InstrGroup::MemoryLoad(ValType::I32, memarg),
            Instr::I32Load8U(memarg) => InstrGroup::MemoryLoad(ValType::I32, memarg),
            Instr::I32Load16S(memarg) => InstrGroup::MemoryLoad(ValType::I32, memarg),
            Instr::I32Load16U(memarg) => InstrGroup::MemoryLoad(ValType::I32, memarg),
            Instr::I64Load8S(memarg) => InstrGroup::MemoryLoad(ValType::I64, memarg),
            Instr::I64Load8U(memarg) => InstrGroup::MemoryLoad(ValType::I64, memarg),
            Instr::I64Load16S(memarg) => InstrGroup::MemoryLoad(ValType::I64, memarg),
            Instr::I64Load16U(memarg) => InstrGroup::MemoryLoad(ValType::I64, memarg),
            Instr::I64Load32S(memarg) => InstrGroup::MemoryLoad(ValType::I64, memarg),
            Instr::I64Load32U(memarg) => InstrGroup::MemoryLoad(ValType::I64, memarg),
            Instr::I32Store(memarg) => InstrGroup::MemoryStore(ValType::I32, memarg),
            Instr::I64Store(memarg) => InstrGroup::MemoryStore(ValType::I64, memarg),
            Instr::F32Store(memarg) => InstrGroup::MemoryStore(ValType::F32, memarg),
            Instr::F64Store(memarg) => InstrGroup::MemoryStore(ValType::F64, memarg),
            Instr::I32Store8(memarg) => InstrGroup::MemoryStore(ValType::I32, memarg),
            Instr::I32Store16(memarg) => InstrGroup::MemoryStore(ValType::I32, memarg),
            Instr::I64Store8(memarg) => InstrGroup::MemoryStore(ValType::I64, memarg),
            Instr::I64Store16(memarg) => InstrGroup::MemoryStore(ValType::I64, memarg),
            Instr::I64Store32(memarg) => InstrGroup::MemoryStore(ValType::I64, memarg),
            Instr::CurrentMemory(_)
            | Instr::GrowMemory(_) => {
                InstrGroup::Control
            },
            Instr::I32Const(_) => InstrGroup::Const(ValType::I32),
            Instr::I64Const(_) => InstrGroup::Const(ValType::I64),
            Instr::F32Const(_) => InstrGroup::Const(ValType::F32),
            Instr::F64Const(_) => InstrGroup::Const(ValType::F64),
            Instr::I32Eqz => InstrGroup::Unary { input_ty: ValType::I32, result_ty: ValType::I32 },
            Instr::I32Eq
            | Instr::I32Ne
            | Instr::I32LtS
            | Instr::I32LtU
            | Instr::I32GtS
            | Instr::I32GtU
            | Instr::I32LeS
            | Instr::I32LeU
            | Instr::I32GeS
            | Instr::I32GeU => {
                InstrGroup::Binary { first_ty: ValType::I32, second_ty: ValType::I32, result_ty: ValType::I32 }
            },
            Instr::I64Eqz => InstrGroup::Unary { input_ty: ValType::I64, result_ty: ValType::I32 },
            Instr::I64Eq
            | Instr::I64Ne
            | Instr::I64LtS
            | Instr::I64LtU
            | Instr::I64GtS
            | Instr::I64GtU
            | Instr::I64LeS
            | Instr::I64LeU
            | Instr::I64GeS
            | Instr::I64GeU => {
                InstrGroup::Binary { first_ty: ValType::I64, second_ty: ValType::I64, result_ty: ValType::I32 }
            },
            Instr::F32Eq
            | Instr::F32Ne
            | Instr::F32Lt
            | Instr::F32Gt
            | Instr::F32Le
            | Instr::F32Ge => {
                InstrGroup::Binary { first_ty: ValType::F32, second_ty: ValType::F32, result_ty: ValType::I32 }
            },
            Instr::F64Eq
            | Instr::F64Ne
            | Instr::F64Lt
            | Instr::F64Gt
            | Instr::F64Le
            | Instr::F64Ge => {
                InstrGroup::Binary { first_ty: ValType::F64, second_ty: ValType::F64, result_ty: ValType::I32 }
            },
            Instr::I32Clz
            | Instr::I32Ctz
            | Instr::I32Popcnt => {
                InstrGroup::Unary { input_ty: ValType::I32, result_ty: ValType::I32 }
            },
            Instr::I32Add
            | Instr::I32Sub
            | Instr::I32Mul
            | Instr::I32DivS
            | Instr::I32DivU
            | Instr::I32RemS
            | Instr::I32RemU
            | Instr::I32And
            | Instr::I32Or
            | Instr::I32Xor
            | Instr::I32Shl
            | Instr::I32ShrS
            | Instr::I32ShrU
            | Instr::I32Rotl
            | Instr::I32Rotr => {
                InstrGroup::Binary { first_ty: ValType::I32, second_ty: ValType::I32, result_ty: ValType::I32 }
            },
            Instr::I64Clz
            | Instr::I64Ctz
            | Instr::I64Popcnt => {
                InstrGroup::Unary { input_ty: ValType::I64, result_ty: ValType::I64 }
            },
            Instr::I64Add
            | Instr::I64Sub
            | Instr::I64Mul
            | Instr::I64DivS
            | Instr::I64DivU
            | Instr::I64RemS
            | Instr::I64RemU
            | Instr::I64And
            | Instr::I64Or
            | Instr::I64Xor
            | Instr::I64Shl
            | Instr::I64ShrS
            | Instr::I64ShrU
            | Instr::I64Rotl
            | Instr::I64Rotr => {
                InstrGroup::Binary { first_ty: ValType::I64, second_ty: ValType::I64, result_ty: ValType::I64 }
            },
            Instr::F32Abs
            | Instr::F32Neg
            | Instr::F32Ceil
            | Instr::F32Floor
            | Instr::F32Trunc
            | Instr::F32Nearest
            | Instr::F32Sqrt => {
                InstrGroup::Unary { input_ty: ValType::F32, result_ty: ValType::F32 }
            },
            Instr::F32Add
            | Instr::F32Sub
            | Instr::F32Mul
            | Instr::F32Div
            | Instr::F32Min
            | Instr::F32Max
            | Instr::F32Copysign => {
                InstrGroup::Binary { first_ty: ValType::F32, second_ty: ValType::F32, result_ty: ValType::F32 }
            },
            Instr::F64Abs
            | Instr::F64Neg
            | Instr::F64Ceil
            | Instr::F64Floor
            | Instr::F64Trunc
            | Instr::F64Nearest
            | Instr::F64Sqrt => {
                InstrGroup::Unary { input_ty: ValType::F64, result_ty: ValType::F64 }
            },
            Instr::F64Add
            | Instr::F64Sub
            | Instr::F64Mul
            | Instr::F64Div
            | Instr::F64Min
            | Instr::F64Max
            | Instr::F64Copysign => {
                InstrGroup::Binary { first_ty: ValType::F64, second_ty: ValType::F64, result_ty: ValType::F64 }
            },
            Instr::I32WrapI64 => {
                InstrGroup::Unary { input_ty: ValType::I64, result_ty: ValType::I32 }
            },
            Instr::I32TruncSF32
            | Instr::I32TruncUF32 => {
                InstrGroup::Unary { input_ty: ValType::F32, result_ty: ValType::I32 }
            },
            Instr::I32TruncSF64
            | Instr::I32TruncUF64 => {
                InstrGroup::Unary { input_ty: ValType::F64, result_ty: ValType::I32 }
            },
            Instr::I64ExtendSI32
            | Instr::I64ExtendUI32 => {
                InstrGroup::Unary { input_ty: ValType::I32, result_ty: ValType::I64 }
            },
            Instr::I64TruncSF32
            | Instr::I64TruncUF32 => {
                InstrGroup::Unary { input_ty: ValType::F32, result_ty: ValType::I64 }
            },
            Instr::I64TruncSF64
            | Instr::I64TruncUF64 => {
                InstrGroup::Unary { input_ty: ValType::F64, result_ty: ValType::I64 }
            },
            Instr::F32ConvertSI32
            | Instr::F32ConvertUI32 => {
                InstrGroup::Unary { input_ty: ValType::I32, result_ty: ValType::F32 }
            },
            Instr::F32ConvertSI64
            | Instr::F32ConvertUI64 => {
                InstrGroup::Unary { input_ty: ValType::I64, result_ty: ValType::F32 }
            },
            Instr::F32DemoteF64 => {
                InstrGroup::Unary { input_ty: ValType::F64, result_ty: ValType::F32 }
            },
            Instr::F64ConvertSI32
            | Instr::F64ConvertUI32 => {
                InstrGroup::Unary { input_ty: ValType::I32, result_ty: ValType::F64 }
            },
            Instr::F64ConvertSI64
            | Instr::F64ConvertUI64 => {
                InstrGroup::Unary { input_ty: ValType::I64, result_ty: ValType::F64 }
            },
            Instr::F64PromoteF32 => {
                InstrGroup::Unary { input_ty: ValType::F32, result_ty: ValType::F64 }
            },
            Instr::I32ReinterpretF32 => {
                InstrGroup::Unary { input_ty: ValType::F32, result_ty: ValType::I32 }
            },
            Instr::I64ReinterpretF64 => {
                InstrGroup::Unary { input_ty: ValType::F64, result_ty: ValType::I64 }
            },
            Instr::F32ReinterpretI32 => {
                InstrGroup::Unary { input_ty: ValType::I32, result_ty: ValType::F32 }
            },
            Instr::F64ReinterpretI64 => {
                InstrGroup::Unary { input_ty: ValType::I64, result_ty: ValType::F64 }
            },
        }
    }

    #[verifier::when_used_as_spec(group_spec)]
    pub fn group(&self) -> (r: InstrGroup)
        ensures
            r == self.group(),
    {
        match self {
            Instr::Unreachable
            | Instr::Nop
            | Instr::Block(_)
            | Instr::Loop(_)
            | Instr::If(_)
            | Instr::Else
            | Instr::End
            | Instr::Br(_)
            | Instr::BrIf(_)
            | Instr::BrTable(_, _)
            | Instr::Return
            | Instr::Call(_)
            | Instr::CallIndirect(_, _)
            | Instr::Drop
            | Instr::Select => {
                InstrGroup::Control
            },
            Instr::GetLocal(idx) => InstrGroup::Local(LocalOp::GetLocal, *idx),
            Instr::SetLocal(idx) => InstrGroup::Local(LocalOp::SetLocal, *idx),
            Instr::TeeLocal(idx) => InstrGroup::Local(LocalOp::TeeLocal, *idx),
            Instr::GetGlobal(idx) => InstrGroup::Global(GlobalOp::GetGlobal, *idx),
            Instr::SetGlobal(idx) => InstrGroup::Global(GlobalOp::SetGlobal, *idx),
            Instr::I32Load(memarg) => InstrGroup::MemoryLoad(ValType::I32, *memarg),
            Instr::I64Load(memarg) => InstrGroup::MemoryLoad(ValType::I64, *memarg),
            Instr::F32Load(memarg) => InstrGroup::MemoryLoad(ValType::F32, *memarg),
            Instr::F64Load(memarg) => InstrGroup::MemoryLoad(ValType::F64, *memarg),
            Instr::I32Load8S(memarg) => InstrGroup::MemoryLoad(ValType::I32, *memarg),
            Instr::I32Load8U(memarg) => InstrGroup::MemoryLoad(ValType::I32, *memarg),
            Instr::I32Load16S(memarg) => InstrGroup::MemoryLoad(ValType::I32, *memarg),
            Instr::I32Load16U(memarg) => InstrGroup::MemoryLoad(ValType::I32, *memarg),
            Instr::I64Load8S(memarg) => InstrGroup::MemoryLoad(ValType::I64, *memarg),
            Instr::I64Load8U(memarg) => InstrGroup::MemoryLoad(ValType::I64, *memarg),
            Instr::I64Load16S(memarg) => InstrGroup::MemoryLoad(ValType::I64, *memarg),
            Instr::I64Load16U(memarg) => InstrGroup::MemoryLoad(ValType::I64, *memarg),
            Instr::I64Load32S(memarg) => InstrGroup::MemoryLoad(ValType::I64, *memarg),
            Instr::I64Load32U(memarg) => InstrGroup::MemoryLoad(ValType::I64, *memarg),
            Instr::I32Store(memarg) => InstrGroup::MemoryStore(ValType::I32, *memarg),
            Instr::I64Store(memarg) => InstrGroup::MemoryStore(ValType::I64, *memarg),
            Instr::F32Store(memarg) => InstrGroup::MemoryStore(ValType::F32, *memarg),
            Instr::F64Store(memarg) => InstrGroup::MemoryStore(ValType::F64, *memarg),
            Instr::I32Store8(memarg) => InstrGroup::MemoryStore(ValType::I32, *memarg),
            Instr::I32Store16(memarg) => InstrGroup::MemoryStore(ValType::I32, *memarg),
            Instr::I64Store8(memarg) => InstrGroup::MemoryStore(ValType::I64, *memarg),
            Instr::I64Store16(memarg) => InstrGroup::MemoryStore(ValType::I64, *memarg),
            Instr::I64Store32(memarg) => InstrGroup::MemoryStore(ValType::I64, *memarg),
            Instr::CurrentMemory(_)
            | Instr::GrowMemory(_) => {
                InstrGroup::Control
            },
            Instr::I32Const(_) => InstrGroup::Const(ValType::I32),
            Instr::I64Const(_) => InstrGroup::Const(ValType::I64),
            Instr::F32Const(_) => InstrGroup::Const(ValType::F32),
            Instr::F64Const(_) => InstrGroup::Const(ValType::F64),
            Instr::I32Eqz => InstrGroup::Unary { input_ty: ValType::I32, result_ty: ValType::I32 },
            Instr::I32Eq
            | Instr::I32Ne
            | Instr::I32LtS
            | Instr::I32LtU
            | Instr::I32GtS
            | Instr::I32GtU
            | Instr::I32LeS
            | Instr::I32LeU
            | Instr::I32GeS
            | Instr::I32GeU => {
                InstrGroup::Binary { first_ty: ValType::I32, second_ty: ValType::I32, result_ty: ValType::I32 }
            },
            Instr::I64Eqz => InstrGroup::Unary { input_ty: ValType::I64, result_ty: ValType::I32 },
            Instr::I64Eq
            | Instr::I64Ne
            | Instr::I64LtS
            | Instr::I64LtU
            | Instr::I64GtS
            | Instr::I64GtU
            | Instr::I64LeS
            | Instr::I64LeU
            | Instr::I64GeS
            | Instr::I64GeU => {
                InstrGroup::Binary { first_ty: ValType::I64, second_ty: ValType::I64, result_ty: ValType::I32 }
            },
            Instr::F32Eq
            | Instr::F32Ne
            | Instr::F32Lt
            | Instr::F32Gt
            | Instr::F32Le
            | Instr::F32Ge => {
                InstrGroup::Binary { first_ty: ValType::F32, second_ty: ValType::F32, result_ty: ValType::I32 }
            },
            Instr::F64Eq
            | Instr::F64Ne
            | Instr::F64Lt
            | Instr::F64Gt
            | Instr::F64Le
            | Instr::F64Ge => {
                InstrGroup::Binary { first_ty: ValType::F64, second_ty: ValType::F64, result_ty: ValType::I32 }
            },
            Instr::I32Clz
            | Instr::I32Ctz
            | Instr::I32Popcnt => {
                InstrGroup::Unary { input_ty: ValType::I32, result_ty: ValType::I32 }
            },
            Instr::I32Add
            | Instr::I32Sub
            | Instr::I32Mul
            | Instr::I32DivS
            | Instr::I32DivU
            | Instr::I32RemS
            | Instr::I32RemU
            | Instr::I32And
            | Instr::I32Or
            | Instr::I32Xor
            | Instr::I32Shl
            | Instr::I32ShrS
            | Instr::I32ShrU
            | Instr::I32Rotl
            | Instr::I32Rotr => {
                InstrGroup::Binary { first_ty: ValType::I32, second_ty: ValType::I32, result_ty: ValType::I32 }
            },
            Instr::I64Clz
            | Instr::I64Ctz
            | Instr::I64Popcnt => {
                InstrGroup::Unary { input_ty: ValType::I64, result_ty: ValType::I64 }
            },
            Instr::I64Add
            | Instr::I64Sub
            | Instr::I64Mul
            | Instr::I64DivS
            | Instr::I64DivU
            | Instr::I64RemS
            | Instr::I64RemU
            | Instr::I64And
            | Instr::I64Or
            | Instr::I64Xor
            | Instr::I64Shl
            | Instr::I64ShrS
            | Instr::I64ShrU
            | Instr::I64Rotl
            | Instr::I64Rotr => {
                InstrGroup::Binary { first_ty: ValType::I64, second_ty: ValType::I64, result_ty: ValType::I64 }
            },
            Instr::F32Abs
            | Instr::F32Neg
            | Instr::F32Ceil
            | Instr::F32Floor
            | Instr::F32Trunc
            | Instr::F32Nearest
            | Instr::F32Sqrt => {
                InstrGroup::Unary { input_ty: ValType::F32, result_ty: ValType::F32 }
            },
            Instr::F32Add
            | Instr::F32Sub
            | Instr::F32Mul
            | Instr::F32Div
            | Instr::F32Min
            | Instr::F32Max
            | Instr::F32Copysign => {
                InstrGroup::Binary { first_ty: ValType::F32, second_ty: ValType::F32, result_ty: ValType::F32 }
            },
            Instr::F64Abs
            | Instr::F64Neg
            | Instr::F64Ceil
            | Instr::F64Floor
            | Instr::F64Trunc
            | Instr::F64Nearest
            | Instr::F64Sqrt => {
                InstrGroup::Unary { input_ty: ValType::F64, result_ty: ValType::F64 }
            },
            Instr::F64Add
            | Instr::F64Sub
            | Instr::F64Mul
            | Instr::F64Div
            | Instr::F64Min
            | Instr::F64Max
            | Instr::F64Copysign => {
                InstrGroup::Binary { first_ty: ValType::F64, second_ty: ValType::F64, result_ty: ValType::F64 }
            },
            Instr::I32WrapI64 => {
                InstrGroup::Unary { input_ty: ValType::I64, result_ty: ValType::I32 }
            },
            Instr::I32TruncSF32
            | Instr::I32TruncUF32 => {
                InstrGroup::Unary { input_ty: ValType::F32, result_ty: ValType::I32 }
            },
            Instr::I32TruncSF64
            | Instr::I32TruncUF64 => {
                InstrGroup::Unary { input_ty: ValType::F64, result_ty: ValType::I32 }
            },
            Instr::I64ExtendSI32
            | Instr::I64ExtendUI32 => {
                InstrGroup::Unary { input_ty: ValType::I32, result_ty: ValType::I64 }
            },
            Instr::I64TruncSF32
            | Instr::I64TruncUF32 => {
                InstrGroup::Unary { input_ty: ValType::F32, result_ty: ValType::I64 }
            },
            Instr::I64TruncSF64
            | Instr::I64TruncUF64 => {
                InstrGroup::Unary { input_ty: ValType::F64, result_ty: ValType::I64 }
            },
            Instr::F32ConvertSI32
            | Instr::F32ConvertUI32 => {
                InstrGroup::Unary { input_ty: ValType::I32, result_ty: ValType::F32 }
            },
            Instr::F32ConvertSI64
            | Instr::F32ConvertUI64 => {
                InstrGroup::Unary { input_ty: ValType::I64, result_ty: ValType::F32 }
            },
            Instr::F32DemoteF64 => {
                InstrGroup::Unary { input_ty: ValType::F64, result_ty: ValType::F32 }
            },
            Instr::F64ConvertSI32
            | Instr::F64ConvertUI32 => {
                InstrGroup::Unary { input_ty: ValType::I32, result_ty: ValType::F64 }
            },
            Instr::F64ConvertSI64
            | Instr::F64ConvertUI64 => {
                InstrGroup::Unary { input_ty: ValType::I64, result_ty: ValType::F64 }
            },
            Instr::F64PromoteF32 => {
                InstrGroup::Unary { input_ty: ValType::F32, result_ty: ValType::F64 }
            },
            Instr::I32ReinterpretF32 => {
                InstrGroup::Unary { input_ty: ValType::F32, result_ty: ValType::I32 }
            },
            Instr::I64ReinterpretF64 => {
                InstrGroup::Unary { input_ty: ValType::F64, result_ty: ValType::I64 }
            },
            Instr::F32ReinterpretI32 => {
                InstrGroup::Unary { input_ty: ValType::I32, result_ty: ValType::F32 }
            },
            Instr::F64ReinterpretI64 => {
                InstrGroup::Unary { input_ty: ValType::I64, result_ty: ValType::F64 }
            },
        }
    }

    /// Whether the instruction holds no vector among its immediates, which
    /// is all but `br_table` and `call_indirect`.
    pub open spec fn is_flat(&self) -> bool {
        !(self is BrTable) && !(self is CallIndirect)
    }

    /// A second instance of the instruction. Of an instruction that holds a
    /// vector it is a clone, of which nothing is stated.
    pub fn duplicate(&self) -> (r: Instr)
        ensures
            self.is_flat() ==> r == *self,
    {
        match self {
            Instr::Unreachable => Instr::Unreachable,
            Instr::Nop => Instr::Nop,
            Instr::Block(a) => Instr::Block(*a),
            Instr::Loop(a) => Instr::Loop(*a),
            Instr::If(a) => Instr::If(*a),
            Instr::Else => Instr::Else,
            Instr::End => Instr::End,
            Instr::Br(a) => Instr::Br(*a),
            Instr::BrIf(a) => Instr::BrIf(*a),
            Instr::Return => Instr::Return,
            Instr::Call(a) => Instr::Call(*a),
            Instr::Drop => Instr::Drop,
            Instr::Select => Instr::Select,
            Instr::GetLocal(a) => Instr::GetLocal(*a),
            Instr::SetLocal(a) => Instr::SetLocal(*a),
            Instr::TeeLocal(a) => Instr::TeeLocal(*a),
            Instr::GetGlobal(a) => Instr::GetGlobal(*a),
            Instr::SetGlobal(a) => Instr::SetGlobal(*a),
            Instr::I32Load(a) => Instr::I32Load(*a),
            Instr::I64Load(a) => Instr::I64Load(*a),
            Instr::F32Load(a) => Instr::F32Load(*a),
            Instr::F64Load(a) => Instr::F64Load(*a),
            Instr::I32Load8S(a) => Instr::I32Load8S(*a),
            Instr::I32Load8U(a) => Instr::I32Load8U(*a),
            Instr::I32Load16S(a) => Instr::I32Load16S(*a),
            Instr::I32Load16U(a) => Instr::I32Load16U(*a),
            Instr::I64Load8S(a) => Instr::I64Load8S(*a),
            Instr::I64Load8U(a) => Instr::I64Load8U(*a),
            Instr::I64Load16S(a) => Instr::I64Load16S(*a),
            Instr::I64Load16U(a) => Instr::I64Load16U(*a),
            Instr::I64Load32S(a) => Instr::I64Load32S(*a),
            Instr::I64Load32U(a) => Instr::I64Load32U(*a),
            Instr::I32Store(a) => Instr::I32Store(*a),
            Instr::I64Store(a) => Instr::I64Store(*a),
            Instr::F32Store(a) => Instr::F32Store(*a),
            Instr::F64Store(a) => Instr::F64Store(*a),
            Instr::I32Store8(a) => Instr::I32Store8(*a),
            Instr::I32Store16(a) => Instr::I32Store16(*a),
            Instr::I64Store8(a) => Instr::I64Store8(*a),
            Instr::I64Store16(a) => Instr::I64Store16(*a),
            Instr::I64Store32(a) => Instr::I64Store32(*a),
            Instr::CurrentMemory(a) => Instr::CurrentMemory(*a),
            Instr::GrowMemory(a) => Instr::GrowMemory(*a),
            Instr::I32Const(a) => Instr::I32Const(*a),
            Instr::I64Const(a) => Instr::I64Const(*a),
            Instr::F32Const(a) => Instr::F32Const(*a),
            Instr::F64Const(a) => Instr::F64Const(*a),
            Instr::I32Eqz => Instr::I32Eqz,
            Instr::I32Eq => Instr::I32Eq,
            Instr::I32Ne => Instr::I32Ne,
            Instr::I32LtS => Instr::I32LtS,
            Instr::I32LtU => Instr::I32LtU,
            Instr::I32GtS => Instr::I32GtS,
            Instr::I32GtU => Instr::I32GtU,
            Instr::I32LeS => Instr::I32LeS,
            Instr::I32LeU => Instr::I32LeU,
            Instr::I32GeS => Instr::I32GeS,
            Instr::I32GeU => Instr::I32GeU,
            Instr::I64Eqz => Instr::I64Eqz,
            Instr::I64Eq => Instr::I64Eq,
            Instr::I64Ne => Instr::I64Ne,
            Instr::I64LtS => Instr::I64LtS,
            Instr::I64LtU => Instr::I64LtU,
            Instr::I64GtS => Instr::I64GtS,
            Instr::I64GtU => Instr::I64GtU,
            Instr::I64LeS => Instr::I64LeS,
            Instr::I64LeU => Instr::I64LeU,
            Instr::I64GeS => Instr::I64GeS,
            Instr::I64GeU => Instr::I64GeU,
            Instr::F32Eq => Instr::F32Eq,
            Instr::F32Ne => Instr::F32Ne,
            Instr::F32Lt => Instr::F32Lt,
            Instr::F32Gt => Instr::F32Gt,
            Instr::F32Le => Instr::F32Le,
            Instr::F32Ge => Instr::F32Ge,
            Instr::F64Eq => Instr::F64Eq,
            Instr::F64Ne => Instr::F64Ne,
            Instr::F64Lt => Instr::F64Lt,
            Instr::F64Gt => Instr::F64Gt,
            Instr::F64Le => Instr::F64Le,
            Instr::F64Ge => Instr::F64Ge,
            Instr::I32Clz => Instr::I32Clz,
            Instr::I32Ctz => Instr::I32Ctz,
            Instr::I32Popcnt => Instr::I32Popcnt,
            Instr::I32Add => Instr::I32Add,
            Instr::I32Sub => Instr::I32Sub,
            Instr::I32Mul => Instr::I32Mul,
            Instr::I32DivS => Instr::I32DivS,
            Instr::I32DivU => Instr::I32DivU,
            Instr::I32RemS => Instr::I32RemS,
            Instr::I32RemU => Instr::I32RemU,
            Instr::I32And => Instr::I32And,
            Instr::I32Or => Instr::I32Or,
            Instr::I32Xor => Instr::I32Xor,
            Instr::I32Shl => Instr::I32Shl,
            Instr::I32ShrS => Instr::I32ShrS,
            Instr::I32ShrU => Instr::I32ShrU,
            Instr::I32Rotl => Instr::I32Rotl,
            Instr::I32Rotr => Instr::I32Rotr,
            Instr::I64Clz => Instr::I64Clz,
            Instr::I64Ctz => Instr::I64Ctz,
            Instr::I64Popcnt => Instr::I64Popcnt,
            Instr::I64Add => Instr::I64Add,
            Instr::I64Sub => Instr::I64Sub,
            Instr::I64Mul => Instr::I64Mul,
            Instr::I64DivS => Instr::I64DivS,
            Instr::I64DivU => Instr::I64DivU,
            Instr::I64RemS => Instr::I64RemS,
            Instr::I64RemU => Instr::I64RemU,
            Instr::I64And => Instr::I64And,
            Instr::I64Or => Instr::I64Or,
            Instr::I64Xor => Instr::I64Xor,
            Instr::I64Shl => Instr::I64Shl,
            Instr::I64ShrS => Instr::I64ShrS,
            Instr::I64ShrU => Instr::I64ShrU,
            Instr::I64Rotl => Instr::I64Rotl,
            Instr::I64Rotr => Instr::I64Rotr,
            Instr::F32Abs => Instr::F32Abs,
            Instr::F32Neg => Instr::F32Neg,
            Instr::F32Ceil => Instr::F32Ceil,
            Instr::F32Floor => Instr::F32Floor,
            Instr::F32Trunc => Instr::F32Trunc,
            Instr::F32Nearest => Instr::F32Nearest,
            Instr::F32Sqrt => Instr::F32Sqrt,
            Instr::F32Add => Instr::F32Add,
            Instr::F32Sub => Instr::F32Sub,
            Instr::F32Mul => Instr::F32Mul,
            Instr::F32Div => Instr::F32Div,
            Instr::F32Min => Instr::F32Min,
            Instr::F32Max => Instr::F32Max,
            Instr::F32Copysign => Instr::F32Copysign,
            Instr::F64Abs => Instr::F64Abs,
            Instr::F64Neg => Instr::F64Neg,
            Instr::F64Ceil => Instr::F64Ceil,
            Instr::F64Floor => Instr::F64Floor,
            Instr::F64Trunc => Instr::F64Trunc,
            Instr::F64Nearest => Instr::F64Nearest,
            Instr::F64Sqrt => Instr::F64Sqrt,
            Instr::F64Add => Instr::F64Add,
            Instr::F64Sub => Instr::F64Sub,
            Instr::F64Mul => Instr::F64Mul,
            Instr::F64Div => Instr::F64Div,
            Instr::F64Min => Instr::F64Min,
            Instr::F64Max => Instr::F64Max,
            Instr::F64Copysign => Instr::F64Copysign,
            Instr::I32WrapI64 => Instr::I32WrapI64,
            Instr::I32TruncSF32 => Instr::I32TruncSF32,
            Instr::I32TruncUF32 => Instr::I32TruncUF32,
            Instr::I32TruncSF64 => Instr::I32TruncSF64,
            Instr::I32TruncUF64 => Instr::I32TruncUF64,
            Instr::I64ExtendSI32 => Instr::I64ExtendSI32,
            Instr::I64ExtendUI32 => Instr::I64ExtendUI32,
            Instr::I64TruncSF32 => Instr::I64TruncSF32,
            Instr::I64TruncUF32 => Instr::I64TruncUF32,
            Instr::I64TruncSF64 => Instr::I64TruncSF64,
            Instr::I64TruncUF64 => Instr::I64TruncUF64,
            Instr::F32ConvertSI32 => Instr::F32ConvertSI32,
            Instr::F32ConvertUI32 => Instr::F32ConvertUI32,
            Instr::F32ConvertSI64 => Instr::F32ConvertSI64,
            Instr::F32ConvertUI64 => Instr::F32ConvertUI64,
            Instr::F32DemoteF64 => Instr::F32DemoteF64,
            Instr::F64ConvertSI32 => Instr::F64ConvertSI32,
            Instr::F64ConvertUI32 => Instr::F64ConvertUI32,
            Instr::F64ConvertSI64 => Instr::F64ConvertSI64,
            Instr::F64ConvertUI64 => Instr::F64ConvertUI64,
            Instr::F64PromoteF32 => Instr::F64PromoteF32,
            Instr::I32ReinterpretF32 => Instr::I32ReinterpretF32,
            Instr::I64ReinterpretF64 => Instr::I64ReinterpretF64,
            Instr::F32ReinterpretI32 => Instr::F32ReinterpretI32,
            Instr::F64ReinterpretI64 => Instr::F64ReinterpretI64,
            Instr::BrTable(_, _) => self.clone(),
            Instr::CallIndirect(_, _) => self.clone(),
        }
    }

    /// The inputs and results of the instruction, where the instruction
    /// alone fixes them. The accesses to locals and globals, the calls, the
    /// branches, `drop`, `select` and the block instructions have none.
    pub open spec fn signature(self) -> Option<Signature> {
        match self.group() {
            InstrGroup::Const(ty) => Some(Signature { params: seq![], results: seq![ty] }),
            InstrGroup::Unary { input_ty, result_ty } => Some(
                Signature { params: seq![input_ty], results: seq![result_ty] },
            ),
            InstrGroup::Binary { first_ty, second_ty, result_ty } => Some(
                Signature { params: seq![first_ty, second_ty], results: seq![result_ty] },
            ),
            InstrGroup::MemoryLoad(ty, _) => Some(
                Signature { params: seq![ValType::I32], results: seq![ty] },
            ),
            InstrGroup::MemoryStore(ty, _) => Some(
                Signature { params: seq![ValType::I32, ty], results: seq![] },
            ),
            InstrGroup::Local(_, _) | InstrGroup::Global(_, _) => None,
            InstrGroup::Control => match self {
                Instr::Nop => Some(Signature { params: seq![], results: seq![] }),
                Instr::CurrentMemory(_) => Some(
                    Signature { params: seq![], results: seq![ValType::I32] },
                ),
                Instr::GrowMemory(_) => Some(
                    Signature { params: seq![ValType::I32], results: seq![ValType::I32] },
                ),
                _ => None,
            },
        }
    }

    pub fn to_type(&self) -> (r: Option<FunctionType>)
        ensures
            match r {
                Some(ty) => self.signature() == Some(ty@),
                None => self.signature().is_none(),
            },
    {
        match self.group() {
            InstrGroup::Const(ty) => Some(FunctionType::new(Vec::new(), types1(ty))),
            InstrGroup::Unary { input_ty, result_ty } => Some(
                FunctionType::new(types1(input_ty), types1(result_ty)),
            ),
            InstrGroup::Binary { first_ty, second_ty, result_ty } => Some(
                FunctionType::new(types2(first_ty, second_ty), types1(result_ty)),
            ),
            InstrGroup::MemoryLoad(ty, _) => Some(
                FunctionType::new(types1(ValType::I32), types1(ty)),
            ),
            InstrGroup::MemoryStore(ty, _) => Some(
                FunctionType::new(types2(ValType::I32, ty), Vec::new()),
            ),
            InstrGroup::Local(_, _) | InstrGroup::Global(_, _) => None,
            InstrGroup::Control => match self {
                Instr::Nop => Some(FunctionType::new(Vec::new(), Vec::new())),
                Instr::CurrentMemory(_) => Some(
                    FunctionType::new(Vec::new(), types1(ValType::I32)),
                ),
                Instr::GrowMemory(_) => Some(
                    FunctionType::new(types1(ValType::I32), types1(ValType::I32)),
                ),
                _ => None,
            },
        }
    }
}

/// The vector of one type.
pub fn types1(a: ValType) -> (r: Vec<ValType>)
    ensures
        r@ == seq![a],
{
    let r = vec![a];
    assert(r@ =~= seq![a]);
    r
}

/// The vector of two types.
pub fn types2(a: ValType, b: ValType) -> (r: Vec<ValType>)
    ensures
        r@ == seq![a, b],
{
    let r = vec![a, b];
    assert(r@ =~= seq![a, b]);
    r
}

/// The vector of three types.
pub fn types3(a: ValType, b: ValType, c: ValType) -> (r: Vec<ValType>)
    ensures
        r@ == seq![a, b, c],
{
    let r = vec![a, b, c];
    assert(r@ =~= seq![a, b, c]);
    r
}

} // verus!
