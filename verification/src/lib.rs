//! Instrumentation of WebAssembly modules: every instruction of every
//! function is surrounded by calls to imported hook functions, which get
//! the location of the instruction, its operands and its results, and a
//! JavaScript file is generated that forwards each hook to an analysis.
//!
//! [`add_hooks::add_hooks`] instruments a module; [`add_hooks::instrument`]
//! does the same and reports a module that cannot be instrumented.

/// The representation of a module.
pub mod ast;
/// The names, opcodes and groups of the instructions.
pub mod group;

/// The stack of open blocks.
pub mod block_stack;
/// The types on the operand stack.
pub mod type_stack;
/// Type vectors in their order.
pub mod type_vectors;

/// The static information about a module.
pub mod static_info;
/// The static information as JSON.
pub mod json;

/// The registry of the hooks.
pub mod hooks;
/// The declaration of the hooks in a module.
pub mod register;

/// The two halves of an `i64`.
pub mod convert_i64;
/// What is spliced in around an instruction.
pub mod splice;
/// The rewrite of one instruction.
pub mod rewrite;
/// The rewrite of a function body.
pub mod body;
/// The instrumentation of a module.
pub mod add_hooks;

/// Texts of numbers and indentation.
pub mod text;
/// The generated JavaScript.
pub mod js_codegen;

/// What the spliced-in instructions do when they run.
pub mod machine;
/// The instructions and blocks that a rewritten body keeps.
pub mod skeleton;
/// The locals and functions that a rewritten body refers to.
pub mod arena;
/// The hook that reports an instruction.
pub mod reporting;
/// The names of the hooks.
pub mod naming;
/// What holds of every instrumented module.
pub mod guarantees;
