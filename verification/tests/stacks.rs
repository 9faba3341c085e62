use wasm_instrumentation::ast::{Idx, ValType};
use wasm_instrumentation::block_stack::{label_to_instr_idx, Begin};
use wasm_instrumentation::type_stack::{TypeStack, TypeStackElement};

#[test]
fn labels_count_from_the_innermost_block() {
    let stack = vec![Begin::Function, Begin::Loop(3), Begin::Block(5), Begin::If(9), Begin::Else(12)];
    assert_eq!(label_to_instr_idx(&stack, Idx::new(0)), 12);
    assert_eq!(label_to_instr_idx(&stack, Idx::new(1)), 9);
    assert_eq!(label_to_instr_idx(&stack, Idx::new(2)), 5);
    assert_eq!(label_to_instr_idx(&stack, Idx::new(3)), 3);
    assert_eq!(label_to_instr_idx(&stack, Idx::new(4)), 0);
}

#[test]
fn op_takes_inputs_and_leaves_results() {
    let mut stack = TypeStack::new();
    stack.push(ValType::I32);
    stack.push(ValType::I64);
    stack.push(ValType::F32);
    assert!(stack.accepts(&[ValType::I64, ValType::F32]));
    assert!(!stack.accepts(&[ValType::F32, ValType::I64]));
    assert!(!stack.accepts(&[ValType::I32, ValType::I32, ValType::I64, ValType::F32]));
    stack.op(&[ValType::I64, ValType::F32], &[ValType::F64, ValType::I32]);
    assert_eq!(
        stack.0,
        vec![
            TypeStackElement::Val(ValType::I32),
            TypeStackElement::Val(ValType::F64),
            TypeStackElement::Val(ValType::I32),
        ]
    );
    assert_eq!(stack.pop(), ValType::I32);
    assert_eq!(stack.peek(), Some(ValType::F64));
}

#[test]
fn end_block_takes_everything_above_the_marker() {
    let mut stack = TypeStack::new();
    assert!(!stack.in_block());
    stack.push(ValType::I32);
    stack.begin_block(Some(ValType::F64));
    assert!(stack.in_block());
    assert_eq!(stack.peek(), None);
    assert!(!stack.accepts(&[ValType::I32]));
    stack.push(ValType::I64);
    stack.push(ValType::I64);
    assert_eq!(stack.end_block(), Some(ValType::F64));
    assert_eq!(stack.0, vec![TypeStackElement::Val(ValType::I32)]);
    assert!(!stack.in_block());
}

#[test]
fn accepts_no_inputs_on_an_empty_stack() {
    let stack = TypeStack::new();
    assert!(stack.accepts(&[]));
    assert_eq!(stack.peek(), None);
}
