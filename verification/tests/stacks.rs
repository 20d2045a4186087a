use evm_jit_context::stack::{EvmStack, Stack, STACK_BYTES, STACK_CAPACITY};
use evm_jit_context::word::EvmWord;

fn zero_words(n: usize) -> Vec<EvmWord> {
    (0..n).map(|_| EvmWord::zero()).collect()
}

#[test]
fn undersized_storage_fails() {
    let words = zero_words(STACK_CAPACITY - 1);
    assert!(EvmStack::from_slice(&words).is_none());
    assert!(EvmStack::from_vec(&words).is_none());
}

#[test]
fn sufficient_storage_exposes_exactly_capacity() {
    let words = zero_words(STACK_CAPACITY);
    let stack = EvmStack::from_slice(&words).unwrap();
    assert_eq!(stack.as_slice().len(), STACK_CAPACITY);
    let larger = zero_words(STACK_CAPACITY + 5);
    let stack = EvmStack::from_vec(&larger).unwrap();
    assert_eq!(stack.as_slice().len(), STACK_CAPACITY);
}

#[test]
fn new_heap_is_exactly_capacity() {
    let buf = EvmStack::new_heap();
    assert_eq!(buf.len(), STACK_CAPACITY);
    assert!(EvmStack::from_vec(&buf).is_some());
}

#[test]
fn set_and_get_slot() {
    let mut stack = EvmStack::new();
    stack.set_word(5, EvmWord::from_u64(7));
    assert_eq!(stack.word_at(5).try_to_u64(), Some(7));
    assert_eq!(stack.word_at(4).try_to_u64(), Some(0));
}

#[test]
fn as_bytes_layout() {
    let mut stack = EvmStack::new();
    stack.set_word(1, EvmWord::from_u8(0xab));
    let bytes = stack.as_bytes();
    assert_eq!(bytes.len(), STACK_BYTES);
    // Slot 1 starts at byte 32; the word is little-endian in native order.
    assert_eq!(bytes[32], 0xab);
    assert_eq!(bytes[33], 0);
    assert_eq!(bytes[0], 0);
}

#[test]
fn interpreter_stack_capacity_checked() {
    assert!(Stack::from_words(zero_words(STACK_CAPACITY + 1)).is_none());
    let st = Stack::from_words(vec![EvmWord::from_u64(3), EvmWord::from_u64(4)]).unwrap();
    assert_eq!(st.len(), 2);
    assert_eq!(st.word_at(1).try_to_u64(), Some(4));
}

#[test]
fn interchange_with_interpreter_stack() {
    let st = Stack::from_words(vec![EvmWord::from_u64(3), EvmWord::from_u64(4)]).unwrap();
    let (buf, len) = EvmStack::from_interpreter_stack(&st);
    assert_eq!(len, 2);
    assert_eq!(buf.word_at(0).try_to_u64(), Some(3));
    assert_eq!(buf.word_at(1).try_to_u64(), Some(4));
    assert_eq!(buf.word_at(2).try_to_u64(), Some(0));
    let back = Stack::from_buffer(&buf, 2);
    assert_eq!(back.len(), 2);
    assert_eq!(back.word_at(0).try_to_u64(), Some(3));
    assert_eq!(back.word_at(1).try_to_u64(), Some(4));
}

#[test]
fn from_buffer_takes_prefix() {
    let mut buf = EvmStack::new();
    buf.set_word(0, EvmWord::from_u64(9));
    buf.set_word(1, EvmWord::from_u64(10));
    let st = Stack::from_buffer(&buf, 1);
    assert_eq!(st.len(), 1);
    assert_eq!(st.word_at(0).try_to_u64(), Some(9));
}
