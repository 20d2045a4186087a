//! Calling-convention bridge for ahead-of-time compiled EVM bytecode.
//!
//! Compiled functions are invoked against resources borrowed from an owning
//! interpreter: a canonical 256-bit word type with endian-aware conversions,
//! a fixed-capacity execution stack interchangeable with the interpreter's
//! own stack storage, a per-call context aggregate, and a typed wrapper over
//! the compiled-function calling convention that always hands its caller a
//! well-formed action back.

pub mod call;
pub mod context;
pub mod interp;
pub mod stack;
pub mod word;

pub use call::{apply_call_outcome, CompiledFn, Host, JitEvmFn};
pub use context::EvmContext;
pub use interp::{
    Contract, ContractView, Env, Gas, InstructionResult, Interpreter, InterpreterAction,
    InterpreterActionView, InterpreterResult, InterpreterResultView, SharedMemory,
};
pub use stack::{EvmStack, Stack, STACK_BYTES, STACK_CAPACITY};
pub use word::{Address, EvmWord, ADDRESS_BYTES, WORD_BYTES};
