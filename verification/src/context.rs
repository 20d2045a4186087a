//! The per-call execution context: the bundle of interpreter resources one
//! invocation of compiled code works on.
//!
//! A context is built from an interpreter per invocation and discarded after
//! the call; only the resume cursor carries meaning across calls, and only
//! if the caller persists and re-supplies it. In this safe model the context
//! owns copies of the interpreter's resources; the call entry points copy
//! the mutated resources back when the call returns.

use crate::interp::{Contract, Gas, InstructionResult, Interpreter, InterpreterAction, SharedMemory};
use crate::stack::{EvmStack, Stack, STACK_CAPACITY};
use crate::word::zero_word;
use vstd::prelude::*;
use vstd::slice::slice_to_vec;

verus! {

/// The resources a compiled function sees during one invocation.
#[derive(Debug)]
pub struct EvmContext {
    /// The linear call memory.
    pub memory: SharedMemory,
    /// Contract information and call data.
    pub contract: Contract,
    /// The gas accounting state.
    pub gas: Gas,
    /// The action slot: initially whatever the interpreter held, may be
    /// overwritten by compiled code.
    pub next_action: InterpreterAction,
    /// The return data of the last nested call, read-only.
    pub return_data: Vec<u8>,
    /// Whether the call is static.
    pub is_static: bool,
    /// Where execution should resume; zero is the start of the function.
    pub resume_at: u32,
}

impl EvmContext {
    /// Builds a context from an interpreter, with a fresh resume cursor.
    pub fn from_interpreter(interpreter: &Interpreter) -> (r: Self)
        ensures
            r.memory@ == interpreter.shared_memory@,
            r.contract@ == interpreter.contract@,
            r.gas == interpreter.gas,
            r.next_action@ == interpreter.next_action@,
            r.return_data@ == interpreter.return_data_buffer@,
            r.is_static == interpreter.is_static,
            r.resume_at == 0u32,
    {
        EvmContext {
            memory: interpreter.shared_memory.clone(),
            contract: interpreter.contract.clone(),
            gas: interpreter.gas,
            next_action: interpreter.next_action.clone(),
            return_data: slice_to_vec(interpreter.return_data_buffer.as_slice()),
            is_static: interpreter.is_static,
            resume_at: 0,
        }
    }

    /// Builds a context from an interpreter together with an execution
    /// stack filled from the interpreter's stack and the value for the
    /// separate stack-length counter, kept outside the context so the fast
    /// calling path can pass them as direct arguments.
    pub fn from_interpreter_with_stack(interpreter: &Interpreter) -> (r: (Self, EvmStack, usize))
        ensures
            r.0.memory@ == interpreter.shared_memory@,
            r.0.contract@ == interpreter.contract@,
            r.0.gas == interpreter.gas,
            r.0.next_action@ == interpreter.next_action@,
            r.0.return_data@ == interpreter.return_data_buffer@,
            r.0.is_static == interpreter.is_static,
            r.0.resume_at == 0u32,
            r.2 == interpreter.stack@.len(),
            r.2 <= STACK_CAPACITY,
            r.1@.len() == STACK_CAPACITY,
            forall|i: int|
                0 <= i < interpreter.stack@.len() ==> r.1@[i] == interpreter.stack@[i],
            forall|i: int|
                interpreter.stack@.len() <= i < STACK_CAPACITY ==> r.1@[i] == zero_word(),
    {
        let (buffer, len) = EvmStack::from_interpreter_stack(&interpreter.stack);
        (Self::from_interpreter(interpreter), buffer, len)
    }

    /// Reconstructs a standalone interpreter by copying the context's
    /// contract, gas, memory, return data, static flag and action slot, and
    /// attaching the given stack: a full copy, not a live view, used when
    /// control must fall back to step-by-step interpretation.
    pub fn to_interpreter(&self, stack: Stack) -> (r: Interpreter)
        ensures
            r.contract@ == self.contract@,
            r.gas == self.gas,
            r.shared_memory@ == self.memory@,
            r.stack@ == stack@,
            r.return_data_buffer@ == self.return_data@,
            r.is_static == self.is_static,
            r.next_action@ == self.next_action@,
            r.instruction_result == InstructionResult::Continue,
    {
        Interpreter {
            contract: self.contract.clone(),
            gas: self.gas,
            shared_memory: self.memory.clone(),
            stack,
            return_data_buffer: slice_to_vec(self.return_data.as_slice()),
            is_static: self.is_static,
            next_action: self.next_action.clone(),
            instruction_result: InstructionResult::Continue,
        }
    }
}

} // verus!
