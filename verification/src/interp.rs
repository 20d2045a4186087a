//! Model of the interpreter collaborator at the boundary this crate uses:
//! gas, environment, status codes, linear memory, contract data, the action
//! protocol, and the interpreter aggregate itself.
//!
//! Only the fields enumerated here are ever read or written; the
//! interpreter's instruction-pointer and dispatch state stay out of scope.

use crate::stack::Stack;
use vstd::prelude::*;
use vstd::slice::slice_to_vec;

verus! {

/// Gas accounting state carried through a call.
#[derive(Clone, Copy, Debug, PartialEq, Eq, Structural)]
pub struct Gas {
    /// The gas limit of the call.
    pub limit: u64,
    /// Gas still available.
    pub remaining: u64,
    /// Gas refunded so far.
    pub refunded: i64,
}

impl Gas {
    /// Fresh gas state with the whole limit available.
    pub fn new(limit: u64) -> (r: Self)
        ensures
            r == (Gas { limit, remaining: limit, refunded: 0i64 }),
    {
        Gas { limit, remaining: limit, refunded: 0 }
    }
}

/// The environment and configuration structure that the host capability
/// exposes; compiled code receives it by direct reference.
#[derive(Clone, Copy, Debug, PartialEq, Eq, Structural)]
pub struct Env {
    /// Chain identifier.
    pub chain_id: u64,
    /// Effective gas price of the transaction.
    pub gas_price: u64,
    /// Number of the block being executed.
    pub block_number: u64,
}

impl Env {
    /// The all-zero environment.
    pub fn new() -> (r: Self)
        ensures
            r == (Env { chain_id: 0u64, gas_price: 0u64, block_number: 0u64 }),
    {
        Env { chain_id: 0, gas_price: 0, block_number: 0 }
    }
}

/// Status code of one execution segment: the vocabulary is shared with the
/// interpreter and is propagated, never swallowed.
#[derive(Clone, Copy, Debug, PartialEq, Eq, Structural)]
pub enum InstructionResult {
    /// Execution may continue.
    Continue,
    /// Execution halted normally without output.
    Stop,
    /// Execution halted normally with output.
    Return,
    /// The account destroyed itself.
    SelfDestruct,
    /// Execution reverted.
    Revert,
    /// Gas ran out.
    OutOfGas,
    /// A push overflowed the stack.
    StackOverflow,
    /// A pop underflowed the stack.
    StackUnderflow,
    /// A jump targeted an invalid destination.
    InvalidJump,
    /// The host reported an unrecoverable fault.
    FatalExternalError,
}

/// Linear call memory, shared with compiled code for the duration of a
/// call.
#[derive(Debug)]
pub struct SharedMemory {
    /// The memory bytes.
    pub data: Vec<u8>,
}

impl View for SharedMemory {
    type V = Seq<u8>;

    open spec fn view(&self) -> Seq<u8> {
        self.data@
    }
}

impl SharedMemory {
    /// Fresh, empty memory.
    pub fn new() -> (r: Self)
        ensures
            r@ == Seq::<u8>::empty(),
    {
        SharedMemory { data: Vec::new() }
    }
}

impl Clone for SharedMemory {
    fn clone(&self) -> (r: Self)
        ensures
            r@ == self@,
    {
        SharedMemory { data: slice_to_vec(self.data.as_slice()) }
    }
}

/// Contract information and call data for the frame being executed.
#[derive(Debug)]
pub struct Contract {
    /// The bytecode being executed.
    pub bytecode: Vec<u8>,
    /// The input (call data) of the call.
    pub input: Vec<u8>,
    /// The address the bytecode runs at.
    pub target_address: crate::word::Address,
    /// The value transferred with the call.
    pub call_value: crate::word::EvmWord,
}

/// The abstract value of a [`Contract`].
pub struct ContractView {
    /// Bytecode bytes.
    pub bytecode: Seq<u8>,
    /// Call-data bytes.
    pub input: Seq<u8>,
    /// Address bytes.
    pub target_address: Seq<u8>,
    /// Call-value bytes, native order.
    pub call_value: Seq<u8>,
}

impl View for Contract {
    type V = ContractView;

    open spec fn view(&self) -> ContractView {
        ContractView {
            bytecode: self.bytecode@,
            input: self.input@,
            target_address: self.target_address@,
            call_value: self.call_value@,
        }
    }
}

impl Clone for Contract {
    fn clone(&self) -> (r: Self)
        ensures
            r@ == self@,
    {
        Contract {
            bytecode: slice_to_vec(self.bytecode.as_slice()),
            input: slice_to_vec(self.input.as_slice()),
            target_address: self.target_address.clone(),
            call_value: self.call_value.clone(),
        }
    }
}

/// The outcome of one execution segment: a status, the produced output,
/// and the gas state it ended with.
#[derive(Debug)]
pub struct InterpreterResult {
    /// The status code the segment ended with.
    pub result: InstructionResult,
    /// The output bytes.
    pub output: Vec<u8>,
    /// The gas state at the end of the segment.
    pub gas: Gas,
}

/// The abstract value of an [`InterpreterResult`].
pub struct InterpreterResultView {
    /// The status code.
    pub result: InstructionResult,
    /// Output bytes.
    pub output: Seq<u8>,
    /// Gas state.
    pub gas: Gas,
}

impl View for InterpreterResult {
    type V = InterpreterResultView;

    open spec fn view(&self) -> InterpreterResultView {
        InterpreterResultView { result: self.result, output: self.output@, gas: self.gas }
    }
}

impl Clone for InterpreterResult {
    fn clone(&self) -> (r: Self)
        ensures
            r@ == self@,
    {
        InterpreterResult {
            result: self.result,
            output: slice_to_vec(self.output.as_slice()),
            gas: self.gas,
        }
    }
}

/// The next action an execution segment asks its caller to take: nothing
/// yet, or a terminal return.
#[derive(Debug)]
pub enum InterpreterAction {
    /// No action was set.
    Unset,
    /// Execution finished: return to the caller.
    Return {
        /// The result to return.
        result: InterpreterResult,
    },
}

/// The abstract value of an [`InterpreterAction`].
pub enum InterpreterActionView {
    /// No action was set.
    Unset,
    /// Execution finished.
    Return {
        /// The result returned.
        result: InterpreterResultView,
    },
}

impl View for InterpreterAction {
    type V = InterpreterActionView;

    open spec fn view(&self) -> InterpreterActionView {
        match self {
            InterpreterAction::Unset => InterpreterActionView::Unset,
            InterpreterAction::Return { result } => InterpreterActionView::Return {
                result: result@,
            },
        }
    }
}

impl Clone for InterpreterAction {
    fn clone(&self) -> (r: Self)
        ensures
            r@ == self@,
    {
        match self {
            InterpreterAction::Unset => InterpreterAction::Unset,
            InterpreterAction::Return { result } => InterpreterAction::Return {
                result: result.clone(),
            },
        }
    }
}

/// The interpreter aggregate, as visible at this boundary.
#[derive(Debug)]
pub struct Interpreter {
    /// Contract information and call data.
    pub contract: Contract,
    /// Gas accounting state.
    pub gas: Gas,
    /// Linear call memory.
    pub shared_memory: SharedMemory,
    /// The operand stack.
    pub stack: Stack,
    /// The return data of the last nested call.
    pub return_data_buffer: Vec<u8>,
    /// Whether the call is static.
    pub is_static: bool,
    /// The action slot compiled code may populate.
    pub next_action: InterpreterAction,
    /// The status the last segment ended with.
    pub instruction_result: InstructionResult,
}

} // verus!
