//! The typed wrapper over the compiled-function calling convention: the
//! host capability boundary, the compiled-function interface, the two call
//! entry points, and the processing of a call's outcome back into the
//! interpreter's action protocol.

use crate::context::EvmContext;
use crate::interp::{
    Env, InstructionResult, Interpreter, InterpreterAction, InterpreterActionView,
    InterpreterResult, InterpreterResultView,
};
use crate::stack::{EvmStack, Stack, STACK_CAPACITY};
use vstd::prelude::*;

verus! {

/// The host capability boundary this layer relies on: at minimum, access to
/// the environment/configuration structure. Storage, balance, nested-call
/// and log operations are consumed opaquely by compiled code and stay out of
/// scope here. Hosts are supplied by callers; nothing is promised of them.
pub trait Host {
    /// Reads the environment.
    fn env(&self) -> Env;

    /// Stores the environment back.
    fn set_env(&mut self, e: Env);
}

/// A compiled function: native code produced by translating bytecode ahead
/// of execution. The parameters mirror the fixed order of the calling
/// convention — gas, stack, stack length, environment, contract, context —
/// with gas and contract reached through the context, each resource having
/// exactly one owner in this model.
///
/// Only stack discipline is promised of the generated code: a call never
/// leaves more than the stack's capacity occupied. Nothing else a call does
/// is constrained; callers state what holds whatever came back.
pub trait CompiledFn {
    /// Runs one compiled execution segment and reports its status.
    fn call(
        &mut self,
        stack: &mut EvmStack,
        stack_len: &mut usize,
        env: &mut Env,
        ecx: &mut EvmContext,
    ) -> (r: InstructionResult)
        requires
            *old(stack_len) <= STACK_CAPACITY,
        ensures
            *final(stack_len) <= STACK_CAPACITY,
    ;
}

/// A compiled EVM bytecode function, wrapped for safe invocation.
#[derive(Clone, Copy, Debug, PartialEq, Eq)]
pub struct JitEvmFn<F> {
    f: F,
}

impl<F> JitEvmFn<F> {
    /// The wrapped function.
    pub closed spec fn func(&self) -> F {
        self.f
    }

    /// Wraps the function.
    pub fn new(f: F) -> (r: Self)
        ensures
            r.func() == f,
    {
        JitEvmFn { f }
    }

    /// Unwraps the function.
    pub fn into_inner(self) -> (r: F)
        ensures
            r == self.func(),
    {
        self.f
    }
}

impl<F: CompiledFn> JitEvmFn<F> {
    /// Calls the function: obtains the environment from the host, invokes
    /// the compiled segment on the stack, length counter and context, and
    /// hands the environment back before reporting the status.
    pub fn call<H: Host>(
        &mut self,
        stack: &mut EvmStack,
        stack_len: &mut usize,
        ecx: &mut EvmContext,
        host: &mut H,
    ) -> (r: InstructionResult)
        requires
            *old(stack_len) <= STACK_CAPACITY,
        ensures
            *final(stack_len) <= STACK_CAPACITY,
    {
        let mut env = host.env();
        let r = self.f.call(stack, stack_len, &mut env, ecx);
        host.set_env(env);
        r
    }

    /// Calls the function by re-using the interpreter's resources: builds a
    /// context and execution stack from the interpreter, invokes the
    /// compiled segment, stores the resulting status into the interpreter's
    /// status field, and determines the outcome. The caller always receives
    /// a well-formed action — the one the compiled code set, or a terminal
    /// return synthesized from the status — and the interpreter's action
    /// slot is left empty.
    pub fn call_with_interpreter<H: Host>(
        &mut self,
        interpreter: &mut Interpreter,
        host: &mut H,
    ) -> (action: InterpreterAction)
        ensures
            final(interpreter).next_action@ is Unset,
            !(action@ is Unset),
            final(interpreter).is_static == old(interpreter).is_static,
            final(interpreter).return_data_buffer@ == old(interpreter).return_data_buffer@,
    {
        let (mut ecx, mut stack, mut stack_len) = EvmContext::from_interpreter_with_stack(
            interpreter,
        );
        let status = self.call(&mut stack, &mut stack_len, &mut ecx, host);
        apply_call_outcome(interpreter, status, ecx, &stack, stack_len)
    }
}

/// Writes one call's outcome back into the interpreter and resolves the
/// action its caller receives: the status lands in the interpreter's status
/// field; gas, memory, contract and the occupied stack prefix are copied
/// back; the action slot is left empty. If the context's action slot was
/// populated, that action is extracted and returned; otherwise a terminal
/// return action is synthesized from the status, an empty output, and the
/// gas state of the call.
pub fn apply_call_outcome(
    interpreter: &mut Interpreter,
    status: InstructionResult,
    ecx: EvmContext,
    stack: &EvmStack,
    stack_len: usize,
) -> (action: InterpreterAction)
    requires
        stack_len <= STACK_CAPACITY,
    ensures
        final(interpreter).instruction_result == status,
        final(interpreter).gas == ecx.gas,
        final(interpreter).shared_memory@ == ecx.memory@,
        final(interpreter).contract@ == ecx.contract@,
        final(interpreter).stack@ == stack@.take(stack_len as int),
        final(interpreter).next_action@ is Unset,
        final(interpreter).is_static == old(interpreter).is_static,
        final(interpreter).return_data_buffer@ == old(interpreter).return_data_buffer@,
        ecx.next_action@ is Unset ==> action@ == (InterpreterActionView::Return {
            result: InterpreterResultView { result: status, output: Seq::empty(), gas: ecx.gas },
        }),
        !(ecx.next_action@ is Unset) ==> action@ == ecx.next_action@,
{
    let EvmContext { memory, contract, gas, next_action, return_data: _, is_static: _, resume_at: _ } =
        ecx;
    interpreter.instruction_result = status;
    interpreter.gas = gas;
    interpreter.shared_memory = memory;
    interpreter.contract = contract;
    interpreter.stack = Stack::from_buffer(stack, stack_len);
    interpreter.next_action = InterpreterAction::Unset;
    match next_action {
        InterpreterAction::Unset => {
            let result = InterpreterResult { result: status, output: Vec::new(), gas };
            proof {
                assert(result@.output =~= Seq::<u8>::empty());
            }
            InterpreterAction::Return { result }
        },
        action => action,
    }
}

} // verus!
