use evm_jit_context::call::{CompiledFn, Host, JitEvmFn};
use evm_jit_context::context::EvmContext;
use evm_jit_context::interp::{
    Contract, Env, Gas, InstructionResult, Interpreter, InterpreterAction, InterpreterResult,
    SharedMemory,
};
use evm_jit_context::stack::{EvmStack, Stack};
use evm_jit_context::word::{Address, EvmWord};

struct TestHost {
    env: Env,
}

impl Host for TestHost {
    fn env(&self) -> Env {
        self.env
    }

    fn set_env(&mut self, e: Env) {
        self.env = e;
    }
}

/// Sets an explicit next action and reports a status.
struct SetsAction;

impl CompiledFn for SetsAction {
    fn call(
        &mut self,
        _stack: &mut EvmStack,
        _stack_len: &mut usize,
        _env: &mut Env,
        ecx: &mut EvmContext,
    ) -> InstructionResult {
        ecx.next_action = InterpreterAction::Return {
            result: InterpreterResult {
                result: InstructionResult::Stop,
                output: vec![9, 9],
                gas: Gas::new(77),
            },
        };
        InstructionResult::Continue
    }
}

/// Sets no action; only reports a status.
struct NoAction(InstructionResult);

impl CompiledFn for NoAction {
    fn call(
        &mut self,
        _stack: &mut EvmStack,
        _stack_len: &mut usize,
        _env: &mut Env,
        _ecx: &mut EvmContext,
    ) -> InstructionResult {
        self.0
    }
}

/// Pushes one word, spends gas and writes the environment.
struct WritesState;

impl CompiledFn for WritesState {
    fn call(
        &mut self,
        stack: &mut EvmStack,
        stack_len: &mut usize,
        env: &mut Env,
        ecx: &mut EvmContext,
    ) -> InstructionResult {
        stack.set_word(0, EvmWord::from_u64(42));
        *stack_len = 1;
        ecx.gas.remaining -= 5;
        env.gas_price = 123;
        InstructionResult::Stop
    }
}

fn test_interpreter() -> Interpreter {
    Interpreter {
        contract: Contract {
            bytecode: vec![0x60, 0x01],
            input: vec![0xca, 0xfe],
            target_address: Address::from_bytes(vec![7u8; 20]),
            call_value: EvmWord::from_u64(5),
        },
        gas: Gas::new(1000),
        shared_memory: SharedMemory { data: vec![1, 2, 3] },
        stack: Stack::from_words(vec![EvmWord::from_u64(11)]).unwrap(),
        return_data_buffer: vec![4, 5],
        is_static: false,
        next_action: InterpreterAction::Unset,
        instruction_result: InstructionResult::Continue,
    }
}

#[test]
fn explicit_action_is_returned_and_slot_reset() {
    let mut interpreter = test_interpreter();
    let mut host = TestHost { env: Env::new() };
    let mut jit = JitEvmFn::new(SetsAction);
    let action = jit.call_with_interpreter(&mut interpreter, &mut host);
    match action {
        InterpreterAction::Return { result } => {
            assert_eq!(result.result, InstructionResult::Stop);
            assert_eq!(result.output, vec![9, 9]);
            assert_eq!(result.gas, Gas::new(77));
        }
        InterpreterAction::Unset => panic!("expected an explicit action"),
    }
    assert!(matches!(interpreter.next_action, InterpreterAction::Unset));
    assert_eq!(interpreter.instruction_result, InstructionResult::Continue);
}

#[test]
fn missing_action_synthesizes_terminal_return() {
    let mut interpreter = test_interpreter();
    let mut host = TestHost { env: Env::new() };
    let mut jit = JitEvmFn::new(NoAction(InstructionResult::Revert));
    let action = jit.call_with_interpreter(&mut interpreter, &mut host);
    match action {
        InterpreterAction::Return { result } => {
            assert_eq!(result.result, InstructionResult::Revert);
            assert!(result.output.is_empty());
            assert_eq!(result.gas, Gas::new(1000));
        }
        InterpreterAction::Unset => panic!("expected a synthesized action"),
    }
    assert!(matches!(interpreter.next_action, InterpreterAction::Unset));
    assert_eq!(interpreter.instruction_result, InstructionResult::Revert);
}

#[test]
fn pre_set_slot_is_extracted() {
    let mut interpreter = test_interpreter();
    interpreter.next_action = InterpreterAction::Return {
        result: InterpreterResult {
            result: InstructionResult::Return,
            output: vec![1],
            gas: Gas::new(3),
        },
    };
    let mut host = TestHost { env: Env::new() };
    let mut jit = JitEvmFn::new(NoAction(InstructionResult::Stop));
    let action = jit.call_with_interpreter(&mut interpreter, &mut host);
    match action {
        InterpreterAction::Return { result } => {
            assert_eq!(result.result, InstructionResult::Return);
            assert_eq!(result.output, vec![1]);
            assert_eq!(result.gas, Gas::new(3));
        }
        InterpreterAction::Unset => panic!("expected the pre-set action"),
    }
    assert!(matches!(interpreter.next_action, InterpreterAction::Unset));
}

#[test]
fn mutated_state_is_written_back() {
    let mut interpreter = test_interpreter();
    let mut host = TestHost { env: Env::new() };
    let mut jit = JitEvmFn::new(WritesState);
    let _ = jit.call_with_interpreter(&mut interpreter, &mut host);
    assert_eq!(interpreter.stack.len(), 1);
    assert_eq!(interpreter.stack.word_at(0).try_to_u64(), Some(42));
    assert_eq!(interpreter.gas.remaining, 995);
    assert_eq!(host.env.gas_price, 123);
    assert_eq!(interpreter.instruction_result, InstructionResult::Stop);
}

#[test]
fn low_level_call_hands_environment_through() {
    let interpreter = test_interpreter();
    let mut host = TestHost { env: Env::new() };
    let (mut ecx, mut stack, mut stack_len) =
        EvmContext::from_interpreter_with_stack(&interpreter);
    assert_eq!(stack_len, 1);
    let mut jit = JitEvmFn::new(WritesState);
    let status = jit.call(&mut stack, &mut stack_len, &mut ecx, &mut host);
    assert_eq!(status, InstructionResult::Stop);
    assert_eq!(host.env.gas_price, 123);
    assert_eq!(ecx.gas.remaining, 995);
}

#[test]
fn context_captures_interpreter_fields() {
    let interpreter = test_interpreter();
    let ecx = EvmContext::from_interpreter(&interpreter);
    assert_eq!(ecx.memory.data, vec![1, 2, 3]);
    assert_eq!(ecx.contract.bytecode, vec![0x60, 0x01]);
    assert_eq!(ecx.contract.input, vec![0xca, 0xfe]);
    assert_eq!(ecx.gas, Gas::new(1000));
    assert_eq!(ecx.return_data, vec![4, 5]);
    assert!(!ecx.is_static);
    assert_eq!(ecx.resume_at, 0);
}

#[test]
fn with_stack_copies_interpreter_stack() {
    let interpreter = test_interpreter();
    let (_, stack, len) = EvmContext::from_interpreter_with_stack(&interpreter);
    assert_eq!(len, 1);
    assert_eq!(stack.word_at(0).try_to_u64(), Some(11));
    assert_eq!(stack.word_at(1).try_to_u64(), Some(0));
}

#[test]
fn snapshot_reconstruction_copies_context() {
    let interpreter = test_interpreter();
    let ecx = EvmContext::from_interpreter(&interpreter);
    let stack = Stack::from_words(vec![EvmWord::from_u64(11)]).unwrap();
    let rebuilt = ecx.to_interpreter(stack);
    assert_eq!(rebuilt.contract.bytecode, interpreter.contract.bytecode);
    assert_eq!(rebuilt.contract.input, interpreter.contract.input);
    assert_eq!(
        rebuilt.contract.target_address.to_bytes(),
        interpreter.contract.target_address.to_bytes()
    );
    assert_eq!(rebuilt.gas, interpreter.gas);
    assert_eq!(rebuilt.shared_memory.data, interpreter.shared_memory.data);
    assert_eq!(rebuilt.return_data_buffer, interpreter.return_data_buffer);
    assert_eq!(rebuilt.is_static, interpreter.is_static);
    assert_eq!(rebuilt.instruction_result, InstructionResult::Continue);
    assert!(matches!(rebuilt.next_action, InterpreterAction::Unset));
    assert_eq!(rebuilt.stack.len(), 1);
    assert_eq!(rebuilt.stack.word_at(0).try_to_u64(), Some(11));
}

#[test]
fn wrap_and_unwrap() {
    let jit = JitEvmFn::new(NoAction(InstructionResult::Stop));
    let inner = jit.into_inner();
    assert_eq!(inner.0, InstructionResult::Stop);
}
