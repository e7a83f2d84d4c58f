use rusty_evm::address::Address;
use rusty_evm::evm::{Contract, ExecutionContext, ExecutionResult, StepOutcome, VMError, VM};
use rusty_evm::operation::{Operation, OperationError};
use rusty_evm::parser::{BytecodeParser, ParserError};
use rusty_evm::u256::U256;

fn test_address() -> Address {
    // 0x169EE3A023A8D9fF2E0D94cf8220b1Ba40D59794
    let bytes: Vec<u8> = vec![
        0x16, 0x9e, 0xe3, 0xa0, 0x23, 0xa8, 0xd9, 0xff, 0x2e, 0x0d, 0x94, 0xcf, 0x82, 0x20, 0xb1,
        0xba, 0x40, 0xd5, 0x97, 0x94,
    ];
    Address::from_bytes(bytes)
}

fn fresh_vm(code: Vec<u8>, value: u64, gas: u64) -> VM {
    VM::new(
        Contract::new(code),
        ExecutionContext::new(test_address(), test_address(), value, vec![], gas),
    )
}

#[test]
fn test_add_operation() {
    let code: Vec<u8> = vec![0x60, 0x01, 0x60, 0x01, 0x01];
    let mut vm = fresh_vm(code.clone(), 0, 100);
    let result = vm.execute_operations(code).unwrap();
    assert_eq!(*vm.stack.last().unwrap(), U256::from_u64(2));
    match result {
        ExecutionResult::Success { return_data, gas_used } => {
            assert!(return_data.is_none());
            assert_eq!(gas_used, 9);
        },
        ExecutionResult::Revert { .. } => panic!("expected success"),
    }
}

#[test]
fn test_storage_revert() {
    let code: Vec<u8> = vec![
        0x60, 42, // value to store
        0x60, 0, // key
        0x55, // store the value
        0x60, 0, // key
        0x54, // load the value back
        0x60, 10, // revert memory length
        0x60, 0, // revert memory offset
        0xfd, // trigger revert
    ];
    let wei: u64 = 1_000_000_000_000_000_000;
    let mut vm = fresh_vm(code.clone(), wei, wei);
    let result = vm.execute_operations(code).unwrap();
    let key = U256::from_u64(0);
    assert!(vm.contract.storage.get(&key).is_none());
    assert!(matches!(result, ExecutionResult::Revert { .. }), "Expected a revert operation.");
}

#[test]
fn storage_survives_success() {
    // store 42 at key 0 and run off the end: the write stays
    let code: Vec<u8> = vec![0x60, 42, 0x60, 0, 0x55];
    let mut vm = fresh_vm(code.clone(), 0, 100_000);
    let result = vm.execute_operations(code).unwrap();
    assert!(matches!(result, ExecutionResult::Success { .. }));
    let stored = vm.contract.storage.get(&U256::from_u64(0)).unwrap();
    assert_eq!(stored, U256::from_u64(42));
}

#[test]
fn sload_of_missing_slot_reads_zero() {
    let code: Vec<u8> = vec![0x60, 7, 0x54];
    let mut vm = fresh_vm(code.clone(), 0, 10_000);
    vm.execute_operations(code).unwrap();
    assert_eq!(*vm.stack.last().unwrap(), U256::from_u64(0));
}

#[test]
fn decoding_is_deterministic() {
    let code: Vec<u8> = vec![0x60, 0x01, 0x61, 0xaa, 0xbb, 0x01, 0x5b, 0x80];
    let mut first = BytecodeParser::new(code.clone());
    let mut second = BytecodeParser::new(code);
    assert_eq!(first.compile().unwrap(), second.compile().unwrap());
}

#[test]
fn incomplete_push_is_refused() {
    let mut parser = BytecodeParser::new(vec![0x61, 0x00]);
    assert_eq!(parser.compile(), Err(ParserError::IncompletePush));
    let mut bare = BytecodeParser::new(vec![0x60]);
    assert_eq!(bare.compile(), Err(ParserError::IncompletePush));
}

#[test]
fn sentinel_ends_decoding() {
    // bytes past 0xFE are ignored, even undecodable ones
    let mut parser = BytecodeParser::new(vec![0x60, 0x01, 0xfe, 0x0c, 0x99]);
    let ops = parser.compile().unwrap();
    assert_eq!(ops, vec![Operation::Push1(U256::from_u64(1))]);
}

#[test]
fn unknown_opcode_is_refused() {
    let mut parser = BytecodeParser::new(vec![0x0c]);
    assert_eq!(
        parser.compile(),
        Err(ParserError::InvalidOpcode(OperationError::UnknownOpcode))
    );
    assert_eq!(Operation::from_byte(0x0c, None), Err(OperationError::UnknownOpcode));
    assert_eq!(Operation::from_byte(0x60, None), Err(OperationError::PushOpNeedsData));
}

#[test]
fn compile_yields_operations() {
    let mut parser = BytecodeParser::new(vec![0x60, 0x01, 0x60, 0x01, 0x01]);
    let ops = parser.compile().expect("Compilation of bytecode failed");
    assert!(!ops.is_empty(), "The operations vector should not be empty");
    assert_eq!(
        ops,
        vec![
            Operation::Push1(U256::from_u64(1)),
            Operation::Push1(U256::from_u64(1)),
            Operation::Add,
        ]
    );
}

#[test]
fn short_stack_fails_without_state_change() {
    // Add on an empty stack: the dispatch guard fires and nothing moves
    let code: Vec<u8> = vec![0x01];
    let mut vm = fresh_vm(code.clone(), 0, 100);
    let result = vm.execute_operations(code);
    assert!(matches!(result, Err(VMError::NotEnoughItemsOnStack)));
    assert!(vm.stack.is_empty());
    assert!(vm.memory.is_empty());
    assert_eq!(vm.gas_used, 0);
}

#[test]
fn out_of_gas_is_reported() {
    let code: Vec<u8> = vec![0x60, 0x01];
    let mut vm = fresh_vm(code.clone(), 0, 0);
    assert!(matches!(vm.execute_operations(code), Err(VMError::OutOfGas)));
}

#[test]
fn not_implemented_operations_are_refused() {
    let code: Vec<u8> = vec![0x60, 0x01, 0x60, 0x01, 0x02];
    let mut vm = fresh_vm(code.clone(), 0, 100);
    assert!(matches!(vm.execute_operations(code), Err(VMError::NotImplemented)));
}

#[test]
fn invalid_bytecode_is_reported() {
    let code: Vec<u8> = vec![0x60];
    let mut vm = fresh_vm(code.clone(), 0, 100);
    assert!(matches!(vm.execute_operations(code), Err(VMError::InvalidBytecode)));
}

#[test]
fn empty_code_executes_nothing() {
    let code: Vec<u8> = vec![];
    let mut vm = fresh_vm(code.clone(), 0, 100);
    assert!(matches!(vm.execute_operations(code), Err(VMError::NoOperationExecuted)));
}

#[test]
fn stack_is_bounded() {
    let code: Vec<u8> = vec![0x5f; 1025];
    let mut vm = fresh_vm(code.clone(), 0, 100_000);
    assert!(matches!(vm.execute_operations(code), Err(VMError::StackFull)));
    assert_eq!(vm.stack.len(), 1024);
}

#[test]
fn calldataload_on_empty_stack_fails() {
    let code: Vec<u8> = vec![0x35];
    let mut vm = fresh_vm(code.clone(), 0, 100);
    assert!(matches!(vm.execute_operations(code), Err(VMError::NoItemsOnStack)));
}

#[test]
fn mstore_and_return_round_memory() {
    // store 0xAB as a word at offset 0, then return those 32 bytes
    let code: Vec<u8> = vec![0x60, 0xab, 0x60, 0x00, 0x52, 0x60, 0x00, 0x60, 0x20, 0xf3];
    let mut vm = fresh_vm(code.clone(), 0, 100_000);
    match vm.execute_operations(code).unwrap() {
        ExecutionResult::Success { return_data, gas_used } => {
            let data = return_data.unwrap();
            assert_eq!(data.len(), 32);
            assert_eq!(data[31], 0xab);
            assert!(data[..31].iter().all(|b| *b == 0));
            assert_eq!(gas_used, 15);
        },
        ExecutionResult::Revert { .. } => panic!("expected success"),
    }
}

#[test]
fn codecopy_copies_code_with_exact_gas() {
    // copy the first three code bytes to memory and return them
    let code: Vec<u8> = vec![
        0x60, 0x03, // size
        0x60, 0x00, // code offset
        0x60, 0x00, // destination
        0x39, // copy
        0x60, 0x00, // return offset
        0x60, 0x03, // return size
        0xf3,
    ];
    let mut vm = fresh_vm(code.clone(), 0, 100_000);
    match vm.execute_operations(code).unwrap() {
        ExecutionResult::Success { return_data, gas_used } => {
            assert_eq!(return_data.unwrap(), vec![0x60, 0x03, 0x60]);
            // five pushes at 3, the copy base 3 plus 3 gas for one word
            // plus the grown memory's cost of 3, and a free return
            assert_eq!(gas_used, 24);
        },
        ExecutionResult::Revert { .. } => panic!("expected success"),
    }
}

#[test]
fn calldataload_pads_with_zeros() {
    let code: Vec<u8> = vec![0x60, 0x00, 0x35];
    let mut vm = VM::new(
        Contract::new(code.clone()),
        ExecutionContext::new(test_address(), test_address(), 0, vec![0x01, 0x02], 1_000),
    );
    vm.execute_operations(code).unwrap();
    let top = *vm.stack.last().unwrap();
    assert_eq!(top, U256 { w0: 0, w1: 0, w2: 0, w3: 0x0102_0000_0000_0000 });
}

#[test]
fn jumpi_branches_on_nonzero() {
    // condition 1, destination operation index 4: the push of 0x63 is skipped
    let code: Vec<u8> = vec![0x60, 0x01, 0x60, 0x04, 0x57, 0x60, 0x63, 0x5b];
    let mut vm = fresh_vm(code.clone(), 0, 1_000);
    let result = vm.execute_operations(code).unwrap();
    assert!(matches!(result, ExecutionResult::Success { .. }));
    assert!(vm.stack.is_empty());
    assert_eq!(vm.gas_used, 12);
}

#[test]
fn jumpi_falls_through_on_zero() {
    let code: Vec<u8> = vec![0x60, 0x00, 0x60, 0x04, 0x57, 0x60, 0x63, 0x5b];
    let mut vm = fresh_vm(code.clone(), 0, 1_000);
    vm.execute_operations(code).unwrap();
    assert_eq!(*vm.stack.last().unwrap(), U256::from_u64(0x63));
}

#[test]
fn stop_halts_early() {
    let code: Vec<u8> = vec![0x60, 0x01, 0x00, 0x60, 0x02];
    let mut vm = fresh_vm(code.clone(), 0, 1_000);
    match vm.execute_operations(code).unwrap() {
        ExecutionResult::Success { return_data, gas_used } => {
            assert!(return_data.is_none());
            assert_eq!(gas_used, 3);
        },
        ExecutionResult::Revert { .. } => panic!("expected success"),
    }
    assert_eq!(vm.stack.len(), 1);
}

#[test]
fn dup_duplicates_and_iszero_tests() {
    let code: Vec<u8> = vec![0x60, 0x05, 0x80, 0x01];
    let mut vm = fresh_vm(code.clone(), 0, 1_000);
    vm.execute_operations(code).unwrap();
    assert_eq!(*vm.stack.last().unwrap(), U256::from_u64(10));

    let code2: Vec<u8> = vec![0x60, 0x00, 0x15];
    let mut vm2 = fresh_vm(code2.clone(), 0, 1_000);
    vm2.execute_operations(code2).unwrap();
    assert_eq!(*vm2.stack.last().unwrap(), U256::from_u64(1));

    let code3: Vec<u8> = vec![0x60, 0x07, 0x15];
    let mut vm3 = fresh_vm(code3.clone(), 0, 1_000);
    vm3.execute_operations(code3).unwrap();
    assert_eq!(*vm3.stack.last().unwrap(), U256::from_u64(0));
}

#[test]
fn operation_tables_match_the_schedule() {
    assert_eq!(Operation::Add.gas_cost().base, 3);
    assert_eq!(Operation::Mul.gas_cost().base, 5);
    assert_eq!(Operation::AddMod.gas_cost().base, 8);
    assert_eq!(Operation::SLoad.gas_cost().base, 800);
    assert_eq!(Operation::SStore.gas_cost().base, 5000);
    assert_eq!(Operation::SStore.gas_cost().dynamic_multiplier, 15000);
    assert_eq!(Operation::Create.gas_cost().base, 32000);
    assert_eq!(Operation::Call.gas_cost().base, 700);
    assert_eq!(Operation::SelfDestruct.gas_cost().base, 5000);
    assert_eq!(Operation::Stop.gas_cost().base, 0);
    assert_eq!(Operation::Return.gas_cost().base, 0);

    assert_eq!(Operation::Add.stack_req().min_stack_height, 2);
    assert_eq!(Operation::Pop.stack_req().min_stack_height, 1);
    assert_eq!(Operation::IsZero.stack_req().min_stack_height, 1);
    assert_eq!(Operation::SLoad.stack_req().min_stack_height, 1);
    assert_eq!(Operation::Jump.stack_req().min_stack_height, 1);
    assert_eq!(Operation::MStore.stack_req().min_stack_height, 2);
    assert_eq!(Operation::SStore.stack_req().min_stack_height, 2);
    assert_eq!(Operation::JumpI.stack_req().min_stack_height, 2);
    assert_eq!(Operation::Revert.stack_req().min_stack_height, 2);
    assert_eq!(Operation::CodeCopy.stack_req().min_stack_height, 3);
    assert_eq!(Operation::Dup(7).stack_req().min_stack_height, 7);

    assert_eq!(Operation::Push1(U256::zero()).additional_bytes(), 1);
    assert_eq!(Operation::Push32(U256::zero()).additional_bytes(), 32);
    assert_eq!(Operation::Add.additional_bytes(), 0);

    assert_eq!(Operation::Add.opcode(), 0x01);
    assert_eq!(Operation::Push1(U256::zero()).opcode(), 0x60);
    assert_eq!(Operation::Dup(1).opcode(), 0x80);
    assert_eq!(Operation::Dup(16).opcode(), 0x8f);
    assert_eq!(Operation::Revert.opcode(), 0xfd);
}

#[test]
fn decoded_operations_read_back_as_their_byte() {
    for byte in 0x80u8..=0x8f {
        let op = Operation::from_byte(byte, None).unwrap();
        assert_eq!(op.opcode(), byte);
    }
    for byte in [0x00u8, 0x01, 0x15, 0x39, 0x52, 0x54, 0x55, 0x57, 0x5b, 0x5f, 0x90, 0xa0, 0xf3,
        0xfd, 0xff]
    {
        let op = Operation::from_byte(byte, None).unwrap();
        assert_eq!(op.opcode(), byte);
    }
    for byte in 0x60u8..=0x7f {
        let op = Operation::from_byte(byte, Some(U256::from_u64(7))).unwrap();
        assert_eq!(op.opcode(), byte);
    }
}

#[test]
fn word_arithmetic_wraps() {
    let max = U256 { w0: u64::MAX, w1: u64::MAX, w2: u64::MAX, w3: u64::MAX };
    let one = U256::from_u64(1);
    assert_eq!(max.wrapping_add(&one), U256::zero());
    let two = one.wrapping_add(&one);
    assert_eq!(two, U256::from_u64(2));
    assert!(U256::zero().is_zero());
    assert!(!one.is_zero());
    assert_eq!(one.try_to_u64(), Some(1));
    assert_eq!(max.try_to_u64(), None);
    let bytes = U256::from_u64(0xabcd).to_be_bytes();
    assert_eq!(bytes.len(), 32);
    assert_eq!(bytes[30], 0xab);
    assert_eq!(bytes[31], 0xcd);
    let back = U256::from_be_range(&bytes, 0, 32);
    assert_eq!(back, U256::from_u64(0xabcd));
}

#[test]
fn call_contract_runs_the_deployed_code() {
    // a stale frame is reset, then the deployed code runs from the start
    let code: Vec<u8> = vec![0x60, 0x02, 0x60, 0x03, 0x01];
    let mut vm = fresh_vm(code, 0, 100);
    vm.execute_operations(vec![0x60, 0x63]).unwrap();
    assert_eq!(vm.stack.len(), 1);
    let tx = rusty_evm::transaction::Transaction::new(
        test_address(),
        0,
        100,
        0,
        0,
        vec![0xde, 0xad, 0xbe, 0xef],
        None,
    );
    let result = vm.call_contract(tx).unwrap();
    match result {
        ExecutionResult::Success { return_data, gas_used } => {
            assert!(return_data.is_none());
            assert_eq!(gas_used, 3 + 9);
        },
        ExecutionResult::Revert { .. } => panic!("expected success"),
    }
    assert_eq!(*vm.stack.last().unwrap(), U256::from_u64(5));
}

#[test]
fn call_contract_surfaces_the_code_failures() {
    let code: Vec<u8> = vec![0x01];
    let mut vm = fresh_vm(code, 0, 100);
    let tx = rusty_evm::transaction::Transaction::new(
        test_address(),
        0,
        100,
        0,
        0,
        vec![0xde, 0xad, 0xbe, 0xef],
        None,
    );
    assert!(matches!(vm.call_contract(tx), Err(VMError::NotEnoughItemsOnStack)));
}

#[test]
fn step_outcome_reports_halts() {
    // the outcome type distinguishes a halt from a continuation
    let halted = StepOutcome::Halted(ExecutionResult::Success { return_data: None, gas_used: 0 });
    assert!(matches!(halted, StepOutcome::Halted(_)));
    assert!(matches!(StepOutcome::KeepGoing, StepOutcome::KeepGoing));
}
