use rusty_evm::account::Account;
use rusty_evm::address::Address;
use rusty_evm::bytes::zero_bytes;
use rusty_evm::evm::{Contract, ExecutionContext, VMError, VM};
use rusty_evm::executor::Executor;
use rusty_evm::hashing::{hash_slice_to_b256, hash_string_to_u256};
use rusty_evm::evm::AddressNonce;
use rusty_evm::rlp::encode_address_nonce;
use rusty_evm::state::State;
use rusty_evm::transaction::{Transaction, TransactionError, ETH_TO_WEI, TRANSACTION_GAS_COST};
use rusty_evm::u256::U256;
use rusty_evm::wallet::Wallet;

#[test]
fn test_sign_verify() {
    let eth_wallet = Wallet::generate();
    let tx = Transaction::new(
        eth_wallet.address.duplicate(),
        100,
        21000,
        100,
        100,
        vec![],
        Some(&eth_wallet.private_key),
    );
    assert!(tx.verify_signature());
}

#[test]
fn signed_sender_is_the_wallet_address() {
    let eth_wallet = Wallet::generate();
    let tx = Transaction::new(
        eth_wallet.address.duplicate(),
        7,
        21000,
        1,
        2,
        vec![1, 2, 3],
        Some(&eth_wallet.private_key),
    );
    let sender = tx.get_sender_address().expect("recovery should succeed");
    assert_eq!(sender.bytes, eth_wallet.address.bytes);
}

#[test]
fn corrupted_signature_changes_the_sender() {
    let eth_wallet = Wallet::generate();
    let mut tx = Transaction::new(
        eth_wallet.address.duplicate(),
        7,
        21000,
        1,
        2,
        vec![],
        Some(&eth_wallet.private_key),
    );
    tx.signature[10] ^= 0x55;
    match tx.get_sender_address() {
        None => {},
        Some(sender) => assert_ne!(sender.bytes, eth_wallet.address.bytes),
    }
}

#[test]
fn unsigned_transaction_is_invalid() {
    let eth_wallet = Wallet::generate();
    let tx = Transaction::new(eth_wallet.address.duplicate(), 7, 21000, 1, 2, vec![], None);
    assert!(!tx.verify_signature());
    assert!(tx.get_sender_address().is_none());
    let mut state = State::new();
    assert_eq!(
        Executor::process_transaction(&tx, 1, &mut state),
        Err(TransactionError::InvalidTransaction)
    );
}

#[test]
fn test_transaction_basic() {
    let eth_wallet_sender = Wallet::generate();
    let eth_wallet_receiver = Wallet::generate();

    let mut state = State::new();

    assert!(state.get_account(&eth_wallet_receiver.address).is_none());
    assert!(state.get_account(&eth_wallet_sender.address).is_none());

    // transaction cost + base fee + priority fee
    state.set_account(
        eth_wallet_sender.address.duplicate(),
        Account::new(3 * ETH_TO_WEI, zero_bytes(32), zero_bytes(32)),
    );

    let tx = Transaction::new(
        eth_wallet_receiver.address.duplicate(),
        ETH_TO_WEI,
        TRANSACTION_GAS_COST,
        2_000_000_000,  // 2 Gwei max tip
        12_000_000_000, // 12 Gwei max total (base + priority)
        vec![],
        Some(&eth_wallet_sender.private_key),
    );

    let base_fee = 10;
    Executor::process_transaction(&tx, base_fee, &mut state).unwrap();

    let sender = state.get_account(&eth_wallet_sender.address).unwrap();
    let recv = state.get_account(&eth_wallet_receiver.address).unwrap();

    assert_eq!(sender.nonce, 1);
    assert_eq!(
        sender.balance,
        2 * ETH_TO_WEI - (TRANSACTION_GAS_COST * (base_fee + 2_000_000_000))
    );
    assert_eq!(recv.balance, ETH_TO_WEI);
}

#[test]
fn insufficient_balance_changes_nothing() {
    let sender = Wallet::generate();
    let receiver = Wallet::generate();
    let mut state = State::new();
    state.set_account(
        sender.address.duplicate(),
        Account::new(ETH_TO_WEI, zero_bytes(32), zero_bytes(32)),
    );
    let tx = Transaction::new(
        receiver.address.duplicate(),
        ETH_TO_WEI,
        TRANSACTION_GAS_COST,
        2_000_000_000,
        12_000_000_000,
        vec![],
        Some(&sender.private_key),
    );
    let r = Executor::process_transaction(&tx, 10, &mut state);
    assert_eq!(r, Err(TransactionError::InsufficientBalance));
    let account = state.get_account(&sender.address).unwrap();
    assert_eq!(account.balance, ETH_TO_WEI);
    assert_eq!(account.nonce, 0);
    assert!(state.get_account(&receiver.address).is_none());
}

#[test]
fn executor_error_order_is_exact() {
    let sender = Wallet::generate();
    let receiver = Wallet::generate();
    let mut state = State::new();

    // sender account missing
    let tx = Transaction::new(
        receiver.address.duplicate(),
        1,
        TRANSACTION_GAS_COST,
        1,
        5,
        vec![],
        Some(&sender.private_key),
    );
    assert_eq!(
        Executor::process_transaction(&tx, 1, &mut state),
        Err(TransactionError::SenderAccountDoesNotExist)
    );

    state.set_account(
        sender.address.duplicate(),
        Account::new(ETH_TO_WEI, zero_bytes(32), zero_bytes(32)),
    );

    // fee cap below base fee
    assert_eq!(
        Executor::process_transaction(&tx, 100, &mut state),
        Err(TransactionError::MaximumGasFeeBelowBaseFee)
    );

    // gas limit below the flat charge
    let short_gas = Transaction::new(
        receiver.address.duplicate(),
        1,
        TRANSACTION_GAS_COST - 1,
        1,
        5,
        vec![],
        Some(&sender.private_key),
    );
    assert_eq!(
        Executor::process_transaction(&short_gas, 1, &mut state),
        Err(TransactionError::InsufficientGas)
    );
}

#[test]
fn self_transfer_keeps_the_balance_down_by_the_fee() {
    let wallet = Wallet::generate();
    let mut state = State::new();
    state.set_account(
        wallet.address.duplicate(),
        Account::new(3 * ETH_TO_WEI, zero_bytes(32), zero_bytes(32)),
    );
    let tx = Transaction::new(
        wallet.address.duplicate(),
        ETH_TO_WEI,
        TRANSACTION_GAS_COST,
        2,
        5,
        vec![],
        Some(&wallet.private_key),
    );
    Executor::process_transaction(&tx, 1, &mut state).unwrap();
    let account = state.get_account(&wallet.address).unwrap();
    assert_eq!(account.nonce, 1);
    assert_eq!(account.balance, 3 * ETH_TO_WEI - TRANSACTION_GAS_COST * 3);
}

#[test]
fn contract_address_derivation_is_deterministic() {
    let vm = VM::new(
        Contract::new(vec![]),
        ExecutionContext::new(Address::zero(), Address::zero(), 0, vec![], 0),
    );
    let wallet = Wallet::generate();
    let first = vm.generate_contract_address(&wallet.address, 5);
    let second = vm.generate_contract_address(&wallet.address, 5);
    assert_eq!(first.bytes, second.bytes);
    assert_eq!(first.bytes.len(), 20);
    let other_nonce = vm.generate_contract_address(&wallet.address, 6);
    assert_ne!(first.bytes, other_nonce.bytes);
}

#[test]
fn rlp_encoding_is_exact() {
    let addr: Vec<u8> = vec![0xaa; 20];
    let zero_nonce = encode_address_nonce(&AddressNonce { address: addr.clone(), nonce: 0 });
    let mut expected: Vec<u8> = vec![0xd6, 0x94];
    expected.extend_from_slice(&[0xaa; 20]);
    expected.push(0x80);
    assert_eq!(zero_nonce, expected);

    let small = encode_address_nonce(&AddressNonce { address: addr.clone(), nonce: 0x2a });
    let mut expected_small: Vec<u8> = vec![0xd6, 0x94];
    expected_small.extend_from_slice(&[0xaa; 20]);
    expected_small.push(0x2a);
    assert_eq!(small, expected_small);

    let big = encode_address_nonce(&AddressNonce { address: addr.clone(), nonce: 1000 });
    let mut expected_big: Vec<u8> = vec![0xd8, 0x94];
    expected_big.extend_from_slice(&[0xaa; 20]);
    expected_big.extend_from_slice(&[0x82, 0x03, 0xe8]);
    assert_eq!(big, expected_big);
}

#[test]
fn keccak_matches_the_known_empty_digest() {
    let digest = hash_slice_to_b256(&[]);
    let expected: Vec<u8> = vec![
        0xc5, 0xd2, 0x46, 0x01, 0x86, 0xf7, 0x23, 0x3c, 0x92, 0x7e, 0x7d, 0xb2, 0xdc, 0xc7, 0x03,
        0xc0, 0xe5, 0x00, 0xb6, 0x53, 0xca, 0x82, 0x27, 0x3b, 0x7b, 0xfa, 0xd8, 0x04, 0x5d, 0x85,
        0xa4, 0x70,
    ];
    assert_eq!(digest, expected);
}

#[test]
fn string_hash_agrees_with_byte_hash() {
    let from_str = hash_string_to_u256("counter");
    let from_bytes = hash_slice_to_b256("counter".as_bytes());
    let word = U256::from_be_range(&from_bytes, 0, 32);
    assert_eq!(from_str, word);
}

#[test]
fn contract_creation_credits_the_new_account() {
    let wallet = Wallet::generate();
    let init_code: Vec<u8> = vec![0x60, 0x01, 0x60, 0x01, 0x01];
    let tx = Transaction::new(
        Address::zero(),
        1234,
        100_000,
        1,
        2,
        init_code.clone(),
        Some(&wallet.private_key),
    );
    let mut state = State::new();
    let mut vm = VM::new(
        Contract::new(init_code.clone()),
        ExecutionContext::new(
            wallet.address.duplicate(),
            Address::zero(),
            1234,
            vec![],
            100_000,
        ),
    );
    let derived = vm.generate_contract_address(&wallet.address, 0);
    vm.execute_transaction(tx, &mut state).unwrap();
    let account = state.get_account(&derived).expect("created account should exist");
    assert_eq!(account.balance, 1234);
    assert_eq!(account.nonce, 0);
    assert_eq!(account.code_hash, hash_slice_to_b256(&init_code));
    assert_eq!(account.storage_root, vec![0u8; 32]);
}

#[test]
fn missing_contract_is_reported() {
    let wallet = Wallet::generate();
    let tx = Transaction::new(
        wallet.address.duplicate(),
        0,
        100,
        1,
        2,
        vec![0xde, 0xad, 0xbe, 0xef],
        Some(&wallet.private_key),
    );
    let mut state = State::new();
    assert!(matches!(
        Executor::process_transaction_contract(tx, &mut state),
        Err(VMError::ContractNotFound)
    ));
}

#[test]
fn contract_call_goes_through_the_executor() {
    let wallet = Wallet::generate();
    let tx = Transaction::new(
        wallet.address.duplicate(),
        0,
        100,
        1,
        2,
        vec![0xde, 0xad, 0xbe, 0xef],
        Some(&wallet.private_key),
    );
    let mut state = State::new();
    state.contract.set(wallet.address.duplicate(), Contract::new(vec![0x5b]));
    assert_eq!(Executor::process_transaction_contract(tx, &mut state), Ok(()));

    // the deployed code really runs: its failures surface
    let bad_tx = Transaction::new(
        wallet.address.duplicate(),
        0,
        100,
        1,
        2,
        vec![0xde, 0xad, 0xbe, 0xef],
        Some(&wallet.private_key),
    );
    let mut bad_state = State::new();
    bad_state.contract.set(wallet.address.duplicate(), Contract::new(vec![0x01]));
    assert_eq!(
        Executor::process_transaction_contract(bad_tx, &mut bad_state),
        Err(VMError::NotEnoughItemsOnStack)
    );
}

#[test]
fn signing_a_transaction_reports_success() {
    let wallet = Wallet::generate();
    let mut tx = Transaction::new(wallet.address.duplicate(), 1, 21000, 1, 2, vec![], None);
    assert_eq!(tx.sign(&wallet.private_key), Ok(()));
    assert!(tx.verify_signature());
    let bad_key: Vec<u8> = vec![0u8; 32];
    let mut other = Transaction::new(wallet.address.duplicate(), 1, 21000, 1, 2, vec![], None);
    assert!(other.sign(&bad_key).is_err());
    assert!(!other.verify_signature());
}

#[test]
fn wallet_strings_are_prefixed_hexadecimal() {
    let wallet = Wallet::generate();
    let private = wallet.get_private_key();
    let public = wallet.get_public_key();
    let address = wallet.get_address();
    assert_eq!(private.len(), 2 + 64);
    assert_eq!(public.len(), 2 + 130);
    assert_eq!(address.len(), 2 + 40);
    assert!(private.starts_with("0x"));
    assert!(public.starts_with("0x"));
    assert!(address.starts_with("0x"));
    assert!(public.chars().skip(2).all(|c| c.is_ascii_hexdigit()));
}

#[test]
fn checksum_address_matches_the_reference_encoder() {
    let wallet = Wallet::generate();
    let ours = wallet.get_address();
    let reference = alloy_primitives::Address::from_slice(&wallet.address.bytes).to_checksum(None);
    assert_eq!(ours, reference);
}

#[test]
fn hex_rendering_is_exact() {
    let rendered = rusty_evm::wallet::hex_string(&vec![0x00, 0xff, 0x1a]);
    assert_eq!(rendered, "0x00ff1a");
}

#[test]
fn storage_reads_fall_back_to_zero() {
    let mut state = State::new();
    let addr = Address::zero();
    let key: Vec<u8> = vec![7u8; 32];
    assert_eq!(state.get_storage(&addr, &key), vec![0u8; 32]);
    state.set_storage(addr.duplicate(), key.clone(), vec![9u8; 32]);
    assert_eq!(state.get_storage(&addr, &key), vec![9u8; 32]);
}

#[test]
fn blocks_collect_transactions() {
    let mut block = rusty_evm::block::Block::new(3, 0, zero_bytes(32), zero_bytes(32));
    assert_eq!(block.slot, 3);
    let wallet = Wallet::generate();
    let tx = Transaction::new(wallet.address.duplicate(), 1, 21000, 1, 2, vec![], None);
    block.add_transaction(tx);
    assert_eq!(block.body.execution_payload.transactions.len(), 1);
}
