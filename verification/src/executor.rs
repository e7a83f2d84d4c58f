//! The transaction executor: the single entry that validates fees,
//! signature and balance, debits the sender, credits the recipient, and
//! routes contract transactions into the machine.
use vstd::prelude::*;
use crate::account::{Account, AccountView};
use crate::address::spec_zero_address;
use crate::bytes::{clone_bytes, zero_bytes};
use crate::evm::{
    ExecutionContext, VM, VMError, VmModel, spec_contract_address, spec_run,
};
use crate::state::State;
use crate::transaction::{
    Transaction, TransactionError, TRANSACTION_GAS_COST, spec_sender, spec_verify_signature,
};

verus! {

/// The price per unit of gas a transaction actually pays: its fee cap,
/// bounded below the base fee plus its priority fee.
pub open spec fn spec_effective_fee(tx: &Transaction, base_fee: u64) -> int {
    if tx.max_fee_per_gas < base_fee + tx.max_priority_fee_per_gas {
        tx.max_fee_per_gas as int
    } else {
        base_fee + tx.max_priority_fee_per_gas
    }
}

/// The whole fee a transaction pays: the flat gas charge at the
/// effective price.
pub open spec fn spec_total_fee(tx: &Transaction, base_fee: u64) -> int {
    TRANSACTION_GAS_COST * spec_effective_fee(tx, base_fee)
}

/// Whether the executor accepts a transaction against the given
/// accounts, and the exact error when it refuses: no recoverable sender,
/// an unknown sender account, a fee cap below the base fee, a gas limit
/// below the flat charge, a failing signature, or a balance below the
/// value plus the fee — checked in that order.
pub open spec fn spec_process_outcome(
    tx: &Transaction,
    base_fee: u64,
    accounts: Map<Seq<u8>, AccountView>,
) -> Result<(), TransactionError> {
    match spec_sender(tx) {
        None => Err(TransactionError::InvalidTransaction),
        Some(sender) => if !accounts.contains_key(sender) {
            Err(TransactionError::SenderAccountDoesNotExist)
        } else if base_fee > tx.max_fee_per_gas {
            Err(TransactionError::MaximumGasFeeBelowBaseFee)
        } else if tx.gas_limit < TRANSACTION_GAS_COST {
            Err(TransactionError::InsufficientGas)
        } else if !spec_verify_signature(tx) {
            Err(TransactionError::InvalidSignature)
        } else if (accounts[sender].balance as int) < tx.value + spec_total_fee(tx, base_fee) {
            Err(TransactionError::InsufficientBalance)
        } else {
            Ok(())
        },
    }
}

/// The accounts after an accepted transaction: the sender debited by the
/// value plus the fee with its nonce advanced, then the recipient —
/// created empty if absent — credited with the value.
pub open spec fn spec_process_accounts(
    tx: &Transaction,
    base_fee: u64,
    accounts: Map<Seq<u8>, AccountView>,
) -> Map<Seq<u8>, AccountView>
    recommends
        spec_sender(tx) is Some,
        accounts.contains_key(spec_sender(tx).unwrap()),
{
    let sender = spec_sender(tx).unwrap();
    let a = accounts[sender];
    let debited = AccountView {
        nonce: (a.nonce + 1) as u64,
        balance: (a.balance - tx.value - spec_total_fee(tx, base_fee)) as u64,
        code_hash: a.code_hash,
        storage_root: a.storage_root,
    };
    let mid = accounts.insert(sender, debited);
    let recv = if mid.contains_key(tx.to@) {
        mid[tx.to@]
    } else {
        AccountView {
            nonce: 0,
            balance: 0,
            code_hash: Seq::new(32, |i: int| 0u8),
            storage_root: Seq::new(32, |i: int| 0u8),
        }
    };
    let credited = AccountView {
        nonce: recv.nonce,
        balance: (recv.balance + tx.value) as u64,
        code_hash: recv.code_hash,
        storage_root: recv.storage_root,
    };
    mid.insert(tx.to@, credited)
}

/// The top-level dispatcher.
pub struct Executor;

impl Executor {
    /// Validate a transaction and move its value: exactly the checks of
    /// `spec_process_outcome`, in order, and on acceptance exactly the
    /// account movement of `spec_process_accounts`. A refused
    /// transaction changes nothing. For an accepted transaction whose
    /// sender and recipient differ, the sender's nonce rises by exactly
    /// one, the sender's balance falls by exactly the value plus the
    /// fee, and the recipient — which then exists — gains exactly the
    /// value.
    pub fn process_transaction(transaction: &Transaction, base_fee: u64, state: &mut State) -> (r:
        Result<(), TransactionError>)
        requires
            old(state).well_formed(),
            transaction.well_formed(),
            base_fee + transaction.max_priority_fee_per_gas <= u64::MAX,
            TRANSACTION_GAS_COST * spec_effective_fee(transaction, base_fee) <= u64::MAX,
            transaction.value + spec_total_fee(transaction, base_fee) <= u64::MAX,
            old(state).accounts@.contains_key(transaction.to@) ==> old(
                state,
            ).accounts@[transaction.to@].balance + transaction.value <= u64::MAX,
            forall|a: Seq<u8>|
                #[trigger] old(state).accounts@.contains_key(a) ==> old(
                    state,
                ).accounts@[a].nonce < u64::MAX,
        ensures
            final(state).well_formed(),
            final(state).storage == old(state).storage,
            final(state).contract == old(state).contract,
            r == spec_process_outcome(transaction, base_fee, old(state).accounts@),
            r is Err ==> final(state).accounts@ == old(state).accounts@,
            r is Ok ==> final(state).accounts@ == spec_process_accounts(
                transaction,
                base_fee,
                old(state).accounts@,
            ),
            ({
                let sender_opt = spec_sender(transaction);
                (r is Ok && sender_opt is Some && sender_opt.unwrap() != transaction.to@) ==> ({
                    let sender = sender_opt.unwrap();
                    let accounts0 = old(state).accounts@;
                    let accounts1 = final(state).accounts@;
                    &&& accounts1[sender].nonce == accounts0[sender].nonce + 1
                    &&& accounts1[sender].balance == accounts0[sender].balance
                        - transaction.value - spec_total_fee(transaction, base_fee)
                    &&& accounts1.contains_key(transaction.to@)
                    &&& accounts1[transaction.to@].balance == (if accounts0.contains_key(
                        transaction.to@,
                    ) {
                        accounts0[transaction.to@].balance as int
                    } else {
                        0int
                    }) + transaction.value
                })
            }),
    {
        let sender_address = match transaction.get_sender_address() {
            Some(a) => a,
            None => {
                return Err(TransactionError::InvalidTransaction);
            },
        };
        let sender = match state.get_account(&sender_address) {
            Some(a) => a,
            None => {
                return Err(TransactionError::SenderAccountDoesNotExist);
            },
        };
        if base_fee > transaction.max_fee_per_gas {
            return Err(TransactionError::MaximumGasFeeBelowBaseFee);
        }
        let effective_fee = if transaction.max_fee_per_gas < base_fee
            + transaction.max_priority_fee_per_gas {
            transaction.max_fee_per_gas
        } else {
            base_fee + transaction.max_priority_fee_per_gas
        };
        let total_fee = TRANSACTION_GAS_COST * effective_fee;
        if transaction.gas_limit < TRANSACTION_GAS_COST {
            return Err(TransactionError::InsufficientGas);
        }
        if !transaction.verify_signature() {
            return Err(TransactionError::InvalidSignature);
        }
        let needed = transaction.value + total_fee;
        if sender.balance < needed {
            return Err(TransactionError::InsufficientBalance);
        }
        let debited = Account {
            nonce: sender.nonce + 1,
            balance: sender.balance - needed,
            code_hash: sender.code_hash,
            storage_root: sender.storage_root,
        };
        state.set_account(sender_address.duplicate(), debited);
        let recipient = match state.get_account(&transaction.to) {
            Some(a) => a,
            None => Account::new(0, zero_bytes(32), zero_bytes(32)),
        };
        let credited = Account {
            nonce: recipient.nonce,
            balance: recipient.balance + transaction.value,
            code_hash: recipient.code_hash,
            storage_root: recipient.storage_root,
        };
        state.set_account(transaction.to.duplicate(), credited);
        Ok(())
    }

    /// Look the recipient's contract up, bind a fresh machine frame to
    /// it and the transaction's context, and run the transaction; the
    /// machine's verdict is propagated, its result discarded. A missing
    /// contract and a failed sender recovery are refused; a call leaves
    /// the world state alone, while a creation — a contract stored at
    /// the all-zero address — credits the derived account.
    #[verifier::rlimit(100)]
    pub fn process_transaction_contract(transaction: Transaction, state: &mut State) -> (r: Result<
        (),
        VMError,
    >)
        requires
            old(state).well_formed(),
            transaction.well_formed(),
            transaction.input_data@.len() >= 4,
        ensures
            final(state).well_formed(),
            final(state).storage == old(state).storage,
            final(state).contract == old(state).contract,
            !old(state).contract@.contains_key(transaction.to@) ==> r == Err::<(), VMError>(
                VMError::ContractNotFound,
            ) && *final(state) == *old(state),
            (old(state).contract@.contains_key(transaction.to@) && spec_sender(&transaction)
                is None) ==> r == Err::<(), VMError>(VMError::InvalidTransaction) && *final(state)
                == *old(state),
            (old(state).contract@.contains_key(transaction.to@) && spec_sender(&transaction)
                is Some) ==> ({
                let c = old(state).contract@[transaction.to@];
                let m0 = crate::evm::spec_initial_frame(
                    c,
                    spec_sender(&transaction).unwrap(),
                    transaction.to@,
                    transaction.value,
                    transaction.input_data@,
                    transaction.gas_limit,
                );
                if transaction.to@ != spec_zero_address() {
                    &&& *final(state) == *old(state)
                    &&& (match crate::parser::spec_compile(c.code, 0) {
                        Ok(ops) => (match (r, spec_run(m0, ops, false).1) {
                            (Ok(u), Ok(rv)) => true,
                            (Err(e1), Err(e2)) => e1 == e2,
                            _ => false,
                        }),
                        Err(_) => r == Err::<(), VMError>(VMError::InvalidBytecode),
                    })
                } else {
                    let ca = spec_contract_address(
                        spec_sender(&transaction).unwrap(),
                        transaction.nonce,
                    );
                    let m1 = (VmModel { address: ca, ..m0 });
                    &&& final(state).accounts@ == old(state).accounts@.insert(
                        ca,
                        (AccountView {
                            nonce: 0,
                            balance: transaction.value,
                            code_hash: crate::hashing::keccak_of(transaction.input_data@),
                            storage_root: Seq::new(32, |i: int| 0u8),
                        }),
                    )
                    &&& (match crate::parser::spec_compile(transaction.input_data@, 0) {
                        Ok(ops) => (match (r, spec_run(m1, ops, false).1) {
                            (Ok(u), Ok(rv)) => true,
                            (Err(e1), Err(e2)) => e1 == e2,
                            _ => false,
                        }),
                        Err(_) => r == Err::<(), VMError>(VMError::InvalidBytecode),
                    })
                }
            }),
    {
        let contract = match state.contract.get(&transaction.to) {
            Some(c) => c,
            None => {
                return Err(VMError::ContractNotFound);
            },
        };
        let sender = match transaction.get_sender_address() {
            Some(a) => a,
            None => {
                return Err(VMError::InvalidTransaction);
            },
        };
        let context = ExecutionContext::new(
            sender,
            transaction.to.duplicate(),
            transaction.value,
            clone_bytes(&transaction.input_data),
            transaction.gas_limit,
        );
        let mut evm = VM::new(contract, context);
        if transaction.to.is_zero() {
            match evm.call_contract_create(transaction, state) {
                Ok(_) => Ok(()),
                Err(e) => Err(e),
            }
        } else {
            match evm.call_contract(transaction) {
                Ok(_) => Ok(()),
                Err(e) => Err(e),
            }
        }
    }
}

} // verus!
