//! Blocks: the slot-stamped envelope that carries executed transactions
//! and withdrawals.
use vstd::prelude::*;
use crate::address::Address;
use crate::bytes::zero_bytes;
use crate::transaction::Transaction;

verus! {

/// What one attestation points at.
#[derive(Debug)]
pub struct AttestationData {
    pub slot: u64,
    pub index: u64,
    pub beacon_block_root: Vec<u8>,
    pub source: u64,
    pub target: u64,
}

/// An aggregated attestation recorded in a block body.
#[derive(Debug)]
pub struct Attestation {
    pub aggregation_bits: Vec<u64>,
    pub data: AttestationData,
    pub signature: Vec<u8>,
}

/// A validator withdrawal recorded in a block.
#[derive(Debug)]
pub struct Withdrawal {
    pub address: Address,
    pub amount: u64,
    pub index: u64,
    pub validator_index: u64,
}

/// The execution-layer payload of a block.
#[derive(Debug)]
pub struct ExecutionPayload {
    pub parent_hash: Vec<u8>,
    pub fee_recipient: Address,
    pub state_root: Vec<u8>,
    pub receipts_root: Vec<u8>,
    pub logs_bloom: Vec<String>,
    pub prev_randao: u64,
    pub block_number: u64,
    pub gas_limit: u64,
    pub gas_used: u64,
    pub timestamp: u64,
    pub extra_data: Vec<u8>,
    pub base_fee_per_gas: u64,
    pub block_hash: Vec<u8>,
    pub transactions: Vec<Transaction>,
    pub withdrawals: Vec<Withdrawal>,
}

impl ExecutionPayload {
    /// An empty payload with zero-byte commitments.
    pub fn default() -> (r: ExecutionPayload)
        ensures
            r.transactions@.len() == 0,
            r.withdrawals@.len() == 0,
            r.block_number == 0,
            r.gas_used == 0,
    {
        ExecutionPayload {
            parent_hash: zero_bytes(32),
            fee_recipient: Address::zero(),
            state_root: zero_bytes(32),
            receipts_root: zero_bytes(32),
            logs_bloom: Vec::new(),
            prev_randao: 0,
            block_number: 0,
            gas_limit: 0,
            gas_used: 0,
            timestamp: 0,
            extra_data: Vec::new(),
            base_fee_per_gas: 0,
            block_hash: zero_bytes(32),
            transactions: Vec::new(),
            withdrawals: Vec::new(),
        }
    }
}

/// The consensus-side body of a block around its execution payload.
#[derive(Debug)]
pub struct BlockBody {
    pub randao_reveal: u64,
    pub eth1_data: Vec<u8>,
    pub graffiti: Vec<u8>,
    pub proposer_slashings: Vec<u64>,
    pub attester_slashings: Vec<u64>,
    pub attestations: Vec<Attestation>,
    pub deposits: Vec<u64>,
    pub voluntary_exits: Vec<u64>,
    pub sync_aggregate: Vec<u64>,
    pub execution_payload: ExecutionPayload,
}

impl BlockBody {
    /// An empty body around an empty payload.
    pub fn default() -> (r: BlockBody)
        ensures
            r.execution_payload.transactions@.len() == 0,
            r.execution_payload.withdrawals@.len() == 0,
    {
        BlockBody {
            randao_reveal: 0,
            eth1_data: zero_bytes(32),
            graffiti: zero_bytes(32),
            proposer_slashings: Vec::new(),
            attester_slashings: Vec::new(),
            attestations: Vec::new(),
            deposits: Vec::new(),
            voluntary_exits: Vec::new(),
            sync_aggregate: Vec::new(),
            execution_payload: ExecutionPayload::default(),
        }
    }
}

/// A block: its slot, its proposer, its parent and state commitments,
/// and its body.
#[derive(Debug)]
pub struct Block {
    pub slot: u64,
    pub proposer_index: u64,
    pub parent_root: Vec<u8>,
    pub state_root: Vec<u8>,
    pub body: BlockBody,
}

impl Block {
    /// A block with an empty body.
    pub fn new(slot: u64, proposer_index: u64, parent_root: Vec<u8>, state_root: Vec<u8>) -> (r:
        Block)
        ensures
            r.slot == slot,
            r.proposer_index == proposer_index,
            r.parent_root@ == parent_root@,
            r.state_root@ == state_root@,
            r.body.execution_payload.transactions@.len() == 0,
            r.body.execution_payload.withdrawals@.len() == 0,
    {
        Block { slot, proposer_index, parent_root, state_root, body: BlockBody::default() }
    }

    /// Record a transaction at the end of the block's payload; nothing
    /// else moves.
    pub fn add_transaction(&mut self, transaction: Transaction)
        ensures
            final(self).body.execution_payload.transactions@ == old(
                self,
            ).body.execution_payload.transactions@.push(transaction),
            final(self).body.execution_payload.withdrawals == old(
                self,
            ).body.execution_payload.withdrawals,
            final(self).slot == old(self).slot,
            final(self).proposer_index == old(self).proposer_index,
            final(self).parent_root == old(self).parent_root,
            final(self).state_root == old(self).state_root,
    {
        self.body.execution_payload.transactions.push(transaction);
    }

    /// Record a withdrawal at the end of the block's payload; nothing
    /// else moves.
    pub fn add_withdrawal(&mut self, withdrawal: Withdrawal)
        ensures
            final(self).body.execution_payload.withdrawals@ == old(
                self,
            ).body.execution_payload.withdrawals@.push(withdrawal),
            final(self).body.execution_payload.transactions == old(
                self,
            ).body.execution_payload.transactions,
            final(self).slot == old(self).slot,
            final(self).proposer_index == old(self).proposer_index,
            final(self).parent_root == old(self).parent_root,
            final(self).state_root == old(self).state_root,
    {
        self.body.execution_payload.withdrawals.push(withdrawal);
    }
}

} // verus!
