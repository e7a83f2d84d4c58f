//! The virtual machine: a 256-bit word stack bounded at 1024 entries, a
//! byte-addressable expandable memory, per-contract storage with a revert
//! journal, a program counter and a gas meter.
use vstd::prelude::*;
use crate::address::{Address, spec_zero_address};
use crate::bytes::clone_bytes;
use crate::operation::{Operation, op_gas_cost, op_stack_req};
use crate::parser::ParserError;
use crate::storage::{
    Journal, StorageChangeType, StorageMap, journal_ok, spec_rollback, lemma_rollback_restores,
};
use crate::state::State;
use crate::transaction::Transaction;
use crate::u256::{U256, u256_val};

verus! {

/// The stack never grows past this many entries.
pub const MAX_STACK_SIZE: u32 = 1024;

/// A failure of the machine or of the transactions it executes.
#[derive(Clone, Copy, Debug, PartialEq, Eq, Structural)]
pub enum VMError {
    StackFull,
    NotEnoughItemsOnStack,
    NoItemsOnStack,
    NotImplemented,
    ContractNotFound,
    InvalidTransaction,
    InvalidBytecode,
    OutOfGas,
    StackUnderflow,
    NoOperationExecuted,
}

impl From<ParserError> for VMError {
    fn from(value: ParserError) -> (r: Self) {
        match value {
            ParserError::IncompletePush => VMError::InvalidBytecode,
            _ => VMError::InvalidTransaction,
        }
    }
}

impl vstd::std_specs::convert::FromSpecImpl<ParserError> for VMError {
    open spec fn obeys_from_spec() -> bool {
        true
    }

    open spec fn from_spec(value: ParserError) -> Self {
        match value {
            ParserError::IncompletePush => VMError::InvalidBytecode,
            _ => VMError::InvalidTransaction,
        }
    }
}

/// How one run of the machine ended: success with optional return data,
/// or a revert carrying its reason. Either way the cumulative gas charged
/// so far rides along.
#[derive(Debug)]
pub enum ExecutionResult {
    Success { return_data: Option<Vec<u8>>, gas_used: u64 },
    Revert { reason: Vec<u8>, gas_used: u64 },
}

/// The mathematical shape of an execution result.
pub ghost enum ResView {
    Success { return_data: Option<Seq<u8>>, gas_used: nat },
    Reverted { reason: Seq<u8>, gas_used: nat },
}

impl View for ExecutionResult {
    type V = ResView;

    open spec fn view(&self) -> ResView {
        match self {
            ExecutionResult::Success { return_data, gas_used } => ResView::Success {
                return_data: match return_data {
                    Some(d) => Some(d@),
                    None => None,
                },
                gas_used: *gas_used as nat,
            },
            ExecutionResult::Revert { reason, gas_used } => ResView::Reverted {
                reason: reason@,
                gas_used: *gas_used as nat,
            },
        }
    }
}

/// A deployed contract: its raw code and its storage.
#[derive(Debug)]
pub struct Contract {
    pub code: Vec<u8>,
    pub storage: StorageMap,
}

/// The mathematical shape of a contract.
pub ghost struct ContractView {
    pub code: Seq<u8>,
    pub storage: Map<nat, nat>,
}

impl View for Contract {
    type V = ContractView;

    open spec fn view(&self) -> ContractView {
        ContractView { code: self.code@, storage: self.storage@ }
    }
}

impl Contract {
    /// Whether the storage keeps its keys distinct.
    pub open spec fn well_formed(&self) -> bool {
        self.storage.well_formed()
    }

    /// A contract with the given code and empty storage.
    pub fn new(code: Vec<u8>) -> (r: Contract)
        ensures
            r@.code == code@,
            r@.storage == Map::<nat, nat>::empty(),
            r.well_formed(),
    {
        Contract { code, storage: StorageMap::new() }
    }

    /// A fresh contract with the same code and storage.
    pub fn duplicate(&self) -> (r: Contract)
        ensures
            r@ == self@,
            self.well_formed() ==> r.well_formed(),
    {
        Contract { code: clone_bytes(&self.code), storage: self.storage.duplicate() }
    }
}

/// What a single call or creation sees, fixed for its duration.
#[derive(Debug)]
pub struct ExecutionContext {
    pub caller: Address,
    pub address: Address,
    pub value: u64,
    pub data: Vec<u8>,
    pub gas: u64,
}

impl ExecutionContext {
    /// Whether the two addresses hold 20 bytes each.
    pub open spec fn well_formed(&self) -> bool {
        self.caller.well_formed() && self.address.well_formed()
    }

    /// A context from its parts.
    pub fn new(caller: Address, address: Address, value: u64, data: Vec<u8>, gas: u64) -> (r:
        ExecutionContext)
        ensures
            r.caller@ == caller@,
            r.address@ == address@,
            r.value == value,
            r.data@ == data@,
            r.gas == gas,
    {
        ExecutionContext { caller, address, value, data, gas }
    }
}

/// A sender address paired with a nonce: what the derivation of a
/// contract address encodes.
#[derive(Debug)]
pub struct AddressNonce {
    pub address: Vec<u8>,
    pub nonce: u64,
}

/// The values of a stack of words, bottom first.
pub open spec fn vals_of(s: Seq<U256>) -> Seq<nat> {
    s.map_values(|u: U256| u256_val(u))
}

/// Pushing a word appends its value.
pub proof fn lemma_vals_of_push(s: Seq<U256>, x: U256)
    ensures
        vals_of(s.push(x)) =~= vals_of(s).push(u256_val(x)),
{
}

/// Popping a word drops its value, which was the last.
pub proof fn lemma_vals_of_drop(s: Seq<U256>)
    requires
        s.len() > 0,
    ensures
        vals_of(s.drop_last()) =~= vals_of(s).drop_last(),
        vals_of(s).last() == u256_val(s.last()),
        vals_of(s).len() == s.len(),
{
}

/// The mathematical state of one machine frame.
pub ghost struct VmModel {
    pub stack: Seq<nat>,
    pub memory: Seq<u8>,
    pub code: Seq<u8>,
    pub storage: Map<nat, nat>,
    pub journal: Map<nat, (StorageChangeType, nat)>,
    pub orig: Map<nat, nat>,
    pub pc: nat,
    pub gas_available: nat,
    pub gas_used: nat,
    pub caller: Seq<u8>,
    pub address: Seq<u8>,
    pub value: u64,
    pub data: Seq<u8>,
}

/// How one step of the machine ended: the frame goes on, halts with a
/// result, or fails with an error.
pub ghost enum StepOut {
    KeepGoing,
    Halted(ResView),
    Failed(VMError),
}

/// The gas charged for memory grown to `nbytes`: the word count squared
/// over 512 plus three times the word count.
pub open spec fn mem_cost(nbytes: nat) -> nat {
    let w = (nbytes + 31) / 32;
    w * w / 512 + 3 * w
}

/// Memory grown with zero bytes to at least `n` bytes.
pub open spec fn spec_expand_mem(mem: Seq<u8>, n: nat) -> Seq<u8> {
    if mem.len() >= n {
        mem
    } else {
        mem + Seq::new((n - mem.len()) as nat, |i: int| 0u8)
    }
}

/// Memory with `bytes` written at offset `off`.
pub open spec fn spec_write_bytes(mem: Seq<u8>, off: nat, bytes: Seq<u8>) -> Seq<u8>
    recommends
        off + bytes.len() <= mem.len(),
{
    Seq::new(
        mem.len(),
        |i: int|
            if off <= i < off + bytes.len() {
                bytes[i - off]
            } else {
                mem[i]
            },
    )
}

/// What the machine does after dispatch: the outcome of one decoded
/// operation, continuing or halting.
#[derive(Debug)]
pub enum StepOutcome {
    KeepGoing,
    Halted(ExecutionResult),
}

/// The step outcome an execution produced, as the model sees it.
pub open spec fn outcome_view(r: Result<StepOutcome, VMError>) -> StepOut {
    match r {
        Ok(StepOutcome::KeepGoing) => StepOut::KeepGoing,
        Ok(StepOutcome::Halted(res)) => StepOut::Halted(res@),
        Err(e) => StepOut::Failed(e),
    }
}

/// The frame after paying `base` gas.
pub open spec fn spec_charge(m: VmModel, base: nat) -> VmModel
    recommends
        base <= m.gas_available,
{
    VmModel {
        gas_available: (m.gas_available - base) as nat,
        gas_used: m.gas_used + base,
        ..m
    }
}

/// The frame after pushing a word, or a `StackFull` failure at the
/// stack's bound.
pub open spec fn spec_push_val(m: VmModel, v: nat) -> (VmModel, StepOut) {
    if m.stack.len() >= MAX_STACK_SIZE {
        (m, StepOut::Failed(VMError::StackFull))
    } else {
        (VmModel { stack: m.stack.push(v), pc: m.pc + 1, ..m }, StepOut::KeepGoing)
    }
}

/// The 32-byte window of call data starting at `i`, zero-padded past the
/// end.
pub open spec fn spec_calldata_window(data: Seq<u8>, i: nat) -> Seq<u8> {
    Seq::new(
        32,
        |j: int|
            if i + j < data.len() {
                data[i + j]
            } else {
                0u8
            },
    )
}

/// Memory after a copy of `size` code bytes to `dest`, reading from
/// `off` and zero-filling past the end of the code.
pub open spec fn spec_codecopy_mem(
    mem: Seq<u8>,
    code: Seq<u8>,
    dest: nat,
    off: nat,
    size: nat,
) -> Seq<u8> {
    Seq::new(
        mem.len(),
        |i: int|
            if dest <= i < dest + size {
                if off + (i - dest) < code.len() {
                    code[off + (i - dest)]
                } else {
                    0u8
                }
            } else {
                mem[i]
            },
    )
}

/// The `MStore` effect on the charged frame: pop an offset and a word,
/// grow memory to `offset + 32` bytes, store the word big-endian.
pub open spec fn spec_op_mstore(m: VmModel) -> (VmModel, StepOut) {
    let off = m.stack.last();
    let val = m.stack.drop_last().last();
    let st = m.stack.drop_last().drop_last();
    let m1 = VmModel { stack: st, ..m };
    let n = off + 32;
    if m1.memory.len() < n && (mem_cost(n) > m1.gas_available || n > usize::MAX) {
        (m1, StepOut::Failed(VMError::OutOfGas))
    } else {
        let mem1 = spec_expand_mem(m1.memory, n);
        let bytes = crate::u256::u256_be_bytes(crate::u256::u256_of_nat(val));
        let mem2 = spec_write_bytes(mem1, off, bytes);
        (VmModel { memory: mem2, pc: m1.pc + 1, ..m1 }, StepOut::KeepGoing)
    }
}

/// The `CodeCopy` effect on the charged frame: pop a destination, a code
/// offset and a size; charge three gas per copied word plus the grown
/// memory's cost; copy, zero-filling past the code's end.
pub open spec fn spec_op_codecopy(m: VmModel) -> (VmModel, StepOut) {
    let dest = m.stack.last();
    let off = m.stack.drop_last().last();
    let size = m.stack.drop_last().drop_last().last();
    let st = m.stack.drop_last().drop_last().drop_last();
    let m1 = VmModel { stack: st, ..m };
    let words = (size + 31) / 32;
    let extra = 3 * words + mem_cost(dest + size);
    if extra > m1.gas_available {
        (m1, StepOut::Failed(VMError::OutOfGas))
    } else {
        let m2 = spec_charge(m1, extra);
        let n = dest + size;
        if m2.memory.len() < n && (mem_cost(n) > m2.gas_available || n > usize::MAX) {
            (m2, StepOut::Failed(VMError::OutOfGas))
        } else {
            let mem1 = spec_expand_mem(m2.memory, n);
            let mem2 = spec_codecopy_mem(mem1, m2.code, dest, off, size);
            (VmModel { memory: mem2, pc: m2.pc + 1, ..m2 }, StepOut::KeepGoing)
        }
    }
}

/// One dispatched operation on the charged frame `m`. `nops` is how many
/// operations the running program has; a taken branch lands there when
/// its target lies past the end.
#[verifier::opaque]
pub open spec fn spec_exec_op(m: VmModel, op: Operation, nops: nat) -> (VmModel, StepOut) {
    match op {
        Operation::Stop => (
            m,
            StepOut::Halted(ResView::Success { return_data: None, gas_used: m.gas_used }),
        ),
        Operation::Add => {
            let a = m.stack.last();
            let b = m.stack.drop_last().last();
            let st = m.stack.drop_last().drop_last();
            (
                VmModel { stack: st.push((a + b) % crate::u256::u256_mod()), pc: m.pc + 1, ..m },
                StepOut::KeepGoing,
            )
        },
        Operation::IsZero => {
            let x = m.stack.last();
            let st = m.stack.drop_last();
            (
                VmModel {
                    stack: st.push(if x == 0 { 1nat } else { 0nat }),
                    pc: m.pc + 1,
                    ..m
                },
                StepOut::KeepGoing,
            )
        },
        Operation::Address => spec_push_val(m, crate::u256::be_val(m.address)),
        Operation::Origin => spec_push_val(m, crate::u256::be_val(m.caller)),
        Operation::CallValue => spec_push_val(m, m.value as nat),
        Operation::CallDataLoad => {
            if m.stack.len() == 0 {
                (m, StepOut::Failed(VMError::NoItemsOnStack))
            } else {
                let i = m.stack.last();
                let st = m.stack.drop_last();
                let v = crate::u256::be_val(spec_calldata_window(m.data, i));
                (VmModel { stack: st.push(v), pc: m.pc + 1, ..m }, StepOut::KeepGoing)
            }
        },
        Operation::CallDataSize => spec_push_val(m, m.data.len()),
        Operation::CodeSize => spec_push_val(m, m.code.len()),
        Operation::CodeCopy => spec_op_codecopy(m),
        Operation::Pop => (
            VmModel { stack: m.stack.drop_last(), pc: m.pc + 1, ..m },
            StepOut::KeepGoing,
        ),
        Operation::MStore => spec_op_mstore(m),
        Operation::SLoad => {
            let key = m.stack.last();
            let st = m.stack.drop_last();
            let v = if m.storage.contains_key(key) {
                m.storage[key]
            } else {
                0nat
            };
            (VmModel { stack: st.push(v), pc: m.pc + 1, ..m }, StepOut::KeepGoing)
        },
        Operation::SStore => {
            let key = m.stack.last();
            let val = m.stack.drop_last().last();
            let st = m.stack.drop_last().drop_last();
            let journal2 = if m.journal.contains_key(key) {
                m.journal
            } else if m.storage.contains_key(key) {
                m.journal.insert(key, (StorageChangeType::Overwrite, m.storage[key]))
            } else {
                m.journal.insert(key, (StorageChangeType::Delete, val))
            };
            (
                VmModel {
                    stack: st,
                    storage: m.storage.insert(key, val),
                    journal: journal2,
                    pc: m.pc + 1,
                    ..m
                },
                StepOut::KeepGoing,
            )
        },
        Operation::JumpI => {
            let dest = m.stack.last();
            let cond = m.stack.drop_last().last();
            let st = m.stack.drop_last().drop_last();
            let pc2 = if cond != 0 {
                if dest >= nops {
                    nops
                } else {
                    dest
                }
            } else {
                m.pc + 1
            };
            (VmModel { stack: st, pc: pc2, ..m }, StepOut::KeepGoing)
        },
        Operation::JumpDest => (VmModel { pc: m.pc + 1, ..m }, StepOut::KeepGoing),
        Operation::Push0 => spec_push_val(m, 0),
        Operation::Push1(v) => spec_push_val(m, v@),
        Operation::Push2(v) => spec_push_val(m, v@),
        Operation::Push3(v) => spec_push_val(m, v@),
        Operation::Push4(v) => spec_push_val(m, v@),
        Operation::Push5(v) => spec_push_val(m, v@),
        Operation::Push6(v) => spec_push_val(m, v@),
        Operation::Push7(v) => spec_push_val(m, v@),
        Operation::Push8(v) => spec_push_val(m, v@),
        Operation::Push9(v) => spec_push_val(m, v@),
        Operation::Push10(v) => spec_push_val(m, v@),
        Operation::Push11(v) => spec_push_val(m, v@),
        Operation::Push12(v) => spec_push_val(m, v@),
        Operation::Push13(v) => spec_push_val(m, v@),
        Operation::Push14(v) => spec_push_val(m, v@),
        Operation::Push15(v) => spec_push_val(m, v@),
        Operation::Push16(v) => spec_push_val(m, v@),
        Operation::Push17(v) => spec_push_val(m, v@),
        Operation::Push18(v) => spec_push_val(m, v@),
        Operation::Push19(v) => spec_push_val(m, v@),
        Operation::Push20(v) => spec_push_val(m, v@),
        Operation::Push21(v) => spec_push_val(m, v@),
        Operation::Push22(v) => spec_push_val(m, v@),
        Operation::Push23(v) => spec_push_val(m, v@),
        Operation::Push24(v) => spec_push_val(m, v@),
        Operation::Push25(v) => spec_push_val(m, v@),
        Operation::Push26(v) => spec_push_val(m, v@),
        Operation::Push27(v) => spec_push_val(m, v@),
        Operation::Push28(v) => spec_push_val(m, v@),
        Operation::Push29(v) => spec_push_val(m, v@),
        Operation::Push30(v) => spec_push_val(m, v@),
        Operation::Push31(v) => spec_push_val(m, v@),
        Operation::Push32(v) => spec_push_val(m, v@),
        Operation::Dup(n) => {
            if n == 0 {
                (m, StepOut::Failed(VMError::StackUnderflow))
            } else if m.stack.len() >= MAX_STACK_SIZE {
                (m, StepOut::Failed(VMError::StackFull))
            } else {
                let v = m.stack[m.stack.len() - n];
                (VmModel { stack: m.stack.push(v), pc: m.pc + 1, ..m }, StepOut::KeepGoing)
            }
        },
        Operation::Return => {
            let size = m.stack.last();
            let off = m.stack.drop_last().last();
            let st = m.stack.drop_last().drop_last();
            let m1 = VmModel { stack: st, ..m };
            let n = off + size;
            if n > usize::MAX {
                (m1, StepOut::Failed(VMError::OutOfGas))
            } else {
                let mem1 = spec_expand_mem(m1.memory, n);
                let data = mem1.subrange(off as int, (off + size) as int);
                (
                    VmModel { memory: mem1, ..m1 },
                    StepOut::Halted(
                        ResView::Success { return_data: Some(data), gas_used: m1.gas_used },
                    ),
                )
            }
        },
        Operation::Revert => {
            let len = m.stack.last();
            let off = m.stack.drop_last().last();
            let st = m.stack.drop_last().drop_last();
            let m1 = VmModel {
                stack: st,
                storage: spec_rollback(m.journal, m.storage),
                journal: Map::empty(),
                ..m
            };
            let n = off + len;
            if n > usize::MAX {
                (m1, StepOut::Failed(VMError::OutOfGas))
            } else {
                let mem1 = spec_expand_mem(m1.memory, n);
                let reason = mem1.subrange(off as int, (off + len) as int);
                (
                    VmModel { memory: mem1, ..m1 },
                    StepOut::Halted(ResView::Reverted { reason, gas_used: m1.gas_used }),
                )
            }
        },
        _ => (m, StepOut::Failed(VMError::NotImplemented)),
    }
}

/// One full instruction cycle on the frame `m`: the stack guard first,
/// the base gas charge second, then the operation's own effect. A frame
/// too short on stack fails with `NotEnoughItemsOnStack` and is left
/// unchanged.
#[verifier::opaque]
pub open spec fn spec_step(m: VmModel, op: Operation, nops: nat) -> (VmModel, StepOut) {
    let req = op_stack_req(op);
    if m.stack.len() < req.min_stack_height {
        (m, StepOut::Failed(VMError::NotEnoughItemsOnStack))
    } else if m.gas_available < op_gas_cost(op).base {
        (m, StepOut::Failed(VMError::OutOfGas))
    } else {
        spec_exec_op(spec_charge(m, op_gas_cost(op).base as nat), op, nops)
    }
}

/// Memory cost grows with the size.
pub proof fn lemma_mem_cost_mono(a: nat, b: nat)
    requires
        a <= b,
    ensures
        mem_cost(a) <= mem_cost(b),
{
    let wa = (a + 31) / 32;
    let wb = (b + 31) / 32;
    assert(wa <= wb) by (nonlinear_arith)
        requires a <= b, wa == (a + 31) / 32, wb == (b + 31) / 32;
    assert(wa * wa <= wb * wb) by (nonlinear_arith)
        requires 0 <= wa <= wb;
    assert(wa * wa / 512 <= wb * wb / 512) by (nonlinear_arith)
        requires wa * wa <= wb * wb;
    assert(3 * wa <= 3 * wb);
}

/// Memory past the 64-bit range costs more gas than any meter holds.
pub proof fn lemma_mem_cost_big(n: nat)
    requires
        n > u64::MAX,
    ensures
        mem_cost(n) > u64::MAX,
{
    lemma_mem_cost_mono(0x1_0000_0000_0000_0000nat, n);
    let w = (0x1_0000_0000_0000_0000nat + 31) / 32;
    assert(w == 0x800_0000_0000_0000);
    assert(w * w / 512 + 3 * w > u64::MAX) by (nonlinear_arith)
        requires w == 0x800_0000_0000_0000;
    assert(mem_cost(0x1_0000_0000_0000_0000nat) > u64::MAX);
}

/// The deterministic contract address derived from a sender and a
/// nonce: the last 20 bytes of the digest of their encoded pair.
pub open spec fn spec_contract_address(sender: Seq<u8>, nonce: u64) -> Seq<u8> {
    crate::hashing::keccak_of(crate::rlp::rlp_address_nonce(sender, nonce)).skip(12)
}

/// The frame a freshly bound machine starts in: empty stack and memory,
/// the journal empty and the original storage equal to the contract's,
/// the program counter at zero and the whole gas budget unspent.
pub open spec fn spec_initial_frame(
    c: ContractView,
    caller: Seq<u8>,
    address: Seq<u8>,
    value: u64,
    data: Seq<u8>,
    gas: u64,
) -> VmModel {
    VmModel {
        stack: Seq::<nat>::empty(),
        memory: Seq::<u8>::empty(),
        code: c.code,
        storage: c.storage,
        journal: Map::empty(),
        orig: c.storage,
        pc: 0,
        gas_available: gas as nat,
        gas_used: 0,
        caller: caller,
        address: address,
        value: value,
        data: data,
    }
}

/// A step that keeps going always pays gas: every continuing operation
/// has a base charge of at least three.
pub proof fn lemma_step_gas(m: VmModel, op: Operation, nops: nat)
    ensures
        ({
            let (m2, out) = spec_step(m, op, nops);
            (out is KeepGoing) ==> m2.gas_available < m.gas_available
        }),
{
    reveal(spec_step);
    reveal(spec_exec_op);
}

/// The whole run of a program from the frame `m`: step until a halt, a
/// failure, or the program counter leaves the program, yielding the
/// final frame beside the verdict. A run off the end succeeds with no
/// return data once at least one operation has executed, and a run that
/// never executes one fails.
pub open spec fn spec_run(m: VmModel, ops: Seq<Operation>, executed: bool) -> (
    VmModel,
    Result<ResView, VMError>,
)
    decreases m.gas_available,
{
    if m.pc >= ops.len() {
        if executed {
            (m, Ok(ResView::Success { return_data: None, gas_used: m.gas_used }))
        } else {
            (m, Err(VMError::NoOperationExecuted))
        }
    } else {
        let (m2, out) = spec_step(m, ops[m.pc as int], ops.len());
        match out {
            StepOut::KeepGoing => {
                proof {
                    lemma_step_gas(m, ops[m.pc as int], ops.len());
                }
                spec_run(m2, ops, true)
            },
            StepOut::Halted(res) => (m2, Ok(res)),
            StepOut::Failed(e) => (m2, Err(e)),
        }
    }
}

/// One frame of the machine.
pub struct VM {
    pub stack: Vec<U256>,
    pub memory: Vec<u8>,
    pub contract: Contract,
    pub gas_available: u64,
    pub gas_used: u64,
    pub context: ExecutionContext,
    pub creation_offset: usize,
    pub pc: usize,
    pub storage_revert: Journal,
    pub orig_storage: Ghost<Map<nat, nat>>,
}

impl VM {
    /// The machine's internal consistency: the stack within its bound,
    /// the stores with distinct keys, and the journal guarding the
    /// storage against the state the frame started from.
    pub open spec fn well_formed(&self) -> bool {
        &&& self.stack@.len() <= MAX_STACK_SIZE
        &&& self.contract.well_formed()
        &&& self.storage_revert.well_formed()
        &&& self.context.well_formed()
        &&& journal_ok(self.storage_revert@, self.contract.storage@, self.orig_storage@)
        &&& self.gas_used + self.gas_available <= u64::MAX
    }

    /// The mathematical state of this frame.
    pub open spec fn model(&self) -> VmModel {
        VmModel {
            stack: vals_of(self.stack@),
            memory: self.memory@,
            code: self.contract.code@,
            storage: self.contract.storage@,
            journal: self.storage_revert@,
            orig: self.orig_storage@,
            pc: self.pc as nat,
            gas_available: self.gas_available as nat,
            gas_used: self.gas_used as nat,
            caller: self.context.caller@,
            address: self.context.address@,
            value: self.context.value,
            data: self.context.data@,
        }
    }

    /// Whether the runtime-code marker pair `0xF3 0xFE` stands at `i`.
    pub open spec fn marker_at(code: Seq<u8>, i: int) -> bool {
        0 <= i && i + 2 <= code.len() && code[i] == 0xf3 && code[i + 1] == 0xfe
    }

    /// Where the runtime code starts in the contract's bytes: just past
    /// the first `0xF3 0xFE` pair, or zero when there is none.
    pub open spec fn spec_creation_offset(code: Seq<u8>) -> nat {
        if exists|i: int| #[trigger] Self::marker_at(code, i) {
            let i = choose|i: int|
                #[trigger] Self::marker_at(code, i) && forall|j: int|
                    0 <= j < i ==> !(#[trigger] Self::marker_at(code, j));
            (i + 2) as nat
        } else {
            0
        }
    }

    /// A frame bound to a contract and a call context, with the journal
    /// empty and the gas meter at the context's budget.
    #[verifier::rlimit(100)]
    pub fn new(contract: Contract, context: ExecutionContext) -> (r: VM)
        requires
            contract.well_formed(),
            context.well_formed(),
        ensures
            r.well_formed(),
            r.stack@.len() == 0,
            r.memory@.len() == 0,
            r.contract@ == contract@,
            r.gas_available == context.gas,
            r.gas_used == 0,
            r.pc == 0,
            r.context.caller@ == context.caller@,
            r.context.address@ == context.address@,
            r.context.value == context.value,
            r.context.data@ == context.data@,
            r.context.gas == context.gas,
            r.storage_revert@ == Map::<nat, (StorageChangeType, nat)>::empty(),
            r.orig_storage@ == contract.storage@,
            r.creation_offset == Self::spec_creation_offset(contract.code@),
            r.model() == spec_initial_frame(
                contract@,
                context.caller@,
                context.address@,
                context.value,
                context.data@,
                context.gas,
            ),
    {
        let mut creation_offset: usize = 0;
        let mut found = false;
        let mut i: usize = 0;
        if contract.code.len() >= 2 {
            while !found && i <= contract.code.len() - 2
                invariant
                    contract.code@.len() >= 2,
                    i + 2 <= contract.code@.len() + 1,
                    forall|j: int| 0 <= j < i ==> !(#[trigger] Self::marker_at(contract.code@, j)),
                    found ==> Self::marker_at(contract.code@, i as int) && creation_offset == i
                        + 2,
                    !found ==> creation_offset == 0,
                decreases contract.code@.len() - i + (if found { 0int } else { 1int }),
            {
                if contract.code[i] == 0xf3 && contract.code[i + 1] == 0xfe {
                    found = true;
                    creation_offset = i + 2;
                } else {
                    i = i + 1;
                }
            }
        }
        proof {
            let code = contract.code@;
            if found {
                let i0 = i as int;
                assert(Self::marker_at(code, i0));
                assert(forall|j: int| 0 <= j < i0 ==> !Self::marker_at(code, j));
                let iw = choose|ic: int|
                    #[trigger] Self::marker_at(code, ic) && forall|j: int|
                        0 <= j < ic ==> !(#[trigger] Self::marker_at(code, j));
                assert(Self::marker_at(code, iw) && forall|j: int|
                    0 <= j < iw ==> !Self::marker_at(code, j)) by {
                    assert(Self::marker_at(code, i0) && forall|j: int|
                        0 <= j < i0 ==> !Self::marker_at(code, j));
                }
                assert(iw == i0) by {
                    if iw < i0 {
                        assert(!Self::marker_at(code, iw));
                    }
                    if i0 < iw {
                        assert(!Self::marker_at(code, i0));
                    }
                }
                assert(Self::spec_creation_offset(code) == i0 + 2);
            } else {
                assert forall|j: int| !(#[trigger] Self::marker_at(code, j)) by {
                    if 0 <= j < i {
                    }
                }
                assert(Self::spec_creation_offset(code) == 0);
            }
        }
        let gas = context.gas;
        let ghost orig = contract.storage@;
        let vm = VM {
            stack: Vec::new(),
            memory: Vec::new(),
            contract,
            gas_available: gas,
            gas_used: 0,
            context,
            creation_offset,
            pc: 0,
            storage_revert: Journal::new(),
            orig_storage: Ghost(orig),
        };
        proof {
            assert(vals_of(vm.stack@) =~= Seq::<nat>::empty());
            assert(vm.memory@ =~= Seq::<u8>::empty());
        }
        vm
    }

    /// How many words sit on the stack.
    pub fn stack_size(&self) -> (r: u32)
        requires
            self.stack@.len() <= MAX_STACK_SIZE,
        ensures
            r == self.stack@.len(),
    {
        self.stack.len() as u32
    }

    /// Push a word; the stack refuses to grow past its bound.
    fn push(&mut self, value: U256) -> (r: Result<(), VMError>)
        ensures
            final(self).contract == old(self).contract,
            final(self).memory == old(self).memory,
            final(self).gas_available == old(self).gas_available,
            final(self).gas_used == old(self).gas_used,
            final(self).context == old(self).context,
            final(self).pc == old(self).pc,
            final(self).creation_offset == old(self).creation_offset,
            final(self).storage_revert == old(self).storage_revert,
            final(self).orig_storage == old(self).orig_storage,
            if old(self).stack@.len() >= MAX_STACK_SIZE {
                r == Err::<(), VMError>(VMError::StackFull) && final(self).stack == old(self).stack
            } else {
                r == Ok::<(), VMError>(()) && final(self).stack@ == old(self).stack@.push(value)
            },
    {
        if self.stack.len() >= MAX_STACK_SIZE as usize {
            return Err(VMError::StackFull);
        }
        self.stack.push(value);
        Ok(())
    }

    /// Pop the top word; an empty stack refuses.
    fn pop(&mut self) -> (r: Result<U256, VMError>)
        ensures
            final(self).contract == old(self).contract,
            final(self).memory == old(self).memory,
            final(self).gas_available == old(self).gas_available,
            final(self).gas_used == old(self).gas_used,
            final(self).context == old(self).context,
            final(self).pc == old(self).pc,
            final(self).creation_offset == old(self).creation_offset,
            final(self).storage_revert == old(self).storage_revert,
            final(self).orig_storage == old(self).orig_storage,
            if old(self).stack@.len() == 0 {
                r == Err::<U256, VMError>(VMError::NoItemsOnStack) && final(self).stack@ == old(
                    self,
                ).stack@
            } else {
                r == Ok::<U256, VMError>(old(self).stack@.last()) && final(self).stack@ == old(
                    self,
                ).stack@.drop_last()
            },
    {
        let ghost s0 = self.stack@;
        match self.stack.pop() {
            Some(v) => {
                proof {
                    assert(s0.subrange(0, s0.len() - 1) =~= s0.drop_last());
                }
                Ok(v)
            },
            None => Err(VMError::NoItemsOnStack),
        }
    }

    /// The gas that memory of `nbytes` bytes costs.
    pub fn calc_memory_expansion_gas(memory_byte_size: u128) -> (r: u128)
        requires
            memory_byte_size <= 0x4_0000_0000_0000_0000,
        ensures
            r == mem_cost(memory_byte_size as nat),
            r <= 0x4_0000_0000_0000_0000_0000_0000_0000,
    {
        let w: u128 = (memory_byte_size + 31) / 32;
        proof {
            assert(w <= 0x2000_0000_0000_0000);
            assert(w * w <= 0x400_0000_0000_0000_0000_0000_0000_0000) by (nonlinear_arith)
                requires w <= 0x2000_0000_0000_0000;
        }
        let ww: u128 = w * w;
        proof {
            assert(ww / 512 <= 0x2_0000_0000_0000_0000_0000_0000_0000);
        }
        ww / 512 + 3 * w
    }

    /// Grow memory with zeros so that `offset + required` bytes exist,
    /// charging nothing but refusing growth the gas meter could never
    /// pay: the cost of the grown size must not exceed the gas at hand.
    fn expand_memory(&mut self, offset: u64, required: u64) -> (r: Result<(), VMError>)
        ensures
            final(self).contract == old(self).contract,
            final(self).stack == old(self).stack,
            final(self).gas_available == old(self).gas_available,
            final(self).gas_used == old(self).gas_used,
            final(self).context == old(self).context,
            final(self).pc == old(self).pc,
            final(self).creation_offset == old(self).creation_offset,
            final(self).storage_revert == old(self).storage_revert,
            final(self).orig_storage == old(self).orig_storage,
            ({
                let n = offset + required;
                if old(self).memory@.len() >= n {
                    r == Ok::<(), VMError>(()) && final(self).memory == old(self).memory
                } else if mem_cost(n as nat) > old(self).gas_available || n > usize::MAX {
                    r == Err::<(), VMError>(VMError::OutOfGas) && final(self).memory == old(
                        self,
                    ).memory
                } else {
                    r == Ok::<(), VMError>(()) && final(self).memory@ == spec_expand_mem(
                        old(self).memory@,
                        n as nat,
                    )
                }
            }),
    {
        let n: u128 = offset as u128 + required as u128;
        if (self.memory.len() as u128) >= n {
            return Ok(());
        }
        let cost = Self::calc_memory_expansion_gas(n);
        if cost > self.gas_available as u128 {
            return Err(VMError::OutOfGas);
        }
        if n > usize::MAX as u128 {
            return Err(VMError::OutOfGas);
        }
        let new_size = n as usize;
        let ghost mem0 = self.memory@;
        while self.memory.len() < new_size
            invariant
                self.contract == old(self).contract,
                self.stack == old(self).stack,
                self.gas_available == old(self).gas_available,
                self.gas_used == old(self).gas_used,
                self.context == old(self).context,
                self.pc == old(self).pc,
                self.creation_offset == old(self).creation_offset,
                self.storage_revert == old(self).storage_revert,
                self.orig_storage == old(self).orig_storage,
                mem0 == old(self).memory@,
                mem0.len() <= self.memory@.len(),
                self.memory@.len() <= new_size || self.memory@.len() == mem0.len(),
                self.memory@.subrange(0, mem0.len() as int) =~= mem0,
                forall|j: int| mem0.len() <= j < self.memory@.len() ==> self.memory@[j] == 0u8,
            decreases new_size - self.memory@.len(),
        {
            self.memory.push(0);
        }
        proof {
            assert(self.memory@ =~= spec_expand_mem(mem0, new_size as nat));
        }
        Ok(())
    }

    /// Read `length` bytes at `offset`, growing memory with zeros first
    /// so the range exists; a range no memory could ever reach is
    /// refused as exhaustion.
    fn read_from_memory(&mut self, offset: u64, length: u64) -> (r: Result<Vec<u8>, VMError>)
        ensures
            final(self).contract == old(self).contract,
            final(self).stack == old(self).stack,
            final(self).gas_available == old(self).gas_available,
            final(self).gas_used == old(self).gas_used,
            final(self).context == old(self).context,
            final(self).pc == old(self).pc,
            final(self).creation_offset == old(self).creation_offset,
            final(self).storage_revert == old(self).storage_revert,
            final(self).orig_storage == old(self).orig_storage,
            ({
                let n = offset + length;
                if n > usize::MAX {
                    r == Err::<Vec<u8>, VMError>(VMError::OutOfGas) && final(self).memory == old(
                        self,
                    ).memory
                } else {
                    &&& final(self).memory@ == spec_expand_mem(old(self).memory@, n as nat)
                    &&& match r {
                        Ok(v) => v@ == final(self).memory@.subrange(
                            offset as int,
                            offset as int + length as int,
                        ),
                        Err(_) => false,
                    }
                }
            }),
    {
        let n: u128 = offset as u128 + length as u128;
        if n > usize::MAX as u128 {
            return Err(VMError::OutOfGas);
        }
        let new_size = n as usize;
        let ghost mem0 = self.memory@;
        while self.memory.len() < new_size
            invariant
                self.contract == old(self).contract,
                self.stack == old(self).stack,
                self.gas_available == old(self).gas_available,
                self.gas_used == old(self).gas_used,
                self.context == old(self).context,
                self.pc == old(self).pc,
                self.creation_offset == old(self).creation_offset,
                self.storage_revert == old(self).storage_revert,
                self.orig_storage == old(self).orig_storage,
                mem0 == old(self).memory@,
                mem0.len() <= self.memory@.len(),
                self.memory@.len() <= new_size || self.memory@.len() == mem0.len(),
                self.memory@.subrange(0, mem0.len() as int) =~= mem0,
                forall|j: int| mem0.len() <= j < self.memory@.len() ==> self.memory@[j] == 0u8,
            decreases new_size - self.memory@.len(),
        {
            self.memory.push(0);
        }
        proof {
            assert(self.memory@ =~= spec_expand_mem(mem0, new_size as nat));
        }
        let ghost mem1 = self.memory@;
        let mut out: Vec<u8> = Vec::new();
        let off = offset as usize;
        let len = length as usize;
        let mut i: usize = 0;
        while i < len
            invariant
                self.contract == old(self).contract,
                self.stack == old(self).stack,
                self.gas_available == old(self).gas_available,
                self.gas_used == old(self).gas_used,
                self.context == old(self).context,
                self.pc == old(self).pc,
                self.creation_offset == old(self).creation_offset,
                self.storage_revert == old(self).storage_revert,
                self.orig_storage == old(self).orig_storage,
                self.memory@ == mem1,
                off + len <= self.memory@.len(),
                off + len <= usize::MAX,
                i <= len,
                out@ =~= self.memory@.subrange(off as int, off as int + i as int),
            decreases len - i,
        {
            out.push(self.memory[off + i]);
            i = i + 1;
        }
        proof {
            assert(out@ =~= self.memory@.subrange(off as int, off as int + len as int));
        }
        Ok(out)
    }

    /// Replay the journal and clear it: every slot written during this
    /// frame returns to the state it had when the frame began.
    fn revert_storage(&mut self)
        requires
            old(self).contract.well_formed(),
            old(self).storage_revert.well_formed(),
        ensures
            final(self).stack == old(self).stack,
            final(self).memory == old(self).memory,
            final(self).gas_available == old(self).gas_available,
            final(self).gas_used == old(self).gas_used,
            final(self).context == old(self).context,
            final(self).pc == old(self).pc,
            final(self).creation_offset == old(self).creation_offset,
            final(self).orig_storage == old(self).orig_storage,
            final(self).contract.code == old(self).contract.code,
            final(self).contract.well_formed(),
            final(self).storage_revert.well_formed(),
            final(self).contract.storage@ == spec_rollback(
                old(self).storage_revert@,
                old(self).contract.storage@,
            ),
            final(self).storage_revert@ == Map::<nat, (StorageChangeType, nat)>::empty(),
    {
        let ghost j0 = self.storage_revert@;
        let ghost s0 = self.contract.storage@;
        let ghost jseq = self.storage_revert.entries@;
        let ghost rb = spec_rollback(j0, s0);
        let n = self.storage_revert.entries.len();
        let mut i: usize = 0;
        while i < n
            invariant
                n == jseq.len(),
                jseq == self.storage_revert.entries@,
                j0 == self.storage_revert@,
                crate::kvmap::keys_unique(jseq),
                i <= n,
                self.contract.storage.well_formed(),
                self.contract.code == old(self).contract.code,
                self.stack == old(self).stack,
                self.memory == old(self).memory,
                self.gas_available == old(self).gas_available,
                self.gas_used == old(self).gas_used,
                self.context == old(self).context,
                self.pc == old(self).pc,
                self.creation_offset == old(self).creation_offset,
                self.orig_storage == old(self).orig_storage,
                rb == spec_rollback(j0, s0),
                s0 == old(self).contract.storage@,
                forall|k: nat|
                    (exists|t: int| 0 <= t < i && jseq[t].0@ == k) ==> ((
                    #[trigger] self.contract.storage@.contains_key(k) <==> rb.contains_key(k)) && (
                    self.contract.storage@.contains_key(k)
                        ==> self.contract.storage@[k] == rb[k])),
                forall|k: nat|
                    !(exists|t: int| 0 <= t < i && jseq[t].0@ == k) ==> ((
                    #[trigger] self.contract.storage@.contains_key(k) <==> s0.contains_key(k)) && (
                    self.contract.storage@.contains_key(k)
                        ==> self.contract.storage@[k] == s0[k])),
            decreases n - i,
        {
            let entry_key = self.storage_revert.entries[i].0;
            let change = self.storage_revert.entries[i].1.0;
            let prior = self.storage_revert.entries[i].1.1;
            proof {
                crate::kvmap::lemma_entries_map_index(jseq, i as int);
                assert(j0.contains_key(entry_key@));
                assert(j0[entry_key@] == (change@, prior@));
                assert(!(exists|t: int| 0 <= t < i && jseq[t].0@ == entry_key@));
            }
            match change {
                StorageChangeType::Delete => {
                    self.contract.storage.remove(&entry_key);
                },
                StorageChangeType::Overwrite => {
                    match self.contract.storage.get(&entry_key) {
                        Some(_) => {
                            self.contract.storage.insert(entry_key, prior);
                        },
                        None => {},
                    }
                },
            }
            proof {
                assert forall|k: nat| (exists|t: int| 0 <= t < i + 1 && jseq[t].0@ == k) implies ((
                #[trigger] self.contract.storage@.contains_key(k) <==> rb.contains_key(k)) && (
                self.contract.storage@.contains_key(k) ==> self.contract.storage@[k] == rb[k])) by {
                    if k == entry_key@ {
                    } else {
                        let t = choose|t: int| 0 <= t < i + 1 && jseq[t].0@ == k;
                        assert(t < i);
                        assert(exists|t2: int| 0 <= t2 < i && jseq[t2].0@ == k);
                    }
                }
            }
            i = i + 1;
        }
        proof {
            assert forall|k: nat| true implies ((#[trigger] self.contract.storage@.contains_key(k)
                <==> rb.contains_key(k)) && (self.contract.storage@.contains_key(k)
                ==> self.contract.storage@[k] == rb[k])) by {
                if exists|t: int| 0 <= t < n && jseq[t].0@ == k {
                } else {
                    crate::kvmap::lemma_entries_map_contains(jseq, k);
                    assert(!j0.contains_key(k));
                }
            }
            assert(self.contract.storage@ =~= rb);
        }
        self.storage_revert.clear();
    }

    /// Pay `amount` gas out of the meter into the running total.
    fn charge(&mut self, amount: u64)
        requires
            amount <= old(self).gas_available,
            old(self).gas_used + old(self).gas_available <= u64::MAX,
        ensures
            final(self).gas_available == old(self).gas_available - amount,
            final(self).gas_used == old(self).gas_used + amount,
            final(self).stack == old(self).stack,
            final(self).memory == old(self).memory,
            final(self).contract == old(self).contract,
            final(self).context == old(self).context,
            final(self).pc == old(self).pc,
            final(self).creation_offset == old(self).creation_offset,
            final(self).storage_revert == old(self).storage_revert,
            final(self).orig_storage == old(self).orig_storage,
    {
        self.gas_available = self.gas_available - amount;
        self.gas_used = self.gas_used + amount;
    }

    /// Pop two words and push their sum modulo 2^256.
    fn op_add(&mut self) -> (r: Result<StepOutcome, VMError>)
        requires
            old(self).well_formed(),
            old(self).stack@.len() >= 2,
            old(self).pc < usize::MAX,
        ensures
            final(self).well_formed(),
            final(self).creation_offset == old(self).creation_offset,
            final(self).context == old(self).context,
            ({
                let (m2, out) = spec_exec_op(old(self).model(), Operation::Add, 0);
                final(self).model() == m2 && outcome_view(r) == out
            }),
    {
        proof {
            reveal(spec_step);
            reveal(spec_exec_op);
        }
        let ghost s0 = self.stack@;
        let a = match self.pop() {
            Ok(v) => v,
            Err(e) => {
                proof {
                    assert(false);
                }
                return Err(e);
            },
        };
        let b = match self.pop() {
            Ok(v) => v,
            Err(e) => {
                proof {
                    assert(false);
                }
                return Err(e);
            },
        };
        let sum = a.wrapping_add(&b);
        let ghost s2 = self.stack@;
        match self.push(sum) {
            Ok(()) => {},
            Err(e) => {
                proof {
                    assert(false);
                }
                return Err(e);
            },
        }
        self.pc = self.pc + 1;
        proof {
            lemma_vals_of_drop(s0);
            lemma_vals_of_drop(s0.drop_last());
            lemma_vals_of_push(s2, sum);
        }
        Ok(StepOutcome::KeepGoing)
    }

    /// Pop a word and push one when it was zero, else zero.
    fn op_is_zero(&mut self) -> (r: Result<StepOutcome, VMError>)
        requires
            old(self).well_formed(),
            old(self).stack@.len() >= 1,
            old(self).pc < usize::MAX,
        ensures
            final(self).well_formed(),
            final(self).creation_offset == old(self).creation_offset,
            final(self).context == old(self).context,
            ({
                let (m2, out) = spec_exec_op(old(self).model(), Operation::IsZero, 0);
                final(self).model() == m2 && outcome_view(r) == out
            }),
    {
        proof {
            reveal(spec_step);
            reveal(spec_exec_op);
        }
        let ghost s0 = self.stack@;
        let item = match self.pop() {
            Ok(v) => v,
            Err(e) => {
                proof {
                    assert(false);
                }
                return Err(e);
            },
        };
        let out_val = if item.is_zero() {
            U256::from_u64(1)
        } else {
            U256::from_u64(0)
        };
        let ghost s1 = self.stack@;
        match self.push(out_val) {
            Ok(()) => {},
            Err(e) => {
                proof {
                    assert(false);
                }
                return Err(e);
            },
        }
        self.pc = self.pc + 1;
        proof {
            lemma_vals_of_drop(s0);
            lemma_vals_of_push(s1, out_val);
        }
        Ok(StepOutcome::KeepGoing)
    }

    /// Push a word; every push operation and every environmental push
    /// lands here.
    fn op_push_value(&mut self, value: U256) -> (r: Result<StepOutcome, VMError>)
        requires
            old(self).well_formed(),
            old(self).pc < usize::MAX,
        ensures
            final(self).well_formed(),
            final(self).creation_offset == old(self).creation_offset,
            final(self).context == old(self).context,
            ({
                let (m2, out) = spec_push_val(old(self).model(), u256_val(value));
                final(self).model() == m2 && outcome_view(r) == out
            }),
    {
        let ghost s0 = self.stack@;
        match self.push(value) {
            Ok(()) => {
                self.pc = self.pc + 1;
                proof {
                    lemma_vals_of_push(s0, value);
                }
                Ok(StepOutcome::KeepGoing)
            },
            Err(e) => Err(e),
        }
    }

    /// Pop an offset and push the 32-byte call-data word there,
    /// zero-padded past the end of the data.
    fn op_calldataload(&mut self) -> (r: Result<StepOutcome, VMError>)
        requires
            old(self).well_formed(),
            old(self).pc < usize::MAX,
        ensures
            final(self).well_formed(),
            final(self).creation_offset == old(self).creation_offset,
            final(self).context == old(self).context,
            ({
                let (m2, out) = spec_exec_op(old(self).model(), Operation::CallDataLoad, 0);
                final(self).model() == m2 && outcome_view(r) == out
            }),
    {
        proof {
            reveal(spec_step);
            reveal(spec_exec_op);
        }
        let ghost s0 = self.stack@;
        let i = match self.pop() {
            Ok(v) => v,
            Err(e) => {
                return Err(e);
            },
        };
        let i_opt = i.try_to_u64();
        let mut window: Vec<u8> = Vec::new();
        let mut j: usize = 0;
        let dlen = self.context.data.len();
        while j < 32
            invariant
                self.context == old(self).context,
                self.stack@ == s0.drop_last(),
                self.memory == old(self).memory,
                self.contract == old(self).contract,
                self.gas_available == old(self).gas_available,
                self.gas_used == old(self).gas_used,
                self.pc == old(self).pc,
                self.creation_offset == old(self).creation_offset,
                self.storage_revert == old(self).storage_revert,
                self.orig_storage == old(self).orig_storage,
                dlen == self.context.data@.len(),
                j <= 32,
                window@.len() == j,
                (match i_opt {
                    Some(x) => i@ == x,
                    None => i@ > u64::MAX,
                }),
                forall|t: int|
                    0 <= t < j ==> window@[t] == (if i@ + t < self.context.data@.len() {
                        self.context.data@[(i@ + t) as int]
                    } else {
                        0u8
                    }),
            decreases 32 - j,
        {
            let b: u8 = match i_opt {
                Some(x) => {
                    let idx: u128 = x as u128 + j as u128;
                    if idx < dlen as u128 {
                        self.context.data[idx as usize]
                    } else {
                        0
                    }
                },
                None => 0,
            };
            window.push(b);
            j = j + 1;
        }
        let value = U256::from_be_range(&window, 0, 32);
        proof {
            assert(window@.subrange(0, 32) =~= window@);
            assert(window@ =~= spec_calldata_window(self.context.data@, i@));
        }
        let ghost s1 = self.stack@;
        match self.push(value) {
            Ok(()) => {},
            Err(e) => {
                proof {
                    assert(false);
                }
                return Err(e);
            },
        }
        self.pc = self.pc + 1;
        proof {
            lemma_vals_of_drop(s0);
            lemma_vals_of_push(s1, value);
        }
        Ok(StepOutcome::KeepGoing)
    }

    /// Discard the top of the stack.
    fn op_pop(&mut self) -> (r: Result<StepOutcome, VMError>)
        requires
            old(self).well_formed(),
            old(self).stack@.len() >= 1,
            old(self).pc < usize::MAX,
        ensures
            final(self).well_formed(),
            final(self).creation_offset == old(self).creation_offset,
            final(self).context == old(self).context,
            ({
                let (m2, out) = spec_exec_op(old(self).model(), Operation::Pop, 0);
                final(self).model() == m2 && outcome_view(r) == out
            }),
    {
        proof {
            reveal(spec_step);
            reveal(spec_exec_op);
        }
        let ghost s0 = self.stack@;
        match self.pop() {
            Ok(_) => {},
            Err(e) => {
                proof {
                    assert(false);
                }
                return Err(e);
            },
        }
        self.pc = self.pc + 1;
        proof {
            lemma_vals_of_drop(s0);
        }
        Ok(StepOutcome::KeepGoing)
    }

    /// Pop a key and push the stored value, zero when the slot is empty.
    fn op_sload(&mut self) -> (r: Result<StepOutcome, VMError>)
        requires
            old(self).well_formed(),
            old(self).stack@.len() >= 1,
            old(self).pc < usize::MAX,
        ensures
            final(self).well_formed(),
            final(self).creation_offset == old(self).creation_offset,
            final(self).context == old(self).context,
            ({
                let (m2, out) = spec_exec_op(old(self).model(), Operation::SLoad, 0);
                final(self).model() == m2 && outcome_view(r) == out
            }),
    {
        proof {
            reveal(spec_step);
            reveal(spec_exec_op);
        }
        let ghost s0 = self.stack@;
        let key = match self.pop() {
            Ok(v) => v,
            Err(e) => {
                proof {
                    assert(false);
                }
                return Err(e);
            },
        };
        let value = match self.contract.storage.get(&key) {
            Some(v) => v,
            None => U256::zero(),
        };
        let ghost s1 = self.stack@;
        match self.push(value) {
            Ok(()) => {},
            Err(e) => {
                proof {
                    assert(false);
                }
                return Err(e);
            },
        }
        self.pc = self.pc + 1;
        proof {
            lemma_vals_of_drop(s0);
            lemma_vals_of_push(s1, value);
        }
        Ok(StepOutcome::KeepGoing)
    }

    /// Pop a key and a value, store the value, and record the slot's
    /// first change in the journal.
    fn op_sstore(&mut self) -> (r: Result<StepOutcome, VMError>)
        requires
            old(self).well_formed(),
            old(self).stack@.len() >= 2,
            old(self).pc < usize::MAX,
        ensures
            final(self).well_formed(),
            final(self).creation_offset == old(self).creation_offset,
            final(self).context == old(self).context,
            ({
                let (m2, out) = spec_exec_op(old(self).model(), Operation::SStore, 0);
                final(self).model() == m2 && outcome_view(r) == out
            }),
    {
        proof {
            reveal(spec_step);
            reveal(spec_exec_op);
        }
        let ghost s0 = self.stack@;
        let ghost st0 = self.contract.storage@;
        let ghost j0 = self.storage_revert@;
        let ghost orig = self.orig_storage@;
        let storage_key = match self.pop() {
            Ok(v) => v,
            Err(e) => {
                proof {
                    assert(false);
                }
                return Err(e);
            },
        };
        let storage_value = match self.pop() {
            Ok(v) => v,
            Err(e) => {
                proof {
                    assert(false);
                }
                return Err(e);
            },
        };
        let already = self.storage_revert.contains(&storage_key);
        let prev_value = self.contract.storage.insert(storage_key, storage_value);
        if !already {
            match prev_value {
                Some(p) => {
                    self.storage_revert.record(storage_key, StorageChangeType::Overwrite, p);
                },
                None => {
                    self.storage_revert.record(storage_key, StorageChangeType::Delete, storage_value);
                },
            }
        }
        self.pc = self.pc + 1;
        proof {
            lemma_vals_of_drop(s0);
            lemma_vals_of_drop(s0.drop_last());
            let k = storage_key@;
            let v = storage_value@;
            assert(self.contract.storage@ == st0.insert(k, v));
            assert forall|k2: nat| #[trigger] self.storage_revert@.contains_key(k2)
                implies self.contract.storage@.contains_key(k2) by {
                if k2 != k {
                    assert(j0.contains_key(k2));
                }
            }
            assert forall|k2: nat| !self.storage_revert@.contains_key(k2) implies ((
            #[trigger] self.contract.storage@.contains_key(k2) <==> orig.contains_key(k2)) && (
            self.contract.storage@.contains_key(k2) ==> self.contract.storage@[k2] == orig[k2]))
                by {
                assert(k2 != k);
                assert(!j0.contains_key(k2));
            }
        }
        Ok(StepOutcome::KeepGoing)
    }

    /// Pop a destination and a condition; a non-zero condition branches
    /// there, landing at the end of the program when the target lies past
    /// it.
    fn op_jumpi(&mut self, nops: usize) -> (r: Result<StepOutcome, VMError>)
        requires
            old(self).well_formed(),
            old(self).stack@.len() >= 2,
            old(self).pc < usize::MAX,
        ensures
            final(self).well_formed(),
            final(self).creation_offset == old(self).creation_offset,
            final(self).context == old(self).context,
            ({
                let (m2, out) = spec_exec_op(old(self).model(), Operation::JumpI, nops as nat);
                final(self).model() == m2 && outcome_view(r) == out
            }),
    {
        proof {
            reveal(spec_step);
            reveal(spec_exec_op);
        }
        let ghost s0 = self.stack@;
        let offset = match self.pop() {
            Ok(v) => v,
            Err(e) => {
                proof {
                    assert(false);
                }
                return Err(e);
            },
        };
        let jump = match self.pop() {
            Ok(v) => v,
            Err(e) => {
                proof {
                    assert(false);
                }
                return Err(e);
            },
        };
        if !jump.is_zero() {
            match offset.try_to_u64() {
                Some(d) => {
                    if d < nops as u64 {
                        self.pc = d as usize;
                    } else {
                        self.pc = nops;
                    }
                },
                None => {
                    self.pc = nops;
                },
            }
        } else {
            self.pc = self.pc + 1;
        }
        proof {
            lemma_vals_of_drop(s0);
            lemma_vals_of_drop(s0.drop_last());
        }
        Ok(StepOutcome::KeepGoing)
    }

    /// Step past the jump-destination marker; it changes nothing else.
    fn op_jumpdest(&mut self) -> (r: Result<StepOutcome, VMError>)
        requires
            old(self).well_formed(),
            old(self).pc < usize::MAX,
        ensures
            final(self).well_formed(),
            final(self).creation_offset == old(self).creation_offset,
            final(self).context == old(self).context,
            ({
                let (m2, out) = spec_exec_op(old(self).model(), Operation::JumpDest, 0);
                final(self).model() == m2 && outcome_view(r) == out
            }),
    {
        proof {
            reveal(spec_step);
            reveal(spec_exec_op);
        }
        self.pc = self.pc + 1;
        Ok(StepOutcome::KeepGoing)
    }

    /// Duplicate the n-th word from the top onto the top.
    fn op_dup(&mut self, item_num: u8) -> (r: Result<StepOutcome, VMError>)
        requires
            old(self).well_formed(),
            old(self).stack@.len() >= item_num,
            old(self).pc < usize::MAX,
        ensures
            final(self).well_formed(),
            final(self).creation_offset == old(self).creation_offset,
            final(self).context == old(self).context,
            ({
                let (m2, out) = spec_exec_op(old(self).model(), Operation::Dup(item_num), 0);
                final(self).model() == m2 && outcome_view(r) == out
            }),
    {
        proof {
            reveal(spec_step);
            reveal(spec_exec_op);
        }
        if item_num == 0 {
            return Err(VMError::StackUnderflow);
        }
        if self.stack.len() >= MAX_STACK_SIZE as usize {
            return Err(VMError::StackFull);
        }
        let idx = self.stack.len() - item_num as usize;
        let item_to_duplicate = self.stack[idx];
        let ghost s0 = self.stack@;
        match self.push(item_to_duplicate) {
            Ok(()) => {},
            Err(e) => {
                proof {
                    assert(false);
                }
                return Err(e);
            },
        }
        self.pc = self.pc + 1;
        proof {
            lemma_vals_of_push(s0, item_to_duplicate);
            assert(vals_of(s0)[idx as int] == u256_val(s0[idx as int]));
        }
        Ok(StepOutcome::KeepGoing)
    }

    /// Overwrite `bytes` into memory at `off`; the range must exist.
    fn write_bytes_at(&mut self, off: usize, bytes: &Vec<u8>)
        requires
            off + bytes@.len() <= old(self).memory@.len(),
        ensures
            final(self).contract == old(self).contract,
            final(self).stack == old(self).stack,
            final(self).gas_available == old(self).gas_available,
            final(self).gas_used == old(self).gas_used,
            final(self).context == old(self).context,
            final(self).pc == old(self).pc,
            final(self).creation_offset == old(self).creation_offset,
            final(self).storage_revert == old(self).storage_revert,
            final(self).orig_storage == old(self).orig_storage,
            final(self).memory@ == spec_write_bytes(old(self).memory@, off as nat, bytes@),
    {
        let ghost mem0 = self.memory@;
        let n = bytes.len();
        let mlen = self.memory.len();
        let mut i: usize = 0;
        while i < n
            invariant
                mlen == self.memory@.len(),
                off + n <= mlen,
                self.contract == old(self).contract,
                self.stack == old(self).stack,
                self.gas_available == old(self).gas_available,
                self.gas_used == old(self).gas_used,
                self.context == old(self).context,
                self.pc == old(self).pc,
                self.creation_offset == old(self).creation_offset,
                self.storage_revert == old(self).storage_revert,
                self.orig_storage == old(self).orig_storage,
                n == bytes@.len(),
                off + n <= mem0.len(),
                i <= n,
                self.memory@.len() == mem0.len(),
                forall|t: int|
                    0 <= t < self.memory@.len() ==> self.memory@[t] == (if off <= t < off + i {
                        bytes@[t - off]
                    } else {
                        mem0[t]
                    }),
            decreases n - i,
        {
            let b = bytes[i];
            self.memory[off + i] = b;
            i = i + 1;
        }
        proof {
            assert(self.memory@ =~= spec_write_bytes(mem0, off as nat, bytes@));
        }
    }

    /// Copy `size_us` code bytes into memory at `dest_us`, reading from
    /// the (possibly oversized) code offset and zero-filling past the
    /// code's end; the memory range must exist.
    fn copy_code_range(
        &mut self,
        dest_us: usize,
        size_us: usize,
        off_opt: Option<u64>,
        Ghost(offv): Ghost<nat>,
    )
        requires
            dest_us + size_us <= old(self).memory@.len(),
            match off_opt {
                Some(x) => offv == x,
                None => offv > u64::MAX,
            },
        ensures
            final(self).contract == old(self).contract,
            final(self).stack == old(self).stack,
            final(self).gas_available == old(self).gas_available,
            final(self).gas_used == old(self).gas_used,
            final(self).context == old(self).context,
            final(self).pc == old(self).pc,
            final(self).creation_offset == old(self).creation_offset,
            final(self).storage_revert == old(self).storage_revert,
            final(self).orig_storage == old(self).orig_storage,
            final(self).memory@ == spec_codecopy_mem(
                old(self).memory@,
                old(self).contract.code@,
                dest_us as nat,
                offv,
                size_us as nat,
            ),
    {
        let ghost mem0 = self.memory@;
        let clen = self.contract.code.len();
        let mlen = self.memory.len();
        let mut i: usize = 0;
        while i < size_us
            invariant
                mlen == self.memory@.len(),
                dest_us + size_us <= mlen,
                self.contract == old(self).contract,
                self.stack == old(self).stack,
                self.gas_available == old(self).gas_available,
                self.gas_used == old(self).gas_used,
                self.context == old(self).context,
                self.pc == old(self).pc,
                self.creation_offset == old(self).creation_offset,
                self.storage_revert == old(self).storage_revert,
                self.orig_storage == old(self).orig_storage,
                clen == self.contract.code@.len(),
                dest_us + size_us <= mem0.len(),
                i <= size_us,
                (match off_opt {
                    Some(x) => offv == x,
                    None => offv > u64::MAX,
                }),
                self.memory@.len() == mem0.len(),
                forall|t: int|
                    0 <= t < self.memory@.len() ==> self.memory@[t] == (if dest_us <= t < dest_us
                        + i {
                        if offv + (t - dest_us) < self.contract.code@.len() {
                            self.contract.code@[offv as int + (t - dest_us)]
                        } else {
                            0u8
                        }
                    } else {
                        mem0[t]
                    }),
            decreases size_us - i,
        {
            let b: u8 = match off_opt {
                Some(o) => {
                    let idx: u128 = o as u128 + i as u128;
                    if idx < clen as u128 {
                        self.contract.code[idx as usize]
                    } else {
                        0
                    }
                },
                None => 0,
            };
            self.memory[dest_us + i] = b;
            i = i + 1;
        }
        proof {
            assert(self.memory@ =~= spec_codecopy_mem(
                mem0,
                self.contract.code@,
                dest_us as nat,
                offv,
                size_us as nat,
            ));
        }
    }

    /// Pop an offset and a word, grow memory to hold 32 bytes there, and
    /// store the word big-endian.
    #[verifier::rlimit(100)]
    fn op_mstore(&mut self) -> (r: Result<StepOutcome, VMError>)
        requires
            old(self).well_formed(),
            old(self).stack@.len() >= 2,
            old(self).pc < usize::MAX,
        ensures
            final(self).well_formed(),
            final(self).creation_offset == old(self).creation_offset,
            final(self).context == old(self).context,
            ({
                let (m2, out) = spec_op_mstore(old(self).model());
                final(self).model() == m2 && outcome_view(r) == out
            }),
    {
        let ghost s0 = self.stack@;
        let offset = match self.pop() {
            Ok(v) => v,
            Err(e) => {
                proof {
                    assert(false);
                }
                return Err(e);
            },
        };
        let value = match self.pop() {
            Ok(v) => v,
            Err(e) => {
                proof {
                    assert(false);
                }
                return Err(e);
            },
        };
        proof {
            lemma_vals_of_drop(s0);
            lemma_vals_of_drop(s0.drop_last());
        }
        let _mlen = self.memory.len();
        let off64 = match offset.try_to_u64() {
            Some(o) => o,
            None => {
                proof {
                    lemma_mem_cost_big(offset@ + 32);
                    assert(self.memory@.len() < offset@ + 32);
                }
                return Err(VMError::OutOfGas);
            },
        };
        match self.expand_memory(off64, 32) {
            Ok(()) => {},
            Err(e) => {
                return Err(e);
            },
        }
        let _mlen2 = self.memory.len();
        proof {
            assert(off64 + 32 <= usize::MAX);
        }
        let bytes = value.to_be_bytes();
        let off = off64 as usize;
        self.write_bytes_at(off, &bytes);
        self.pc = self.pc + 1;
        proof {
            crate::u256::lemma_u256_of_val(value);
        }
        Ok(StepOutcome::KeepGoing)
    }

    /// Pop a destination, a code offset and a size; charge the copy and
    /// the memory growth; copy that many code bytes into memory, filling
    /// with zeros past the end of the code.
    #[verifier::rlimit(100)]
    fn op_codecopy(&mut self) -> (r: Result<StepOutcome, VMError>)
        requires
            old(self).well_formed(),
            old(self).stack@.len() >= 3,
            old(self).pc < usize::MAX,
        ensures
            final(self).well_formed(),
            final(self).creation_offset == old(self).creation_offset,
            final(self).context == old(self).context,
            ({
                let (m2, out) = spec_op_codecopy(old(self).model());
                final(self).model() == m2 && outcome_view(r) == out
            }),
    {
        let ghost s0 = self.stack@;
        let dest = match self.pop() {
            Ok(v) => v,
            Err(e) => {
                proof {
                    assert(false);
                }
                return Err(e);
            },
        };
        let code_offset = match self.pop() {
            Ok(v) => v,
            Err(e) => {
                proof {
                    assert(false);
                }
                return Err(e);
            },
        };
        let size = match self.pop() {
            Ok(v) => v,
            Err(e) => {
                proof {
                    assert(false);
                }
                return Err(e);
            },
        };
        proof {
            lemma_vals_of_drop(s0);
            lemma_vals_of_drop(s0.drop_last());
            lemma_vals_of_drop(s0.drop_last().drop_last());
        }
        let _mlen = self.memory.len();
        let dest64 = match dest.try_to_u64() {
            Some(d) => d,
            None => {
                proof {
                    lemma_mem_cost_big(dest@ + size@);
                }
                return Err(VMError::OutOfGas);
            },
        };
        let size64 = match size.try_to_u64() {
            Some(x) => x,
            None => {
                proof {
                    lemma_mem_cost_big(dest@ + size@);
                }
                return Err(VMError::OutOfGas);
            },
        };
        let n128: u128 = dest64 as u128 + size64 as u128;
        let words: u128 = (size64 as u128 + 31) / 32;
        let cost = Self::calc_memory_expansion_gas(n128);
        let extra: u128 = 3 * words + cost;
        if extra > self.gas_available as u128 {
            return Err(VMError::OutOfGas);
        }
        self.charge(extra as u64);
        match self.expand_memory(dest64, size64) {
            Ok(()) => {},
            Err(e) => {
                return Err(e);
            },
        }
        let _mlen2 = self.memory.len();
        proof {
            assert(dest64 + size64 <= usize::MAX);
        }
        let off_opt = code_offset.try_to_u64();
        let dest_us = dest64 as usize;
        let size_us = size64 as usize;
        self.copy_code_range(dest_us, size_us, off_opt, Ghost(code_offset@));
        self.pc = self.pc + 1;
        Ok(StepOutcome::KeepGoing)
    }

    /// Pop a size and an offset and halt successfully with that memory
    /// range as return data.
    fn op_return(&mut self) -> (r: Result<StepOutcome, VMError>)
        requires
            old(self).well_formed(),
            old(self).stack@.len() >= 2,
        ensures
            final(self).well_formed(),
            final(self).creation_offset == old(self).creation_offset,
            final(self).context == old(self).context,
            ({
                let (m2, out) = spec_exec_op(old(self).model(), Operation::Return, 0);
                final(self).model() == m2 && outcome_view(r) == out
            }),
    {
        proof {
            reveal(spec_step);
            reveal(spec_exec_op);
        }
        let ghost s0 = self.stack@;
        let size = match self.pop() {
            Ok(v) => v,
            Err(e) => {
                proof {
                    assert(false);
                }
                return Err(e);
            },
        };
        let offset = match self.pop() {
            Ok(v) => v,
            Err(e) => {
                proof {
                    assert(false);
                }
                return Err(e);
            },
        };
        proof {
            lemma_vals_of_drop(s0);
            lemma_vals_of_drop(s0.drop_last());
        }
        let (off64, size64) = match (offset.try_to_u64(), size.try_to_u64()) {
            (Some(o), Some(x)) => (o, x),
            _ => {
                return Err(VMError::OutOfGas);
            },
        };
        let return_data = match self.read_from_memory(off64, size64) {
            Ok(v) => v,
            Err(e) => {
                return Err(e);
            },
        };
        Ok(
            StepOutcome::Halted(
                ExecutionResult::Success {
                    return_data: Some(return_data),
                    gas_used: self.gas_used,
                },
            ),
        )
    }

    /// Pop a length and an offset, roll every journaled storage slot
    /// back to its original state, and halt with the memory range as the
    /// revert reason.
    fn op_revert(&mut self) -> (r: Result<StepOutcome, VMError>)
        requires
            old(self).well_formed(),
            old(self).stack@.len() >= 2,
        ensures
            final(self).well_formed(),
            final(self).creation_offset == old(self).creation_offset,
            final(self).context == old(self).context,
            ({
                let (m2, out) = spec_exec_op(old(self).model(), Operation::Revert, 0);
                final(self).model() == m2 && outcome_view(r) == out
            }),
            final(self).contract.storage@ == old(self).orig_storage@,
    {
        proof {
            reveal(spec_step);
            reveal(spec_exec_op);
        }
        let ghost s0 = self.stack@;
        let length = match self.pop() {
            Ok(v) => v,
            Err(e) => {
                proof {
                    assert(false);
                }
                return Err(e);
            },
        };
        let offset = match self.pop() {
            Ok(v) => v,
            Err(e) => {
                proof {
                    assert(false);
                }
                return Err(e);
            },
        };
        proof {
            lemma_vals_of_drop(s0);
            lemma_vals_of_drop(s0.drop_last());
        }
        self.revert_storage();
        proof {
            lemma_rollback_restores(
                old(self).storage_revert@,
                old(self).contract.storage@,
                old(self).orig_storage@,
            );
        }
        let (off64, len64) = match (offset.try_to_u64(), length.try_to_u64()) {
            (Some(o), Some(x)) => (o, x),
            _ => {
                return Err(VMError::OutOfGas);
            },
        };
        let revert_data = match self.read_from_memory(off64, len64) {
            Ok(v) => v,
            Err(e) => {
                return Err(e);
            },
        };
        Ok(
            StepOutcome::Halted(
                ExecutionResult::Revert { reason: revert_data, gas_used: self.gas_used },
            ),
        )
    }

    /// Decode the given bytes and run them from the current program
    /// counter until a terminating operation, an error, or the end of
    /// the program. A revert leaves every storage slot as it stood when
    /// this frame began.
    #[verifier::rlimit(100)]
    pub fn execute_operations(&mut self, code: Vec<u8>) -> (r: Result<ExecutionResult, VMError>)
        requires
            old(self).well_formed(),
        ensures
            final(self).well_formed(),
            final(self).creation_offset == old(self).creation_offset,
            final(self).context == old(self).context,
            final(self).orig_storage == old(self).orig_storage,
            (match crate::parser::spec_compile(code@, 0) {
                Ok(ops) => ({
                    let (mf, verdict) = spec_run(old(self).model(), ops, false);
                    &&& final(self).model() == mf
                    &&& (match (r, verdict) {
                        (Ok(res), Ok(rv)) => res@ == rv,
                        (Err(e1), Err(e2)) => e1 == e2,
                        _ => false,
                    })
                }),
                Err(_) => r == Err::<ExecutionResult, VMError>(VMError::InvalidBytecode)
                    && *final(self) == *old(self),
            }),
            (match r {
                Ok(res) => (res@ is Reverted) ==> final(self).contract.storage@ == old(
                    self,
                ).orig_storage@,
                _ => true,
            }),
    {
        let mut parser = crate::parser::BytecodeParser::new(code);
        let operations = match parser.compile() {
            Ok(ops) => ops,
            Err(_) => {
                return Err(VMError::InvalidBytecode);
            },
        };
        let ghost ops = operations@;
        let ghost m0 = self.model();
        let nops = operations.len();
        let mut executed = false;
        while self.pc < nops
            invariant
                self.well_formed(),
                self.creation_offset == old(self).creation_offset,
                self.context == old(self).context,
                self.orig_storage == old(self).orig_storage,
                m0 == old(self).model(),
                nops == ops.len(),
                operations@ == ops,
                crate::parser::spec_compile(code@, 0) == Ok::<Seq<Operation>, ParserError>(ops),
                spec_run(m0, ops, false) == spec_run(self.model(), ops, executed),
            decreases self.gas_available,
        {
            let ghost m_before = self.model();
            let ghost executed_before = executed;
            let op = operations[self.pc];
            let step = self.process_operation(&op, nops);
            proof {
                lemma_step_gas(m_before, op, nops as nat);
                assert(ops[m_before.pc as int] == op);
            }
            match step {
                Err(e) => {
                    proof {
                        assert(spec_run(m_before, ops, executed_before) == (
                            self.model(),
                            Err::<ResView, VMError>(e),
                        ));
                    }
                    return Err(e);
                },
                Ok(StepOutcome::Halted(res)) => {
                    proof {
                        assert(spec_run(m_before, ops, executed_before) == (
                            self.model(),
                            Ok::<ResView, VMError>(res@),
                        ));
                    }
                    return Ok(res);
                },
                Ok(StepOutcome::KeepGoing) => {
                    executed = true;
                },
            }
        }
        if executed {
            Ok(ExecutionResult::Success { return_data: None, gas_used: self.gas_used })
        } else {
            Err(VMError::NoOperationExecuted)
        }
    }

    /// The deterministic address of a contract created by `address` at
    /// `nonce`: the last 20 bytes of the digest of the encoded pair.
    pub fn generate_contract_address(&self, address: &Address, nonce: u64) -> (r: Address)
        requires
            address.well_formed(),
        ensures
            r@ == spec_contract_address(address@, nonce),
            r.well_formed(),
    {
        let pair = AddressNonce { address: clone_bytes(&address.bytes), nonce };
        let buffer = crate::rlp::encode_address_nonce(&pair);
        let hash = crate::hashing::keccak256_bytes(buffer.as_slice());
        let mut addr_bytes: Vec<u8> = Vec::new();
        let mut i: usize = 12;
        while i < hash.len()
            invariant
                hash@.len() == 32,
                12 <= i <= 32,
                addr_bytes@ =~= hash@.subrange(12, i as int),
            decreases hash@.len() - i,
        {
            addr_bytes.push(hash[i]);
            i = i + 1;
        }
        proof {
            assert(addr_bytes@ =~= hash@.skip(12));
        }
        Address::from_bytes(addr_bytes)
    }

    /// Create a contract: recover the sender, derive the new address,
    /// credit it as a fresh account whose code commitment is the digest
    /// of the init code, and run the init code under the new address.
    pub fn call_contract_create(&mut self, transaction: Transaction, state: &mut State) -> (r:
        Result<ExecutionResult, VMError>)
        requires
            old(self).well_formed(),
            old(state).well_formed(),
            transaction.well_formed(),
        ensures
            final(self).well_formed(),
            final(state).well_formed(),
            final(state).storage == old(state).storage,
            final(state).contract == old(state).contract,
            (match crate::transaction::spec_sender(&transaction) {
                None => r == Err::<ExecutionResult, VMError>(VMError::InvalidTransaction)
                    && *final(self) == *old(self) && *final(state) == *old(state),
                Some(sender) => {
                    let ca = spec_contract_address(sender, transaction.nonce);
                    let m1 = (VmModel { address: ca, ..old(self).model() });
                    &&& final(state).accounts@ == old(state).accounts@.insert(
                        ca,
                        (crate::account::AccountView {
                            nonce: 0,
                            balance: transaction.value,
                            code_hash: crate::hashing::keccak_of(transaction.input_data@),
                            storage_root: Seq::new(32, |i: int| 0u8),
                        }),
                    )
                    &&& final(self).context.address@ == ca
                    &&& (match crate::parser::spec_compile(transaction.input_data@, 0) {
                        Ok(ops) => ({
                            let (mf, verdict) = spec_run(m1, ops, false);
                            &&& final(self).model() == mf
                            &&& (match (r, verdict) {
                                (Ok(res), Ok(rv)) => res@ == rv,
                                (Err(e1), Err(e2)) => e1 == e2,
                                _ => false,
                            })
                        }),
                        Err(_) => r == Err::<ExecutionResult, VMError>(VMError::InvalidBytecode),
                    })
                },
            }),
    {
        let sender = match transaction.get_sender_address() {
            Some(a) => a,
            None => {
                return Err(VMError::InvalidTransaction);
            },
        };
        let contract_address = self.generate_contract_address(&sender, transaction.nonce);
        self.context.address = contract_address.duplicate();
        let code_hash = crate::hashing::hash_slice_to_b256(transaction.input_data.as_slice());
        let account = crate::account::Account::new(
            transaction.value,
            code_hash,
            crate::bytes::zero_bytes(32),
        );
        state.set_account(contract_address, account);
        let code = clone_bytes(&transaction.input_data);
        self.execute_operations(code)
    }

    /// Enter a deployed contract: the first four payload bytes form the
    /// selector, which the machine itself does not interpret; the frame
    /// is reset and the deployed code runs from the start, dispatching on
    /// the call data itself. A revert leaves every storage slot as it
    /// stood when this frame began.
    pub fn call_contract(&mut self, transaction: Transaction) -> (r: Result<
        ExecutionResult,
        VMError,
    >)
        requires
            old(self).well_formed(),
            transaction.input_data@.len() >= 4,
        ensures
            final(self).well_formed(),
            final(self).creation_offset == old(self).creation_offset,
            final(self).context == old(self).context,
            final(self).orig_storage == old(self).orig_storage,
            ({
                let m1 = (VmModel {
                    pc: 0,
                    stack: Seq::<nat>::empty(),
                    memory: Seq::<u8>::empty(),
                    ..old(self).model()
                });
                match crate::parser::spec_compile(old(self).contract.code@, 0) {
                    Ok(ops) => ({
                        let (mf, verdict) = spec_run(m1, ops, false);
                        &&& final(self).model() == mf
                        &&& (match (r, verdict) {
                            (Ok(res), Ok(rv)) => res@ == rv,
                            (Err(e1), Err(e2)) => e1 == e2,
                            _ => false,
                        })
                    }),
                    Err(_) => r == Err::<ExecutionResult, VMError>(VMError::InvalidBytecode)
                        && final(self).model() == m1,
                }
            }),
            (match r {
                Ok(res) => (res@ is Reverted) ==> final(self).contract.storage@ == old(
                    self,
                ).orig_storage@,
                _ => true,
            }),
    {
        let _selector = transaction.input_data[0];
        self.pc = 0;
        self.stack.clear();
        self.memory.clear();
        proof {
            assert(vals_of(self.stack@) =~= Seq::<nat>::empty());
        }
        let code = clone_bytes(&self.contract.code);
        self.execute_operations(code)
    }

    /// Run a transaction on this frame: an all-zero recipient is a
    /// contract creation, anything else enters a deployed contract.
    pub fn execute_transaction(&mut self, transaction: Transaction, state: &mut State) -> (r:
        Result<ExecutionResult, VMError>)
        requires
            old(self).well_formed(),
            old(state).well_formed(),
            transaction.well_formed(),
            transaction.to@ != spec_zero_address() ==> transaction.input_data@.len() >= 4,
        ensures
            final(self).well_formed(),
            final(state).well_formed(),
            transaction.to@ != spec_zero_address() ==> ({
                let m1 = (VmModel {
                    pc: 0,
                    stack: Seq::<nat>::empty(),
                    memory: Seq::<u8>::empty(),
                    ..old(self).model()
                });
                &&& *final(state) == *old(state)
                &&& final(self).context == old(self).context
                &&& final(self).orig_storage == old(self).orig_storage
                &&& (match crate::parser::spec_compile(old(self).contract.code@, 0) {
                    Ok(ops) => ({
                        let (mf, verdict) = spec_run(m1, ops, false);
                        &&& final(self).model() == mf
                        &&& (match (r, verdict) {
                            (Ok(res), Ok(rv)) => res@ == rv,
                            (Err(e1), Err(e2)) => e1 == e2,
                            _ => false,
                        })
                    }),
                    Err(_) => r == Err::<ExecutionResult, VMError>(VMError::InvalidBytecode)
                        && final(self).model() == m1,
                })
                &&& (match r {
                    Ok(res) => (res@ is Reverted) ==> final(self).contract.storage@ == old(
                        self,
                    ).orig_storage@,
                    _ => true,
                })
            }),
            transaction.to@ == spec_zero_address() ==> ({
                &&& final(state).storage == old(state).storage
                &&& final(state).contract == old(state).contract
                &&& (match crate::transaction::spec_sender(&transaction) {
                    None => r == Err::<ExecutionResult, VMError>(VMError::InvalidTransaction)
                        && *final(self) == *old(self) && *final(state) == *old(state),
                    Some(sender) => {
                        let ca = spec_contract_address(sender, transaction.nonce);
                        let m1 = (VmModel { address: ca, ..old(self).model() });
                        &&& final(state).accounts@ == old(state).accounts@.insert(
                            ca,
                            (crate::account::AccountView {
                                nonce: 0,
                                balance: transaction.value,
                                code_hash: crate::hashing::keccak_of(transaction.input_data@),
                                storage_root: Seq::new(32, |i: int| 0u8),
                            }),
                        )
                        &&& (match crate::parser::spec_compile(transaction.input_data@, 0) {
                            Ok(ops) => ({
                                let (mf, verdict) = spec_run(m1, ops, false);
                                &&& final(self).model() == mf
                                &&& (match (r, verdict) {
                                    (Ok(res), Ok(rv)) => res@ == rv,
                                    (Err(e1), Err(e2)) => e1 == e2,
                                    _ => false,
                                })
                            }),
                            Err(_) => r == Err::<ExecutionResult, VMError>(
                                VMError::InvalidBytecode,
                            ),
                        })
                    },
                })
            }),
    {
        if transaction.to.is_zero() {
            self.call_contract_create(transaction, state)
        } else {
            self.call_contract(transaction)
        }
    }

    /// One full instruction cycle: refuse a stack shorter than the
    /// operation's minimum without touching anything, refuse a meter
    /// below the base charge, pay the base charge, then run the
    /// operation. A halt through a revert leaves every storage slot as
    /// it was when the frame began.
    fn process_operation(&mut self, operation: &Operation, nops: usize) -> (r: Result<
        StepOutcome,
        VMError,
    >)
        requires
            old(self).well_formed(),
            old(self).pc < nops,
        ensures
            final(self).well_formed(),
            final(self).creation_offset == old(self).creation_offset,
            final(self).context == old(self).context,
            final(self).orig_storage == old(self).orig_storage,
            ({
                let (m2, out) = spec_step(old(self).model(), *operation, nops as nat);
                final(self).model() == m2 && outcome_view(r) == out
            }),
            old(self).stack@.len() < op_stack_req(*operation).min_stack_height ==> *final(self)
                == *old(self) && r == Err::<StepOutcome, VMError>(VMError::NotEnoughItemsOnStack),
            (match r {
                Ok(StepOutcome::Halted(res)) => (res@ is Reverted)
                    ==> final(self).contract.storage@ == old(self).orig_storage@,
                _ => true,
            }),
    {
        proof {
            reveal(spec_step);
            reveal(spec_exec_op);
        }
        let stack_req = operation.stack_req();
        if self.stack_size() < stack_req.min_stack_height {
            return Err(VMError::NotEnoughItemsOnStack);
        }
        let gas_cost = operation.gas_cost();
        if self.gas_available < gas_cost.base {
            return Err(VMError::OutOfGas);
        }
        self.charge(gas_cost.base);
        proof {
            assert(self.model() == spec_charge(
                old(self).model(),
                op_gas_cost(*operation).base as nat,
            ));
        }
        match operation {
            Operation::Stop => Ok(
                StepOutcome::Halted(
                    ExecutionResult::Success { return_data: None, gas_used: self.gas_used },
                ),
            ),
            Operation::Add => self.op_add(),
            Operation::IsZero => self.op_is_zero(),
            Operation::Address => {
                let v = U256::from_be_range(&self.context.address.bytes, 0, 20);
                proof {
                    assert(self.context.address.bytes@.subrange(0, 20)
                        =~= self.context.address.bytes@);
                }
                self.op_push_value(v)
            },
            Operation::Origin => {
                let v = U256::from_be_range(&self.context.caller.bytes, 0, 20);
                proof {
                    assert(self.context.caller.bytes@.subrange(0, 20)
                        =~= self.context.caller.bytes@);
                }
                self.op_push_value(v)
            },
            Operation::CallValue => {
                let v = U256::from_u64(self.context.value);
                self.op_push_value(v)
            },
            Operation::CallDataLoad => self.op_calldataload(),
            Operation::CallDataSize => {
                let v = U256::from_u64(self.context.data.len() as u64);
                self.op_push_value(v)
            },
            Operation::CodeSize => {
                let v = U256::from_u64(self.contract.code.len() as u64);
                self.op_push_value(v)
            },
            Operation::CodeCopy => self.op_codecopy(),
            Operation::Pop => self.op_pop(),
            Operation::MStore => self.op_mstore(),
            Operation::SLoad => self.op_sload(),
            Operation::SStore => self.op_sstore(),
            Operation::JumpI => self.op_jumpi(nops),
            Operation::JumpDest => self.op_jumpdest(),
            Operation::Push0 => {
                let v = U256::zero();
                self.op_push_value(v)
            },
            Operation::Push1(value) => self.op_push_value(*value),
            Operation::Push2(value) => self.op_push_value(*value),
            Operation::Push3(value) => self.op_push_value(*value),
            Operation::Push4(value) => self.op_push_value(*value),
            Operation::Push5(value) => self.op_push_value(*value),
            Operation::Push6(value) => self.op_push_value(*value),
            Operation::Push7(value) => self.op_push_value(*value),
            Operation::Push8(value) => self.op_push_value(*value),
            Operation::Push9(value) => self.op_push_value(*value),
            Operation::Push10(value) => self.op_push_value(*value),
            Operation::Push11(value) => self.op_push_value(*value),
            Operation::Push12(value) => self.op_push_value(*value),
            Operation::Push13(value) => self.op_push_value(*value),
            Operation::Push14(value) => self.op_push_value(*value),
            Operation::Push15(value) => self.op_push_value(*value),
            Operation::Push16(value) => self.op_push_value(*value),
            Operation::Push17(value) => self.op_push_value(*value),
            Operation::Push18(value) => self.op_push_value(*value),
            Operation::Push19(value) => self.op_push_value(*value),
            Operation::Push20(value) => self.op_push_value(*value),
            Operation::Push21(value) => self.op_push_value(*value),
            Operation::Push22(value) => self.op_push_value(*value),
            Operation::Push23(value) => self.op_push_value(*value),
            Operation::Push24(value) => self.op_push_value(*value),
            Operation::Push25(value) => self.op_push_value(*value),
            Operation::Push26(value) => self.op_push_value(*value),
            Operation::Push27(value) => self.op_push_value(*value),
            Operation::Push28(value) => self.op_push_value(*value),
            Operation::Push29(value) => self.op_push_value(*value),
            Operation::Push30(value) => self.op_push_value(*value),
            Operation::Push31(value) => self.op_push_value(*value),
            Operation::Push32(value) => self.op_push_value(*value),
            Operation::Dup(item_num) => self.op_dup(*item_num),
            Operation::Return => self.op_return(),
            Operation::Revert => self.op_revert(),
            _ => Err(VMError::NotImplemented),
        }
    }
}

} // verus!
