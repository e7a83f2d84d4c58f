//! The typed operation set of the virtual machine: each operation knows
//! its byte encoding, its push-immediate width, its gas schedule and its
//! stack requirements.
use vstd::prelude::*;
use crate::u256::{U256, u256_of_nat, u256_mod, lemma_u256_of_val};

verus! {

/// A failure of turning a byte into an operation.
#[derive(Clone, Copy, Debug, PartialEq, Eq, Structural)]
pub enum OperationError {
    InvalidOpcodeFormat,
    InvalidPush,
    PushOpNeedsData,
    UnknownOpcode,
}

/// The gas schedule of one operation: a base charge, and a multiplier
/// for operations whose full cost depends on the runtime shape.
#[derive(Clone, Copy, Debug, PartialEq, Eq, Structural)]
pub struct GasCost {
    pub base: u64,
    pub dynamic_multiplier: u64,
}

/// The stack discipline of one operation.
#[derive(Clone, Copy, Debug, PartialEq, Eq, Structural)]
pub struct StackReq {
    pub min_stack_height: u32,
    pub stack_inputs: u32,
    pub stack_outputs: u32,
}

/// One operation of the virtual machine. Push operations carry their
/// immediate word; a duplication carries its depth, 1 to 16.
#[derive(Clone, Copy, Debug, PartialEq, Eq, Structural)]
pub enum Operation {
    Stop,
    Add,
    Mul,
    Sub,
    Div,
    SDiv,
    Mod,
    SMod,
    AddMod,
    MulMod,
    Exp,
    SignExtend,
    Lt,
    Gt,
    Slt,
    Sgt,
    Eq,
    IsZero,
    And,
    Or,
    Xor,
    Not,
    Byte,
    Shl,
    Shr,
    Sar,
    Keccak256,
    Address,
    Balance,
    Origin,
    Caller,
    CallValue,
    CallDataLoad,
    CallDataSize,
    CallDataCopy,
    CodeSize,
    CodeCopy,
    GasPrice,
    ExtCodeSize,
    ExtCodeCopy,
    ReturnDataSize,
    ReturnDataCopy,
    ExtCodeHash,
    BlockHash,
    Coinbase,
    Timestamp,
    Number,
    Difficulty,
    GasLimit,
    ChainId,
    SelfBalance,
    BaseFee,
    Pop,
    MLoad,
    MStore,
    MStore8,
    SLoad,
    SStore,
    Jump,
    JumpI,
    PC,
    MSize,
    Gas,
    JumpDest,
    Push0,
    Push1(U256),
    Push2(U256),
    Push3(U256),
    Push4(U256),
    Push5(U256),
    Push6(U256),
    Push7(U256),
    Push8(U256),
    Push9(U256),
    Push10(U256),
    Push11(U256),
    Push12(U256),
    Push13(U256),
    Push14(U256),
    Push15(U256),
    Push16(U256),
    Push17(U256),
    Push18(U256),
    Push19(U256),
    Push20(U256),
    Push21(U256),
    Push22(U256),
    Push23(U256),
    Push24(U256),
    Push25(U256),
    Push26(U256),
    Push27(U256),
    Push28(U256),
    Push29(U256),
    Push30(U256),
    Push31(U256),
    Push32(U256),
    Dup(u8),
    Swap1,
    Swap2,
    Swap3,
    Swap4,
    Swap5,
    Swap6,
    Swap7,
    Swap8,
    Swap9,
    Swap10,
    Swap11,
    Swap12,
    Swap13,
    Swap14,
    Swap15,
    Swap16,
    Log0,
    Log1,
    Log2,
    Log3,
    Log4,
    Create,
    Call,
    CallCode,
    Return,
    DelegateCall,
    Create2,
    StaticCall,
    Revert,
    Invalid,
    SelfDestruct,
}

/// The byte encoding of an operation: each variant's 8-bit
/// discriminator, a duplication of depth `n` reading back as
/// `0x7F + n`.
pub open spec fn op_opcode(op: Operation) -> u8 {
    match op {
        Operation::Stop => 0x0,
        Operation::Add => 0x1,
        Operation::Mul => 0x2,
        Operation::Sub => 0x3,
        Operation::Div => 0x4,
        Operation::SDiv => 0x5,
        Operation::Mod => 0x6,
        Operation::SMod => 0x7,
        Operation::AddMod => 0x8,
        Operation::MulMod => 0x9,
        Operation::Exp => 0xa,
        Operation::SignExtend => 0xb,
        Operation::Lt => 0x10,
        Operation::Gt => 0x11,
        Operation::Slt => 0x12,
        Operation::Sgt => 0x13,
        Operation::Eq => 0x14,
        Operation::IsZero => 0x15,
        Operation::And => 0x16,
        Operation::Or => 0x17,
        Operation::Xor => 0x18,
        Operation::Not => 0x19,
        Operation::Byte => 0x1a,
        Operation::Shl => 0x1b,
        Operation::Shr => 0x1c,
        Operation::Sar => 0x1d,
        Operation::Keccak256 => 0x20,
        Operation::Address => 0x30,
        Operation::Balance => 0x31,
        Operation::Origin => 0x32,
        Operation::Caller => 0x33,
        Operation::CallValue => 0x34,
        Operation::CallDataLoad => 0x35,
        Operation::CallDataSize => 0x36,
        Operation::CallDataCopy => 0x37,
        Operation::CodeSize => 0x38,
        Operation::CodeCopy => 0x39,
        Operation::GasPrice => 0x3a,
        Operation::ExtCodeSize => 0x3b,
        Operation::ExtCodeCopy => 0x3c,
        Operation::ReturnDataSize => 0x3d,
        Operation::ReturnDataCopy => 0x3e,
        Operation::ExtCodeHash => 0x3f,
        Operation::BlockHash => 0x40,
        Operation::Coinbase => 0x41,
        Operation::Timestamp => 0x42,
        Operation::Number => 0x43,
        Operation::Difficulty => 0x44,
        Operation::GasLimit => 0x45,
        Operation::ChainId => 0x46,
        Operation::SelfBalance => 0x47,
        Operation::BaseFee => 0x48,
        Operation::Pop => 0x50,
        Operation::MLoad => 0x51,
        Operation::MStore => 0x52,
        Operation::MStore8 => 0x53,
        Operation::SLoad => 0x54,
        Operation::SStore => 0x55,
        Operation::Jump => 0x56,
        Operation::JumpI => 0x57,
        Operation::PC => 0x58,
        Operation::MSize => 0x59,
        Operation::Gas => 0x5a,
        Operation::JumpDest => 0x5b,
        Operation::Push0 => 0x5f,
        Operation::Push1(_) => 0x60,
        Operation::Push2(_) => 0x61,
        Operation::Push3(_) => 0x62,
        Operation::Push4(_) => 0x63,
        Operation::Push5(_) => 0x64,
        Operation::Push6(_) => 0x65,
        Operation::Push7(_) => 0x66,
        Operation::Push8(_) => 0x67,
        Operation::Push9(_) => 0x68,
        Operation::Push10(_) => 0x69,
        Operation::Push11(_) => 0x6a,
        Operation::Push12(_) => 0x6b,
        Operation::Push13(_) => 0x6c,
        Operation::Push14(_) => 0x6d,
        Operation::Push15(_) => 0x6e,
        Operation::Push16(_) => 0x6f,
        Operation::Push17(_) => 0x70,
        Operation::Push18(_) => 0x71,
        Operation::Push19(_) => 0x72,
        Operation::Push20(_) => 0x73,
        Operation::Push21(_) => 0x74,
        Operation::Push22(_) => 0x75,
        Operation::Push23(_) => 0x76,
        Operation::Push24(_) => 0x77,
        Operation::Push25(_) => 0x78,
        Operation::Push26(_) => 0x79,
        Operation::Push27(_) => 0x7a,
        Operation::Push28(_) => 0x7b,
        Operation::Push29(_) => 0x7c,
        Operation::Push30(_) => 0x7d,
        Operation::Push31(_) => 0x7e,
        Operation::Push32(_) => 0x7f,
        Operation::Dup(n) => if 1 <= n <= 16 {
            (0x7f + n) as u8
        } else {
            0x80
        },
        Operation::Swap1 => 0x90,
        Operation::Swap2 => 0x91,
        Operation::Swap3 => 0x92,
        Operation::Swap4 => 0x93,
        Operation::Swap5 => 0x94,
        Operation::Swap6 => 0x95,
        Operation::Swap7 => 0x96,
        Operation::Swap8 => 0x97,
        Operation::Swap9 => 0x98,
        Operation::Swap10 => 0x99,
        Operation::Swap11 => 0x9a,
        Operation::Swap12 => 0x9b,
        Operation::Swap13 => 0x9c,
        Operation::Swap14 => 0x9d,
        Operation::Swap15 => 0x9e,
        Operation::Swap16 => 0x9f,
        Operation::Log0 => 0xa0,
        Operation::Log1 => 0xa1,
        Operation::Log2 => 0xa2,
        Operation::Log3 => 0xa3,
        Operation::Log4 => 0xa4,
        Operation::Create => 0xf0,
        Operation::Call => 0xf1,
        Operation::CallCode => 0xf2,
        Operation::Return => 0xf3,
        Operation::DelegateCall => 0xf4,
        Operation::Create2 => 0xf5,
        Operation::StaticCall => 0xfa,
        Operation::Revert => 0xfd,
        Operation::Invalid => 0xfe,
        Operation::SelfDestruct => 0xff,
    }
}

/// How many immediate bytes follow the opcode in the byte stream.
pub open spec fn op_extra_bytes(op: Operation) -> nat {
    match op {
        Operation::Push1(_) => 1,
        Operation::Push2(_) => 2,
        Operation::Push3(_) => 3,
        Operation::Push4(_) => 4,
        Operation::Push5(_) => 5,
        Operation::Push6(_) => 6,
        Operation::Push7(_) => 7,
        Operation::Push8(_) => 8,
        Operation::Push9(_) => 9,
        Operation::Push10(_) => 10,
        Operation::Push11(_) => 11,
        Operation::Push12(_) => 12,
        Operation::Push13(_) => 13,
        Operation::Push14(_) => 14,
        Operation::Push15(_) => 15,
        Operation::Push16(_) => 16,
        Operation::Push17(_) => 17,
        Operation::Push18(_) => 18,
        Operation::Push19(_) => 19,
        Operation::Push20(_) => 20,
        Operation::Push21(_) => 21,
        Operation::Push22(_) => 22,
        Operation::Push23(_) => 23,
        Operation::Push24(_) => 24,
        Operation::Push25(_) => 25,
        Operation::Push26(_) => 26,
        Operation::Push27(_) => 27,
        Operation::Push28(_) => 28,
        Operation::Push29(_) => 29,
        Operation::Push30(_) => 30,
        Operation::Push31(_) => 31,
        Operation::Push32(_) => 32,
        _ => 0,
    }
}

/// The gas schedule, as the cost table of this core gives it; operations
/// outside the table cost the default base of 3.
pub open spec fn op_gas_cost(op: Operation) -> GasCost {
    match op {
        Operation::Stop => GasCost { base: 0, dynamic_multiplier: 0 },
        Operation::Add => GasCost { base: 3, dynamic_multiplier: 0 },
        Operation::Mul => GasCost { base: 5, dynamic_multiplier: 0 },
        Operation::Sub => GasCost { base: 3, dynamic_multiplier: 0 },
        Operation::Div => GasCost { base: 5, dynamic_multiplier: 0 },
        Operation::SDiv => GasCost { base: 5, dynamic_multiplier: 0 },
        Operation::Mod => GasCost { base: 5, dynamic_multiplier: 0 },
        Operation::SMod => GasCost { base: 5, dynamic_multiplier: 0 },
        Operation::AddMod => GasCost { base: 8, dynamic_multiplier: 0 },
        Operation::MulMod => GasCost { base: 8, dynamic_multiplier: 0 },
        Operation::SignExtend => GasCost { base: 5, dynamic_multiplier: 0 },
        Operation::Lt => GasCost { base: 3, dynamic_multiplier: 0 },
        Operation::Gt => GasCost { base: 3, dynamic_multiplier: 0 },
        Operation::Slt => GasCost { base: 3, dynamic_multiplier: 0 },
        Operation::Sgt => GasCost { base: 3, dynamic_multiplier: 0 },
        Operation::Eq => GasCost { base: 3, dynamic_multiplier: 0 },
        Operation::IsZero => GasCost { base: 3, dynamic_multiplier: 0 },
        Operation::And => GasCost { base: 3, dynamic_multiplier: 0 },
        Operation::Or => GasCost { base: 3, dynamic_multiplier: 0 },
        Operation::Xor => GasCost { base: 3, dynamic_multiplier: 0 },
        Operation::Not => GasCost { base: 3, dynamic_multiplier: 0 },
        Operation::Pop => GasCost { base: 3, dynamic_multiplier: 0 },
        Operation::MLoad => GasCost { base: 3, dynamic_multiplier: 3 },
        Operation::MStore => GasCost { base: 3, dynamic_multiplier: 3 },
        Operation::SLoad => GasCost { base: 800, dynamic_multiplier: 0 },
        Operation::SStore => GasCost { base: 5000, dynamic_multiplier: 15000 },
        Operation::Push1(_) => GasCost { base: 3, dynamic_multiplier: 0 },
        Operation::Push2(_) => GasCost { base: 3, dynamic_multiplier: 0 },
        Operation::Push3(_) => GasCost { base: 3, dynamic_multiplier: 0 },
        Operation::Push4(_) => GasCost { base: 3, dynamic_multiplier: 0 },
        Operation::Push5(_) => GasCost { base: 3, dynamic_multiplier: 0 },
        Operation::Push6(_) => GasCost { base: 3, dynamic_multiplier: 0 },
        Operation::Push7(_) => GasCost { base: 3, dynamic_multiplier: 0 },
        Operation::Push8(_) => GasCost { base: 3, dynamic_multiplier: 0 },
        Operation::Push9(_) => GasCost { base: 3, dynamic_multiplier: 0 },
        Operation::Push10(_) => GasCost { base: 3, dynamic_multiplier: 0 },
        Operation::Push11(_) => GasCost { base: 3, dynamic_multiplier: 0 },
        Operation::Push12(_) => GasCost { base: 3, dynamic_multiplier: 0 },
        Operation::Push13(_) => GasCost { base: 3, dynamic_multiplier: 0 },
        Operation::Push14(_) => GasCost { base: 3, dynamic_multiplier: 0 },
        Operation::Push15(_) => GasCost { base: 3, dynamic_multiplier: 0 },
        Operation::Push16(_) => GasCost { base: 3, dynamic_multiplier: 0 },
        Operation::Push17(_) => GasCost { base: 3, dynamic_multiplier: 0 },
        Operation::Push18(_) => GasCost { base: 3, dynamic_multiplier: 0 },
        Operation::Push19(_) => GasCost { base: 3, dynamic_multiplier: 0 },
        Operation::Push20(_) => GasCost { base: 3, dynamic_multiplier: 0 },
        Operation::Push21(_) => GasCost { base: 3, dynamic_multiplier: 0 },
        Operation::Push22(_) => GasCost { base: 3, dynamic_multiplier: 0 },
        Operation::Push23(_) => GasCost { base: 3, dynamic_multiplier: 0 },
        Operation::Push24(_) => GasCost { base: 3, dynamic_multiplier: 0 },
        Operation::Push25(_) => GasCost { base: 3, dynamic_multiplier: 0 },
        Operation::Push26(_) => GasCost { base: 3, dynamic_multiplier: 0 },
        Operation::Push27(_) => GasCost { base: 3, dynamic_multiplier: 0 },
        Operation::Push28(_) => GasCost { base: 3, dynamic_multiplier: 0 },
        Operation::Push29(_) => GasCost { base: 3, dynamic_multiplier: 0 },
        Operation::Push30(_) => GasCost { base: 3, dynamic_multiplier: 0 },
        Operation::Push31(_) => GasCost { base: 3, dynamic_multiplier: 0 },
        Operation::Push32(_) => GasCost { base: 3, dynamic_multiplier: 0 },
        Operation::Create => GasCost { base: 32000, dynamic_multiplier: 200 },
        Operation::Call => GasCost { base: 700, dynamic_multiplier: 9000 },
        Operation::Return => GasCost { base: 0, dynamic_multiplier: 0 },
        Operation::SelfDestruct => GasCost { base: 5000, dynamic_multiplier: 25000 },
        _ => GasCost { base: 3, dynamic_multiplier: 0 },
    }
}

/// The stack discipline: the fixed minimum heights of this core's classes
/// (two for binary arithmetic, one for Pop, IsZero, SLoad and Jump, two
/// for MStore, SStore, JumpI and Revert, three for CodeCopy, the depth
/// for a duplication), and conventional arities for the rest.
pub open spec fn op_stack_req(op: Operation) -> StackReq {
    match op {
        Operation::Stop => StackReq { min_stack_height: 0, stack_inputs: 0, stack_outputs: 0 },
        Operation::Add => StackReq { min_stack_height: 2, stack_inputs: 2, stack_outputs: 1 },
        Operation::Mul => StackReq { min_stack_height: 2, stack_inputs: 2, stack_outputs: 1 },
        Operation::Sub => StackReq { min_stack_height: 2, stack_inputs: 2, stack_outputs: 1 },
        Operation::Div => StackReq { min_stack_height: 2, stack_inputs: 2, stack_outputs: 1 },
        Operation::SDiv => StackReq { min_stack_height: 2, stack_inputs: 2, stack_outputs: 1 },
        Operation::Mod => StackReq { min_stack_height: 2, stack_inputs: 2, stack_outputs: 1 },
        Operation::SMod => StackReq { min_stack_height: 2, stack_inputs: 2, stack_outputs: 1 },
        Operation::AddMod => StackReq { min_stack_height: 3, stack_inputs: 3, stack_outputs: 1 },
        Operation::MulMod => StackReq { min_stack_height: 3, stack_inputs: 3, stack_outputs: 1 },
        Operation::Exp => StackReq { min_stack_height: 2, stack_inputs: 2, stack_outputs: 1 },
        Operation::SignExtend => StackReq { min_stack_height: 2, stack_inputs: 2, stack_outputs: 1 },
        Operation::Lt => StackReq { min_stack_height: 2, stack_inputs: 2, stack_outputs: 1 },
        Operation::Gt => StackReq { min_stack_height: 2, stack_inputs: 2, stack_outputs: 1 },
        Operation::Slt => StackReq { min_stack_height: 2, stack_inputs: 2, stack_outputs: 1 },
        Operation::Sgt => StackReq { min_stack_height: 2, stack_inputs: 2, stack_outputs: 1 },
        Operation::Eq => StackReq { min_stack_height: 2, stack_inputs: 2, stack_outputs: 1 },
        Operation::IsZero => StackReq { min_stack_height: 1, stack_inputs: 1, stack_outputs: 1 },
        Operation::And => StackReq { min_stack_height: 2, stack_inputs: 2, stack_outputs: 1 },
        Operation::Or => StackReq { min_stack_height: 2, stack_inputs: 2, stack_outputs: 1 },
        Operation::Xor => StackReq { min_stack_height: 2, stack_inputs: 2, stack_outputs: 1 },
        Operation::Not => StackReq { min_stack_height: 1, stack_inputs: 1, stack_outputs: 1 },
        Operation::Byte => StackReq { min_stack_height: 2, stack_inputs: 2, stack_outputs: 1 },
        Operation::Shl => StackReq { min_stack_height: 2, stack_inputs: 2, stack_outputs: 1 },
        Operation::Shr => StackReq { min_stack_height: 2, stack_inputs: 2, stack_outputs: 1 },
        Operation::Sar => StackReq { min_stack_height: 2, stack_inputs: 2, stack_outputs: 1 },
        Operation::Keccak256 => StackReq { min_stack_height: 2, stack_inputs: 2, stack_outputs: 1 },
        Operation::Address => StackReq { min_stack_height: 0, stack_inputs: 0, stack_outputs: 1 },
        Operation::Balance => StackReq { min_stack_height: 1, stack_inputs: 1, stack_outputs: 1 },
        Operation::Origin => StackReq { min_stack_height: 0, stack_inputs: 0, stack_outputs: 1 },
        Operation::Caller => StackReq { min_stack_height: 0, stack_inputs: 0, stack_outputs: 1 },
        Operation::CallValue => StackReq { min_stack_height: 0, stack_inputs: 0, stack_outputs: 1 },
        Operation::CallDataLoad => StackReq { min_stack_height: 0, stack_inputs: 1, stack_outputs: 1 },
        Operation::CallDataSize => StackReq { min_stack_height: 0, stack_inputs: 0, stack_outputs: 1 },
        Operation::CallDataCopy => StackReq { min_stack_height: 3, stack_inputs: 3, stack_outputs: 0 },
        Operation::CodeSize => StackReq { min_stack_height: 0, stack_inputs: 0, stack_outputs: 1 },
        Operation::CodeCopy => StackReq { min_stack_height: 3, stack_inputs: 3, stack_outputs: 0 },
        Operation::GasPrice => StackReq { min_stack_height: 0, stack_inputs: 0, stack_outputs: 1 },
        Operation::ExtCodeSize => StackReq { min_stack_height: 1, stack_inputs: 1, stack_outputs: 1 },
        Operation::ExtCodeCopy => StackReq { min_stack_height: 4, stack_inputs: 4, stack_outputs: 0 },
        Operation::ReturnDataSize => StackReq { min_stack_height: 0, stack_inputs: 0, stack_outputs: 1 },
        Operation::ReturnDataCopy => StackReq { min_stack_height: 3, stack_inputs: 3, stack_outputs: 0 },
        Operation::ExtCodeHash => StackReq { min_stack_height: 1, stack_inputs: 1, stack_outputs: 1 },
        Operation::BlockHash => StackReq { min_stack_height: 1, stack_inputs: 1, stack_outputs: 1 },
        Operation::Coinbase => StackReq { min_stack_height: 0, stack_inputs: 0, stack_outputs: 1 },
        Operation::Timestamp => StackReq { min_stack_height: 0, stack_inputs: 0, stack_outputs: 1 },
        Operation::Number => StackReq { min_stack_height: 0, stack_inputs: 0, stack_outputs: 1 },
        Operation::Difficulty => StackReq { min_stack_height: 0, stack_inputs: 0, stack_outputs: 1 },
        Operation::GasLimit => StackReq { min_stack_height: 0, stack_inputs: 0, stack_outputs: 1 },
        Operation::ChainId => StackReq { min_stack_height: 0, stack_inputs: 0, stack_outputs: 1 },
        Operation::SelfBalance => StackReq { min_stack_height: 0, stack_inputs: 0, stack_outputs: 1 },
        Operation::BaseFee => StackReq { min_stack_height: 0, stack_inputs: 0, stack_outputs: 1 },
        Operation::Pop => StackReq { min_stack_height: 1, stack_inputs: 1, stack_outputs: 0 },
        Operation::MLoad => StackReq { min_stack_height: 1, stack_inputs: 1, stack_outputs: 1 },
        Operation::MStore => StackReq { min_stack_height: 2, stack_inputs: 2, stack_outputs: 0 },
        Operation::MStore8 => StackReq { min_stack_height: 2, stack_inputs: 2, stack_outputs: 0 },
        Operation::SLoad => StackReq { min_stack_height: 1, stack_inputs: 1, stack_outputs: 1 },
        Operation::SStore => StackReq { min_stack_height: 2, stack_inputs: 2, stack_outputs: 0 },
        Operation::Jump => StackReq { min_stack_height: 1, stack_inputs: 1, stack_outputs: 0 },
        Operation::JumpI => StackReq { min_stack_height: 2, stack_inputs: 2, stack_outputs: 0 },
        Operation::PC => StackReq { min_stack_height: 0, stack_inputs: 0, stack_outputs: 1 },
        Operation::MSize => StackReq { min_stack_height: 0, stack_inputs: 0, stack_outputs: 1 },
        Operation::Gas => StackReq { min_stack_height: 0, stack_inputs: 0, stack_outputs: 1 },
        Operation::JumpDest => StackReq { min_stack_height: 0, stack_inputs: 0, stack_outputs: 0 },
        Operation::Push0 => StackReq { min_stack_height: 0, stack_inputs: 0, stack_outputs: 1 },
        Operation::Push1(_) => StackReq { min_stack_height: 0, stack_inputs: 0, stack_outputs: 1 },
        Operation::Push2(_) => StackReq { min_stack_height: 0, stack_inputs: 0, stack_outputs: 1 },
        Operation::Push3(_) => StackReq { min_stack_height: 0, stack_inputs: 0, stack_outputs: 1 },
        Operation::Push4(_) => StackReq { min_stack_height: 0, stack_inputs: 0, stack_outputs: 1 },
        Operation::Push5(_) => StackReq { min_stack_height: 0, stack_inputs: 0, stack_outputs: 1 },
        Operation::Push6(_) => StackReq { min_stack_height: 0, stack_inputs: 0, stack_outputs: 1 },
        Operation::Push7(_) => StackReq { min_stack_height: 0, stack_inputs: 0, stack_outputs: 1 },
        Operation::Push8(_) => StackReq { min_stack_height: 0, stack_inputs: 0, stack_outputs: 1 },
        Operation::Push9(_) => StackReq { min_stack_height: 0, stack_inputs: 0, stack_outputs: 1 },
        Operation::Push10(_) => StackReq { min_stack_height: 0, stack_inputs: 0, stack_outputs: 1 },
        Operation::Push11(_) => StackReq { min_stack_height: 0, stack_inputs: 0, stack_outputs: 1 },
        Operation::Push12(_) => StackReq { min_stack_height: 0, stack_inputs: 0, stack_outputs: 1 },
        Operation::Push13(_) => StackReq { min_stack_height: 0, stack_inputs: 0, stack_outputs: 1 },
        Operation::Push14(_) => StackReq { min_stack_height: 0, stack_inputs: 0, stack_outputs: 1 },
        Operation::Push15(_) => StackReq { min_stack_height: 0, stack_inputs: 0, stack_outputs: 1 },
        Operation::Push16(_) => StackReq { min_stack_height: 0, stack_inputs: 0, stack_outputs: 1 },
        Operation::Push17(_) => StackReq { min_stack_height: 0, stack_inputs: 0, stack_outputs: 1 },
        Operation::Push18(_) => StackReq { min_stack_height: 0, stack_inputs: 0, stack_outputs: 1 },
        Operation::Push19(_) => StackReq { min_stack_height: 0, stack_inputs: 0, stack_outputs: 1 },
        Operation::Push20(_) => StackReq { min_stack_height: 0, stack_inputs: 0, stack_outputs: 1 },
        Operation::Push21(_) => StackReq { min_stack_height: 0, stack_inputs: 0, stack_outputs: 1 },
        Operation::Push22(_) => StackReq { min_stack_height: 0, stack_inputs: 0, stack_outputs: 1 },
        Operation::Push23(_) => StackReq { min_stack_height: 0, stack_inputs: 0, stack_outputs: 1 },
        Operation::Push24(_) => StackReq { min_stack_height: 0, stack_inputs: 0, stack_outputs: 1 },
        Operation::Push25(_) => StackReq { min_stack_height: 0, stack_inputs: 0, stack_outputs: 1 },
        Operation::Push26(_) => StackReq { min_stack_height: 0, stack_inputs: 0, stack_outputs: 1 },
        Operation::Push27(_) => StackReq { min_stack_height: 0, stack_inputs: 0, stack_outputs: 1 },
        Operation::Push28(_) => StackReq { min_stack_height: 0, stack_inputs: 0, stack_outputs: 1 },
        Operation::Push29(_) => StackReq { min_stack_height: 0, stack_inputs: 0, stack_outputs: 1 },
        Operation::Push30(_) => StackReq { min_stack_height: 0, stack_inputs: 0, stack_outputs: 1 },
        Operation::Push31(_) => StackReq { min_stack_height: 0, stack_inputs: 0, stack_outputs: 1 },
        Operation::Push32(_) => StackReq { min_stack_height: 0, stack_inputs: 0, stack_outputs: 1 },
        Operation::Swap1 => StackReq { min_stack_height: 2, stack_inputs: 0, stack_outputs: 0 },
        Operation::Swap2 => StackReq { min_stack_height: 3, stack_inputs: 0, stack_outputs: 0 },
        Operation::Swap3 => StackReq { min_stack_height: 4, stack_inputs: 0, stack_outputs: 0 },
        Operation::Swap4 => StackReq { min_stack_height: 5, stack_inputs: 0, stack_outputs: 0 },
        Operation::Swap5 => StackReq { min_stack_height: 6, stack_inputs: 0, stack_outputs: 0 },
        Operation::Swap6 => StackReq { min_stack_height: 7, stack_inputs: 0, stack_outputs: 0 },
        Operation::Swap7 => StackReq { min_stack_height: 8, stack_inputs: 0, stack_outputs: 0 },
        Operation::Swap8 => StackReq { min_stack_height: 9, stack_inputs: 0, stack_outputs: 0 },
        Operation::Swap9 => StackReq { min_stack_height: 10, stack_inputs: 0, stack_outputs: 0 },
        Operation::Swap10 => StackReq { min_stack_height: 11, stack_inputs: 0, stack_outputs: 0 },
        Operation::Swap11 => StackReq { min_stack_height: 12, stack_inputs: 0, stack_outputs: 0 },
        Operation::Swap12 => StackReq { min_stack_height: 13, stack_inputs: 0, stack_outputs: 0 },
        Operation::Swap13 => StackReq { min_stack_height: 14, stack_inputs: 0, stack_outputs: 0 },
        Operation::Swap14 => StackReq { min_stack_height: 15, stack_inputs: 0, stack_outputs: 0 },
        Operation::Swap15 => StackReq { min_stack_height: 16, stack_inputs: 0, stack_outputs: 0 },
        Operation::Swap16 => StackReq { min_stack_height: 17, stack_inputs: 0, stack_outputs: 0 },
        Operation::Log0 => StackReq { min_stack_height: 2, stack_inputs: 2, stack_outputs: 0 },
        Operation::Log1 => StackReq { min_stack_height: 3, stack_inputs: 3, stack_outputs: 0 },
        Operation::Log2 => StackReq { min_stack_height: 4, stack_inputs: 4, stack_outputs: 0 },
        Operation::Log3 => StackReq { min_stack_height: 5, stack_inputs: 5, stack_outputs: 0 },
        Operation::Log4 => StackReq { min_stack_height: 6, stack_inputs: 6, stack_outputs: 0 },
        Operation::Create => StackReq { min_stack_height: 3, stack_inputs: 3, stack_outputs: 1 },
        Operation::Call => StackReq { min_stack_height: 7, stack_inputs: 7, stack_outputs: 1 },
        Operation::CallCode => StackReq { min_stack_height: 7, stack_inputs: 7, stack_outputs: 1 },
        Operation::Return => StackReq { min_stack_height: 2, stack_inputs: 2, stack_outputs: 0 },
        Operation::DelegateCall => StackReq { min_stack_height: 6, stack_inputs: 6, stack_outputs: 1 },
        Operation::Create2 => StackReq { min_stack_height: 4, stack_inputs: 4, stack_outputs: 1 },
        Operation::StaticCall => StackReq { min_stack_height: 6, stack_inputs: 6, stack_outputs: 1 },
        Operation::Revert => StackReq { min_stack_height: 2, stack_inputs: 2, stack_outputs: 0 },
        Operation::Invalid => StackReq { min_stack_height: 0, stack_inputs: 0, stack_outputs: 0 },
        Operation::SelfDestruct => StackReq { min_stack_height: 1, stack_inputs: 1, stack_outputs: 0 },
        Operation::Dup(n) => StackReq { min_stack_height: n as u32, stack_inputs: 0, stack_outputs: 1 },
    }
}

/// The operation a byte decodes to, with `data` the already-read
/// big-endian immediate of a push. Bytes with no mapping are refused.
pub open spec fn spec_from_byte(byte: u8, data: Option<nat>) -> Result<Operation, OperationError> {
    if 0x60 <= byte <= 0x7f {
        match data {
            Some(v) => Ok(spec_push_op(byte, u256_of_nat(v))),
            None => Err(OperationError::PushOpNeedsData),
        }
    } else if 0x80 <= byte <= 0x8f {
        Ok(Operation::Dup((byte - 0x80 + 1) as u8))
    } else {
        spec_plain_op(byte)
    }
}

/// The push operation of a given opcode, carrying the given word.
pub open spec fn spec_push_op(byte: u8, v: U256) -> Operation
    recommends 0x60 <= byte <= 0x7f,
{
    match byte {
        0x60 => Operation::Push1(v),
        0x61 => Operation::Push2(v),
        0x62 => Operation::Push3(v),
        0x63 => Operation::Push4(v),
        0x64 => Operation::Push5(v),
        0x65 => Operation::Push6(v),
        0x66 => Operation::Push7(v),
        0x67 => Operation::Push8(v),
        0x68 => Operation::Push9(v),
        0x69 => Operation::Push10(v),
        0x6a => Operation::Push11(v),
        0x6b => Operation::Push12(v),
        0x6c => Operation::Push13(v),
        0x6d => Operation::Push14(v),
        0x6e => Operation::Push15(v),
        0x6f => Operation::Push16(v),
        0x70 => Operation::Push17(v),
        0x71 => Operation::Push18(v),
        0x72 => Operation::Push19(v),
        0x73 => Operation::Push20(v),
        0x74 => Operation::Push21(v),
        0x75 => Operation::Push22(v),
        0x76 => Operation::Push23(v),
        0x77 => Operation::Push24(v),
        0x78 => Operation::Push25(v),
        0x79 => Operation::Push26(v),
        0x7a => Operation::Push27(v),
        0x7b => Operation::Push28(v),
        0x7c => Operation::Push29(v),
        0x7d => Operation::Push30(v),
        0x7e => Operation::Push31(v),
        0x7f => Operation::Push32(v),
        _ => Operation::Push32(v),
    }
}

/// The operation of a byte that carries no immediate and is no
/// duplication.
pub open spec fn spec_plain_op(byte: u8) -> Result<Operation, OperationError> {
    match byte {
        0x0 => Ok(Operation::Stop),
        0x1 => Ok(Operation::Add),
        0x2 => Ok(Operation::Mul),
        0x3 => Ok(Operation::Sub),
        0x4 => Ok(Operation::Div),
        0x5 => Ok(Operation::SDiv),
        0x6 => Ok(Operation::Mod),
        0x7 => Ok(Operation::SMod),
        0x8 => Ok(Operation::AddMod),
        0x9 => Ok(Operation::MulMod),
        0xa => Ok(Operation::Exp),
        0xb => Ok(Operation::SignExtend),
        0x10 => Ok(Operation::Lt),
        0x11 => Ok(Operation::Gt),
        0x12 => Ok(Operation::Slt),
        0x13 => Ok(Operation::Sgt),
        0x14 => Ok(Operation::Eq),
        0x15 => Ok(Operation::IsZero),
        0x16 => Ok(Operation::And),
        0x17 => Ok(Operation::Or),
        0x18 => Ok(Operation::Xor),
        0x19 => Ok(Operation::Not),
        0x1a => Ok(Operation::Byte),
        0x1b => Ok(Operation::Shl),
        0x1c => Ok(Operation::Shr),
        0x1d => Ok(Operation::Sar),
        0x20 => Ok(Operation::Keccak256),
        0x30 => Ok(Operation::Address),
        0x31 => Ok(Operation::Balance),
        0x32 => Ok(Operation::Origin),
        0x33 => Ok(Operation::Caller),
        0x34 => Ok(Operation::CallValue),
        0x35 => Ok(Operation::CallDataLoad),
        0x36 => Ok(Operation::CallDataSize),
        0x37 => Ok(Operation::CallDataCopy),
        0x38 => Ok(Operation::CodeSize),
        0x39 => Ok(Operation::CodeCopy),
        0x3a => Ok(Operation::GasPrice),
        0x3b => Ok(Operation::ExtCodeSize),
        0x3c => Ok(Operation::ExtCodeCopy),
        0x3d => Ok(Operation::ReturnDataSize),
        0x3e => Ok(Operation::ReturnDataCopy),
        0x3f => Ok(Operation::ExtCodeHash),
        0x40 => Ok(Operation::BlockHash),
        0x41 => Ok(Operation::Coinbase),
        0x42 => Ok(Operation::Timestamp),
        0x43 => Ok(Operation::Number),
        0x44 => Ok(Operation::Difficulty),
        0x45 => Ok(Operation::GasLimit),
        0x46 => Ok(Operation::ChainId),
        0x47 => Ok(Operation::SelfBalance),
        0x48 => Ok(Operation::BaseFee),
        0x50 => Ok(Operation::Pop),
        0x51 => Ok(Operation::MLoad),
        0x52 => Ok(Operation::MStore),
        0x53 => Ok(Operation::MStore8),
        0x54 => Ok(Operation::SLoad),
        0x55 => Ok(Operation::SStore),
        0x56 => Ok(Operation::Jump),
        0x57 => Ok(Operation::JumpI),
        0x58 => Ok(Operation::PC),
        0x59 => Ok(Operation::MSize),
        0x5a => Ok(Operation::Gas),
        0x5b => Ok(Operation::JumpDest),
        0x5f => Ok(Operation::Push0),
        0x90 => Ok(Operation::Swap1),
        0x91 => Ok(Operation::Swap2),
        0x92 => Ok(Operation::Swap3),
        0x93 => Ok(Operation::Swap4),
        0x94 => Ok(Operation::Swap5),
        0x95 => Ok(Operation::Swap6),
        0x96 => Ok(Operation::Swap7),
        0x97 => Ok(Operation::Swap8),
        0x98 => Ok(Operation::Swap9),
        0x99 => Ok(Operation::Swap10),
        0x9a => Ok(Operation::Swap11),
        0x9b => Ok(Operation::Swap12),
        0x9c => Ok(Operation::Swap13),
        0x9d => Ok(Operation::Swap14),
        0x9e => Ok(Operation::Swap15),
        0x9f => Ok(Operation::Swap16),
        0xa0 => Ok(Operation::Log0),
        0xa1 => Ok(Operation::Log1),
        0xa2 => Ok(Operation::Log2),
        0xa3 => Ok(Operation::Log3),
        0xa4 => Ok(Operation::Log4),
        0xf0 => Ok(Operation::Create),
        0xf1 => Ok(Operation::Call),
        0xf2 => Ok(Operation::CallCode),
        0xf3 => Ok(Operation::Return),
        0xf4 => Ok(Operation::DelegateCall),
        0xf5 => Ok(Operation::Create2),
        0xfa => Ok(Operation::StaticCall),
        0xfd => Ok(Operation::Revert),
        0xfe => Ok(Operation::Invalid),
        0xff => Ok(Operation::SelfDestruct),
        _ => Err(OperationError::UnknownOpcode),
    }
}

impl Operation {
    /// Decode one byte into its operation; a push opcode needs the
    /// immediate word it introduces in `data`.
    pub fn from_byte(byte: u8, data: Option<U256>) -> (r: Result<Operation, OperationError>)
        ensures
            r == spec_from_byte(
                byte,
                match data {
                    Some(d) => Some(d@),
                    None => None,
                },
            ),
    {
        proof {
            if let Some(d) = data {
                lemma_u256_of_val(d);
            }
        }
        if 0x60 <= byte && byte <= 0x7f {
            match data {
                Some(value) => Ok(
                    match byte {
                        0x60 => Operation::Push1(value),
                        0x61 => Operation::Push2(value),
                        0x62 => Operation::Push3(value),
                        0x63 => Operation::Push4(value),
                        0x64 => Operation::Push5(value),
                        0x65 => Operation::Push6(value),
                        0x66 => Operation::Push7(value),
                        0x67 => Operation::Push8(value),
                        0x68 => Operation::Push9(value),
                        0x69 => Operation::Push10(value),
                        0x6a => Operation::Push11(value),
                        0x6b => Operation::Push12(value),
                        0x6c => Operation::Push13(value),
                        0x6d => Operation::Push14(value),
                        0x6e => Operation::Push15(value),
                        0x6f => Operation::Push16(value),
                        0x70 => Operation::Push17(value),
                        0x71 => Operation::Push18(value),
                        0x72 => Operation::Push19(value),
                        0x73 => Operation::Push20(value),
                        0x74 => Operation::Push21(value),
                        0x75 => Operation::Push22(value),
                        0x76 => Operation::Push23(value),
                        0x77 => Operation::Push24(value),
                        0x78 => Operation::Push25(value),
                        0x79 => Operation::Push26(value),
                        0x7a => Operation::Push27(value),
                        0x7b => Operation::Push28(value),
                        0x7c => Operation::Push29(value),
                        0x7d => Operation::Push30(value),
                        0x7e => Operation::Push31(value),
                        0x7f => Operation::Push32(value),
                        _ => Operation::Push32(value),
                    },
                ),
                None => Err(OperationError::PushOpNeedsData),
            }
        } else if 0x80 <= byte && byte <= 0x8f {
            Ok(Operation::Dup(byte - 0x80 + 1))
        } else {
            match byte {
                0x0 => Ok(Operation::Stop),
                0x1 => Ok(Operation::Add),
                0x2 => Ok(Operation::Mul),
                0x3 => Ok(Operation::Sub),
                0x4 => Ok(Operation::Div),
                0x5 => Ok(Operation::SDiv),
                0x6 => Ok(Operation::Mod),
                0x7 => Ok(Operation::SMod),
                0x8 => Ok(Operation::AddMod),
                0x9 => Ok(Operation::MulMod),
                0xa => Ok(Operation::Exp),
                0xb => Ok(Operation::SignExtend),
                0x10 => Ok(Operation::Lt),
                0x11 => Ok(Operation::Gt),
                0x12 => Ok(Operation::Slt),
                0x13 => Ok(Operation::Sgt),
                0x14 => Ok(Operation::Eq),
                0x15 => Ok(Operation::IsZero),
                0x16 => Ok(Operation::And),
                0x17 => Ok(Operation::Or),
                0x18 => Ok(Operation::Xor),
                0x19 => Ok(Operation::Not),
                0x1a => Ok(Operation::Byte),
                0x1b => Ok(Operation::Shl),
                0x1c => Ok(Operation::Shr),
                0x1d => Ok(Operation::Sar),
                0x20 => Ok(Operation::Keccak256),
                0x30 => Ok(Operation::Address),
                0x31 => Ok(Operation::Balance),
                0x32 => Ok(Operation::Origin),
                0x33 => Ok(Operation::Caller),
                0x34 => Ok(Operation::CallValue),
                0x35 => Ok(Operation::CallDataLoad),
                0x36 => Ok(Operation::CallDataSize),
                0x37 => Ok(Operation::CallDataCopy),
                0x38 => Ok(Operation::CodeSize),
                0x39 => Ok(Operation::CodeCopy),
                0x3a => Ok(Operation::GasPrice),
                0x3b => Ok(Operation::ExtCodeSize),
                0x3c => Ok(Operation::ExtCodeCopy),
                0x3d => Ok(Operation::ReturnDataSize),
                0x3e => Ok(Operation::ReturnDataCopy),
                0x3f => Ok(Operation::ExtCodeHash),
                0x40 => Ok(Operation::BlockHash),
                0x41 => Ok(Operation::Coinbase),
                0x42 => Ok(Operation::Timestamp),
                0x43 => Ok(Operation::Number),
                0x44 => Ok(Operation::Difficulty),
                0x45 => Ok(Operation::GasLimit),
                0x46 => Ok(Operation::ChainId),
                0x47 => Ok(Operation::SelfBalance),
                0x48 => Ok(Operation::BaseFee),
                0x50 => Ok(Operation::Pop),
                0x51 => Ok(Operation::MLoad),
                0x52 => Ok(Operation::MStore),
                0x53 => Ok(Operation::MStore8),
                0x54 => Ok(Operation::SLoad),
                0x55 => Ok(Operation::SStore),
                0x56 => Ok(Operation::Jump),
                0x57 => Ok(Operation::JumpI),
                0x58 => Ok(Operation::PC),
                0x59 => Ok(Operation::MSize),
                0x5a => Ok(Operation::Gas),
                0x5b => Ok(Operation::JumpDest),
                0x5f => Ok(Operation::Push0),
                0x90 => Ok(Operation::Swap1),
                0x91 => Ok(Operation::Swap2),
                0x92 => Ok(Operation::Swap3),
                0x93 => Ok(Operation::Swap4),
                0x94 => Ok(Operation::Swap5),
                0x95 => Ok(Operation::Swap6),
                0x96 => Ok(Operation::Swap7),
                0x97 => Ok(Operation::Swap8),
                0x98 => Ok(Operation::Swap9),
                0x99 => Ok(Operation::Swap10),
                0x9a => Ok(Operation::Swap11),
                0x9b => Ok(Operation::Swap12),
                0x9c => Ok(Operation::Swap13),
                0x9d => Ok(Operation::Swap14),
                0x9e => Ok(Operation::Swap15),
                0x9f => Ok(Operation::Swap16),
                0xa0 => Ok(Operation::Log0),
                0xa1 => Ok(Operation::Log1),
                0xa2 => Ok(Operation::Log2),
                0xa3 => Ok(Operation::Log3),
                0xa4 => Ok(Operation::Log4),
                0xf0 => Ok(Operation::Create),
                0xf1 => Ok(Operation::Call),
                0xf2 => Ok(Operation::CallCode),
                0xf3 => Ok(Operation::Return),
                0xf4 => Ok(Operation::DelegateCall),
                0xf5 => Ok(Operation::Create2),
                0xfa => Ok(Operation::StaticCall),
                0xfd => Ok(Operation::Revert),
                0xfe => Ok(Operation::Invalid),
                0xff => Ok(Operation::SelfDestruct),
                _ => Err(OperationError::UnknownOpcode),
            }
        }
    }

    /// How many immediate bytes this operation takes from the stream.
    pub fn additional_bytes(&self) -> (r: usize)
        ensures
            r == op_extra_bytes(*self),
    {
        match self {
            Operation::Push1(_) => 1,
            Operation::Push2(_) => 2,
            Operation::Push3(_) => 3,
            Operation::Push4(_) => 4,
            Operation::Push5(_) => 5,
            Operation::Push6(_) => 6,
            Operation::Push7(_) => 7,
            Operation::Push8(_) => 8,
            Operation::Push9(_) => 9,
            Operation::Push10(_) => 10,
            Operation::Push11(_) => 11,
            Operation::Push12(_) => 12,
            Operation::Push13(_) => 13,
            Operation::Push14(_) => 14,
            Operation::Push15(_) => 15,
            Operation::Push16(_) => 16,
            Operation::Push17(_) => 17,
            Operation::Push18(_) => 18,
            Operation::Push19(_) => 19,
            Operation::Push20(_) => 20,
            Operation::Push21(_) => 21,
            Operation::Push22(_) => 22,
            Operation::Push23(_) => 23,
            Operation::Push24(_) => 24,
            Operation::Push25(_) => 25,
            Operation::Push26(_) => 26,
            Operation::Push27(_) => 27,
            Operation::Push28(_) => 28,
            Operation::Push29(_) => 29,
            Operation::Push30(_) => 30,
            Operation::Push31(_) => 31,
            Operation::Push32(_) => 32,
            _ => 0,
        }
    }

    /// The gas schedule of this operation.
    pub fn gas_cost(&self) -> (r: GasCost)
        ensures
            r == op_gas_cost(*self),
    {
        match self {
            Operation::Stop => GasCost { base: 0, dynamic_multiplier: 0 },
            Operation::Add => GasCost { base: 3, dynamic_multiplier: 0 },
            Operation::Mul => GasCost { base: 5, dynamic_multiplier: 0 },
            Operation::Sub => GasCost { base: 3, dynamic_multiplier: 0 },
            Operation::Div => GasCost { base: 5, dynamic_multiplier: 0 },
            Operation::SDiv => GasCost { base: 5, dynamic_multiplier: 0 },
            Operation::Mod => GasCost { base: 5, dynamic_multiplier: 0 },
            Operation::SMod => GasCost { base: 5, dynamic_multiplier: 0 },
            Operation::AddMod => GasCost { base: 8, dynamic_multiplier: 0 },
            Operation::MulMod => GasCost { base: 8, dynamic_multiplier: 0 },
            Operation::SignExtend => GasCost { base: 5, dynamic_multiplier: 0 },
            Operation::Lt => GasCost { base: 3, dynamic_multiplier: 0 },
            Operation::Gt => GasCost { base: 3, dynamic_multiplier: 0 },
            Operation::Slt => GasCost { base: 3, dynamic_multiplier: 0 },
            Operation::Sgt => GasCost { base: 3, dynamic_multiplier: 0 },
            Operation::Eq => GasCost { base: 3, dynamic_multiplier: 0 },
            Operation::IsZero => GasCost { base: 3, dynamic_multiplier: 0 },
            Operation::And => GasCost { base: 3, dynamic_multiplier: 0 },
            Operation::Or => GasCost { base: 3, dynamic_multiplier: 0 },
            Operation::Xor => GasCost { base: 3, dynamic_multiplier: 0 },
            Operation::Not => GasCost { base: 3, dynamic_multiplier: 0 },
            Operation::Pop => GasCost { base: 3, dynamic_multiplier: 0 },
            Operation::MLoad => GasCost { base: 3, dynamic_multiplier: 3 },
            Operation::MStore => GasCost { base: 3, dynamic_multiplier: 3 },
            Operation::SLoad => GasCost { base: 800, dynamic_multiplier: 0 },
            Operation::SStore => GasCost { base: 5000, dynamic_multiplier: 15000 },
            Operation::Push1(_) => GasCost { base: 3, dynamic_multiplier: 0 },
            Operation::Push2(_) => GasCost { base: 3, dynamic_multiplier: 0 },
            Operation::Push3(_) => GasCost { base: 3, dynamic_multiplier: 0 },
            Operation::Push4(_) => GasCost { base: 3, dynamic_multiplier: 0 },
            Operation::Push5(_) => GasCost { base: 3, dynamic_multiplier: 0 },
            Operation::Push6(_) => GasCost { base: 3, dynamic_multiplier: 0 },
            Operation::Push7(_) => GasCost { base: 3, dynamic_multiplier: 0 },
            Operation::Push8(_) => GasCost { base: 3, dynamic_multiplier: 0 },
            Operation::Push9(_) => GasCost { base: 3, dynamic_multiplier: 0 },
            Operation::Push10(_) => GasCost { base: 3, dynamic_multiplier: 0 },
            Operation::Push11(_) => GasCost { base: 3, dynamic_multiplier: 0 },
            Operation::Push12(_) => GasCost { base: 3, dynamic_multiplier: 0 },
            Operation::Push13(_) => GasCost { base: 3, dynamic_multiplier: 0 },
            Operation::Push14(_) => GasCost { base: 3, dynamic_multiplier: 0 },
            Operation::Push15(_) => GasCost { base: 3, dynamic_multiplier: 0 },
            Operation::Push16(_) => GasCost { base: 3, dynamic_multiplier: 0 },
            Operation::Push17(_) => GasCost { base: 3, dynamic_multiplier: 0 },
            Operation::Push18(_) => GasCost { base: 3, dynamic_multiplier: 0 },
            Operation::Push19(_) => GasCost { base: 3, dynamic_multiplier: 0 },
            Operation::Push20(_) => GasCost { base: 3, dynamic_multiplier: 0 },
            Operation::Push21(_) => GasCost { base: 3, dynamic_multiplier: 0 },
            Operation::Push22(_) => GasCost { base: 3, dynamic_multiplier: 0 },
            Operation::Push23(_) => GasCost { base: 3, dynamic_multiplier: 0 },
            Operation::Push24(_) => GasCost { base: 3, dynamic_multiplier: 0 },
            Operation::Push25(_) => GasCost { base: 3, dynamic_multiplier: 0 },
            Operation::Push26(_) => GasCost { base: 3, dynamic_multiplier: 0 },
            Operation::Push27(_) => GasCost { base: 3, dynamic_multiplier: 0 },
            Operation::Push28(_) => GasCost { base: 3, dynamic_multiplier: 0 },
            Operation::Push29(_) => GasCost { base: 3, dynamic_multiplier: 0 },
            Operation::Push30(_) => GasCost { base: 3, dynamic_multiplier: 0 },
            Operation::Push31(_) => GasCost { base: 3, dynamic_multiplier: 0 },
            Operation::Push32(_) => GasCost { base: 3, dynamic_multiplier: 0 },
            Operation::Create => GasCost { base: 32000, dynamic_multiplier: 200 },
            Operation::Call => GasCost { base: 700, dynamic_multiplier: 9000 },
            Operation::Return => GasCost { base: 0, dynamic_multiplier: 0 },
            Operation::SelfDestruct => GasCost { base: 5000, dynamic_multiplier: 25000 },
            _ => GasCost { base: 3, dynamic_multiplier: 0 },
        }
    }

    /// The stack requirements of this operation.
    pub fn stack_req(&self) -> (r: StackReq)
        ensures
            r == op_stack_req(*self),
    {
        match self {
            Operation::Stop => StackReq { min_stack_height: 0, stack_inputs: 0, stack_outputs: 0 },
            Operation::Add => StackReq { min_stack_height: 2, stack_inputs: 2, stack_outputs: 1 },
            Operation::Mul => StackReq { min_stack_height: 2, stack_inputs: 2, stack_outputs: 1 },
            Operation::Sub => StackReq { min_stack_height: 2, stack_inputs: 2, stack_outputs: 1 },
            Operation::Div => StackReq { min_stack_height: 2, stack_inputs: 2, stack_outputs: 1 },
            Operation::SDiv => StackReq { min_stack_height: 2, stack_inputs: 2, stack_outputs: 1 },
            Operation::Mod => StackReq { min_stack_height: 2, stack_inputs: 2, stack_outputs: 1 },
            Operation::SMod => StackReq { min_stack_height: 2, stack_inputs: 2, stack_outputs: 1 },
            Operation::AddMod => StackReq { min_stack_height: 3, stack_inputs: 3, stack_outputs: 1 },
            Operation::MulMod => StackReq { min_stack_height: 3, stack_inputs: 3, stack_outputs: 1 },
            Operation::Exp => StackReq { min_stack_height: 2, stack_inputs: 2, stack_outputs: 1 },
            Operation::SignExtend => StackReq { min_stack_height: 2, stack_inputs: 2, stack_outputs: 1 },
            Operation::Lt => StackReq { min_stack_height: 2, stack_inputs: 2, stack_outputs: 1 },
            Operation::Gt => StackReq { min_stack_height: 2, stack_inputs: 2, stack_outputs: 1 },
            Operation::Slt => StackReq { min_stack_height: 2, stack_inputs: 2, stack_outputs: 1 },
            Operation::Sgt => StackReq { min_stack_height: 2, stack_inputs: 2, stack_outputs: 1 },
            Operation::Eq => StackReq { min_stack_height: 2, stack_inputs: 2, stack_outputs: 1 },
            Operation::IsZero => StackReq { min_stack_height: 1, stack_inputs: 1, stack_outputs: 1 },
            Operation::And => StackReq { min_stack_height: 2, stack_inputs: 2, stack_outputs: 1 },
            Operation::Or => StackReq { min_stack_height: 2, stack_inputs: 2, stack_outputs: 1 },
            Operation::Xor => StackReq { min_stack_height: 2, stack_inputs: 2, stack_outputs: 1 },
            Operation::Not => StackReq { min_stack_height: 1, stack_inputs: 1, stack_outputs: 1 },
            Operation::Byte => StackReq { min_stack_height: 2, stack_inputs: 2, stack_outputs: 1 },
            Operation::Shl => StackReq { min_stack_height: 2, stack_inputs: 2, stack_outputs: 1 },
            Operation::Shr => StackReq { min_stack_height: 2, stack_inputs: 2, stack_outputs: 1 },
            Operation::Sar => StackReq { min_stack_height: 2, stack_inputs: 2, stack_outputs: 1 },
            Operation::Keccak256 => StackReq { min_stack_height: 2, stack_inputs: 2, stack_outputs: 1 },
            Operation::Address => StackReq { min_stack_height: 0, stack_inputs: 0, stack_outputs: 1 },
            Operation::Balance => StackReq { min_stack_height: 1, stack_inputs: 1, stack_outputs: 1 },
            Operation::Origin => StackReq { min_stack_height: 0, stack_inputs: 0, stack_outputs: 1 },
            Operation::Caller => StackReq { min_stack_height: 0, stack_inputs: 0, stack_outputs: 1 },
            Operation::CallValue => StackReq { min_stack_height: 0, stack_inputs: 0, stack_outputs: 1 },
            Operation::CallDataLoad => StackReq { min_stack_height: 0, stack_inputs: 1, stack_outputs: 1 },
            Operation::CallDataSize => StackReq { min_stack_height: 0, stack_inputs: 0, stack_outputs: 1 },
            Operation::CallDataCopy => StackReq { min_stack_height: 3, stack_inputs: 3, stack_outputs: 0 },
            Operation::CodeSize => StackReq { min_stack_height: 0, stack_inputs: 0, stack_outputs: 1 },
            Operation::CodeCopy => StackReq { min_stack_height: 3, stack_inputs: 3, stack_outputs: 0 },
            Operation::GasPrice => StackReq { min_stack_height: 0, stack_inputs: 0, stack_outputs: 1 },
            Operation::ExtCodeSize => StackReq { min_stack_height: 1, stack_inputs: 1, stack_outputs: 1 },
            Operation::ExtCodeCopy => StackReq { min_stack_height: 4, stack_inputs: 4, stack_outputs: 0 },
            Operation::ReturnDataSize => StackReq { min_stack_height: 0, stack_inputs: 0, stack_outputs: 1 },
            Operation::ReturnDataCopy => StackReq { min_stack_height: 3, stack_inputs: 3, stack_outputs: 0 },
            Operation::ExtCodeHash => StackReq { min_stack_height: 1, stack_inputs: 1, stack_outputs: 1 },
            Operation::BlockHash => StackReq { min_stack_height: 1, stack_inputs: 1, stack_outputs: 1 },
            Operation::Coinbase => StackReq { min_stack_height: 0, stack_inputs: 0, stack_outputs: 1 },
            Operation::Timestamp => StackReq { min_stack_height: 0, stack_inputs: 0, stack_outputs: 1 },
            Operation::Number => StackReq { min_stack_height: 0, stack_inputs: 0, stack_outputs: 1 },
            Operation::Difficulty => StackReq { min_stack_height: 0, stack_inputs: 0, stack_outputs: 1 },
            Operation::GasLimit => StackReq { min_stack_height: 0, stack_inputs: 0, stack_outputs: 1 },
            Operation::ChainId => StackReq { min_stack_height: 0, stack_inputs: 0, stack_outputs: 1 },
            Operation::SelfBalance => StackReq { min_stack_height: 0, stack_inputs: 0, stack_outputs: 1 },
            Operation::BaseFee => StackReq { min_stack_height: 0, stack_inputs: 0, stack_outputs: 1 },
            Operation::Pop => StackReq { min_stack_height: 1, stack_inputs: 1, stack_outputs: 0 },
            Operation::MLoad => StackReq { min_stack_height: 1, stack_inputs: 1, stack_outputs: 1 },
            Operation::MStore => StackReq { min_stack_height: 2, stack_inputs: 2, stack_outputs: 0 },
            Operation::MStore8 => StackReq { min_stack_height: 2, stack_inputs: 2, stack_outputs: 0 },
            Operation::SLoad => StackReq { min_stack_height: 1, stack_inputs: 1, stack_outputs: 1 },
            Operation::SStore => StackReq { min_stack_height: 2, stack_inputs: 2, stack_outputs: 0 },
            Operation::Jump => StackReq { min_stack_height: 1, stack_inputs: 1, stack_outputs: 0 },
            Operation::JumpI => StackReq { min_stack_height: 2, stack_inputs: 2, stack_outputs: 0 },
            Operation::PC => StackReq { min_stack_height: 0, stack_inputs: 0, stack_outputs: 1 },
            Operation::MSize => StackReq { min_stack_height: 0, stack_inputs: 0, stack_outputs: 1 },
            Operation::Gas => StackReq { min_stack_height: 0, stack_inputs: 0, stack_outputs: 1 },
            Operation::JumpDest => StackReq { min_stack_height: 0, stack_inputs: 0, stack_outputs: 0 },
            Operation::Push0 => StackReq { min_stack_height: 0, stack_inputs: 0, stack_outputs: 1 },
            Operation::Push1(_) => StackReq { min_stack_height: 0, stack_inputs: 0, stack_outputs: 1 },
            Operation::Push2(_) => StackReq { min_stack_height: 0, stack_inputs: 0, stack_outputs: 1 },
            Operation::Push3(_) => StackReq { min_stack_height: 0, stack_inputs: 0, stack_outputs: 1 },
            Operation::Push4(_) => StackReq { min_stack_height: 0, stack_inputs: 0, stack_outputs: 1 },
            Operation::Push5(_) => StackReq { min_stack_height: 0, stack_inputs: 0, stack_outputs: 1 },
            Operation::Push6(_) => StackReq { min_stack_height: 0, stack_inputs: 0, stack_outputs: 1 },
            Operation::Push7(_) => StackReq { min_stack_height: 0, stack_inputs: 0, stack_outputs: 1 },
            Operation::Push8(_) => StackReq { min_stack_height: 0, stack_inputs: 0, stack_outputs: 1 },
            Operation::Push9(_) => StackReq { min_stack_height: 0, stack_inputs: 0, stack_outputs: 1 },
            Operation::Push10(_) => StackReq { min_stack_height: 0, stack_inputs: 0, stack_outputs: 1 },
            Operation::Push11(_) => StackReq { min_stack_height: 0, stack_inputs: 0, stack_outputs: 1 },
            Operation::Push12(_) => StackReq { min_stack_height: 0, stack_inputs: 0, stack_outputs: 1 },
            Operation::Push13(_) => StackReq { min_stack_height: 0, stack_inputs: 0, stack_outputs: 1 },
            Operation::Push14(_) => StackReq { min_stack_height: 0, stack_inputs: 0, stack_outputs: 1 },
            Operation::Push15(_) => StackReq { min_stack_height: 0, stack_inputs: 0, stack_outputs: 1 },
            Operation::Push16(_) => StackReq { min_stack_height: 0, stack_inputs: 0, stack_outputs: 1 },
            Operation::Push17(_) => StackReq { min_stack_height: 0, stack_inputs: 0, stack_outputs: 1 },
            Operation::Push18(_) => StackReq { min_stack_height: 0, stack_inputs: 0, stack_outputs: 1 },
            Operation::Push19(_) => StackReq { min_stack_height: 0, stack_inputs: 0, stack_outputs: 1 },
            Operation::Push20(_) => StackReq { min_stack_height: 0, stack_inputs: 0, stack_outputs: 1 },
            Operation::Push21(_) => StackReq { min_stack_height: 0, stack_inputs: 0, stack_outputs: 1 },
            Operation::Push22(_) => StackReq { min_stack_height: 0, stack_inputs: 0, stack_outputs: 1 },
            Operation::Push23(_) => StackReq { min_stack_height: 0, stack_inputs: 0, stack_outputs: 1 },
            Operation::Push24(_) => StackReq { min_stack_height: 0, stack_inputs: 0, stack_outputs: 1 },
            Operation::Push25(_) => StackReq { min_stack_height: 0, stack_inputs: 0, stack_outputs: 1 },
            Operation::Push26(_) => StackReq { min_stack_height: 0, stack_inputs: 0, stack_outputs: 1 },
            Operation::Push27(_) => StackReq { min_stack_height: 0, stack_inputs: 0, stack_outputs: 1 },
            Operation::Push28(_) => StackReq { min_stack_height: 0, stack_inputs: 0, stack_outputs: 1 },
            Operation::Push29(_) => StackReq { min_stack_height: 0, stack_inputs: 0, stack_outputs: 1 },
            Operation::Push30(_) => StackReq { min_stack_height: 0, stack_inputs: 0, stack_outputs: 1 },
            Operation::Push31(_) => StackReq { min_stack_height: 0, stack_inputs: 0, stack_outputs: 1 },
            Operation::Push32(_) => StackReq { min_stack_height: 0, stack_inputs: 0, stack_outputs: 1 },
            Operation::Swap1 => StackReq { min_stack_height: 2, stack_inputs: 0, stack_outputs: 0 },
            Operation::Swap2 => StackReq { min_stack_height: 3, stack_inputs: 0, stack_outputs: 0 },
            Operation::Swap3 => StackReq { min_stack_height: 4, stack_inputs: 0, stack_outputs: 0 },
            Operation::Swap4 => StackReq { min_stack_height: 5, stack_inputs: 0, stack_outputs: 0 },
            Operation::Swap5 => StackReq { min_stack_height: 6, stack_inputs: 0, stack_outputs: 0 },
            Operation::Swap6 => StackReq { min_stack_height: 7, stack_inputs: 0, stack_outputs: 0 },
            Operation::Swap7 => StackReq { min_stack_height: 8, stack_inputs: 0, stack_outputs: 0 },
            Operation::Swap8 => StackReq { min_stack_height: 9, stack_inputs: 0, stack_outputs: 0 },
            Operation::Swap9 => StackReq { min_stack_height: 10, stack_inputs: 0, stack_outputs: 0 },
            Operation::Swap10 => StackReq { min_stack_height: 11, stack_inputs: 0, stack_outputs: 0 },
            Operation::Swap11 => StackReq { min_stack_height: 12, stack_inputs: 0, stack_outputs: 0 },
            Operation::Swap12 => StackReq { min_stack_height: 13, stack_inputs: 0, stack_outputs: 0 },
            Operation::Swap13 => StackReq { min_stack_height: 14, stack_inputs: 0, stack_outputs: 0 },
            Operation::Swap14 => StackReq { min_stack_height: 15, stack_inputs: 0, stack_outputs: 0 },
            Operation::Swap15 => StackReq { min_stack_height: 16, stack_inputs: 0, stack_outputs: 0 },
            Operation::Swap16 => StackReq { min_stack_height: 17, stack_inputs: 0, stack_outputs: 0 },
            Operation::Log0 => StackReq { min_stack_height: 2, stack_inputs: 2, stack_outputs: 0 },
            Operation::Log1 => StackReq { min_stack_height: 3, stack_inputs: 3, stack_outputs: 0 },
            Operation::Log2 => StackReq { min_stack_height: 4, stack_inputs: 4, stack_outputs: 0 },
            Operation::Log3 => StackReq { min_stack_height: 5, stack_inputs: 5, stack_outputs: 0 },
            Operation::Log4 => StackReq { min_stack_height: 6, stack_inputs: 6, stack_outputs: 0 },
            Operation::Create => StackReq { min_stack_height: 3, stack_inputs: 3, stack_outputs: 1 },
            Operation::Call => StackReq { min_stack_height: 7, stack_inputs: 7, stack_outputs: 1 },
            Operation::CallCode => StackReq { min_stack_height: 7, stack_inputs: 7, stack_outputs: 1 },
            Operation::Return => StackReq { min_stack_height: 2, stack_inputs: 2, stack_outputs: 0 },
            Operation::DelegateCall => StackReq { min_stack_height: 6, stack_inputs: 6, stack_outputs: 1 },
            Operation::Create2 => StackReq { min_stack_height: 4, stack_inputs: 4, stack_outputs: 1 },
            Operation::StaticCall => StackReq { min_stack_height: 6, stack_inputs: 6, stack_outputs: 1 },
            Operation::Revert => StackReq { min_stack_height: 2, stack_inputs: 2, stack_outputs: 0 },
            Operation::Invalid => StackReq { min_stack_height: 0, stack_inputs: 0, stack_outputs: 0 },
            Operation::SelfDestruct => StackReq { min_stack_height: 1, stack_inputs: 1, stack_outputs: 0 },
            Operation::Dup(n) => StackReq { min_stack_height: *n as u32, stack_inputs: 0, stack_outputs: 1 },
        }
    }

    /// The byte this operation encodes to.
    pub fn opcode(&self) -> (r: u8)
        ensures
            r == op_opcode(*self),
    {
        match self {
            Operation::Stop => 0x0,
            Operation::Add => 0x1,
            Operation::Mul => 0x2,
            Operation::Sub => 0x3,
            Operation::Div => 0x4,
            Operation::SDiv => 0x5,
            Operation::Mod => 0x6,
            Operation::SMod => 0x7,
            Operation::AddMod => 0x8,
            Operation::MulMod => 0x9,
            Operation::Exp => 0xa,
            Operation::SignExtend => 0xb,
            Operation::Lt => 0x10,
            Operation::Gt => 0x11,
            Operation::Slt => 0x12,
            Operation::Sgt => 0x13,
            Operation::Eq => 0x14,
            Operation::IsZero => 0x15,
            Operation::And => 0x16,
            Operation::Or => 0x17,
            Operation::Xor => 0x18,
            Operation::Not => 0x19,
            Operation::Byte => 0x1a,
            Operation::Shl => 0x1b,
            Operation::Shr => 0x1c,
            Operation::Sar => 0x1d,
            Operation::Keccak256 => 0x20,
            Operation::Address => 0x30,
            Operation::Balance => 0x31,
            Operation::Origin => 0x32,
            Operation::Caller => 0x33,
            Operation::CallValue => 0x34,
            Operation::CallDataLoad => 0x35,
            Operation::CallDataSize => 0x36,
            Operation::CallDataCopy => 0x37,
            Operation::CodeSize => 0x38,
            Operation::CodeCopy => 0x39,
            Operation::GasPrice => 0x3a,
            Operation::ExtCodeSize => 0x3b,
            Operation::ExtCodeCopy => 0x3c,
            Operation::ReturnDataSize => 0x3d,
            Operation::ReturnDataCopy => 0x3e,
            Operation::ExtCodeHash => 0x3f,
            Operation::BlockHash => 0x40,
            Operation::Coinbase => 0x41,
            Operation::Timestamp => 0x42,
            Operation::Number => 0x43,
            Operation::Difficulty => 0x44,
            Operation::GasLimit => 0x45,
            Operation::ChainId => 0x46,
            Operation::SelfBalance => 0x47,
            Operation::BaseFee => 0x48,
            Operation::Pop => 0x50,
            Operation::MLoad => 0x51,
            Operation::MStore => 0x52,
            Operation::MStore8 => 0x53,
            Operation::SLoad => 0x54,
            Operation::SStore => 0x55,
            Operation::Jump => 0x56,
            Operation::JumpI => 0x57,
            Operation::PC => 0x58,
            Operation::MSize => 0x59,
            Operation::Gas => 0x5a,
            Operation::JumpDest => 0x5b,
            Operation::Push0 => 0x5f,
            Operation::Push1(_) => 0x60,
            Operation::Push2(_) => 0x61,
            Operation::Push3(_) => 0x62,
            Operation::Push4(_) => 0x63,
            Operation::Push5(_) => 0x64,
            Operation::Push6(_) => 0x65,
            Operation::Push7(_) => 0x66,
            Operation::Push8(_) => 0x67,
            Operation::Push9(_) => 0x68,
            Operation::Push10(_) => 0x69,
            Operation::Push11(_) => 0x6a,
            Operation::Push12(_) => 0x6b,
            Operation::Push13(_) => 0x6c,
            Operation::Push14(_) => 0x6d,
            Operation::Push15(_) => 0x6e,
            Operation::Push16(_) => 0x6f,
            Operation::Push17(_) => 0x70,
            Operation::Push18(_) => 0x71,
            Operation::Push19(_) => 0x72,
            Operation::Push20(_) => 0x73,
            Operation::Push21(_) => 0x74,
            Operation::Push22(_) => 0x75,
            Operation::Push23(_) => 0x76,
            Operation::Push24(_) => 0x77,
            Operation::Push25(_) => 0x78,
            Operation::Push26(_) => 0x79,
            Operation::Push27(_) => 0x7a,
            Operation::Push28(_) => 0x7b,
            Operation::Push29(_) => 0x7c,
            Operation::Push30(_) => 0x7d,
            Operation::Push31(_) => 0x7e,
            Operation::Push32(_) => 0x7f,
            Operation::Dup(n) => {
                if 1 <= *n && *n <= 16 {
                    0x7f + *n
                } else {
                    0x80
                }
            },
            Operation::Swap1 => 0x90,
            Operation::Swap2 => 0x91,
            Operation::Swap3 => 0x92,
            Operation::Swap4 => 0x93,
            Operation::Swap5 => 0x94,
            Operation::Swap6 => 0x95,
            Operation::Swap7 => 0x96,
            Operation::Swap8 => 0x97,
            Operation::Swap9 => 0x98,
            Operation::Swap10 => 0x99,
            Operation::Swap11 => 0x9a,
            Operation::Swap12 => 0x9b,
            Operation::Swap13 => 0x9c,
            Operation::Swap14 => 0x9d,
            Operation::Swap15 => 0x9e,
            Operation::Swap16 => 0x9f,
            Operation::Log0 => 0xa0,
            Operation::Log1 => 0xa1,
            Operation::Log2 => 0xa2,
            Operation::Log3 => 0xa3,
            Operation::Log4 => 0xa4,
            Operation::Create => 0xf0,
            Operation::Call => 0xf1,
            Operation::CallCode => 0xf2,
            Operation::Return => 0xf3,
            Operation::DelegateCall => 0xf4,
            Operation::Create2 => 0xf5,
            Operation::StaticCall => 0xfa,
            Operation::Revert => 0xfd,
            Operation::Invalid => 0xfe,
            Operation::SelfDestruct => 0xff,
        }
    }
}

} // verus!
