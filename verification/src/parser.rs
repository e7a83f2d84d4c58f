//! The bytecode decoder: a cursor over a raw byte sequence that yields
//! typed operations on demand. A byte in `0x60..=0x7f` introduces a push
//! whose immediate is read big-endian; `0xFE` ends decoding; a byte with
//! no mapping is refused. Decoding is a pure function of the bytes, so two
//! fresh decoders over the same input yield the same operations.
use vstd::prelude::*;
use crate::operation::{Operation, OperationError, spec_from_byte};
use crate::u256::{U256, be_val};

verus! {

/// A failure of decoding a byte stream: a push ran out of immediate
/// bytes, or a byte decoded to no operation, carrying why.
#[derive(Clone, Copy, Debug, PartialEq, Eq, Structural)]
pub enum ParserError {
    IncompletePush,
    InvalidOpcode(OperationError),
}

impl From<OperationError> for ParserError {
    fn from(err: OperationError) -> (r: Self) {
        match err {
            _ => ParserError::InvalidOpcode(err),
        }
    }
}

impl vstd::std_specs::convert::FromSpecImpl<OperationError> for ParserError {
    open spec fn obeys_from_spec() -> bool {
        true
    }

    open spec fn from_spec(err: OperationError) -> Self {
        ParserError::InvalidOpcode(err)
    }
}

/// What the decoder yields at position `pc` of `code`: the end of the
/// stream (at the end of the bytes or at the `0xFE` sentinel), an
/// operation together with the position after it, or an error. A push
/// with fewer immediate bytes left than it needs fails with
/// `IncompletePush`.
pub open spec fn spec_next_operation(code: Seq<u8>, pc: nat) -> Result<
    Option<(Operation, nat)>,
    ParserError,
> {
    if pc >= code.len() {
        Ok(None)
    } else {
        let opcode = code[pc as int];
        if opcode == 0xfe {
            Ok(None)
        } else if 0x60 <= opcode <= 0x7f {
            let n = (opcode - 0x5f) as nat;
            if pc + n >= code.len() {
                Err(ParserError::IncompletePush)
            } else {
                let v = be_val(code.subrange(pc as int + 1, pc as int + 1 + n));
                match spec_from_byte(opcode, Some(v)) {
                    Ok(op) => Ok(Some((op, pc + n + 1))),
                    Err(e) => Err(ParserError::InvalidOpcode(e)),
                }
            }
        } else {
            match spec_from_byte(opcode, None) {
                Ok(op) => Ok(Some((op, pc + 1))),
                Err(e) => Err(ParserError::InvalidOpcode(e)),
            }
        }
    }
}

/// The full decode of `code` from position `pc`: the sequence of
/// operations up to the end of the stream, or the first error.
pub open spec fn spec_compile(code: Seq<u8>, pc: nat) -> Result<Seq<Operation>, ParserError>
    decreases code.len() - pc,
{
    match spec_next_operation(code, pc) {
        Ok(None) => Ok(Seq::<Operation>::empty()),
        Ok(Some((op, pc2))) => match spec_compile(code, pc2) {
            Ok(rest) => Ok(seq![op] + rest),
            Err(e) => Err(e),
        },
        Err(e) => Err(e),
    }
}

/// Decoding is deterministic: the operations are a function of the bytes
/// alone, so equal inputs decode to equal sequences.
pub proof fn lemma_decoding_deterministic(code1: Seq<u8>, code2: Seq<u8>)
    requires
        code1 == code2,
    ensures
        spec_compile(code1, 0) == spec_compile(code2, 0),
{
}

/// A push with fewer immediate bytes left than its width fails the
/// decode with `IncompletePush`.
pub proof fn lemma_incomplete_push(code: Seq<u8>, pc: nat)
    requires
        pc < code.len(),
        0x60 <= code[pc as int] <= 0x7f,
        code.len() - pc - 1 < code[pc as int] - 0x5f,
    ensures
        spec_next_operation(code, pc) == Err::<Option<(Operation, nat)>, _>(
            ParserError::IncompletePush,
        ),
        spec_compile(code, pc) == Err::<Seq<Operation>, _>(ParserError::IncompletePush),
{
    if pc <= code.len() {
    }
}

/// A cursor over raw bytecode.
pub struct BytecodeParser {
    pub bytecode: Vec<u8>,
    pub pc: usize,
}

impl BytecodeParser {
    /// A fresh decoder at the start of the given bytes.
    pub fn new(bytecode: Vec<u8>) -> (r: Self)
        ensures
            r.bytecode@ == bytecode@,
            r.pc == 0,
    {
        Self { bytecode, pc: 0 }
    }

    /// Decode one operation and advance past it; the cursor does not move
    /// at the end of the stream or on an error.
    fn next_operation(&mut self) -> (r: Result<Option<Operation>, ParserError>)
        ensures
            final(self).bytecode@ == old(self).bytecode@,
            match spec_next_operation(old(self).bytecode@, old(self).pc as nat) {
                Ok(None) => r == Ok::<Option<Operation>, ParserError>(None) && final(self).pc == old(self).pc,
                Ok(Some((op, pc2))) => r == Ok::<Option<Operation>, ParserError>(Some(op)) && final(self).pc == pc2,
                Err(e) => r == Err::<Option<Operation>, _>(e) && final(self).pc == old(self).pc,
            },
    {
        if self.pc >= self.bytecode.len() {
            return Ok(None);
        }
        let opcode = self.bytecode[self.pc];
        if opcode == 0xfe {
            return Ok(None);
        }
        if 0x60 <= opcode && opcode <= 0x7f {
            let bytes_to_read = (opcode - 0x5f) as usize;
            if bytes_to_read >= self.bytecode.len() - self.pc {
                return Err(ParserError::IncompletePush);
            }
            let value = U256::from_be_range(&self.bytecode, self.pc + 1, bytes_to_read);
            match Operation::from_byte(opcode, Some(value)) {
                Ok(op) => {
                    self.pc = self.pc + bytes_to_read + 1;
                    Ok(Some(op))
                },
                Err(e) => Err(ParserError::InvalidOpcode(e)),
            }
        } else {
            match Operation::from_byte(opcode, None) {
                Ok(op) => {
                    self.pc = self.pc + 1;
                    Ok(Some(op))
                },
                Err(e) => Err(ParserError::InvalidOpcode(e)),
            }
        }
    }

    /// Decode the whole stream from the cursor: all operations up to the
    /// end or the sentinel, or the first error.
    pub fn compile(&mut self) -> (r: Result<Vec<Operation>, ParserError>)
        ensures
            final(self).bytecode@ == old(self).bytecode@,
            match (r, spec_compile(old(self).bytecode@, old(self).pc as nat)) {
                (Ok(v), Ok(s)) => v@ == s,
                (Err(e1), Err(e2)) => e1 == e2,
                _ => false,
            },
    {
        let ghost bc = self.bytecode@;
        let ghost pc0 = self.pc as nat;
        if self.pc >= self.bytecode.len() {
            let r: Vec<Operation> = Vec::new();
            proof {
                assert(r@ =~= Seq::<Operation>::empty());
            }
            return Ok(r);
        }
        let mut operations: Vec<Operation> = Vec::new();
        loop
            invariant
                bc == old(self).bytecode@,
                pc0 == old(self).pc as nat,
                self.bytecode@ == bc,
                self.pc <= bc.len(),
                match spec_compile(bc, self.pc as nat) {
                    Ok(rest) => spec_compile(bc, pc0) == Ok::<Seq<Operation>, ParserError>(operations@ + rest),
                    Err(e) => spec_compile(bc, pc0) == Err::<Seq<Operation>, _>(e),
                },
            decreases bc.len() - self.pc,
        {
            let ghost pc_before = self.pc as nat;
            match self.next_operation() {
                Err(e) => {
                    proof {
                        assert(spec_compile(bc, pc_before) == Err::<Seq<Operation>, _>(e));
                    }
                    return Err(e);
                },
                Ok(None) => {
                    proof {
                        assert(spec_compile(bc, pc_before) == Ok::<Seq<Operation>, ParserError>(Seq::<Operation>::empty()));
                        assert(operations@ + Seq::<Operation>::empty() =~= operations@);
                    }
                    return Ok(operations);
                },
                Ok(Some(op)) => {
                    let ghost ops_before = operations@;
                    operations.push(op);
                    proof {
                        let pc2 = match spec_next_operation(bc, pc_before) {
                            Ok(Some((o, p))) => p,
                            _ => 0,
                        };
                        assert(self.pc as nat == pc2);
                        assert(operations@ =~= ops_before + seq![op]);
                        match spec_compile(bc, pc2) {
                            Ok(rest2) => {
                                assert(spec_compile(bc, pc_before) == Ok::<
                                    Seq<Operation>,
                                    ParserError,
                                >(seq![op] + rest2));
                                assert(spec_compile(bc, pc0) == Ok::<Seq<Operation>, ParserError>(
                                    ops_before + (seq![op] + rest2),
                                ));
                                assert((ops_before + (seq![op] + rest2)) =~= (ops_before + seq![op])
                                    + rest2);
                            },
                            Err(e) => {
                                assert(spec_compile(bc, pc_before) == Err::<Seq<Operation>, _>(e));
                            },
                        }
                    }
                },
            }
        }
    }
}

} // verus!
