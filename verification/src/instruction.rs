//! The instruction codec: from raw instruction bytes to a typed operation.
//!
//! Layout of an instruction: byte 0 is the opcode, bytes 1 to 4 hold `val1` and
//! bytes 5 to 8 hold `val2`, each a little-endian 32-bit number. Nothing comes
//! before, between or after them.

use crate::wire::{read_u32, u32_from_le};
use vstd::prelude::*;

verus! {

/// Length in bytes of a well-formed instruction.
pub const INSTRUCTION_LEN: usize = 9;

/// Opcode of [`CalculatorInstruction::Add`].
pub const OPCODE_ADD: u8 = 0;

/// Opcode of [`CalculatorInstruction::Subtract`].
pub const OPCODE_SUBTRACT: u8 = 1;

/// The first operand of a nine-byte instruction: bytes 1 to 4.
pub open spec fn first_operand(input: Seq<u8>) -> u32
    recommends
        input.len() == INSTRUCTION_LEN,
{
    u32_from_le(input.subrange(1, 5))
}

/// The second operand of a nine-byte instruction: bytes 5 to 8.
pub open spec fn second_operand(input: Seq<u8>) -> u32
    recommends
        input.len() == INSTRUCTION_LEN,
{
    u32_from_le(input.subrange(5, 9))
}

/// Why instruction bytes could not be decoded.
#[derive(Debug, Clone, Copy, PartialEq, Eq, Structural)]
pub enum DecodeError {
    /// The buffer is empty, so there is no opcode to read.
    MissingOpcode,
    /// The bytes after the opcode are not exactly two 32-bit operands.
    MalformedOperands,
    /// The opcode names no operation.
    UnknownOpcode,
}

/// An operation the calculator can carry out on two unsigned 32-bit operands.
#[derive(Debug, Clone, Copy, PartialEq, Eq, Structural)]
pub enum CalculatorInstruction {
    /// Compute `val1 + val2`.
    Add { val1: u32, val2: u32 },
    /// Compute `val1 - val2`.
    Subtract { val1: u32, val2: u32 },
}

impl CalculatorInstruction {
    /// What a byte sequence decodes to.
    ///
    /// The checks come in a fixed order: an empty buffer has no opcode; then the
    /// operand region must be exactly eight bytes; only then is the opcode
    /// looked up. A short buffer with a bad opcode is therefore malformed, not
    /// unknown.
    pub open spec fn decoded(input: Seq<u8>) -> Result<CalculatorInstruction, DecodeError> {
        if input.len() == 0 {
            Err(DecodeError::MissingOpcode)
        } else if input.len() != INSTRUCTION_LEN {
            Err(DecodeError::MalformedOperands)
        } else if input[0] == OPCODE_ADD {
            Ok(
                CalculatorInstruction::Add {
                    val1: first_operand(input),
                    val2: second_operand(input),
                },
            )
        } else if input[0] == OPCODE_SUBTRACT {
            Ok(
                CalculatorInstruction::Subtract {
                    val1: first_operand(input),
                    val2: second_operand(input),
                },
            )
        } else {
            Err(DecodeError::UnknownOpcode)
        }
    }

    /// The number this operation yields, or `None` where the exact sum or
    /// difference is not an unsigned 32-bit number.
    pub open spec fn outcome(self) -> Option<u32> {
        match self {
            CalculatorInstruction::Add { val1, val2 } => if val1 + val2 <= u32::MAX {
                Some((val1 + val2) as u32)
            } else {
                None
            },
            CalculatorInstruction::Subtract { val1, val2 } => if val1 >= val2 {
                Some((val1 - val2) as u32)
            } else {
                None
            },
        }
    }

    /// Decodes an instruction. Total: every malformed input is an error value.
    pub fn unpack(input: &[u8]) -> (r: Result<CalculatorInstruction, DecodeError>)
        ensures
            r == Self::decoded(input@),
            r is Ok <==> input@.len() == INSTRUCTION_LEN && (input@[0] == OPCODE_ADD
                || input@[0] == OPCODE_SUBTRACT),
            input@.len() == 0 ==> r matches Err(DecodeError::MissingOpcode),
            input@.len() != 0 && input@.len() != INSTRUCTION_LEN ==> r matches Err(
                DecodeError::MalformedOperands,
            ),
            input@.len() == INSTRUCTION_LEN && input@[0] != OPCODE_ADD && input@[0]
                != OPCODE_SUBTRACT ==> r matches Err(DecodeError::UnknownOpcode),
    {
        if input.len() == 0 {
            return Err(DecodeError::MissingOpcode);
        }
        let opcode: u8 = input[0];
        if input.len() != INSTRUCTION_LEN {
            return Err(DecodeError::MalformedOperands);
        }
        let val1: u32 = match read_u32(&input[1..5]) {
            Some(v) => v,
            None => { return Err(DecodeError::MalformedOperands); },
        };
        let val2: u32 = match read_u32(&input[5..9]) {
            Some(v) => v,
            None => { return Err(DecodeError::MalformedOperands); },
        };
        if opcode == OPCODE_ADD {
            Ok(CalculatorInstruction::Add { val1, val2 })
        } else if opcode == OPCODE_SUBTRACT {
            Ok(CalculatorInstruction::Subtract { val1, val2 })
        } else {
            Err(DecodeError::UnknownOpcode)
        }
    }

    /// Carries the operation out with checked arithmetic: overflow of the sum
    /// and underflow of the difference give `None` and never wrap.
    pub fn evaluate(&self) -> (r: Option<u32>)
        ensures
            r == self.outcome(),
    {
        match *self {
            CalculatorInstruction::Add { val1, val2 } => val1.checked_add(val2),
            CalculatorInstruction::Subtract { val1, val2 } => val1.checked_sub(val2),
        }
    }
}

} // verus!
