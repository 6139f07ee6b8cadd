use vstd::prelude::*;

use crate::codec::u64_of_le;
use crate::error::Error;

verus! {

/// A decoded command: one operation and its two unsigned 64-bit operands.
/// Transient — built from raw invocation bytes, applied once, never stored.
#[derive(Clone, Copy, PartialEq, Eq, Structural, Debug)]
pub enum Instruction {
    Add { a: u64, b: u64 },
    Sub { a: u64, b: u64 },
}

/// What `Instruction::unpack` returns on any input. The wire format: byte 0 is
/// the tag (0 for `Add`, 1 for `Sub`), bytes 1..9 are operand `a` and bytes
/// 9..17 operand `b`, both little-endian. An input with no tag byte, with
/// fewer than eight bytes for either operand, or with an unknown tag is
/// rejected with `InvalidInstruction`; operand values are never validated
/// here.
pub open spec fn spec_unpack(input: Seq<u8>) -> Result<Instruction, Error> {
    if input.len() < 17 {
        Err(Error::InvalidInstruction)
    } else if input[0] == 0 {
        Ok(
            Instruction::Add {
                a: u64_of_le(input.subrange(1, 9)),
                b: u64_of_le(input.subrange(9, 17)),
            },
        )
    } else if input[0] == 1 {
        Ok(
            Instruction::Sub {
                a: u64_of_le(input.subrange(1, 9)),
                b: u64_of_le(input.subrange(9, 17)),
            },
        )
    } else {
        Err(Error::InvalidInstruction)
    }
}

impl Instruction {
    /// Decodes a tagged byte buffer into an instruction, all or nothing: a
    /// decoded value is returned only when the whole fixed layout is present
    /// and the tag is known; every malformed input yields
    /// `InvalidInstruction` and no partial instruction.
    pub fn unpack(input: &[u8]) -> (r: Result<Self, Error>)
        ensures
            r == spec_unpack(input@),
    {
        if input.len() < 1 {
            return Err(Error::InvalidInstruction);
        }
        let tag = input[0];
        if input.len() < 17 {
            return Err(Error::InvalidInstruction);
        }
        let a = Self::unpack_amount(vstd::slice::slice_subrange(input, 1, 9))?;
        let b = Self::unpack_amount(vstd::slice::slice_subrange(input, 9, 17))?;
        match tag {
            0 => Ok(Self::Add { a, b }),
            1 => Ok(Self::Sub { a, b }),
            _ => Err(Error::InvalidInstruction),
        }
    }

    /// Reads one little-endian unsigned 64-bit operand from the front of a
    /// byte buffer, rejecting a buffer of fewer than eight bytes.
    pub fn unpack_amount(input: &[u8]) -> (r: Result<u64, Error>)
        ensures
            input@.len() >= 8 ==> r == Ok::<u64, Error>(u64_of_le(input@.subrange(0, 8))),
            input@.len() < 8 ==> r == Err::<u64, Error>(Error::InvalidInstruction),
    {
        if input.len() < 8 {
            return Err(Error::InvalidInstruction);
        }
        Ok(crate::codec::read_u64_le(input, 0))
    }
}

/// Tag coverage of the decoder: on any input long enough to hold a full
/// instruction, tag 0 decodes to `Add`, tag 1 to `Sub`, and every other tag
/// value is rejected with `InvalidInstruction`.
pub proof fn lemma_unpack_tag_coverage(input: Seq<u8>)
    requires
        input.len() >= 17,
    ensures
        input[0] == 0 ==> spec_unpack(input) == Ok::<Instruction, Error>(
            Instruction::Add {
                a: u64_of_le(input.subrange(1, 9)),
                b: u64_of_le(input.subrange(9, 17)),
            },
        ),
        input[0] == 1 ==> spec_unpack(input) == Ok::<Instruction, Error>(
            Instruction::Sub {
                a: u64_of_le(input.subrange(1, 9)),
                b: u64_of_le(input.subrange(9, 17)),
            },
        ),
        input[0] != 0 && input[0] != 1 ==> spec_unpack(input) == Err::<Instruction, Error>(
            Error::InvalidInstruction,
        ),
{
}

/// Truncation: any input shorter than the 17-byte wire format — the empty
/// input included — is rejected with `InvalidInstruction`.
pub proof fn lemma_unpack_truncated(input: Seq<u8>)
    requires
        input.len() < 17,
    ensures
        spec_unpack(input) == Err::<Instruction, Error>(Error::InvalidInstruction),
{
}

} // verus!
