use vstd::prelude::*;

use crate::account::Account;
use crate::codec::le_of_u64;
use crate::codec::read_u64_le;
use crate::codec::u64_of_le;
use crate::codec::write_u64_le;
use crate::error::Error;
use crate::instruction::Instruction;
use crate::instruction::spec_unpack;
use crate::ownership::Identity;
use crate::ownership::check;

verus! {

/// The persisted record of the calculator pipeline: the result of the most
/// recent operation and the two operands it was applied to.
#[derive(Clone, Copy, PartialEq, Eq, Structural, Debug)]
pub struct CalculatorResult {
    /// Result of the last calculation.
    pub result: u64,
    pub a: u64,
    pub b: u64,
}

/// The fixed 24-byte little-endian layout of a calculator record: `result`,
/// then `a`, then `b`, eight bytes each, no padding.
pub open spec fn spec_encode_calculator(c: CalculatorResult) -> Seq<u8> {
    le_of_u64(c.result) + le_of_u64(c.a) + le_of_u64(c.b)
}

/// What decoding a calculator record from stored bytes yields: the record
/// when the buffer is exactly its 24-byte layout, `MalformedRecord`
/// otherwise.
pub open spec fn spec_decode_calculator(data: Seq<u8>) -> Result<CalculatorResult, Error> {
    if data.len() == 24 {
        Ok(
            CalculatorResult {
                result: u64_of_le(data.subrange(0, 8)),
                a: u64_of_le(data.subrange(8, 16)),
                b: u64_of_le(data.subrange(16, 24)),
            },
        )
    } else {
        Err(Error::MalformedRecord)
    }
}

/// The sum of two operands under the record's wrap-around policy: unsigned
/// 64-bit addition modulo two to the sixty-fourth.
pub open spec fn spec_sum_wrapped(a: u64, b: u64) -> u64 {
    if a + b > 0xffff_ffff_ffff_ffffu64 {
        (a + b - 0x1_0000_0000_0000_0000) as u64
    } else {
        (a + b) as u64
    }
}

/// The difference of two operands under the record's wrap-around policy:
/// unsigned 64-bit subtraction, wrapping past zero when `a < b`.
pub open spec fn spec_diff_wrapped(a: u64, b: u64) -> u64 {
    if a - b < 0 {
        (a - b + 0x1_0000_0000_0000_0000) as u64
    } else {
        (a - b) as u64
    }
}

/// The record an instruction leaves behind, whatever was stored before: the
/// operands are recorded as given and the result is their sum or difference,
/// by the instruction's own operation.
pub open spec fn spec_apply(i: Instruction) -> CalculatorResult {
    match i {
        Instruction::Add { a, b } => CalculatorResult { result: spec_sum_wrapped(a, b), a, b },
        Instruction::Sub { a, b } => CalculatorResult { result: spec_diff_wrapped(a, b), a, b },
    }
}

/// What one calculator invocation does to an account, as a function of the
/// authority, the stored bytes and the instruction bytes: a denial for a
/// foreign owner; a rejection of a stored buffer that is not the 24-byte
/// layout; the decoder's rejection of malformed instruction bytes; and
/// otherwise the encoded record of the instruction applied — the previously
/// stored values are overwritten without influencing the outcome.
pub open spec fn spec_process_calculator(
    program_id: Seq<u8>,
    owner: Seq<u8>,
    data: Seq<u8>,
    instruction_data: Seq<u8>,
) -> Result<Seq<u8>, Error> {
    if owner != program_id {
        Err(Error::IncorrectAuthority)
    } else if data.len() != 24 {
        Err(Error::MalformedRecord)
    } else {
        match spec_unpack(instruction_data) {
            Ok(i) => Ok(spec_encode_calculator(spec_apply(i))),
            Err(e) => Err(e),
        }
    }
}

impl CalculatorResult {
    /// Decodes the stored bytes into a calculator record, accepting exactly
    /// the 24-byte layout that `encode` produces.
    pub fn decode(data: &[u8]) -> (r: Result<Self, Error>)
        ensures
            r == spec_decode_calculator(data@),
    {
        if data.len() != 24 {
            return Err(Error::MalformedRecord);
        }
        let result = read_u64_le(data, 0);
        let a = read_u64_le(data, 8);
        let b = read_u64_le(data, 16);
        Ok(CalculatorResult { result, a, b })
    }

    /// Writes the record's 24-byte layout over the caller-owned buffer,
    /// never resizing it.
    pub fn encode(&self, buf: &mut Vec<u8>)
        requires
            old(buf)@.len() == 24,
        ensures
            final(buf)@ == spec_encode_calculator(*self),
    {
        write_u64_le(buf, 0, self.result);
        write_u64_le(buf, 8, self.a);
        write_u64_le(buf, 16, self.b);
        proof {
            assert(buf@ =~= spec_encode_calculator(*self));
        }
    }
}

/// Round trip: decoding the bytes encoded for any calculator record yields
/// that record again.
pub proof fn lemma_calculator_round_trip(c: CalculatorResult)
    ensures
        spec_decode_calculator(spec_encode_calculator(c)) == Ok::<CalculatorResult, Error>(c),
{
    let s = spec_encode_calculator(c);
    assert(s.subrange(0, 8) =~= le_of_u64(c.result));
    assert(s.subrange(8, 16) =~= le_of_u64(c.a));
    assert(s.subrange(16, 24) =~= le_of_u64(c.b));
    crate::codec::lemma_u64_le_round_trip(c.result);
    crate::codec::lemma_u64_le_round_trip(c.a);
    crate::codec::lemma_u64_le_round_trip(c.b);
}

/// The calculator pipeline's processor.
pub struct Processor;

impl Processor {
    /// One calculator invocation. Validates that `program_id` owns the
    /// account, decodes the stored record (the previous values serve only to
    /// validate the buffer's layout), decodes the instruction bytes, applies
    /// the instruction, and re-encodes the updated record in place. On any
    /// failure the stored bytes are left untouched.
    pub fn process(
        program_id: &Identity,
        account: &mut Account,
        instruction_data: &[u8],
    ) -> (r: Result<(), Error>)
        ensures
            final(account).owner == old(account).owner,
            match spec_process_calculator(
                program_id@,
                old(account).owner@,
                old(account).data@,
                instruction_data@,
            ) {
                Ok(new_data) => r == Ok::<(), Error>(()) && final(account).data@ == new_data,
                Err(e) => r == Err::<(), Error>(e) && final(account).data@ == old(account).data@,
            },
    {
        check(program_id, &account.owner)?;
        let mut record = CalculatorResult::decode(account.data.as_slice())?;
        let instruction = Instruction::unpack(instruction_data)?;
        match instruction {
            Instruction::Add { a, b } => Self::add(&mut record, a, b),
            Instruction::Sub { a, b } => Self::sub(&mut record, a, b),
        }
        record.encode(&mut account.data);
        Ok(())
    }

    /// Applies an addition to the record: the result becomes the operands'
    /// wrapped sum and both operands are stored as given.
    pub fn add(account: &mut CalculatorResult, a: u64, b: u64)
        ensures
            *final(account) == (CalculatorResult { result: spec_sum_wrapped(a, b), a, b }),
    {
        account.result = a.wrapping_add(b);
        account.a = a;
        account.b = b;
    }

    /// Applies a subtraction to the record: the result becomes the operands'
    /// wrapped difference and both operands are stored as given.
    pub fn sub(account: &mut CalculatorResult, a: u64, b: u64)
        ensures
            *final(account) == (CalculatorResult { result: spec_diff_wrapped(a, b), a, b }),
    {
        account.result = a.wrapping_sub(b);
        account.a = a;
        account.b = b;
    }
}

} // verus!
