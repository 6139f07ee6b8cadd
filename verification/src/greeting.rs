use vstd::prelude::*;

use crate::account::Account;
use crate::codec::le_of_u32;
use crate::codec::read_u32_le;
use crate::codec::u32_of_le;
use crate::codec::write_u32_le;
use crate::error::Error;
use crate::ownership::Identity;
use crate::ownership::check;

verus! {

/// The persisted record of the greeting pipeline: how many times the account
/// has been greeted.
#[derive(Clone, Copy, PartialEq, Eq, Structural, Debug)]
pub struct GreetingAccount {
    /// Number of greetings received so far.
    pub counter: u32,
}

/// The fixed four-byte little-endian layout of a greeting record.
pub open spec fn spec_encode_greeting(g: GreetingAccount) -> Seq<u8> {
    le_of_u32(g.counter)
}

/// What decoding a greeting record from stored bytes yields: the record when
/// the buffer is exactly its four-byte layout, `MalformedRecord` otherwise.
pub open spec fn spec_decode_greeting(data: Seq<u8>) -> Result<GreetingAccount, Error> {
    if data.len() == 4 {
        Ok(GreetingAccount { counter: u32_of_le(data) })
    } else {
        Err(Error::MalformedRecord)
    }
}

/// One greeting applied to the counter. Overflow policy, stated as a named
/// contract: the counter wraps around to zero past its maximum.
pub open spec fn spec_greet_counter(c: u32) -> u32 {
    if c == 0xffff_ffffu32 {
        0u32
    } else {
        (c + 1) as u32
    }
}

/// What one greeting invocation does to an account, as a function of the
/// authority and the stored bytes: a denial for a foreign owner, a rejection
/// of a buffer that is not the four-byte layout, and otherwise the stored
/// counter incremented by exactly one (wrapping at the maximum).
pub open spec fn spec_process_greeting(program_id: Seq<u8>, owner: Seq<u8>, data: Seq<u8>) -> Result<
    Seq<u8>,
    Error,
> {
    if owner != program_id {
        Err(Error::IncorrectAuthority)
    } else if data.len() != 4 {
        Err(Error::MalformedRecord)
    } else {
        Ok(le_of_u32(spec_greet_counter(u32_of_le(data))))
    }
}

impl GreetingAccount {
    /// Decodes the stored bytes into a greeting record, accepting exactly the
    /// four-byte layout that `encode` produces.
    pub fn decode(data: &[u8]) -> (r: Result<Self, Error>)
        ensures
            r == spec_decode_greeting(data@),
    {
        if data.len() != 4 {
            return Err(Error::MalformedRecord);
        }
        let counter = read_u32_le(data, 0);
        proof {
            assert(data@.subrange(0, 4) =~= data@);
        }
        Ok(GreetingAccount { counter })
    }

    /// Writes the record's four-byte layout over the caller-owned buffer,
    /// never resizing it.
    pub fn encode(&self, buf: &mut Vec<u8>)
        requires
            old(buf)@.len() == 4,
        ensures
            final(buf)@ == spec_encode_greeting(*self),
    {
        write_u32_le(buf, 0, self.counter);
        proof {
            assert(buf@ =~= le_of_u32(self.counter));
        }
    }
}

/// Round trip: decoding the bytes encoded for any greeting record yields that
/// record again.
pub proof fn lemma_greeting_round_trip(g: GreetingAccount)
    ensures
        spec_decode_greeting(spec_encode_greeting(g)) == Ok::<GreetingAccount, Error>(g),
{
    crate::codec::lemma_u32_le_round_trip(g.counter);
}

/// One greeting invocation. Validates that `program_id` owns the account,
/// decodes the stored record, increments the greeting counter by exactly one
/// (wrapping at the maximum), and re-encodes the record in place. The
/// instruction bytes carry no payload for this pipeline and are ignored. On
/// any failure the stored bytes are left untouched.
pub fn process_instruction(
    program_id: &Identity,
    account: &mut Account,
    _instruction_data: &[u8],
) -> (r: Result<(), Error>)
    ensures
        final(account).owner == old(account).owner,
        match spec_process_greeting(program_id@, old(account).owner@, old(account).data@) {
            Ok(new_data) => r == Ok::<(), Error>(()) && final(account).data@ == new_data,
            Err(e) => r == Err::<(), Error>(e) && final(account).data@ == old(account).data@,
        },
{
    check(program_id, &account.owner)?;
    let record = GreetingAccount::decode(account.data.as_slice())?;
    let updated = GreetingAccount { counter: record.counter.wrapping_add(1) };
    updated.encode(&mut account.data);
    Ok(())
}

/// The counter after `n` successive greetings of a record that started at `c`.
pub open spec fn spec_counter_after(c: u32, n: nat) -> u32
    decreases n,
{
    if n == 0 {
        c
    } else {
        spec_greet_counter(spec_counter_after(c, (n - 1) as nat))
    }
}

/// Repetition: `n` successful greeting invocations, whatever the starting
/// value, leave the counter at the start value plus exactly `n`, modulo the
/// counter's wrap-around.
pub proof fn lemma_counter_after_n_greetings(c: u32, n: nat)
    ensures
        spec_counter_after(c, n) == ((c + n) % 0x1_0000_0000) as u32,
    decreases n,
{
    let m = 0x1_0000_0000int;
    if n == 0 {
        vstd::arithmetic::div_mod::lemma_small_mod(c as nat, m as nat);
    } else {
        lemma_counter_after_n_greetings(c, (n - 1) as nat);
        let prev = (c + n - 1) % m;
        vstd::arithmetic::div_mod::lemma_mod_bound(c + n - 1, m);
        vstd::arithmetic::div_mod::lemma_add_mod_noop(c + n - 1, 1, m);
        vstd::arithmetic::div_mod::lemma_small_mod(1nat, m as nat);
        if prev == m - 1 {
            vstd::arithmetic::div_mod::lemma_mod_self_0(m);
        } else {
            vstd::arithmetic::div_mod::lemma_small_mod((prev + 1) as nat, m as nat);
        }
    }
}

} // verus!
