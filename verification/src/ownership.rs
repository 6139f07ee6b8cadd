use vstd::prelude::*;

use crate::error::Error;

verus! {

/// The identity that may control an account: a fixed 32-byte public key.
#[derive(Clone, Copy, Debug)]
pub struct Identity {
    pub bytes: [u8; 32],
}

impl View for Identity {
    type V = Seq<u8>;

    open spec fn view(&self) -> Seq<u8> {
        self.bytes@
    }
}

/// Grants or denies the invocation: succeeds exactly when the account's actual
/// owner is the expected authority, and otherwise denies with
/// `IncorrectAuthority`, in which case the caller must abort without mutating
/// any state.
pub fn check(expected: &Identity, actual: &Identity) -> (r: Result<(), Error>)
    ensures
        actual@ == expected@ ==> r == Ok::<(), Error>(()),
        actual@ != expected@ ==> r == Err::<(), Error>(Error::IncorrectAuthority),
{
    let mut i: usize = 0;
    while i < 32
        invariant
            0 <= i <= 32,
            forall|j: int| 0 <= j < i ==> expected@[j] == actual@[j],
        decreases 32 - i,
    {
        if expected.bytes[i] != actual.bytes[i] {
            return Err(Error::IncorrectAuthority);
        }
        i += 1;
    }
    proof {
        assert(expected@ =~= actual@);
    }
    Ok(())
}

} // verus!
