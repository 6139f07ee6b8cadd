use vstd::prelude::*;

use crate::ownership::Identity;

verus! {

/// One account as the invocation sees it: the identity that controls it and
/// the persisted byte buffer of its record. The runtime hands the processor
/// sole mutable access to the buffer for the duration of a single call; the
/// buffer is mutated in place and never resized.
#[derive(Debug)]
pub struct Account {
    pub owner: Identity,
    pub data: Vec<u8>,
}

} // verus!
