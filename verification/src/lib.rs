//! Two verified state-mutation handlers for an externally hosted runtime: a
//! greeting counter that increments a persisted integer, and a calculator
//! that decodes a tagged binary instruction and applies it to a persisted
//! result record. Both share one shape — validate ownership, decode the
//! stored record, decode the instruction, apply it as a pure function, and
//! re-encode the record in place — and each step carries a contract that
//! pins its outcome for every input. How the byte buffers arrive (account
//! lookup, transaction signing, logging) is the host runtime's concern and
//! lives outside this library.

pub mod account;
pub mod codec;
pub mod error;
pub mod greeting;
pub mod instruction;
pub mod ownership;
pub mod processor;
