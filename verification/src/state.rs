//! The persisted counter record.

use crate::error::ProgramError;
use crate::wire::{u64_from_slice, u64_to_vec};
use vstd::bytes::*;
use vstd::prelude::*;

verus! {

/// The one record this program persists: an unsigned 64-bit count.
#[derive(Clone, Copy, Debug, PartialEq, Eq, Structural)]
pub struct Counter {
    pub count: u64,
}

impl Counter {
    /// The size of the stored record, and so of the account that holds it.
    pub const USZIE: usize = 8;

    /// The stored form of the record: its count in eight bytes, least
    /// significant byte first, with no header and no version tag.
    pub open spec fn encoding(self) -> Seq<u8> {
        spec_u64_to_le_bytes(self.count)
    }

    /// The record that `bytes` stores, if they are the stored form of one.
    pub open spec fn decoding(bytes: Seq<u8>) -> Option<Counter> {
        if bytes.len() == 8 {
            Some(Counter { count: spec_u64_from_le_bytes(bytes) })
        } else {
            None
        }
    }

    /// Reads a record from the data of an account. A region of any length
    /// but eight, such as the empty data of an account that was never
    /// allocated, is `CorruptState`.
    pub fn decode(bytes: &[u8]) -> (r: Result<Counter, ProgramError>)
        ensures
            r == match Counter::decoding(bytes@) {
                Some(counter) => Ok::<Counter, ProgramError>(counter),
                None => Err(ProgramError::CorruptState),
            },
    {
        match u64_from_slice(bytes) {
            Ok(count) => Ok(Counter { count }),
            Err(_) => Err(ProgramError::CorruptState),
        }
    }

    /// Writes the record in its stored form.
    pub fn encode(&self) -> (bytes: Vec<u8>)
        ensures
            bytes@ == self.encoding(),
            bytes@.len() == Counter::USZIE,
    {
        proof {
            lemma_auto_spec_u64_to_from_le_bytes();
        }
        match u64_to_vec(self.count) {
            Ok(bytes) => bytes,
            // A vector takes every byte written to it: there is no error to meet.
            Err(_) => Vec::new(),
        }
    }
}

/// Encoding a record and decoding the result gives the record back.
pub proof fn lemma_counter_round_trip(counter: Counter)
    ensures
        counter.encoding().len() == 8,
        Counter::decoding(counter.encoding()) == Some(counter),
{
    lemma_auto_spec_u64_to_from_le_bytes();
}

/// Decoding eight bytes and encoding the result gives the bytes back, so a
/// stored record has exactly one stored form.
pub proof fn lemma_counter_bytes_round_trip(bytes: Seq<u8>)
    requires
        bytes.len() == 8,
    ensures
        Counter::decoding(bytes) is Some,
        Counter::decoding(bytes)->Some_0.encoding() == bytes,
{
    lemma_auto_spec_u64_to_from_le_bytes();
}

} // verus!
