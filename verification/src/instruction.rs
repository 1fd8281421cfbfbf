//! The instruction codec: the fixed binary request format and its typed
//! operation value.
//!
//! Wire layout, little-endian: byte 0 is the operation tag (0 Initialize,
//! 1 Update, 2 Terminate, 3 Withdraw, 4 Pause, 5 Resume, 6 Query). A tag
//! that carries fields is followed by fixed-width unsigned 64-bit fields at
//! fixed offsets; a bare tag carries nothing. Decoding a truncated payload
//! or an unknown tag fails with `InvalidInstruction` and never reads out of
//! bounds; trailing bytes beyond a tag's fields are ignored.

use vstd::prelude::*;
use vstd::bytes::{
    lemma_auto_spec_u64_to_from_le_bytes, spec_u64_from_le_bytes, spec_u64_to_le_bytes,
    u64_from_le_bytes, u64_to_le_bytes,
};
use vstd::slice::{slice_index_get, slice_subrange};
use crate::error::StreamError;

verus! {

/// The operations the stream ledger supports, as decoded from the wire.
#[derive(Clone, Copy, Debug, PartialEq, Eq, Structural)]
pub enum StreamPayInstruction {
    /// Tag 0: bring an empty record to life as an active stream.
    InitializeStream { start_time: u64, interval: u64, amount_per_interval: u64 },
    /// Tag 1: replace the vesting terms of a running stream. A zero field
    /// means "leave this term as it is" (a partial update); a meaningful
    /// interval or amount is never zero.
    UpdateStream { interval: u64, amount_per_interval: u64 },
    /// Tag 2: freeze the stream forever, settling what has vested.
    TerminateStream,
    /// Tag 3: pay out part of the vested balance to the recipient.
    Withdraw { amount: u64 },
    /// Tag 4: suspend an active stream.
    PauseStream,
    /// Tag 5: reactivate a paused stream.
    ResumeStream,
    /// Tag 6: read the record and the currently withdrawable amount.
    QueryStream,
}

impl StreamPayInstruction {
    /// The exact bytes `pack` produces for this operation.
    pub open spec fn spec_encoding(self) -> Seq<u8> {
        match self {
            StreamPayInstruction::InitializeStream { start_time, interval, amount_per_interval } =>
                seq![0u8] + spec_u64_to_le_bytes(start_time) + spec_u64_to_le_bytes(interval)
                    + spec_u64_to_le_bytes(amount_per_interval),
            StreamPayInstruction::UpdateStream { interval, amount_per_interval } =>
                seq![1u8] + spec_u64_to_le_bytes(interval) + spec_u64_to_le_bytes(amount_per_interval),
            StreamPayInstruction::TerminateStream => seq![2u8],
            StreamPayInstruction::Withdraw { amount } => seq![3u8] + spec_u64_to_le_bytes(amount),
            StreamPayInstruction::PauseStream => seq![4u8],
            StreamPayInstruction::ResumeStream => seq![5u8],
            StreamPayInstruction::QueryStream => seq![6u8],
        }
    }

    /// What `unpack` makes of the given bytes: the decoded operation, or
    /// `None` where the bytes are empty, truncated for their tag, or carry
    /// an unknown tag.
    pub open spec fn spec_decode(data: Seq<u8>) -> Option<StreamPayInstruction> {
        if data.len() < 1 {
            None
        } else if data[0] == 0 {
            if data.len() >= 25 {
                Some(StreamPayInstruction::InitializeStream {
                    start_time: spec_u64_from_le_bytes(data.subrange(1, 9)),
                    interval: spec_u64_from_le_bytes(data.subrange(9, 17)),
                    amount_per_interval: spec_u64_from_le_bytes(data.subrange(17, 25)),
                })
            } else {
                None
            }
        } else if data[0] == 1 {
            if data.len() >= 17 {
                Some(StreamPayInstruction::UpdateStream {
                    interval: spec_u64_from_le_bytes(data.subrange(1, 9)),
                    amount_per_interval: spec_u64_from_le_bytes(data.subrange(9, 17)),
                })
            } else {
                None
            }
        } else if data[0] == 2 {
            Some(StreamPayInstruction::TerminateStream)
        } else if data[0] == 3 {
            if data.len() >= 9 {
                Some(StreamPayInstruction::Withdraw {
                    amount: spec_u64_from_le_bytes(data.subrange(1, 9)),
                })
            } else {
                None
            }
        } else if data[0] == 4 {
            Some(StreamPayInstruction::PauseStream)
        } else if data[0] == 5 {
            Some(StreamPayInstruction::ResumeStream)
        } else if data[0] == 6 {
            Some(StreamPayInstruction::QueryStream)
        } else {
            None
        }
    }

    /// Decodes a byte array into an operation. Fails with
    /// `InvalidInstruction` exactly where no operation is encoded; never
    /// panics and never reads out of bounds.
    pub fn unpack(data: &[u8]) -> (result: Result<StreamPayInstruction, StreamError>)
        ensures
            match result {
                Ok(op) => Self::spec_decode(data@) == Some(op),
                Err(e) => Self::spec_decode(data@) is None && e == StreamError::InvalidInstruction,
            },
    {
        if data.len() < 1 {
            return Err(StreamError::InvalidInstruction);
        }
        let tag = *slice_index_get(data, 0);
        if tag == 0 {
            if data.len() >= 25 {
                let start_time = u64_from_le_bytes(slice_subrange(data, 1, 9));
                let interval = u64_from_le_bytes(slice_subrange(data, 9, 17));
                let amount_per_interval = u64_from_le_bytes(slice_subrange(data, 17, 25));
                Ok(StreamPayInstruction::InitializeStream { start_time, interval, amount_per_interval })
            } else {
                Err(StreamError::InvalidInstruction)
            }
        } else if tag == 1 {
            if data.len() >= 17 {
                let interval = u64_from_le_bytes(slice_subrange(data, 1, 9));
                let amount_per_interval = u64_from_le_bytes(slice_subrange(data, 9, 17));
                Ok(StreamPayInstruction::UpdateStream { interval, amount_per_interval })
            } else {
                Err(StreamError::InvalidInstruction)
            }
        } else if tag == 2 {
            Ok(StreamPayInstruction::TerminateStream)
        } else if tag == 3 {
            if data.len() >= 9 {
                let amount = u64_from_le_bytes(slice_subrange(data, 1, 9));
                Ok(StreamPayInstruction::Withdraw { amount })
            } else {
                Err(StreamError::InvalidInstruction)
            }
        } else if tag == 4 {
            Ok(StreamPayInstruction::PauseStream)
        } else if tag == 5 {
            Ok(StreamPayInstruction::ResumeStream)
        } else if tag == 6 {
            Ok(StreamPayInstruction::QueryStream)
        } else {
            Err(StreamError::InvalidInstruction)
        }
    }

    /// Encodes this operation into the exact bytes `spec_encoding` gives:
    /// the tag byte, then each field as 8 little-endian bytes.
    pub fn pack(&self) -> (data: Vec<u8>)
        ensures
            data@ == self.spec_encoding(),
    {
        let mut data: Vec<u8> = Vec::new();
        match self {
            StreamPayInstruction::InitializeStream { start_time, interval, amount_per_interval } => {
                data.push(0);
                let mut field = u64_to_le_bytes(*start_time);
                data.append(&mut field);
                let mut field = u64_to_le_bytes(*interval);
                data.append(&mut field);
                let mut field = u64_to_le_bytes(*amount_per_interval);
                data.append(&mut field);
            }
            StreamPayInstruction::UpdateStream { interval, amount_per_interval } => {
                data.push(1);
                let mut field = u64_to_le_bytes(*interval);
                data.append(&mut field);
                let mut field = u64_to_le_bytes(*amount_per_interval);
                data.append(&mut field);
            }
            StreamPayInstruction::TerminateStream => {
                data.push(2);
            }
            StreamPayInstruction::Withdraw { amount } => {
                data.push(3);
                let mut field = u64_to_le_bytes(*amount);
                data.append(&mut field);
            }
            StreamPayInstruction::PauseStream => {
                data.push(4);
            }
            StreamPayInstruction::ResumeStream => {
                data.push(5);
            }
            StreamPayInstruction::QueryStream => {
                data.push(6);
            }
        }
        proof {
            assert(data@ =~= self.spec_encoding());
        }
        data
    }
}

/// Law: the codec round-trips. Decoding the encoding of any constructible
/// operation yields that operation back.
pub proof fn lemma_encode_decode_round_trip(op: StreamPayInstruction)
    ensures
        StreamPayInstruction::spec_decode(op.spec_encoding()) == Some(op),
{
    lemma_auto_spec_u64_to_from_le_bytes();
    match op {
        StreamPayInstruction::InitializeStream { start_time, interval, amount_per_interval } => {
            let enc = op.spec_encoding();
            assert(enc.subrange(1, 9) =~= spec_u64_to_le_bytes(start_time));
            assert(enc.subrange(9, 17) =~= spec_u64_to_le_bytes(interval));
            assert(enc.subrange(17, 25) =~= spec_u64_to_le_bytes(amount_per_interval));
        }
        StreamPayInstruction::UpdateStream { interval, amount_per_interval } => {
            let enc = op.spec_encoding();
            assert(enc.subrange(1, 9) =~= spec_u64_to_le_bytes(interval));
            assert(enc.subrange(9, 17) =~= spec_u64_to_le_bytes(amount_per_interval));
        }
        StreamPayInstruction::Withdraw { amount } => {
            let enc = op.spec_encoding();
            assert(enc.subrange(1, 9) =~= spec_u64_to_le_bytes(amount));
        }
        _ => {}
    }
}

} // verus!
