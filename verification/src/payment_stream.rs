//! The payment stream entity: its fields, its invariant, the vesting
//! calculator, and the fixed-size record layout it is stored under.

use vstd::prelude::*;
use vstd::arithmetic::div_mod::lemma_div_is_ordered;
use vstd::arithmetic::mul::{lemma_mul_inequality, lemma_mul_upper_bound};
use vstd::bytes::{
    lemma_auto_spec_u64_to_from_le_bytes, spec_u64_from_le_bytes, spec_u64_to_le_bytes,
    u64_from_le_bytes, u64_to_le_bytes,
};
use vstd::slice::{slice_index_get, slice_subrange};
use crate::constants::{MINIMUM_AMOUNT_LAMPORTS, STREAM_RECORD_LEN};
use crate::error::StreamError;

verus! {

/// An opaque identity handle: the address of a party or of an account, as
/// the host names it. The core only stores and compares these; it packs
/// them as 8 little-endian bytes.
#[derive(Clone, Copy, Debug, PartialEq, Eq, Structural)]
pub struct Address {
    pub id: u64,
}

/// Where a stream stands in its life. Transitions run one way along
/// `Uninitialized -> Active <-> Paused -> Terminated`, and `Terminated` is
/// absorbing: after it no field changes again.
#[derive(Clone, Copy, Debug, PartialEq, Eq, Structural)]
pub enum StreamStatus {
    Uninitialized,
    Active,
    Paused,
    Terminated,
}

/// One unidirectional, time-vested payment relationship. `total_amount`
/// of zero means the lifetime payout is uncapped, bounded only by elapsed
/// vesting; `last_withdraw_time` equals `start_time` until the first
/// successful withdrawal.
#[derive(Clone, Copy, Debug, PartialEq, Eq, Structural)]
pub struct PaymentStream {
    pub payer: Address,
    pub recipient: Address,
    pub start_time: u64,
    pub interval: u64,
    pub amount_per_interval: u64,
    pub total_amount: u64,
    pub withdrawn_amount: u64,
    pub last_withdraw_time: u64,
    pub status: StreamStatus,
}

impl PaymentStream {
    /// The invariant every transition preserves: a running stream has a
    /// positive interval and an amount at or above the configured floor,
    /// and a capped stream has never paid out more than its cap.
    pub open spec fn wf(self) -> bool {
        &&& (self.status == StreamStatus::Active || self.status == StreamStatus::Paused)
            ==> (self.interval > 0 && self.amount_per_interval >= MINIMUM_AMOUNT_LAMPORTS)
        &&& (self.total_amount != 0 ==> self.withdrawn_amount <= self.total_amount)
    }

    /// Runtime check equivalent to `wf`, for hosts that load records from
    /// storage they do not otherwise trust.
    pub fn is_well_formed(&self) -> (r: bool)
        ensures
            r == self.wf(),
    {
        let running = self.status == StreamStatus::Active || self.status == StreamStatus::Paused;
        (!running || (self.interval > 0 && self.amount_per_interval >= MINIMUM_AMOUNT_LAMPORTS))
            && (self.total_amount == 0 || self.withdrawn_amount <= self.total_amount)
    }

    /// A blank record between the two parties: all amounts and instants
    /// zero, status `Uninitialized`. Only the Initialize transition brings
    /// it to life.
    pub fn new(payer: Address, recipient: Address) -> (r: PaymentStream)
        ensures
            r == (PaymentStream {
                payer,
                recipient,
                start_time: 0,
                interval: 0,
                amount_per_interval: 0,
                total_amount: 0,
                withdrawn_amount: 0,
                last_withdraw_time: 0,
                status: StreamStatus::Uninitialized,
            }),
            r.wf(),
    {
        PaymentStream {
            payer,
            recipient,
            start_time: 0,
            interval: 0,
            amount_per_interval: 0,
            total_amount: 0,
            withdrawn_amount: 0,
            last_withdraw_time: 0,
            status: StreamStatus::Uninitialized,
        }
    }

    pub fn is_initialized(&self) -> (r: bool)
        ensures
            r == (self.status != StreamStatus::Uninitialized),
    {
        self.status != StreamStatus::Uninitialized
    }

    pub fn is_terminated(&self) -> (r: bool)
        ensures
            r == (self.status == StreamStatus::Terminated),
    {
        self.status == StreamStatus::Terminated
    }

    pub fn is_paused(&self) -> (r: bool)
        ensures
            r == (self.status == StreamStatus::Paused),
    {
        self.status == StreamStatus::Paused
    }

    /// What has vested and is still available at `now`, ignoring status:
    /// whole elapsed intervals since the last withdrawal, times the amount
    /// per interval, saturating at the representable maximum; never more
    /// than the headroom left under the cap (or, uncapped, under the
    /// paid-out counter's maximum, so a granted withdrawal always fits).
    /// Fractional progress within the current interval does not vest, and
    /// a clock that reads earlier than the last withdrawal vests nothing.
    pub open spec fn spec_vested(self, now: u64) -> u64 {
        if now < self.last_withdraw_time || self.interval == 0 {
            0u64
        } else {
            let intervals = ((now - self.last_withdraw_time) as int) / (self.interval as int);
            let accrued = intervals * (self.amount_per_interval as int);
            let accrued_sat: int = if accrued > u64::MAX as int {
                u64::MAX as int
            } else {
                accrued
            };
            let headroom: int = if self.total_amount != 0 {
                if self.withdrawn_amount <= self.total_amount {
                    self.total_amount - self.withdrawn_amount
                } else {
                    0
                }
            } else {
                u64::MAX - self.withdrawn_amount
            };
            if accrued_sat <= headroom {
                accrued_sat as u64
            } else {
                headroom as u64
            }
        }
    }

    /// The most a withdrawal may move at `now`: the vested amount for an
    /// active stream, zero for any other status.
    pub open spec fn spec_max_withdrawable(self, now: u64) -> u64 {
        if self.status == StreamStatus::Active {
            self.spec_vested(now)
        } else {
            0u64
        }
    }

    /// Computes `spec_vested` for a running stream.
    pub fn vested_amount(&self, current_time: u64) -> (r: u64)
        requires
            self.wf(),
            self.status == StreamStatus::Active || self.status == StreamStatus::Paused,
        ensures
            r == self.spec_vested(current_time),
    {
        if current_time < self.last_withdraw_time {
            return 0;
        }
        let elapsed = current_time - self.last_withdraw_time;
        let intervals = elapsed / self.interval;
        proof {
            lemma_mul_upper_bound(
                intervals as int,
                u64::MAX as int,
                self.amount_per_interval as int,
                u64::MAX as int,
            );
        }
        let accrued_wide: u128 = (intervals as u128) * (self.amount_per_interval as u128);
        let accrued: u64 = if accrued_wide > u64::MAX as u128 {
            u64::MAX
        } else {
            accrued_wide as u64
        };
        let headroom: u64 = if self.total_amount != 0 {
            self.total_amount - self.withdrawn_amount
        } else {
            u64::MAX - self.withdrawn_amount
        };
        if accrued <= headroom {
            accrued
        } else {
            headroom
        }
    }

    /// The vesting calculator: pure, deterministic, reusable by the
    /// Withdraw transition and by a read-only Query alike.
    pub fn calculate_max_withdrawable(&self, current_time: u64) -> (r: u64)
        requires
            self.wf(),
        ensures
            r == self.spec_max_withdrawable(current_time),
    {
        if self.status == StreamStatus::Active {
            self.vested_amount(current_time)
        } else {
            0
        }
    }
}

impl PaymentStream {
    /// Replaces the vesting terms of a running record; any other record is
    /// left untouched. A zero argument is an unspecified term and retains
    /// the current value. Authorization and the floor on a specified
    /// amount are the lifecycle machine's checks, made before it applies
    /// this change.
    pub fn update(&mut self, interval: u64, amount_per_interval: u64)
        ensures
            *final(self) == (if old(self).status == StreamStatus::Active
                || old(self).status == StreamStatus::Paused {
                PaymentStream {
                    interval: if interval == 0 { old(self).interval } else { interval },
                    amount_per_interval: if amount_per_interval == 0 {
                        old(self).amount_per_interval
                    } else {
                        amount_per_interval
                    },
                    ..*old(self)
                }
            } else {
                *old(self)
            }),
            old(self).wf() ==> final(self).wf(),
    {
        if self.status == StreamStatus::Active || self.status == StreamStatus::Paused {
            if interval != 0 {
                self.interval = interval;
            }
            if amount_per_interval != 0 {
                self.amount_per_interval = amount_per_interval;
            }
        }
    }

    /// Freezes a running record forever; any other record is left
    /// untouched. This is the bare status change: the lifecycle machine's
    /// Terminate additionally books the settlement of the vested balance
    /// before it applies this change.
    pub fn terminate(&mut self)
        ensures
            *final(self) == (if old(self).status == StreamStatus::Active
                || old(self).status == StreamStatus::Paused {
                PaymentStream { status: StreamStatus::Terminated, ..*old(self) }
            } else {
                *old(self)
            }),
            old(self).wf() ==> final(self).wf(),
    {
        if self.status == StreamStatus::Active || self.status == StreamStatus::Paused {
            self.status = StreamStatus::Terminated;
        }
    }

    /// Suspends an active record; any other record is left untouched.
    /// Nothing but the status changes: in particular the withdrawal mark
    /// stays where it was.
    pub fn pause(&mut self)
        ensures
            *final(self) == (if old(self).status == StreamStatus::Active {
                PaymentStream { status: StreamStatus::Paused, ..*old(self) }
            } else {
                *old(self)
            }),
            old(self).wf() ==> final(self).wf(),
    {
        if self.status == StreamStatus::Active {
            self.status = StreamStatus::Paused;
        }
    }

    /// Reactivates a paused record; any other record is left untouched.
    /// The withdrawal mark stays where it was: the paused window neither
    /// grants nor takes vesting credit at the moment of resuming.
    pub fn resume(&mut self)
        ensures
            *final(self) == (if old(self).status == StreamStatus::Paused {
                PaymentStream { status: StreamStatus::Active, ..*old(self) }
            } else {
                *old(self)
            }),
            old(self).wf() ==> final(self).wf(),
    {
        if self.status == StreamStatus::Paused {
            self.status = StreamStatus::Active;
        }
    }
}

/// Law: vesting is monotone in time. For a fixed record, what may be
/// withdrawn at a later instant is never less than at an earlier one.
pub proof fn lemma_max_withdrawable_monotonic(s: PaymentStream, t1: u64, t2: u64)
    requires
        s.wf(),
        t1 <= t2,
    ensures
        s.spec_max_withdrawable(t1) <= s.spec_max_withdrawable(t2),
{
    if s.status == StreamStatus::Active && t1 >= s.last_withdraw_time {
        let e1 = (t1 - s.last_withdraw_time) as int;
        let e2 = (t2 - s.last_withdraw_time) as int;
        let iv = s.interval as int;
        lemma_div_is_ordered(e1, e2, iv);
        lemma_mul_inequality(e1 / iv, e2 / iv, s.amount_per_interval as int);
    }
}

impl PaymentStream {
    /// The exact 67 bytes this record packs to: payer and recipient as 8
    /// little-endian bytes each, then the six numeric fields as 8
    /// little-endian bytes each, then the three status bytes
    /// (initialized, terminated, paused).
    pub open spec fn spec_record_bytes(self) -> Seq<u8> {
        spec_u64_to_le_bytes(self.payer.id) + spec_u64_to_le_bytes(self.recipient.id)
            + spec_u64_to_le_bytes(self.start_time) + spec_u64_to_le_bytes(self.interval)
            + spec_u64_to_le_bytes(self.amount_per_interval)
            + spec_u64_to_le_bytes(self.total_amount)
            + spec_u64_to_le_bytes(self.withdrawn_amount)
            + spec_u64_to_le_bytes(self.last_withdraw_time) + self.spec_status_bytes()
    }

    /// The canonical status bytes of this record.
    pub open spec fn spec_status_bytes(self) -> Seq<u8> {
        match self.status {
            StreamStatus::Uninitialized => seq![0u8, 0u8, 0u8],
            StreamStatus::Active => seq![1u8, 0u8, 0u8],
            StreamStatus::Paused => seq![1u8, 0u8, 1u8],
            StreamStatus::Terminated => seq![1u8, 1u8, 0u8],
        }
    }

    /// The status a canonical byte triple stands for; `None` for any other
    /// triple.
    pub open spec fn spec_status_of_bytes(init: u8, term: u8, paused: u8) -> Option<StreamStatus> {
        if init == 0 && term == 0 && paused == 0 {
            Some(StreamStatus::Uninitialized)
        } else if init == 1 && term == 0 && paused == 0 {
            Some(StreamStatus::Active)
        } else if init == 1 && term == 0 && paused == 1 {
            Some(StreamStatus::Paused)
        } else if init == 1 && term == 1 && paused == 0 {
            Some(StreamStatus::Terminated)
        } else {
            None
        }
    }

    /// What `unpack` makes of stored bytes: the record encoded in the
    /// first 67 bytes, or `None` where the input is shorter or its status
    /// triple is not canonical. Trailing bytes are ignored, so a record
    /// may sit at the front of a larger storage slot.
    pub open spec fn spec_unpack_record(data: Seq<u8>) -> Option<PaymentStream> {
        if data.len() < STREAM_RECORD_LEN {
            None
        } else {
            match Self::spec_status_of_bytes(data[64], data[65], data[66]) {
                None => None,
                Some(status) => Some(PaymentStream {
                    payer: Address { id: spec_u64_from_le_bytes(data.subrange(0, 8)) },
                    recipient: Address { id: spec_u64_from_le_bytes(data.subrange(8, 16)) },
                    start_time: spec_u64_from_le_bytes(data.subrange(16, 24)),
                    interval: spec_u64_from_le_bytes(data.subrange(24, 32)),
                    amount_per_interval: spec_u64_from_le_bytes(data.subrange(32, 40)),
                    total_amount: spec_u64_from_le_bytes(data.subrange(40, 48)),
                    withdrawn_amount: spec_u64_from_le_bytes(data.subrange(48, 56)),
                    last_withdraw_time: spec_u64_from_le_bytes(data.subrange(56, 64)),
                    status,
                }),
            }
        }
    }

    /// Packs this record to its exact 67-byte form.
    pub fn to_bytes(&self) -> (data: Vec<u8>)
        ensures
            data@ == self.spec_record_bytes(),
            data.len() == STREAM_RECORD_LEN,
    {
        let mut data: Vec<u8> = Vec::new();
        let mut field = u64_to_le_bytes(self.payer.id);
        data.append(&mut field);
        let mut field = u64_to_le_bytes(self.recipient.id);
        data.append(&mut field);
        let mut field = u64_to_le_bytes(self.start_time);
        data.append(&mut field);
        let mut field = u64_to_le_bytes(self.interval);
        data.append(&mut field);
        let mut field = u64_to_le_bytes(self.amount_per_interval);
        data.append(&mut field);
        let mut field = u64_to_le_bytes(self.total_amount);
        data.append(&mut field);
        let mut field = u64_to_le_bytes(self.withdrawn_amount);
        data.append(&mut field);
        let mut field = u64_to_le_bytes(self.last_withdraw_time);
        data.append(&mut field);
        match self.status {
            StreamStatus::Uninitialized => {
                data.push(0);
                data.push(0);
                data.push(0);
            }
            StreamStatus::Active => {
                data.push(1);
                data.push(0);
                data.push(0);
            }
            StreamStatus::Paused => {
                data.push(1);
                data.push(0);
                data.push(1);
            }
            StreamStatus::Terminated => {
                data.push(1);
                data.push(1);
                data.push(0);
            }
        }
        proof {
            assert(data@ =~= self.spec_record_bytes());
        }
        data
    }

    /// Writes this record into the front of `dst`, leaving the rest of the
    /// slot as it was. The slot must be at least one record long.
    pub fn pack(&self, dst: &mut Vec<u8>)
        requires
            old(dst).len() >= STREAM_RECORD_LEN,
        ensures
            final(dst)@ == self.spec_record_bytes() + old(dst)@.skip(STREAM_RECORD_LEN as int),
            final(dst).len() == old(dst).len(),
    {
        let bytes = self.to_bytes();
        let mut i: usize = 0;
        while i < STREAM_RECORD_LEN
            invariant
                i <= STREAM_RECORD_LEN,
                bytes@ == self.spec_record_bytes(),
                bytes.len() == STREAM_RECORD_LEN,
                dst.len() == old(dst).len(),
                old(dst).len() >= STREAM_RECORD_LEN,
                forall|j: int| 0 <= j < i ==> dst@[j] == bytes@[j],
                forall|j: int| i <= j < dst@.len() ==> dst@[j] == old(dst)@[j],
            decreases STREAM_RECORD_LEN - i,
        {
            let b = *slice_index_get(bytes.as_slice(), i);
            dst.set(i, b);
            i += 1;
        }
        proof {
            assert(dst@ =~= self.spec_record_bytes() + old(dst)@.skip(STREAM_RECORD_LEN as int));
        }
    }

    /// Reads a record back from stored bytes. Fails with
    /// `InvalidStreamData` exactly where no record is encoded; never
    /// panics and never reads out of bounds.
    pub fn unpack(input: &[u8]) -> (result: Result<PaymentStream, StreamError>)
        ensures
            match result {
                Ok(s) => Self::spec_unpack_record(input@) == Some(s),
                Err(e) => Self::spec_unpack_record(input@) is None
                    && e == StreamError::InvalidStreamData,
            },
    {
        if input.len() < STREAM_RECORD_LEN {
            return Err(StreamError::InvalidStreamData);
        }
        let init = *slice_index_get(input, 64);
        let term = *slice_index_get(input, 65);
        let paused = *slice_index_get(input, 66);
        let status = if init == 0 && term == 0 && paused == 0 {
            StreamStatus::Uninitialized
        } else if init == 1 && term == 0 && paused == 0 {
            StreamStatus::Active
        } else if init == 1 && term == 0 && paused == 1 {
            StreamStatus::Paused
        } else if init == 1 && term == 1 && paused == 0 {
            StreamStatus::Terminated
        } else {
            return Err(StreamError::InvalidStreamData);
        };
        Ok(PaymentStream {
            payer: Address { id: u64_from_le_bytes(slice_subrange(input, 0, 8)) },
            recipient: Address { id: u64_from_le_bytes(slice_subrange(input, 8, 16)) },
            start_time: u64_from_le_bytes(slice_subrange(input, 16, 24)),
            interval: u64_from_le_bytes(slice_subrange(input, 24, 32)),
            amount_per_interval: u64_from_le_bytes(slice_subrange(input, 32, 40)),
            total_amount: u64_from_le_bytes(slice_subrange(input, 40, 48)),
            withdrawn_amount: u64_from_le_bytes(slice_subrange(input, 48, 56)),
            last_withdraw_time: u64_from_le_bytes(slice_subrange(input, 56, 64)),
            status,
        })
    }
}

/// Law: the record layout round-trips. Unpacking the packed form of any
/// record yields that record back, field for field.
pub proof fn lemma_record_round_trip(s: PaymentStream)
    ensures
        PaymentStream::spec_unpack_record(s.spec_record_bytes()) == Some(s),
{
    lemma_auto_spec_u64_to_from_le_bytes();
    let b = s.spec_record_bytes();
    assert(b.subrange(0, 8) =~= spec_u64_to_le_bytes(s.payer.id));
    assert(b.subrange(8, 16) =~= spec_u64_to_le_bytes(s.recipient.id));
    assert(b.subrange(16, 24) =~= spec_u64_to_le_bytes(s.start_time));
    assert(b.subrange(24, 32) =~= spec_u64_to_le_bytes(s.interval));
    assert(b.subrange(32, 40) =~= spec_u64_to_le_bytes(s.amount_per_interval));
    assert(b.subrange(40, 48) =~= spec_u64_to_le_bytes(s.total_amount));
    assert(b.subrange(48, 56) =~= spec_u64_to_le_bytes(s.withdrawn_amount));
    assert(b.subrange(56, 64) =~= spec_u64_to_le_bytes(s.last_withdraw_time));
}

} // verus!
