//! The stream lifecycle state machine and the fee engine.
//!
//! Every mutating operation is one read-validate-compute-write unit: the
//! host loads the current record, hands it in with the request, and either
//! receives a complete new record plus the transfers to perform, or a typed
//! error and nothing to write. Validation, authorization included, happens
//! before any field of the result is derived, so a failed request names its
//! reason and changes nothing.
//!
//! The host supplies the collaborators the core deliberately does not own:
//! exclusive, serialized access to the record for the span of one
//! operation; authentication of the claimed signer (the core receives the
//! authenticated identity and only checks its role); the observed clock;
//! and the execution of the returned transfers.

use vstd::prelude::*;
use vstd::arithmetic::div_mod::{lemma_div_is_ordered, lemma_div_multiples_vanish};
use vstd::arithmetic::mul::{lemma_mul_inequality, lemma_mul_upper_bound};
use crate::constants::{
    MINIMUM_AMOUNT_LAMPORTS, OPERATIONAL_FEE_DENOMINATOR, OPERATIONAL_FEE_NUMERATOR,
};
use crate::error::{PaymentError, ProcessError, StreamError};
use crate::instruction::StreamPayInstruction;
use crate::payment_stream::{Address, PaymentStream, StreamStatus};

verus! {

/// What the host observed about one request: the identity it
/// authenticated as the signer, the recipient account the request names
/// (read by Initialize only), the address of the account holding the
/// stream's funds, and the clock reading.
#[derive(Clone, Copy, Debug, PartialEq, Eq, Structural)]
pub struct RequestContext {
    pub signer: Address,
    pub recipient: Address,
    pub escrow: Address,
    pub now: u64,
}

/// One movement of value the host must perform on the core's behalf. The
/// core never moves funds itself; it only decides and records what is owed
/// to whom.
#[derive(Clone, Copy, Debug, PartialEq, Eq, Structural)]
pub struct FundsTransfer {
    pub from: Address,
    pub to: Address,
    pub amount: u64,
}

/// The answer to a successful request: the record to write back, the
/// transfers to perform, and, for a query, the currently withdrawable
/// amount. On termination the host additionally returns whatever the
/// escrow still holds beyond these transfers to the payer; the core cannot
/// know that balance.
#[derive(Debug)]
pub struct ProcessOutcome {
    pub stream: PaymentStream,
    pub transfers: Vec<FundsTransfer>,
    pub withdrawable: Option<u64>,
}

pub struct Processor;

impl Processor {
    /// The operational fee on `amount`, as a mathematical value:
    /// `floor(amount * rate)` at the configured fixed-point rate.
    pub open spec fn spec_operational_fee(amount: u64) -> int {
        amount * OPERATIONAL_FEE_NUMERATOR / (OPERATIONAL_FEE_DENOMINATOR as int)
    }

    /// What Initialize debits from the payer: one interval's amount as the
    /// principal, plus the operational fee on it.
    pub open spec fn spec_deposit(amount_per_interval: u64) -> int {
        amount_per_interval + Self::spec_operational_fee(amount_per_interval)
    }

    /// The fee engine: integer fixed-point arithmetic with floor rounding,
    /// so identical inputs always yield identical fees.
    pub fn calculate_operational_fee(amount: u64) -> (fee: u64)
        ensures
            fee == Self::spec_operational_fee(amount),
            fee <= amount,
    {
        proof {
            lemma_mul_upper_bound(
                amount as int,
                u64::MAX as int,
                OPERATIONAL_FEE_NUMERATOR as int,
                OPERATIONAL_FEE_NUMERATOR as int,
            );
            lemma_mul_inequality(
                OPERATIONAL_FEE_NUMERATOR as int,
                OPERATIONAL_FEE_DENOMINATOR as int,
                amount as int,
            );
            lemma_div_is_ordered(
                amount as int * OPERATIONAL_FEE_NUMERATOR as int,
                amount as int * OPERATIONAL_FEE_DENOMINATOR as int,
                OPERATIONAL_FEE_DENOMINATOR as int,
            );
            lemma_div_multiples_vanish(amount as int, OPERATIONAL_FEE_DENOMINATOR as int);
        }
        let wide: u128 = (amount as u128) * (OPERATIONAL_FEE_NUMERATOR as u128);
        (wide / (OPERATIONAL_FEE_DENOMINATOR as u128)) as u64
    }

    /// The core has no clock of its own: the host observes the time and
    /// passes it in `RequestContext::now` with each request. This fallback
    /// reports the epoch instant and stands where no host clock has been
    /// wired in.
    pub fn current_timestamp() -> (t: u64)
        ensures
            t == 0,
    {
        0
    }

    /// Records one movement of value for the host's value-transfer
    /// collaborator to perform.
    pub fn transfer_funds(from: Address, to: Address, amount: u64) -> (t: FundsTransfer)
        ensures
            t == (FundsTransfer { from, to, amount }),
    {
        FundsTransfer { from, to, amount }
    }

    /// The Initialize transition on the record alone. The payer is the
    /// authenticated signer; the vesting start may not lie in the past;
    /// the amount must reach the configured floor and its implied deposit
    /// must be representable; the interval must be positive. The new
    /// stream starts active, unwithdrawn, uncapped, with its withdrawal
    /// mark at the vesting start.
    pub open spec fn spec_initialize(
        s: PaymentStream,
        payer: Address,
        recipient: Address,
        now: u64,
        start_time: u64,
        interval: u64,
        amount_per_interval: u64,
    ) -> Result<PaymentStream, ProcessError> {
        if s.status != StreamStatus::Uninitialized {
            Err(ProcessError::Payment(PaymentError::StreamAlreadyInitialized))
        } else if start_time < now {
            Err(ProcessError::Payment(PaymentError::InvalidStartTime))
        } else if amount_per_interval < MINIMUM_AMOUNT_LAMPORTS {
            Err(ProcessError::Payment(PaymentError::InvalidAmount))
        } else if interval == 0 {
            Err(ProcessError::Stream(StreamError::InvalidTimeFrame))
        } else if Self::spec_deposit(amount_per_interval) > u64::MAX as int {
            Err(ProcessError::Payment(PaymentError::InvalidAmount))
        } else {
            Ok(PaymentStream {
                payer,
                recipient,
                start_time,
                interval,
                amount_per_interval,
                total_amount: 0,
                withdrawn_amount: 0,
                last_withdraw_time: start_time,
                status: StreamStatus::Active,
            })
        }
    }

    /// The Update transition: only the payer may replace the vesting terms
    /// of a stream that is running (active or paused). A zero field is an
    /// unspecified field and retains the current term — on the wire both
    /// fields are always present, and a meaningful term is never zero. A
    /// specified amount must reach the configured floor.
    pub open spec fn spec_update(
        s: PaymentStream,
        signer: Address,
        interval: u64,
        amount_per_interval: u64,
    ) -> Result<PaymentStream, ProcessError> {
        if s.status == StreamStatus::Uninitialized {
            Err(ProcessError::Payment(PaymentError::StreamNotInitialized))
        } else if s.status == StreamStatus::Terminated {
            Err(ProcessError::Payment(PaymentError::StreamAlreadyTerminated))
        } else if signer != s.payer {
            Err(ProcessError::Payment(PaymentError::Unauthorized))
        } else {
            let new_interval = if interval == 0 { s.interval } else { interval };
            let new_amount = if amount_per_interval == 0 {
                s.amount_per_interval
            } else {
                amount_per_interval
            };
            if new_amount < MINIMUM_AMOUNT_LAMPORTS {
                Err(ProcessError::Payment(PaymentError::InvalidAmount))
            } else {
                Ok(PaymentStream {
                    payer: s.payer,
                    recipient: s.recipient,
                    start_time: s.start_time,
                    interval: new_interval,
                    amount_per_interval: new_amount,
                    total_amount: s.total_amount,
                    withdrawn_amount: s.withdrawn_amount,
                    last_withdraw_time: s.last_withdraw_time,
                    status: s.status,
                })
            }
        }
    }

    /// The Withdraw transition: only the recipient may draw on an active
    /// stream, and only up to what has vested and remains available. On
    /// success the paid-out counter grows by the amount and the withdrawal
    /// mark moves to the observed time; the mark never moves backwards, so
    /// a clock that reads earlier than the mark leaves it in place (such a
    /// clock vests nothing, so only a zero withdrawal can reach that
    /// case).
    pub open spec fn spec_withdraw(
        s: PaymentStream,
        signer: Address,
        now: u64,
        amount: u64,
    ) -> Result<PaymentStream, ProcessError> {
        if s.status == StreamStatus::Uninitialized {
            Err(ProcessError::Payment(PaymentError::StreamNotInitialized))
        } else if s.status == StreamStatus::Terminated {
            Err(ProcessError::Payment(PaymentError::StreamAlreadyTerminated))
        } else if s.status == StreamStatus::Paused {
            Err(ProcessError::Payment(PaymentError::StreamAlreadyPaused))
        } else if signer != s.recipient {
            Err(ProcessError::Payment(PaymentError::Unauthorized))
        } else if amount > s.spec_max_withdrawable(now) {
            Err(ProcessError::Payment(PaymentError::InsufficientFunds))
        } else {
            Ok(PaymentStream {
                payer: s.payer,
                recipient: s.recipient,
                start_time: s.start_time,
                interval: s.interval,
                amount_per_interval: s.amount_per_interval,
                total_amount: s.total_amount,
                withdrawn_amount: (s.withdrawn_amount + amount) as u64,
                last_withdraw_time: if now >= s.last_withdraw_time {
                    now
                } else {
                    s.last_withdraw_time
                },
                status: StreamStatus::Active,
            })
        }
    }

    /// The Pause transition: only the payer may suspend an active stream.
    /// Pausing changes the status and nothing else; in particular the
    /// withdrawal mark stays, so no vesting credit is granted or taken for
    /// the paused window by the pause itself.
    pub open spec fn spec_pause(s: PaymentStream, signer: Address) -> Result<
        PaymentStream,
        ProcessError,
    > {
        if s.status == StreamStatus::Uninitialized {
            Err(ProcessError::Payment(PaymentError::StreamNotInitialized))
        } else if s.status == StreamStatus::Terminated {
            Err(ProcessError::Payment(PaymentError::StreamAlreadyTerminated))
        } else if s.status == StreamStatus::Paused {
            Err(ProcessError::Payment(PaymentError::StreamAlreadyPaused))
        } else if signer != s.payer {
            Err(ProcessError::Payment(PaymentError::Unauthorized))
        } else {
            Ok(PaymentStream {
                payer: s.payer,
                recipient: s.recipient,
                start_time: s.start_time,
                interval: s.interval,
                amount_per_interval: s.amount_per_interval,
                total_amount: s.total_amount,
                withdrawn_amount: s.withdrawn_amount,
                last_withdraw_time: s.last_withdraw_time,
                status: StreamStatus::Paused,
            })
        }
    }

    /// The Resume transition: only the payer may reactivate a paused
    /// stream. The withdrawal mark is left unchanged; this is the
    /// documented policy for the paused window, chosen over advancing the
    /// mark to the resume instant.
    pub open spec fn spec_resume(s: PaymentStream, signer: Address) -> Result<
        PaymentStream,
        ProcessError,
    > {
        if s.status == StreamStatus::Uninitialized {
            Err(ProcessError::Payment(PaymentError::StreamNotInitialized))
        } else if s.status == StreamStatus::Terminated {
            Err(ProcessError::Payment(PaymentError::StreamAlreadyTerminated))
        } else if s.status != StreamStatus::Paused {
            Err(ProcessError::Payment(PaymentError::StreamNotPaused))
        } else if signer != s.payer {
            Err(ProcessError::Payment(PaymentError::Unauthorized))
        } else {
            Ok(PaymentStream {
                payer: s.payer,
                recipient: s.recipient,
                start_time: s.start_time,
                interval: s.interval,
                amount_per_interval: s.amount_per_interval,
                total_amount: s.total_amount,
                withdrawn_amount: s.withdrawn_amount,
                last_withdraw_time: s.last_withdraw_time,
                status: StreamStatus::Active,
            })
        }
    }

    /// The Terminate transition: payer or recipient may close a running
    /// stream for good. What has vested and remains available at the
    /// observed time is settled to the recipient — also for a paused
    /// stream, counting the frozen mark — and is the second component of
    /// the result; the host returns the rest of the escrow to the payer.
    /// Termination is absorbing: the record freezes with the settlement
    /// booked.
    pub open spec fn spec_terminate(s: PaymentStream, signer: Address, now: u64) -> Result<
        (PaymentStream, u64),
        ProcessError,
    > {
        if s.status == StreamStatus::Uninitialized {
            Err(ProcessError::Payment(PaymentError::StreamNotInitialized))
        } else if s.status == StreamStatus::Terminated {
            Err(ProcessError::Payment(PaymentError::StreamAlreadyTerminated))
        } else if signer != s.payer && signer != s.recipient {
            Err(ProcessError::Payment(PaymentError::Unauthorized))
        } else {
            let settle = s.spec_vested(now);
            Ok((
                PaymentStream {
                    payer: s.payer,
                    recipient: s.recipient,
                    start_time: s.start_time,
                    interval: s.interval,
                    amount_per_interval: s.amount_per_interval,
                    total_amount: s.total_amount,
                    withdrawn_amount: (s.withdrawn_amount + settle) as u64,
                    last_withdraw_time: if now >= s.last_withdraw_time {
                        now
                    } else {
                        s.last_withdraw_time
                    },
                    status: StreamStatus::Terminated,
                },
                settle,
            ))
        }
    }

    /// The Query operation: read-only. Reports the currently withdrawable
    /// amount of any initialized stream (zero for one that is paused or
    /// terminated).
    pub open spec fn spec_query(s: PaymentStream, now: u64) -> Result<u64, ProcessError> {
        if s.status == StreamStatus::Uninitialized {
            Err(ProcessError::Payment(PaymentError::StreamNotInitialized))
        } else {
            Ok(s.spec_max_withdrawable(now))
        }
    }

    /// The record each operation leaves behind on success: the transition
    /// named by the operation, applied to the current record under the
    /// observed context. Query and failed operations leave the record as
    /// it was.
    pub open spec fn spec_process_op(
        s: PaymentStream,
        ctx: RequestContext,
        op: StreamPayInstruction,
    ) -> Result<PaymentStream, ProcessError> {
        match op {
            StreamPayInstruction::InitializeStream { start_time, interval, amount_per_interval } =>
                Self::spec_initialize(
                    s,
                    ctx.signer,
                    ctx.recipient,
                    ctx.now,
                    start_time,
                    interval,
                    amount_per_interval,
                ),
            StreamPayInstruction::UpdateStream { interval, amount_per_interval } =>
                Self::spec_update(s, ctx.signer, interval, amount_per_interval),
            StreamPayInstruction::TerminateStream => match Self::spec_terminate(
                s,
                ctx.signer,
                ctx.now,
            ) {
                Ok((s2, _)) => Ok(s2),
                Err(e) => Err(e),
            },
            StreamPayInstruction::Withdraw { amount } => Self::spec_withdraw(
                s,
                ctx.signer,
                ctx.now,
                amount,
            ),
            StreamPayInstruction::PauseStream => Self::spec_pause(s, ctx.signer),
            StreamPayInstruction::ResumeStream => Self::spec_resume(s, ctx.signer),
            StreamPayInstruction::QueryStream => match Self::spec_query(s, ctx.now) {
                Ok(_) => Ok(s),
                Err(e) => Err(e),
            },
        }
    }

    /// The transfers each operation obliges the host to on success:
    /// Initialize debits the deposit from the payer into escrow, Withdraw
    /// pays the recipient from escrow, Terminate settles the vested rest
    /// to the recipient from escrow; no other operation moves value.
    pub open spec fn spec_transfers(
        s: PaymentStream,
        ctx: RequestContext,
        op: StreamPayInstruction,
    ) -> Seq<FundsTransfer> {
        match op {
            StreamPayInstruction::InitializeStream { start_time, interval, amount_per_interval } =>
                seq![
                    (FundsTransfer {
                        from: ctx.signer,
                        to: ctx.escrow,
                        amount: Self::spec_deposit(amount_per_interval) as u64,
                    }),
                ],
            StreamPayInstruction::Withdraw { amount } => seq![
                (FundsTransfer { from: ctx.escrow, to: s.recipient, amount }),
            ],
            StreamPayInstruction::TerminateStream => seq![
                (FundsTransfer { from: ctx.escrow, to: s.recipient, amount: s.spec_vested(ctx.now) }),
            ],
            _ => Seq::empty(),
        }
    }

    /// Applies Initialize to the current record.
    pub fn initialize_stream(
        stream: &PaymentStream,
        ctx: RequestContext,
        start_time: u64,
        interval: u64,
        amount_per_interval: u64,
    ) -> (result: Result<ProcessOutcome, ProcessError>)
        requires
            stream.wf(),
        ensures
            (match Self::spec_initialize(
                *stream,
                ctx.signer,
                ctx.recipient,
                ctx.now,
                start_time,
                interval,
                amount_per_interval,
            ) {
                Ok(s2) => {
                    &&& result matches Ok(out)
                    &&& out.stream == s2
                    &&& out.stream.wf()
                    &&& out.withdrawable is None
                    &&& out.transfers@ =~= seq![
                        (FundsTransfer {
                            from: ctx.signer,
                            to: ctx.escrow,
                            amount: Self::spec_deposit(amount_per_interval) as u64,
                        }),
                    ]
                },
                Err(e) => result matches Err(e2) && e2 == e,
            }),
    {
        if stream.status != StreamStatus::Uninitialized {
            return Err(ProcessError::Payment(PaymentError::StreamAlreadyInitialized));
        }
        if start_time < ctx.now {
            return Err(ProcessError::Payment(PaymentError::InvalidStartTime));
        }
        if amount_per_interval < MINIMUM_AMOUNT_LAMPORTS {
            return Err(ProcessError::Payment(PaymentError::InvalidAmount));
        }
        if interval == 0 {
            return Err(ProcessError::Stream(StreamError::InvalidTimeFrame));
        }
        let fee = Self::calculate_operational_fee(amount_per_interval);
        if amount_per_interval > u64::MAX - fee {
            return Err(ProcessError::Payment(PaymentError::InvalidAmount));
        }
        let deposit = amount_per_interval + fee;
        let new_stream = PaymentStream {
            payer: ctx.signer,
            recipient: ctx.recipient,
            start_time,
            interval,
            amount_per_interval,
            total_amount: 0,
            withdrawn_amount: 0,
            last_withdraw_time: start_time,
            status: StreamStatus::Active,
        };
        let transfers = vec![Self::transfer_funds(ctx.signer, ctx.escrow, deposit)];
        Ok(ProcessOutcome { stream: new_stream, transfers, withdrawable: None })
    }

    /// Applies Update to the current record.
    pub fn update_stream(
        stream: &PaymentStream,
        ctx: RequestContext,
        interval: u64,
        amount_per_interval: u64,
    ) -> (result: Result<ProcessOutcome, ProcessError>)
        requires
            stream.wf(),
        ensures
            (match Self::spec_update(*stream, ctx.signer, interval, amount_per_interval) {
                Ok(s2) => {
                    &&& result matches Ok(out)
                    &&& out.stream == s2
                    &&& out.stream.wf()
                    &&& out.withdrawable is None
                    &&& out.transfers@ =~= Seq::<FundsTransfer>::empty()
                },
                Err(e) => result matches Err(e2) && e2 == e,
            }),
    {
        if stream.status == StreamStatus::Uninitialized {
            return Err(ProcessError::Payment(PaymentError::StreamNotInitialized));
        }
        if stream.status == StreamStatus::Terminated {
            return Err(ProcessError::Payment(PaymentError::StreamAlreadyTerminated));
        }
        if ctx.signer != stream.payer {
            return Err(ProcessError::Payment(PaymentError::Unauthorized));
        }
        let new_amount = if amount_per_interval == 0 {
            stream.amount_per_interval
        } else {
            amount_per_interval
        };
        if new_amount < MINIMUM_AMOUNT_LAMPORTS {
            return Err(ProcessError::Payment(PaymentError::InvalidAmount));
        }
        let mut new_stream = *stream;
        new_stream.update(interval, amount_per_interval);
        Ok(ProcessOutcome { stream: new_stream, transfers: Vec::new(), withdrawable: None })
    }

    /// Applies Withdraw to the current record.
    pub fn withdraw(stream: &PaymentStream, ctx: RequestContext, amount: u64) -> (result: Result<
        ProcessOutcome,
        ProcessError,
    >)
        requires
            stream.wf(),
        ensures
            (match Self::spec_withdraw(*stream, ctx.signer, ctx.now, amount) {
                Ok(s2) => {
                    &&& result matches Ok(out)
                    &&& out.stream == s2
                    &&& out.stream.wf()
                    &&& out.withdrawable is None
                    &&& out.transfers@ =~= seq![
                        (FundsTransfer { from: ctx.escrow, to: stream.recipient, amount }),
                    ]
                },
                Err(e) => result matches Err(e2) && e2 == e,
            }),
    {
        if stream.status == StreamStatus::Uninitialized {
            return Err(ProcessError::Payment(PaymentError::StreamNotInitialized));
        }
        if stream.status == StreamStatus::Terminated {
            return Err(ProcessError::Payment(PaymentError::StreamAlreadyTerminated));
        }
        if stream.status == StreamStatus::Paused {
            return Err(ProcessError::Payment(PaymentError::StreamAlreadyPaused));
        }
        if ctx.signer != stream.recipient {
            return Err(ProcessError::Payment(PaymentError::Unauthorized));
        }
        let max_withdrawable = stream.calculate_max_withdrawable(ctx.now);
        if amount > max_withdrawable {
            return Err(ProcessError::Payment(PaymentError::InsufficientFunds));
        }
        let new_last = if ctx.now >= stream.last_withdraw_time {
            ctx.now
        } else {
            stream.last_withdraw_time
        };
        let new_stream = PaymentStream {
            payer: stream.payer,
            recipient: stream.recipient,
            start_time: stream.start_time,
            interval: stream.interval,
            amount_per_interval: stream.amount_per_interval,
            total_amount: stream.total_amount,
            withdrawn_amount: stream.withdrawn_amount + amount,
            last_withdraw_time: new_last,
            status: StreamStatus::Active,
        };
        let transfers = vec![Self::transfer_funds(ctx.escrow, stream.recipient, amount)];
        Ok(ProcessOutcome { stream: new_stream, transfers, withdrawable: None })
    }

    /// Applies Pause to the current record.
    pub fn pause_stream(stream: &PaymentStream, ctx: RequestContext) -> (result: Result<
        ProcessOutcome,
        ProcessError,
    >)
        requires
            stream.wf(),
        ensures
            (match Self::spec_pause(*stream, ctx.signer) {
                Ok(s2) => {
                    &&& result matches Ok(out)
                    &&& out.stream == s2
                    &&& out.stream.wf()
                    &&& out.withdrawable is None
                    &&& out.transfers@ =~= Seq::<FundsTransfer>::empty()
                },
                Err(e) => result matches Err(e2) && e2 == e,
            }),
    {
        if stream.status == StreamStatus::Uninitialized {
            return Err(ProcessError::Payment(PaymentError::StreamNotInitialized));
        }
        if stream.status == StreamStatus::Terminated {
            return Err(ProcessError::Payment(PaymentError::StreamAlreadyTerminated));
        }
        if stream.status == StreamStatus::Paused {
            return Err(ProcessError::Payment(PaymentError::StreamAlreadyPaused));
        }
        if ctx.signer != stream.payer {
            return Err(ProcessError::Payment(PaymentError::Unauthorized));
        }
        let mut new_stream = *stream;
        new_stream.pause();
        Ok(ProcessOutcome { stream: new_stream, transfers: Vec::new(), withdrawable: None })
    }

    /// Applies Resume to the current record.
    pub fn resume_stream(stream: &PaymentStream, ctx: RequestContext) -> (result: Result<
        ProcessOutcome,
        ProcessError,
    >)
        requires
            stream.wf(),
        ensures
            (match Self::spec_resume(*stream, ctx.signer) {
                Ok(s2) => {
                    &&& result matches Ok(out)
                    &&& out.stream == s2
                    &&& out.stream.wf()
                    &&& out.withdrawable is None
                    &&& out.transfers@ =~= Seq::<FundsTransfer>::empty()
                },
                Err(e) => result matches Err(e2) && e2 == e,
            }),
    {
        if stream.status == StreamStatus::Uninitialized {
            return Err(ProcessError::Payment(PaymentError::StreamNotInitialized));
        }
        if stream.status == StreamStatus::Terminated {
            return Err(ProcessError::Payment(PaymentError::StreamAlreadyTerminated));
        }
        if stream.status != StreamStatus::Paused {
            return Err(ProcessError::Payment(PaymentError::StreamNotPaused));
        }
        if ctx.signer != stream.payer {
            return Err(ProcessError::Payment(PaymentError::Unauthorized));
        }
        let mut new_stream = *stream;
        new_stream.resume();
        Ok(ProcessOutcome { stream: new_stream, transfers: Vec::new(), withdrawable: None })
    }

    /// Applies Terminate to the current record.
    pub fn terminate_stream(stream: &PaymentStream, ctx: RequestContext) -> (result: Result<
        ProcessOutcome,
        ProcessError,
    >)
        requires
            stream.wf(),
        ensures
            (match Self::spec_terminate(*stream, ctx.signer, ctx.now) {
                Ok((s2, settle)) => {
                    &&& result matches Ok(out)
                    &&& out.stream == s2
                    &&& out.stream.wf()
                    &&& out.withdrawable is None
                    &&& out.transfers@ =~= seq![
                        (FundsTransfer { from: ctx.escrow, to: stream.recipient, amount: settle }),
                    ]
                },
                Err(e) => result matches Err(e2) && e2 == e,
            }),
    {
        if stream.status == StreamStatus::Uninitialized {
            return Err(ProcessError::Payment(PaymentError::StreamNotInitialized));
        }
        if stream.status == StreamStatus::Terminated {
            return Err(ProcessError::Payment(PaymentError::StreamAlreadyTerminated));
        }
        if ctx.signer != stream.payer && ctx.signer != stream.recipient {
            return Err(ProcessError::Payment(PaymentError::Unauthorized));
        }
        let settle = stream.vested_amount(ctx.now);
        let mut new_stream = *stream;
        new_stream.withdrawn_amount = stream.withdrawn_amount + settle;
        if ctx.now >= stream.last_withdraw_time {
            new_stream.last_withdraw_time = ctx.now;
        }
        new_stream.terminate();
        let transfers = vec![Self::transfer_funds(ctx.escrow, stream.recipient, settle)];
        Ok(ProcessOutcome { stream: new_stream, transfers, withdrawable: None })
    }

    /// Applies Query to the current record: no mutation, no transfer, the
    /// withdrawable amount as the answer.
    pub fn query_stream(stream: &PaymentStream, ctx: RequestContext) -> (result: Result<
        ProcessOutcome,
        ProcessError,
    >)
        requires
            stream.wf(),
        ensures
            (match Self::spec_query(*stream, ctx.now) {
                Ok(w) => {
                    &&& result matches Ok(out)
                    &&& out.stream == *stream
                    &&& out.withdrawable == Some(w)
                    &&& out.transfers@ =~= Seq::<FundsTransfer>::empty()
                },
                Err(e) => result matches Err(e2) && e2 == e,
            }),
    {
        if stream.status == StreamStatus::Uninitialized {
            return Err(ProcessError::Payment(PaymentError::StreamNotInitialized));
        }
        let withdrawable = stream.calculate_max_withdrawable(ctx.now);
        Ok(ProcessOutcome {
            stream: *stream,
            transfers: Vec::new(),
            withdrawable: Some(withdrawable),
        })
    }

    /// One whole request: decode the instruction bytes, then apply the
    /// operation they name under the observed context. Undecodable bytes
    /// fail with `InvalidInstruction`; otherwise the result is exactly the
    /// named transition, with its transfers and, for a query, its answer.
    /// On any error the current record is the record: nothing is written.
    pub fn process(
        stream: &PaymentStream,
        instruction_data: &[u8],
        ctx: RequestContext,
    ) -> (result: Result<ProcessOutcome, ProcessError>)
        requires
            stream.wf(),
        ensures
            (match StreamPayInstruction::spec_decode(instruction_data@) {
                None => result matches Err(e)
                    && e == ProcessError::Stream(StreamError::InvalidInstruction),
                Some(op) => match Self::spec_process_op(*stream, ctx, op) {
                    Ok(s2) => {
                        &&& result matches Ok(out)
                        &&& out.stream == s2
                        &&& out.stream.wf()
                        &&& out.transfers@ =~= Self::spec_transfers(*stream, ctx, op)
                        &&& out.withdrawable == (if op == StreamPayInstruction::QueryStream {
                            Some(stream.spec_max_withdrawable(ctx.now))
                        } else {
                            None::<u64>
                        })
                    },
                    Err(e) => result matches Err(e2) && e2 == e,
                },
            }),
    {
        let op = match StreamPayInstruction::unpack(instruction_data) {
            Ok(op) => op,
            Err(e) => {
                return Err(ProcessError::Stream(e));
            },
        };
        match op {
            StreamPayInstruction::InitializeStream { start_time, interval, amount_per_interval } =>
                Self::initialize_stream(stream, ctx, start_time, interval, amount_per_interval),
            StreamPayInstruction::UpdateStream { interval, amount_per_interval } =>
                Self::update_stream(stream, ctx, interval, amount_per_interval),
            StreamPayInstruction::TerminateStream => Self::terminate_stream(stream, ctx),
            StreamPayInstruction::Withdraw { amount } => Self::withdraw(stream, ctx, amount),
            StreamPayInstruction::PauseStream => Self::pause_stream(stream, ctx),
            StreamPayInstruction::ResumeStream => Self::resume_stream(stream, ctx),
            StreamPayInstruction::QueryStream => Self::query_stream(stream, ctx),
        }
    }
}

/// A withdrawal request as the conservation law sees it: who signed, what
/// the clock read, how much was asked for.
#[derive(Clone, Copy, Debug, PartialEq, Eq, Structural)]
pub struct WithdrawRequest {
    pub signer: Address,
    pub now: u64,
    pub amount: u64,
}

/// The record left after attempting a sequence of withdrawals in order: a
/// successful one applies its transition, a failed one leaves the record
/// as it was.
pub open spec fn spec_apply_withdraws(s: PaymentStream, reqs: Seq<WithdrawRequest>) -> PaymentStream
    decreases reqs.len(),
{
    if reqs.len() == 0 {
        s
    } else {
        let prev = spec_apply_withdraws(s, reqs.drop_last());
        let req = reqs.last();
        match Processor::spec_withdraw(prev, req.signer, req.now, req.amount) {
            Ok(s2) => s2,
            Err(_) => prev,
        }
    }
}

/// Law (one step of conservation): a Withdraw, successful or not, never
/// shrinks the paid-out counter, never touches the cap, keeps the record
/// well formed, and never moves the withdrawal mark backwards.
pub proof fn lemma_withdraw_step(s: PaymentStream, signer: Address, now: u64, amount: u64)
    requires
        s.wf(),
    ensures
        (match Processor::spec_withdraw(s, signer, now, amount) {
            Ok(s2) => {
                &&& s2.wf()
                &&& s2.withdrawn_amount >= s.withdrawn_amount
                &&& s2.total_amount == s.total_amount
                &&& s2.last_withdraw_time >= s.last_withdraw_time
            },
            Err(_) => true,
        }),
{
}

/// Law (conservation): after any sequence of Withdraws — the successful
/// ones applied, the failed ones changing nothing — the record is still
/// well formed, so a capped stream has paid out at most its cap; the
/// paid-out counter and the withdrawal mark never decreased, and the cap
/// never changed.
pub proof fn lemma_withdraw_conservation(s: PaymentStream, reqs: Seq<WithdrawRequest>)
    requires
        s.wf(),
    ensures
        ({
            let f = spec_apply_withdraws(s, reqs);
            &&& f.wf()
            &&& f.withdrawn_amount >= s.withdrawn_amount
            &&& f.total_amount == s.total_amount
            &&& f.last_withdraw_time >= s.last_withdraw_time
            &&& (f.total_amount != 0 ==> f.withdrawn_amount <= f.total_amount)
        }),
    decreases reqs.len(),
{
    if reqs.len() > 0 {
        lemma_withdraw_conservation(s, reqs.drop_last());
        let prev = spec_apply_withdraws(s, reqs.drop_last());
        let req = reqs.last();
        lemma_withdraw_step(prev, req.signer, req.now, req.amount);
    }
}

/// Law (invariant preservation): every operation, applied to a well
/// formed record, leaves a well formed record — in particular a capped
/// stream never pays out beyond its cap, and a running stream never loses
/// its positive interval or its amount floor.
pub proof fn lemma_transitions_preserve_wf(
    s: PaymentStream,
    ctx: RequestContext,
    op: StreamPayInstruction,
)
    requires
        s.wf(),
    ensures
        (match Processor::spec_process_op(s, ctx, op) {
            Ok(s2) => s2.wf(),
            Err(_) => true,
        }),
{
}

/// Law (the absorbing state): no operation changes a terminated record —
/// every mutating operation fails with `StreamAlreadyTerminated`
/// (Initialize with `StreamAlreadyInitialized`), and the one operation
/// that can still succeed, Query, reads without writing.
pub proof fn lemma_terminated_is_absorbing(
    s: PaymentStream,
    ctx: RequestContext,
    op: StreamPayInstruction,
)
    requires
        s.status == StreamStatus::Terminated,
    ensures
        (match Processor::spec_process_op(s, ctx, op) {
            Ok(s2) => s2 == s && op == StreamPayInstruction::QueryStream,
            Err(_) => true,
        }),
        !(op matches StreamPayInstruction::InitializeStream { .. }) && op
            != StreamPayInstruction::QueryStream ==> Processor::spec_process_op(s, ctx, op)
            == Err::<PaymentStream, ProcessError>(
            ProcessError::Payment(PaymentError::StreamAlreadyTerminated),
        ),
{
}

/// Law (idempotent failure): once Terminate has succeeded, a second
/// Terminate — by anyone, at any time — fails with
/// `StreamAlreadyTerminated`, and a failed transition writes nothing, so
/// the record stays exactly as the first call left it.
pub proof fn lemma_terminate_idempotent_failure(
    s: PaymentStream,
    signer1: Address,
    now1: u64,
    signer2: Address,
    now2: u64,
)
    requires
        s.wf(),
        Processor::spec_terminate(s, signer1, now1) matches Ok(_),
    ensures
        (match Processor::spec_terminate(s, signer1, now1) {
            Ok((s2, _)) => Processor::spec_terminate(s2, signer2, now2) == Err::<
                (PaymentStream, u64),
                ProcessError,
            >(ProcessError::Payment(PaymentError::StreamAlreadyTerminated)),
            Err(_) => true,
        }),
{
}

/// Law (pause and resume): pausing an active stream makes every Withdraw
/// fail with the paused-state error, whoever asks and whatever the amount;
/// and the payer's Resume restores exactly the record that was paused —
/// active again, paid-out counter and withdrawal mark untouched.
pub proof fn lemma_pause_blocks_withdraw_and_resume_restores(
    s: PaymentStream,
    pauser: Address,
    signer: Address,
    now: u64,
    amount: u64,
)
    requires
        s.wf(),
        Processor::spec_pause(s, pauser) matches Ok(_),
    ensures
        (match Processor::spec_pause(s, pauser) {
            Ok(s1) => {
                &&& Processor::spec_withdraw(s1, signer, now, amount) == Err::<
                    PaymentStream,
                    ProcessError,
                >(ProcessError::Payment(PaymentError::StreamAlreadyPaused))
                &&& Processor::spec_resume(s1, s.payer) == Ok::<PaymentStream, ProcessError>(s)
            },
            Err(_) => true,
        }),
{
}

} // verus!
