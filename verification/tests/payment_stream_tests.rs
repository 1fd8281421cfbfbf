use streampay::constants::STREAM_RECORD_LEN;
use streampay::error::StreamError;
use streampay::payment_stream::{Address, PaymentStream, StreamStatus};
use streampay::processor::Processor;

const TEST_START_TIME: u64 = 100;
const TEST_INTERVAL: u64 = 10;
const TEST_AMOUNT_PER_INTERVAL: u64 = 5;

fn test_parties() -> (Address, Address) {
    (Address { id: 11 }, Address { id: 22 })
}

/// An active stream with the canonical test parameters, as Initialize
/// leaves it.
fn active_stream() -> PaymentStream {
    let (payer, recipient) = test_parties();
    PaymentStream {
        payer,
        recipient,
        start_time: TEST_START_TIME,
        interval: TEST_INTERVAL,
        amount_per_interval: TEST_AMOUNT_PER_INTERVAL,
        total_amount: 0,
        withdrawn_amount: 0,
        last_withdraw_time: TEST_START_TIME,
        status: StreamStatus::Active,
    }
}

#[test]
fn test_payment_stream_creation() {
    let payment_stream = active_stream();

    assert_eq!(payment_stream.start_time, TEST_START_TIME);
    assert_eq!(payment_stream.interval, TEST_INTERVAL);
    assert_eq!(payment_stream.amount_per_interval, TEST_AMOUNT_PER_INTERVAL);
    assert_eq!(payment_stream.withdrawn_amount, 0);
    assert_eq!(payment_stream.is_terminated(), false);
    assert!(payment_stream.is_well_formed());
}

#[test]
fn test_new_record_is_blank() {
    let (payer, recipient) = test_parties();
    let record = PaymentStream::new(payer, recipient);
    assert_eq!(record.status, StreamStatus::Uninitialized);
    assert!(!record.is_initialized());
    assert_eq!(record.withdrawn_amount, 0);
    assert_eq!(record.total_amount, 0);
    assert!(record.is_well_formed());
}

#[test]
fn test_payment_stream_termination() {
    let mut payment_stream = active_stream();
    payment_stream.terminate();

    assert_eq!(payment_stream.is_terminated(), true);
}

#[test]
fn test_record_transitions_guard_themselves() {
    // The bare record-level transitions leave any record they do not
    // apply to untouched.
    let (payer, recipient) = test_parties();
    let blank = PaymentStream::new(payer, recipient);

    let mut record = blank;
    record.terminate();
    assert_eq!(record, blank);
    record.pause();
    assert_eq!(record, blank);
    record.resume();
    assert_eq!(record, blank);
    record.update(20, 8);
    assert_eq!(record, blank);

    let mut dead = active_stream();
    dead.terminate();
    let frozen = dead;
    dead.update(20, 8);
    assert_eq!(dead, frozen);
    dead.pause();
    assert_eq!(dead, frozen);
}

#[test]
fn test_record_update_replaces_terms() {
    let mut stream = active_stream();
    stream.update(20, 8);
    assert_eq!(stream.interval, 20);
    assert_eq!(stream.amount_per_interval, 8);
    // A zero argument retains the current term.
    stream.update(0, 9);
    assert_eq!(stream.interval, 20);
    assert_eq!(stream.amount_per_interval, 9);
    stream.update(25, 0);
    assert_eq!(stream.interval, 25);
    assert_eq!(stream.amount_per_interval, 9);
}

#[test]
fn test_record_pause_resume_only_touch_status() {
    let stream = active_stream();
    let mut record = stream;
    record.pause();
    assert_eq!(record.status, StreamStatus::Paused);
    record.resume();
    assert_eq!(record, stream);
}

#[test]
fn test_payment_stream_fee_calculation() {
    let fee = Processor::calculate_operational_fee(TEST_AMOUNT_PER_INTERVAL);

    // floor(5 * 0.015) = 0 at the fixed 1.5% rate.
    assert_eq!(fee, 0);
}

#[test]
fn test_fee_is_floor_of_rate() {
    // floor(1000 * 0.015) = 15.
    assert_eq!(Processor::calculate_operational_fee(1000), 15);
    // floor(999 * 0.015) = floor(14.985) = 14.
    assert_eq!(Processor::calculate_operational_fee(999), 14);
    // Small amounts round down to nothing.
    assert_eq!(Processor::calculate_operational_fee(66), 0);
    assert_eq!(Processor::calculate_operational_fee(67), 1);
    // The fee never exceeds the amount, even at the counter's maximum.
    assert!(Processor::calculate_operational_fee(u64::MAX) <= u64::MAX);
    assert_eq!(Processor::calculate_operational_fee(u64::MAX), u64::MAX / 1000 * 15 + (u64::MAX % 1000) * 15 / 1000);
}

#[test]
fn test_payment_stream_pack_unpack() {
    let payment_stream = active_stream();
    let mut packed_data = vec![0u8; STREAM_RECORD_LEN];
    payment_stream.pack(&mut packed_data);

    let unpacked_stream = PaymentStream::unpack(&packed_data).unwrap();
    assert_eq!(unpacked_stream, payment_stream);
}

#[test]
fn test_pack_preserves_trailing_slot_bytes() {
    let payment_stream = active_stream();
    let mut slot = vec![0xCDu8; STREAM_RECORD_LEN + 5];
    payment_stream.pack(&mut slot);
    assert_eq!(&slot[STREAM_RECORD_LEN..], &[0xCD; 5]);
    assert_eq!(PaymentStream::unpack(&slot).unwrap(), payment_stream);
}

#[test]
fn test_record_round_trip_every_status() {
    let mut stream = active_stream();
    for status in [
        StreamStatus::Uninitialized,
        StreamStatus::Active,
        StreamStatus::Paused,
        StreamStatus::Terminated,
    ] {
        stream.status = status;
        let bytes = stream.to_bytes();
        assert_eq!(bytes.len(), STREAM_RECORD_LEN);
        assert_eq!(PaymentStream::unpack(&bytes).unwrap(), stream);
    }
}

#[test]
fn test_unpack_rejects_short_input() {
    let bytes = vec![0u8; STREAM_RECORD_LEN - 1];
    assert_eq!(PaymentStream::unpack(&bytes), Err(StreamError::InvalidStreamData));
}

#[test]
fn test_unpack_rejects_bad_status_bytes() {
    let mut bytes = active_stream().to_bytes();
    // Terminated and paused at once is not a canonical status triple.
    bytes[65] = 1;
    bytes[66] = 1;
    assert_eq!(PaymentStream::unpack(&bytes), Err(StreamError::InvalidStreamData));
    // Neither is a status byte outside 0 and 1.
    let mut bytes = active_stream().to_bytes();
    bytes[64] = 2;
    assert_eq!(PaymentStream::unpack(&bytes), Err(StreamError::InvalidStreamData));
}

#[test]
fn test_vesting_example() {
    // Two whole intervals elapsed: floor(25 / 10) = 2, so 2 * 5 = 10.
    let stream = active_stream();
    assert_eq!(stream.calculate_max_withdrawable(125), 10);
}

#[test]
fn test_vesting_fractional_interval_does_not_vest() {
    let stream = active_stream();
    assert_eq!(stream.calculate_max_withdrawable(105), 0);
    assert_eq!(stream.calculate_max_withdrawable(109), 0);
    assert_eq!(stream.calculate_max_withdrawable(110), 5);
}

#[test]
fn test_vesting_zero_when_not_active() {
    let mut stream = active_stream();
    stream.status = StreamStatus::Paused;
    assert_eq!(stream.calculate_max_withdrawable(125), 0);
    stream.status = StreamStatus::Terminated;
    assert_eq!(stream.calculate_max_withdrawable(125), 0);
    stream.status = StreamStatus::Uninitialized;
    assert_eq!(stream.calculate_max_withdrawable(125), 0);
}

#[test]
fn test_vesting_zero_on_clock_regression() {
    let stream = active_stream();
    assert_eq!(stream.calculate_max_withdrawable(99), 0);
}

#[test]
fn test_vesting_respects_cap() {
    let mut stream = active_stream();
    stream.total_amount = 12;
    // Vested 10 of a 12 cap with nothing withdrawn yet.
    assert_eq!(stream.calculate_max_withdrawable(125), 10);
    // After 8 are out, only 4 of the cap remain although 10 have vested.
    stream.withdrawn_amount = 8;
    assert_eq!(stream.calculate_max_withdrawable(125), 4);
    // A long wait never exceeds the cap's headroom.
    assert_eq!(stream.calculate_max_withdrawable(1_000_000), 4);
}

#[test]
fn test_vesting_monotone_in_time() {
    let stream = active_stream();
    let mut previous: u64 = 0;
    for now in 90..200 {
        let current = stream.calculate_max_withdrawable(now);
        assert!(current >= previous);
        previous = current;
    }
}

#[test]
fn test_vesting_saturates_instead_of_wrapping() {
    let mut stream = active_stream();
    stream.interval = 1;
    stream.amount_per_interval = u64::MAX;
    // Accrual overflows the counter and must cap at its maximum, not wrap.
    assert_eq!(stream.calculate_max_withdrawable(u64::MAX), u64::MAX);
    stream.withdrawn_amount = 40;
    assert_eq!(stream.calculate_max_withdrawable(u64::MAX), u64::MAX - 40);
}
