use streampay::error::StreamError;
use streampay::instruction::StreamPayInstruction;

#[test]
fn test_round_trip_initialize() {
    let op = StreamPayInstruction::InitializeStream {
        start_time: 100,
        interval: 10,
        amount_per_interval: 5,
    };
    assert_eq!(StreamPayInstruction::unpack(&op.pack()), Ok(op));
}

#[test]
fn test_round_trip_update() {
    let op = StreamPayInstruction::UpdateStream { interval: 30, amount_per_interval: 7 };
    assert_eq!(StreamPayInstruction::unpack(&op.pack()), Ok(op));
}

#[test]
fn test_round_trip_terminate() {
    let op = StreamPayInstruction::TerminateStream;
    assert_eq!(StreamPayInstruction::unpack(&op.pack()), Ok(op));
}

#[test]
fn test_round_trip_withdraw() {
    let op = StreamPayInstruction::Withdraw { amount: u64::MAX };
    assert_eq!(StreamPayInstruction::unpack(&op.pack()), Ok(op));
}

#[test]
fn test_round_trip_pause_resume_query() {
    for op in [
        StreamPayInstruction::PauseStream,
        StreamPayInstruction::ResumeStream,
        StreamPayInstruction::QueryStream,
    ] {
        assert_eq!(StreamPayInstruction::unpack(&op.pack()), Ok(op));
    }
}

#[test]
fn test_pack_layout_initialize() {
    let op = StreamPayInstruction::InitializeStream {
        start_time: 0x0102030405060708,
        interval: 1,
        amount_per_interval: 256,
    };
    let bytes = op.pack();
    assert_eq!(bytes.len(), 25);
    assert_eq!(bytes[0], 0);
    assert_eq!(&bytes[1..9], &[8, 7, 6, 5, 4, 3, 2, 1]);
    assert_eq!(&bytes[9..17], &[1, 0, 0, 0, 0, 0, 0, 0]);
    assert_eq!(&bytes[17..25], &[0, 1, 0, 0, 0, 0, 0, 0]);
}

#[test]
fn test_pack_layout_withdraw() {
    let bytes = StreamPayInstruction::Withdraw { amount: 5000 }.pack();
    assert_eq!(bytes, vec![3, 0x88, 0x13, 0, 0, 0, 0, 0, 0]);
}

#[test]
fn test_pack_layout_bare_tags() {
    assert_eq!(StreamPayInstruction::TerminateStream.pack(), vec![2]);
    assert_eq!(StreamPayInstruction::PauseStream.pack(), vec![4]);
    assert_eq!(StreamPayInstruction::ResumeStream.pack(), vec![5]);
    assert_eq!(StreamPayInstruction::QueryStream.pack(), vec![6]);
}

#[test]
fn test_unpack_empty_fails() {
    assert_eq!(StreamPayInstruction::unpack(&[]), Err(StreamError::InvalidInstruction));
}

#[test]
fn test_unpack_unknown_tag_fails() {
    assert_eq!(StreamPayInstruction::unpack(&[7]), Err(StreamError::InvalidInstruction));
    assert_eq!(StreamPayInstruction::unpack(&[255, 0, 0]), Err(StreamError::InvalidInstruction));
}

#[test]
fn test_unpack_truncated_fails() {
    // One byte short of each field-carrying layout.
    assert_eq!(StreamPayInstruction::unpack(&[0; 24]), Err(StreamError::InvalidInstruction));
    let mut update = vec![1u8];
    update.extend_from_slice(&[0; 15]);
    assert_eq!(StreamPayInstruction::unpack(&update), Err(StreamError::InvalidInstruction));
    let mut withdraw = vec![3u8];
    withdraw.extend_from_slice(&[0; 7]);
    assert_eq!(StreamPayInstruction::unpack(&withdraw), Err(StreamError::InvalidInstruction));
}

#[test]
fn test_unpack_ignores_trailing_bytes() {
    let mut bytes = StreamPayInstruction::Withdraw { amount: 9 }.pack();
    bytes.extend_from_slice(&[0xAA, 0xBB]);
    assert_eq!(
        StreamPayInstruction::unpack(&bytes),
        Ok(StreamPayInstruction::Withdraw { amount: 9 })
    );
}
