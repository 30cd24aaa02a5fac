use hal_bridge::error::{
    classify_i2c, classify_pwm, classify_spi, classify_uart, Error, IoErrorKind,
    PeripheralErrorKind,
};
use hal_bridge::executor::{run_segments, RunState, SegmentOutcome};
use hal_bridge::segment::{map_operation, map_operations, snapshot_bytes, Operation, Segment};
use hal_bridge::spi::{in_place_complete, in_place_source, NbError, SimpleHalSpiDevice, Spi};

#[test]
fn classifier_i2c_invalid_data_is_bus() {
    let e = Error::Io(IoErrorKind::InvalidData);
    assert_eq!(classify_i2c(&e), PeripheralErrorKind::Bus);
}

#[test]
fn classifier_i2c_would_block_is_arbitration_loss() {
    let e = Error::Io(IoErrorKind::WouldBlock);
    assert_eq!(classify_i2c(&e), PeripheralErrorKind::ArbitrationLoss);
}

#[test]
fn classifier_i2c_anything_else_is_other() {
    assert_eq!(
        classify_i2c(&Error::Io(IoErrorKind::NotFound)),
        PeripheralErrorKind::Other
    );
    assert_eq!(
        classify_i2c(&Error::Io(IoErrorKind::TimedOut)),
        PeripheralErrorKind::Other
    );
    assert_eq!(
        classify_i2c(&Error::Io(IoErrorKind::Other)),
        PeripheralErrorKind::Other
    );
    assert_eq!(
        classify_i2c(&Error::UnsupportedOperation),
        PeripheralErrorKind::Other
    );
}

#[test]
fn classifier_spi_pwm_uart_always_other() {
    let failures = [
        Error::Io(IoErrorKind::InvalidData),
        Error::Io(IoErrorKind::WouldBlock),
        Error::Io(IoErrorKind::PermissionDenied),
        Error::UnsupportedOperation,
    ];
    for e in failures.iter() {
        assert_eq!(classify_spi(e), PeripheralErrorKind::Other);
        assert_eq!(classify_pwm(e), PeripheralErrorKind::Other);
        assert_eq!(classify_uart(e), PeripheralErrorKind::Other);
    }
}

#[test]
fn map_read_keeps_buffer_as_destination() {
    let seg = map_operation(&Operation::Read(vec![0u8, 0u8, 0u8]), 500000, 8);
    assert_eq!(seg.read, Some(vec![0u8, 0u8, 0u8]));
    assert_eq!(seg.write, None);
    assert_eq!(seg.clock_speed, 500000);
    assert_eq!(seg.bits_per_word, 8);
    assert_eq!(seg.delay_us, 0);
    assert!(!seg.ss_change);
}

#[test]
fn map_write_keeps_buffer_as_source() {
    let seg = map_operation(&Operation::Write(vec![0x10u8, 0x20u8]), 500000, 8);
    assert_eq!(seg.read, None);
    assert_eq!(seg.write, Some(vec![0x10u8, 0x20u8]));
    assert_eq!(seg.delay_us, 0);
}

#[test]
fn map_transfer_keeps_both_buffers() {
    let seg = map_operation(
        &Operation::Transfer(vec![0u8; 2], vec![0xa0u8, 0xa1u8]),
        1000000,
        16,
    );
    assert_eq!(seg.read, Some(vec![0u8, 0u8]));
    assert_eq!(seg.write, Some(vec![0xa0u8, 0xa1u8]));
    assert_eq!(seg.bits_per_word, 16);
}

#[test]
fn map_transfer_in_place_snapshots_prior_content() {
    let prior = vec![0x01u8, 0x02u8, 0x03u8];
    let seg = map_operation(&Operation::TransferInPlace(prior.clone()), 250000, 8);
    // The source is an owned snapshot of the pre-call bytes: exactly what
    // will be transmitted, even while the same storage is overwritten.
    assert_eq!(seg.write, Some(prior.clone()));
    assert_eq!(seg.read, Some(prior));
}

#[test]
fn map_delay_truncates_to_microseconds() {
    let seg = map_operation(&Operation::DelayNs(1500), 0, 0);
    assert_eq!(seg.delay_us, 1);
    assert_eq!(seg.read, None);
    assert_eq!(seg.write, None);

    let seg = map_operation(&Operation::DelayNs(999), 0, 0);
    assert_eq!(seg.delay_us, 0);

    let seg = map_operation(&Operation::DelayNs(0), 0, 0);
    assert_eq!(seg.delay_us, 0);

    let seg = map_operation(&Operation::DelayNs(u32::MAX), 0, 0);
    assert_eq!(seg.delay_us, u32::MAX / 1000);
}

#[test]
fn map_operations_preserves_order_one_to_one() {
    let ops = vec![
        Operation::Write(vec![0xaau8]),
        Operation::DelayNs(2500),
        Operation::Read(vec![0u8]),
        Operation::TransferInPlace(vec![0x7fu8]),
    ];
    let segs = map_operations(&ops, 125000, 8);
    assert_eq!(segs.len(), 4);
    assert_eq!(segs[0].write, Some(vec![0xaau8]));
    assert_eq!(segs[0].read, None);
    assert_eq!(segs[1].delay_us, 2);
    assert!(segs[1].read.is_none() && segs[1].write.is_none());
    assert_eq!(segs[2].read, Some(vec![0u8]));
    assert_eq!(segs[3].write, Some(vec![0x7fu8]));
    for seg in segs.iter() {
        assert_eq!(seg.clock_speed, 125000);
        assert_eq!(seg.bits_per_word, 8);
        assert!(!seg.ss_change);
    }
}

#[test]
fn map_operations_empty_sequence() {
    let segs = map_operations(&Vec::new(), 125000, 8);
    assert!(segs.is_empty());
}

#[test]
fn segment_constructors_and_pure_delay() {
    let seg = Segment::new(vec![0u8], vec![1u8]);
    assert!(!seg.is_pure_delay());
    let seg = Segment::with_read(vec![0u8]);
    assert!(!seg.is_pure_delay());
    assert_eq!(seg.write, None);
    let seg = Segment::with_write(vec![9u8]);
    assert!(!seg.is_pure_delay());
    assert_eq!(seg.read, None);
    let seg = Segment::with_settings(None, None, 8000000, 5, 8, false);
    assert!(seg.is_pure_delay());
    assert_eq!(seg.delay_us, 5);
}

// End-to-end scenario: three operations map to three segments in order, and
// running them fills the read buffer with exactly the two bytes the bus
// delivered, with the select line held between segments.
#[test]
fn end_to_end_write_delay_read() {
    let device = SimpleHalSpiDevice::new(Spi::new(1000000, 8));
    let ops = vec![
        Operation::Write(vec![0x01u8, 0x02u8]),
        Operation::DelayNs(1500),
        Operation::Read(vec![0u8, 0u8]),
    ];
    let segs = device.map_transaction(&ops);

    assert_eq!(segs.len(), 3);
    assert_eq!(segs[0].write, Some(vec![0x01u8, 0x02u8]));
    assert_eq!(segs[0].read, None);
    assert_eq!(segs[0].delay_us, 0);
    assert_eq!(segs[1].delay_us, 1);
    assert!(segs[1].read.is_none() && segs[1].write.is_none());
    assert_eq!(segs[2].read, Some(vec![0u8, 0u8]));
    assert_eq!(segs[2].delay_us, 0);
    // No select toggle between segments: no segment releases the line.
    assert!(segs.iter().all(|s| !s.ss_change));

    // Drive the executor, simulating the bus delivering [0xb0, 0xb1] for the
    // read segment.
    let mut run = RunState::new();
    assert_eq!(run.next_segment(&segs), Some(0));
    run.record_success(&segs, None);
    assert_eq!(run.next_segment(&segs), Some(1));
    run.record_success(&segs, None);
    assert_eq!(run.next_segment(&segs), Some(2));
    run.record_success(&segs, Some(vec![0xb0u8, 0xb1u8]));
    assert_eq!(run.next_segment(&segs), None);
    assert_eq!(run.outcome(&segs), Ok(()));
    assert_eq!(run.completed, 3);
    assert_eq!(run.received[2], Some(vec![0xb0u8, 0xb1u8]));
}

// Failure scenario: if the second of three segments fails, the third never
// runs and the call surfaces the second segment's classified error only.
#[test]
fn second_segment_failure_abandons_the_rest() {
    let ops = vec![
        Operation::Write(vec![0x01u8]),
        Operation::Write(vec![0x02u8]),
        Operation::Read(vec![0u8]),
    ];
    let segs = map_operations(&ops, 50000, 8);
    let mut run = RunState::new();
    assert_eq!(run.next_segment(&segs), Some(0));
    run.record_success(&segs, None);
    assert_eq!(run.next_segment(&segs), Some(1));
    let e = Error::Io(IoErrorKind::TimedOut);
    run.record_failure(&segs, e);
    // The third segment is never offered.
    assert_eq!(run.next_segment(&segs), None);
    assert_eq!(run.outcome(&segs), Err(e));
    assert_eq!(classify_spi(&e), PeripheralErrorKind::Other);
    // Earlier segments' effects stand: exactly one completed.
    assert_eq!(run.completed, 1);
    assert_eq!(run.received.len(), 1);
}

#[test]
fn run_segments_completes_all_on_success() {
    let ops = vec![
        Operation::Write(vec![0x01u8, 0x02u8]),
        Operation::DelayNs(1500),
        Operation::Read(vec![0u8, 0u8]),
    ];
    let segs = map_operations(&ops, 1000000, 8);
    let outcomes = vec![
        SegmentOutcome::Completed(None),
        SegmentOutcome::Completed(None),
        SegmentOutcome::Completed(Some(vec![0xb0u8, 0xb1u8])),
    ];
    let run = run_segments(&segs, &outcomes);
    assert_eq!(run.failure, None);
    assert_eq!(run.completed, 3);
    assert_eq!(
        run.received,
        vec![None, None, Some(vec![0xb0u8, 0xb1u8])]
    );
    assert_eq!(run.outcome(&segs), Ok(()));
}

#[test]
fn run_segments_stops_at_first_failure() {
    let ops = vec![
        Operation::Write(vec![0x01u8]),
        Operation::Write(vec![0x02u8]),
        Operation::Read(vec![0u8]),
    ];
    let segs = map_operations(&ops, 50000, 8);
    let e = Error::Io(IoErrorKind::InvalidData);
    let outcomes = vec![
        SegmentOutcome::Completed(None),
        SegmentOutcome::Failed(e),
        // The bus never sees the third segment; its outcome is irrelevant.
        SegmentOutcome::Completed(Some(vec![0x99u8])),
    ];
    let run = run_segments(&segs, &outcomes);
    assert_eq!(run.failure, Some(e));
    assert_eq!(run.completed, 1);
    assert_eq!(run.received, vec![None]);
    assert_eq!(run.outcome(&segs), Err(e));
}

#[test]
fn in_place_transfer_never_mixes_content() {
    let mut buf = vec![0x11u8, 0x22u8, 0x33u8];
    let source = in_place_source(&buf);
    // The transmitted bytes are the pre-call content.
    assert_eq!(source, vec![0x11u8, 0x22u8, 0x33u8]);
    // The bus delivers three fresh bytes; the buffer holds exactly them.
    in_place_complete(&mut buf, vec![0xe0u8, 0xe1u8, 0xe2u8]);
    assert_eq!(buf, vec![0xe0u8, 0xe1u8, 0xe2u8]);
}

#[test]
fn fresh_adapter_read_would_blocks() {
    let mut bus = Spi::new(100000, 8);
    assert_eq!(bus.read(), Err(NbError::WouldBlock));
    // Still idle: reading again still would-blocks.
    assert_eq!(bus.read(), Err(NbError::WouldBlock));
}

#[test]
fn adapter_round_trip_returns_received_byte() {
    let mut bus = Spi::new(100000, 8);
    // A write transmits 0xAA; the byte physically received during that
    // transfer is independent of it — here the simulated bus answers 0x5C.
    let transmitted = 0xaau8;
    let received = 0x5cu8;
    bus.complete_write(received);
    let got = bus.read();
    assert_eq!(got, Ok(received));
    assert_ne!(got, Ok(transmitted));
    // The byte was consumed: the adapter is idle again.
    assert_eq!(bus.read(), Err(NbError::WouldBlock));
}

#[test]
fn adapter_overwrites_unconsumed_byte() {
    let mut bus = Spi::new(100000, 8);
    bus.complete_write(0x01);
    bus.complete_write(0x02);
    // The first byte was silently discarded, not queued.
    assert_eq!(bus.read(), Ok(0x02));
    assert_eq!(bus.read(), Err(NbError::WouldBlock));
}

#[test]
fn adapter_flush_succeeds_immediately() {
    let bus = Spi::new(100000, 8);
    assert_eq!(bus.flush(), Ok(()));
}

#[test]
fn device_reads_configuration_snapshot() {
    let bus = Spi::new(42000, 16);
    assert_eq!(bus.clock_speed(), 42000);
    assert_eq!(bus.bits_per_word(), 16);
    let device = SimpleHalSpiDevice::new(bus);
    let segs = device.map_transaction(&vec![Operation::Write(vec![1u8])]);
    assert_eq!(segs[0].clock_speed, 42000);
    assert_eq!(segs[0].bits_per_word, 16);
    let bus = device.into_bus();
    assert_eq!(bus.clock_speed(), 42000);
}

#[test]
fn snapshot_bytes_copies_exactly() {
    let buf = vec![1u8, 2u8, 3u8, 4u8];
    assert_eq!(snapshot_bytes(&buf), buf);
    let empty: Vec<u8> = Vec::new();
    assert_eq!(snapshot_bytes(&empty), empty);
}
