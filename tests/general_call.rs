use general_call::error::{classify, res_map};
use general_call::{AckSource, Command, CommandCode, Error, FaultKind, GeneralCall, Transport};

#[derive(Clone, Copy, Debug, PartialEq, Eq)]
enum MockFault {
    NackAddress,
    NackData,
    NackUnknown,
    ArbitrationLost(u8),
    Bus,
}

/// A bus that answers every write with the same reply and records what it was sent.
struct MockBus {
    id: u32,
    reply: Result<(), MockFault>,
    writes: Vec<(u8, Vec<u8>)>,
}

impl MockBus {
    fn replying(reply: Result<(), MockFault>) -> MockBus {
        MockBus { id: 7, reply, writes: Vec::new() }
    }
}

impl Transport for MockBus {
    type Fault = MockFault;

    fn write(&mut self, address: u8, bytes: &[u8]) -> Result<(), MockFault> {
        self.writes.push((address, bytes.to_vec()));
        self.reply
    }

    fn fault_kind(fault: &MockFault) -> FaultKind {
        match fault {
            MockFault::NackAddress => FaultKind::NoAcknowledge(AckSource::Address),
            MockFault::NackData => FaultKind::NoAcknowledge(AckSource::Data),
            MockFault::NackUnknown => FaultKind::NoAcknowledge(AckSource::Unknown),
            MockFault::ArbitrationLost(_) => FaultKind::ArbitrationLoss,
            MockFault::Bus => FaultKind::Bus,
        }
    }
}

fn code(b: u8) -> CommandCode {
    CommandCode::new(b).unwrap()
}

/// Runs the three operations, each on a fresh driver, and returns their
/// results and the writes that each one made.
fn all_ops(reply: Result<(), MockFault>) -> Vec<(Result<(), Error<MockFault>>, Vec<(u8, Vec<u8>)>)> {
    let mut out = Vec::new();
    for op in 0..3u8 {
        let mut gc = GeneralCall::new(MockBus::replying(reply));
        let r = match op {
            0 => gc.reset(),
            1 => gc.latch_addr(),
            _ => gc.call(code(0x42)),
        };
        out.push((r, gc.destroy().writes));
    }
    out
}

#[test]
fn reset_acked_succeeds() {
    let mut gc = GeneralCall::new(MockBus::replying(Ok(())));
    assert_eq!(gc.reset(), Ok(()));
}

#[test]
fn reset_address_nack_is_no_ack_call() {
    let mut gc = GeneralCall::new(MockBus::replying(Err(MockFault::NackAddress)));
    assert_eq!(gc.reset(), Err(Error::NoAckCall));
}

#[test]
fn call_0x42_data_nack_is_no_ack_cmd() {
    let mut gc = GeneralCall::new(MockBus::replying(Err(MockFault::NackData)));
    assert_eq!(gc.call(code(0x42)), Err(Error::NoAckCmd));
    assert_eq!(gc.destroy().writes, vec![(0x00, vec![0x42])]);
}

#[test]
fn zero_command_is_rejected() {
    assert!(CommandCode::new(0).is_none());
}

#[test]
fn nonzero_command_codes_are_accepted() {
    for b in 1..=255u8 {
        assert_eq!(CommandCode::new(b).map(|c| c.get()), Some(b));
    }
}

#[test]
fn every_operation_writes_one_byte_to_broadcast() {
    for (_, writes) in all_ops(Ok(())) {
        assert_eq!(writes.len(), 1);
        assert_eq!(writes[0].0, 0x00);
        assert_eq!(writes[0].1.len(), 1);
    }
}

#[test]
fn reset_sends_0x06() {
    let mut gc = GeneralCall::new(MockBus::replying(Ok(())));
    gc.reset().unwrap();
    assert_eq!(gc.destroy().writes, vec![(0x00, vec![0x06])]);
}

#[test]
fn latch_addr_sends_0x04() {
    let mut gc = GeneralCall::new(MockBus::replying(Ok(())));
    gc.latch_addr().unwrap();
    assert_eq!(gc.destroy().writes, vec![(0x00, vec![0x04])]);
}

#[test]
fn call_sends_its_byte() {
    let mut gc = GeneralCall::new(MockBus::replying(Ok(())));
    for b in 1..=255u8 {
        gc.call(code(b)).unwrap();
    }
    let writes = gc.destroy().writes;
    assert_eq!(writes.len(), 255);
    for (i, (addr, bytes)) in writes.iter().enumerate() {
        assert_eq!(*addr, 0x00);
        assert_eq!(*bytes, vec![i as u8 + 1]);
    }
}

#[test]
fn command_bytes() {
    assert_eq!(u8::from(Command::Reset), 0x06);
    assert_eq!(u8::from(Command::LatchAddr), 0x04);
}

#[test]
fn address_nack_is_no_ack_call_for_every_operation() {
    for (r, _) in all_ops(Err(MockFault::NackAddress)) {
        assert_eq!(r, Err(Error::NoAckCall));
    }
}

#[test]
fn data_nack_is_no_ack_cmd_for_every_operation() {
    for (r, _) in all_ops(Err(MockFault::NackData)) {
        assert_eq!(r, Err(Error::NoAckCmd));
    }
}

#[test]
fn success_for_every_operation() {
    for (r, _) in all_ops(Ok(())) {
        assert_eq!(r, Ok(()));
    }
}

#[test]
fn arbitration_loss_passes_through_for_every_operation() {
    for (r, _) in all_ops(Err(MockFault::ArbitrationLost(9))) {
        assert_eq!(r, Err(Error::I2C(MockFault::ArbitrationLost(9))));
    }
}

#[test]
fn unknown_nack_source_passes_through() {
    for (r, _) in all_ops(Err(MockFault::NackUnknown)) {
        assert_eq!(r, Err(Error::I2C(MockFault::NackUnknown)));
    }
}

#[test]
fn bus_fault_passes_through() {
    let mut gc = GeneralCall::new(MockBus::replying(Err(MockFault::Bus)));
    assert_eq!(gc.latch_addr(), Err(Error::I2C(MockFault::Bus)));
}

#[test]
fn destroy_returns_the_bus_untouched() {
    let bus = MockBus { id: 42, reply: Err(MockFault::Bus), writes: Vec::new() };
    let back = GeneralCall::new(bus).destroy();
    assert_eq!(back.id, 42);
    assert_eq!(back.reply, Err(MockFault::Bus));
    assert!(back.writes.is_empty());
}

#[test]
fn classify_each_kind() {
    assert_eq!(classify(1u8, FaultKind::NoAcknowledge(AckSource::Address)), Error::NoAckCall);
    assert_eq!(classify(1u8, FaultKind::NoAcknowledge(AckSource::Data)), Error::NoAckCmd);
    assert_eq!(classify(1u8, FaultKind::NoAcknowledge(AckSource::Unknown)), Error::I2C(1));
    assert_eq!(classify(2u8, FaultKind::Bus), Error::I2C(2));
    assert_eq!(classify(3u8, FaultKind::ArbitrationLoss), Error::I2C(3));
    assert_eq!(classify(4u8, FaultKind::Overrun), Error::I2C(4));
    assert_eq!(classify(5u8, FaultKind::Other), Error::I2C(5));
}

#[test]
fn res_map_keeps_success_and_classifies_faults() {
    assert_eq!(res_map::<u8>(Ok(())), Ok(()));
    assert_eq!(res_map(Err((1u8, FaultKind::NoAcknowledge(AckSource::Address)))), Err(Error::NoAckCall));
    assert_eq!(res_map(Err((2u8, FaultKind::NoAcknowledge(AckSource::Data)))), Err(Error::NoAckCmd));
    assert_eq!(res_map(Err((3u8, FaultKind::Overrun))), Err(Error::I2C(3)));
}
