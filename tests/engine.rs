use nrf52_radio_esb::esb::{
    EngineState, Error, Esb, RxConfig, RxPacket, Step, TxConfig, header_byte, header_no_ack,
    header_pid,
};
use nrf52_radio_esb::logical_address::LogicalAddress;
use nrf52_radio_esb::protocol::Protocol;
use nrf52_radio_esb::radio::{Error as RadioError, Radio};
use nrf52_radio_esb::registers::{Access, Event, Task};

const DISABLED: u8 = 0;
const RX_IDLE: u8 = 2;
const TX_IDLE: u8 = 10;

fn engine() -> Esb {
    let mut esb = Esb::new(Radio::new(), Protocol::fixed_payload(32), vec![0u8; 34], vec![0u8; 34]);
    esb.set_crc_16bits().unwrap();
    esb
}

fn would_block(r: Result<(), nb::Error<Error>>) -> bool {
    matches!(r, Err(nb::Error::WouldBlock))
}

/// The hardware reports READY in a state.
fn ready(esb: &mut Esb, state: u8) {
    esb.radio.regs.state = state;
    esb.radio.regs.events_ready = true;
}

/// The hardware receives a frame into the buffer it holds.
fn deliver(esb: &mut Esb, frame: &[u8], crc_ok: bool, pipe: u32) {
    let buf = esb.radio.get_buffer_mut();
    buf[..frame.len()].copy_from_slice(frame);
    esb.radio.regs.crc_ok = crc_ok;
    esb.radio.regs.rxmatch = pipe;
    esb.radio.regs.rxcrc = 0x1234;
    esb.radio.regs.events_end = true;
    esb.radio.regs.state = DISABLED;
}

fn pairing_request_frame() -> Vec<u8> {
    let mut f = vec![33u8, 0, 0x09, 0x08, 0x62, 0x6d, 0xfa, 0x5d, 0x00, 0x01, 0x5a, 0x73, 0x09];
    f.resize(34, 0);
    f
}

/// Runs a receive from Enable up to the frame's END.
fn receive_until_end(esb: &mut Esb) {
    assert!(matches!(esb.state, EngineState::Rx(_, Step::Enable)));
    assert!(would_block(esb.wait_rx()));
    assert!(matches!(esb.state, EngineState::Rx(_, Step::WaitingIdle)));
    ready(esb, RX_IDLE);
    assert!(would_block(esb.wait_rx()));
    assert!(matches!(esb.state, EngineState::Rx(_, Step::Start)));
    assert!(would_block(esb.wait_rx()));
    assert!(matches!(esb.state, EngineState::Rx(_, Step::WaitingEnd)));
}

#[test]
fn header_round_trip_all_values() {
    for pid in 0u8..=3 {
        for no_ack in [false, true] {
            let b = header_byte(pid, no_ack);
            assert_eq!(b, (pid << 1) | no_ack as u8);
            assert_eq!(header_pid(b), pid);
            assert_eq!(header_no_ack(b), no_ack);
        }
    }
}

#[test]
fn receive_with_ack_on_pipe_1() {
    let mut esb = engine();
    assert_eq!(esb.start_rx(RxConfig::default()), Ok(()));
    receive_until_end(&mut esb);
    deliver(&mut esb, &pairing_request_frame(), true, 1);
    assert!(would_block(esb.wait_rx()));
    let expected = RxPacket { length: 33, pid: 0, no_ack: false, address: LogicalAddress::Of1, crc: 0x1234 };
    assert_eq!(esb.state, EngineState::TxAck(expected, Step::Enable));
    // The receive buffer is back with the engine, holding the frame.
    assert_eq!(esb.get_rx_buffer(), &pairing_request_frame()[..]);
    assert!(would_block(esb.wait_rx()));
    assert_eq!(&esb.radio.get_buffer()[..2], &[0u8, 0u8]);
    assert_eq!(esb.radio.regs.txaddress, 1);
    assert!(esb.radio.journal.contains(&Access::Trigger(Task::TxEn)));
    ready(&mut esb, TX_IDLE);
    assert!(would_block(esb.wait_rx()));
    assert!(would_block(esb.wait_rx()));
    assert!(matches!(esb.state, EngineState::TxAck(_, Step::WaitingEnd)));
    esb.radio.regs.events_end = true;
    esb.radio.regs.events_disabled = true;
    assert_eq!(esb.wait_rx(), Ok(()));
    assert_eq!(esb.state, EngineState::Standby);
    assert_eq!(esb.get_last_received_packet(), Some(expected));
    assert!(!esb.radio.regs.events_disabled);
}

#[test]
fn ack_echoes_pid_and_pipe() {
    let mut esb = engine();
    esb.start_rx(RxConfig::default()).unwrap();
    receive_until_end(&mut esb);
    let mut frame = pairing_request_frame();
    frame[1] = header_byte(3, false);
    deliver(&mut esb, &frame, true, 5);
    assert!(would_block(esb.wait_rx()));
    assert!(would_block(esb.wait_rx()));
    assert_eq!(&esb.radio.get_buffer()[..2], &[0u8, 3u8 << 1]);
    assert_eq!(esb.radio.regs.txaddress, 5);
}

#[test]
fn skip_ack_goes_to_standby_without_ack() {
    let mut esb = engine();
    esb.start_rx(RxConfig::default().with_skip_ack(true)).unwrap();
    receive_until_end(&mut esb);
    esb.radio.journal.clear();
    deliver(&mut esb, &pairing_request_frame(), true, 1);
    assert!(would_block(esb.wait_rx()));
    assert_eq!(esb.state, EngineState::Disabling);
    esb.radio.regs.events_disabled = true;
    assert_eq!(esb.wait_rx(), Ok(()));
    assert_eq!(esb.state, EngineState::Standby);
    assert!(!esb.radio.journal.contains(&Access::Trigger(Task::TxEn)));
    assert_eq!(esb.get_last_received_packet().unwrap().address, LogicalAddress::Of1);
}

#[test]
fn no_ack_frame_is_not_acknowledged() {
    let mut esb = engine();
    esb.start_rx(RxConfig::default()).unwrap();
    receive_until_end(&mut esb);
    let mut frame = pairing_request_frame();
    frame[1] = header_byte(2, true);
    deliver(&mut esb, &frame, true, 0);
    esb.radio.regs.events_disabled = true;
    assert_eq!(esb.wait_rx(), Ok(()));
    let p = esb.get_last_received_packet().unwrap();
    assert_eq!((p.pid, p.no_ack), (2, true));
}

#[test]
fn bad_crc_frames_are_skipped_then_good_one_surfaces() {
    let mut esb = engine();
    esb.start_rx(RxConfig::default().with_skip_ack(true).with_retries(3)).unwrap();
    let mut oks = 0;
    for round in 0..3u8 {
        receive_until_end(&mut esb);
        let good = round == 2;
        let mut frame = pairing_request_frame();
        frame[2] = round;
        deliver(&mut esb, &frame, good, 1);
        esb.radio.regs.events_disabled = good;
        let r = esb.wait_rx();
        if r == Ok(()) {
            oks += 1;
        }
        if !good {
            assert!(would_block(r));
            assert!(matches!(esb.state, EngineState::Rx(_, Step::Enable)));
            assert_eq!(esb.get_last_received_packet(), None);
        }
    }
    assert_eq!(oks, 1);
    assert_eq!(esb.state, EngineState::Standby);
    assert_eq!(esb.get_rx_buffer()[2], 2);
    assert_eq!(esb.get_last_received_packet().unwrap().length, 33);
}

#[test]
fn retries_exhausted_is_a_radio_error() {
    let mut esb = engine();
    esb.start_rx(RxConfig::default().with_retries(1)).unwrap();
    receive_until_end(&mut esb);
    deliver(&mut esb, &pairing_request_frame(), false, 1);
    assert!(would_block(esb.wait_rx()));
    receive_until_end(&mut esb);
    deliver(&mut esb, &pairing_request_frame(), false, 1);
    let err = Error::RadioError(RadioError::CrcMismatch);
    assert_eq!(esb.wait_rx(), Err(nb::Error::Other(err)));
    assert_eq!(esb.state, EngineState::Error(err));
    // The error is sticky.
    assert_eq!(esb.wait_rx(), Err(nb::Error::Other(err)));
    assert_eq!(esb.start_tx(TxConfig::default()), Err(err));
}

/// Sends the frame in the transmit buffer without waiting for an ack, and
/// returns the header byte 1 that went to the hardware.
fn send_once(esb: &mut Esb) -> u8 {
    esb.start_tx(TxConfig::default().with_skip_ack(true)).unwrap();
    let sent = esb.radio.get_buffer()[1];
    assert!(would_block(esb.wait_tx()));
    ready(esb, TX_IDLE);
    assert!(would_block(esb.wait_tx()));
    assert!(would_block(esb.wait_tx()));
    esb.radio.regs.events_end = true;
    esb.radio.regs.events_disabled = true;
    esb.radio.regs.state = DISABLED;
    assert_eq!(esb.wait_tx(), Ok(()));
    sent
}

#[test]
fn pid_advances_and_wraps() {
    let mut esb = engine();
    let sent: Vec<u8> = (0..5).map(|_| send_once(&mut esb)).collect();
    assert_eq!(sent, vec![0 << 1, 1 << 1, 2 << 1, 3 << 1, 0 << 1]);
}

#[test]
fn send_with_ack_round_trip() {
    let mut esb = engine();
    esb.get_tx_buffer()[0] = 5;
    esb.start_tx(TxConfig::new(LogicalAddress::Of2)).unwrap();
    assert_eq!(esb.radio.regs.txaddress, 2);
    // The transmit buffer is with the hardware, not handed to the caller.
    assert!(esb.get_tx_buffer().is_empty());
    assert!(would_block(esb.wait_tx()));
    ready(&mut esb, TX_IDLE);
    assert!(would_block(esb.wait_tx()));
    assert!(would_block(esb.wait_tx()));
    esb.radio.regs.events_end = true;
    esb.radio.regs.state = DISABLED;
    assert!(would_block(esb.wait_tx()));
    assert!(matches!(esb.state, EngineState::RxAck(_, Step::Enable)));
    assert_eq!(esb.get_tx_buffer()[0], 5);
    assert!(esb.get_rx_buffer().is_empty());
    assert!(would_block(esb.wait_tx()));
    ready(&mut esb, RX_IDLE);
    assert!(would_block(esb.wait_tx()));
    assert!(would_block(esb.wait_tx()));
    deliver(&mut esb, &[0, 0], true, 2);
    esb.radio.regs.events_disabled = true;
    assert_eq!(esb.wait_tx(), Ok(()));
    assert_eq!(esb.state, EngineState::Standby);
    assert_eq!(esb.get_rx_buffer().len(), 34);
}

#[test]
fn wait_tx_in_standby_is_not_started() {
    let mut esb = engine();
    assert_eq!(esb.wait_tx(), Err(nb::Error::Other(Error::ReceiveNotStarted)));
    assert_eq!(esb.wait_rx(), Err(nb::Error::Other(Error::ReceiveNotStarted)));
    assert_eq!(esb.state, EngineState::Standby);
}

#[test]
fn start_outside_standby_is_refused() {
    let mut esb = engine();
    esb.start_rx(RxConfig::default()).unwrap();
    assert_eq!(esb.start_rx(RxConfig::default()), Err(Error::StandbyRequired));
    assert_eq!(esb.start_tx(TxConfig::default()), Err(Error::StandbyRequired));
}

#[test]
fn enable_in_wrong_state_is_fatal() {
    let mut esb = engine();
    esb.radio.regs.state = 3;
    esb.start_rx(RxConfig::default()).unwrap();
    // The radio is receiving already: the first step waits for END.
    assert!(matches!(esb.state, EngineState::Rx(_, Step::WaitingEnd)));
    let mut esb = engine();
    esb.start_rx(RxConfig::default()).unwrap();
    esb.radio.regs.state = TX_IDLE;
    let err = Error::RadioError(RadioError::WrongState);
    assert_eq!(esb.wait_rx(), Err(nb::Error::Other(err)));
    assert_eq!(esb.state, EngineState::Error(err));
}

#[test]
fn enable_clears_events_before_the_task() {
    let mut esb = engine();
    esb.start_rx(RxConfig::default()).unwrap();
    esb.radio.journal.clear();
    esb.radio.regs.events_end = true;
    assert!(would_block(esb.wait_rx()));
    assert_eq!(
        esb.radio.take_journal(),
        vec![
            Access::PacketPtr,
            Access::Clear(Event::Ready),
            Access::Clear(Event::Disabled),
            Access::Clear(Event::End),
            Access::Clear(Event::Address),
            Access::Clear(Event::Payload),
            Access::Trigger(Task::RxEn),
        ]
    );
    assert!(!esb.radio.regs.events_end);
    assert!(esb.radio.journal.is_empty());
}

#[test]
fn reset_leaves_the_error_state() {
    let mut esb = engine();
    esb.start_rx(RxConfig::default()).unwrap();
    esb.radio.regs.state = TX_IDLE;
    assert!(esb.wait_rx().is_err());
    assert!(matches!(esb.state, EngineState::Error(_)));
    esb.reset();
    assert_eq!(esb.state, EngineState::Disabling);
    assert!(would_block(esb.wait_rx()));
    esb.radio.regs.events_disabled = true;
    assert_eq!(esb.wait_rx(), Ok(()));
    assert_eq!(esb.state, EngineState::Standby);
    assert_eq!(esb.get_rx_buffer().len(), 34);
    assert_eq!(esb.get_tx_buffer().len(), 34);
}

#[test]
fn start_tx_forgets_the_last_packet() {
    let mut esb = engine();
    esb.start_rx(RxConfig::default().with_skip_ack(true)).unwrap();
    receive_until_end(&mut esb);
    deliver(&mut esb, &pairing_request_frame(), true, 1);
    esb.radio.regs.events_disabled = true;
    assert_eq!(esb.wait_rx(), Ok(()));
    assert!(esb.get_last_received_packet().is_some());
    esb.start_tx(TxConfig::default()).unwrap();
    assert_eq!(esb.get_last_received_packet(), None);
}

#[test]
fn skip_ack_receive_points_the_radio_at_no_other_buffer() {
    let mut esb = engine();
    esb.start_rx(RxConfig::default().with_skip_ack(true)).unwrap();
    receive_until_end(&mut esb);
    esb.radio.journal.clear();
    deliver(&mut esb, &pairing_request_frame(), true, 1);
    esb.radio.regs.events_disabled = true;
    assert_eq!(esb.wait_rx(), Ok(()));
    assert!(!esb.radio.journal.contains(&Access::PacketPtr));
}
