use nrf52_radio_esb::diagnostics::format_packet;
use nrf52_radio_esb::esb::{EngineState, Esb, RxPacket, Step};
use nrf52_radio_esb::frames::{
    command_code, copy_frame, data_request, pairing_request, pairing_response,
    DATA_REQUEST_CODE, PAIRING_REQUEST_CODE, PAIRING_RESPONSE_CODE,
};
use nrf52_radio_esb::logical_address::LogicalAddress;
use nrf52_radio_esb::m01;
use nrf52_radio_esb::p905;
use nrf52_radio_esb::protocol::Protocol;
use nrf52_radio_esb::radio::Radio;

const DISABLED: u8 = 0;
const RX_IDLE: u8 = 2;
const TX_IDLE: u8 = 10;

fn engine() -> Esb {
    let mut esb = Esb::new(Radio::new(), Protocol::fixed_payload(32), vec![0u8; 34], vec![0u8; 34]);
    esb.set_crc_16bits().unwrap();
    esb
}

/// Plays the hardware for one poll: the radio reports what the step that
/// the engine is in waits for.
fn hardware_step(esb: &mut Esb, frame: &[u8]) {
    let regs = &mut esb.radio.regs;
    match esb.state {
        EngineState::Rx(_, Step::WaitingIdle) | EngineState::RxAck(_, Step::WaitingIdle) => {
            regs.state = RX_IDLE;
            regs.events_ready = true;
        }
        EngineState::Tx(_, Step::WaitingIdle) | EngineState::TxAck(_, Step::WaitingIdle) => {
            regs.state = TX_IDLE;
            regs.events_ready = true;
        }
        EngineState::Rx(_, Step::WaitingEnd) | EngineState::RxAck(_, Step::WaitingEnd) => {
            regs.crc_ok = true;
            regs.rxmatch = 0;
            regs.events_end = true;
            regs.events_disabled = true;
            regs.state = DISABLED;
            let buf = esb.radio.get_buffer_mut();
            buf[..frame.len()].copy_from_slice(frame);
        }
        EngineState::Tx(_, Step::WaitingEnd) | EngineState::TxAck(_, Step::WaitingEnd) => {
            regs.events_end = true;
            regs.events_disabled = true;
            regs.state = DISABLED;
        }
        _ => {}
    }
}

fn pairing_response_frame() -> Vec<u8> {
    let mut f = vec![51u8, 2, 0x09, 0x0d, 0x62, 0x6d, 0xfa, 0x5d, 0x00, 0x00, 0x3e, 0xc2, 0x3b];
    f.resize(34, 0);
    f
}

#[test]
fn m01_pairing_handshake() {
    let mut m01 = m01::Protocol::new(engine());
    assert_eq!(m01.run(), Some(m01::Notice::LookingForPeer));
    assert_eq!(m01.state, m01::State::SendPairingRequest);
    assert_eq!(m01.run(), Some(m01::Notice::SendingPairingRequest));
    assert_eq!(m01.state, m01::State::WaitPairingRequest);
    let sent = m01.esb.radio.get_buffer().to_vec();
    let mut expected = vec![51u8, 0, 0x09, 0x08, 0x62, 0x6d, 0xfa, 0x5d, 0x00, 0x01, 0x5a, 0x73, 0x09];
    expected.resize(34, 0);
    assert_eq!(sent, expected);
    let mut polls = 0;
    while m01.state == m01::State::WaitPairingRequest {
        hardware_step(&mut m01.esb, &[0, 0]);
        m01.run();
        polls += 1;
        assert!(polls < 50);
    }
    assert_eq!(m01.state, m01::State::ReceivePairingResponse);
    assert_eq!(m01.run(), None);
    assert_eq!(m01.state, m01::State::WaitPairingResponse);
    let frame = pairing_response_frame();
    let mut notice = None;
    while m01.state == m01::State::WaitPairingResponse {
        hardware_step(&mut m01.esb, &frame);
        notice = m01.run();
        polls += 1;
        assert!(polls < 100);
    }
    assert_eq!(notice, Some(m01::Notice::ResponseReceived));
    assert_eq!(m01.state, m01::State::SendDataRequest);
    assert_eq!(m01.esb.get_rx_buffer(), &frame[..]);
    assert_eq!(m01.last_state, Some(m01::State::WaitPairingResponse));
    assert_eq!(m01.run(), Some(m01::Notice::SendingDataRequest));
    assert_eq!(m01.state, m01::State::WaitDataRequest);
    // The second frame sent carries the next PID.
    assert_eq!(m01.esb.radio.get_buffer()[1], 1 << 1);
    assert_eq!(&m01.esb.radio.get_buffer()[2..4], &[0x07, 0x06]);
}

#[test]
fn m01_error_is_sticky() {
    let mut m01 = m01::Protocol::new(engine());
    m01.state = m01::State::WaitPairingRequest;
    assert_eq!(m01.run(), None);
    let err = m01::State::Error(m01::Error::EsbError(nrf52_radio_esb::esb::Error::ReceiveNotStarted));
    assert_eq!(m01.state, err);
    assert_eq!(m01.run(), None);
    assert_eq!(m01.state, err);
}

#[test]
fn p905_answers_pairing_request() {
    let mut p905 = p905::Protocol::new(engine());
    assert_eq!(p905.run(), Some(p905::Notice::ListeningForPairingRequest));
    assert_eq!(p905.state, p905::State::WaitPairingRequest);
    let mut request = pairing_request();
    request[1] = 0;
    let mut polls = 0;
    let mut notice = None;
    while p905.state == p905::State::WaitPairingRequest {
        hardware_step(&mut p905.esb, &request);
        notice = p905.run();
        polls += 1;
        assert!(polls < 50);
    }
    assert_eq!(notice, Some(p905::Notice::ReceivedPairingRequest));
    assert_eq!(p905.state, p905::State::SendPairingResponse);
    assert_eq!(p905.run(), Some(p905::Notice::SendingPairingResponse));
    assert_eq!(&p905.esb.radio.get_buffer()[2..4], &[0x09, 0x0d]);
    while p905.state == p905::State::WaitPairingResponseSent {
        hardware_step(&mut p905.esb, &[0, 0]);
        notice = p905.run();
        polls += 1;
        assert!(polls < 100);
    }
    assert_eq!(notice, Some(p905::Notice::PairingResponseSent));
    assert_eq!(p905.state, p905::State::Paired);
    assert_eq!(p905.run(), Some(p905::Notice::ListeningForRequests));
    assert_eq!(p905.state, p905::State::WaitRequest);
}

#[test]
fn p905_unknown_request_listens_again() {
    let mut p905 = p905::Protocol::new(engine());
    p905.run();
    let mut other = data_request();
    other[1] = 0;
    let mut polls = 0;
    while p905.state == p905::State::WaitPairingRequest {
        hardware_step(&mut p905.esb, &other);
        p905.run();
        polls += 1;
        assert!(polls < 50);
    }
    assert_eq!(p905.state, p905::State::Unpaired);
}

#[test]
fn frames_and_codes() {
    assert_eq!(command_code(&pairing_request()), Some(PAIRING_REQUEST_CODE));
    assert_eq!(command_code(&pairing_response()), Some(PAIRING_RESPONSE_CODE));
    assert_eq!(command_code(&data_request()), Some(DATA_REQUEST_CODE));
    assert_eq!(command_code(&[1, 2, 3]), None);
    assert_eq!(pairing_request().len(), 34);
    assert_eq!(&pairing_request()[..4], &[51, 2, 0x09, 0x08]);
    let mut dst = [9u8; 4];
    copy_frame(&mut dst, &[1, 2]);
    assert_eq!(dst, [1, 2, 9, 9]);
    let mut short = [0u8; 2];
    copy_frame(&mut short, &[7, 8, 9]);
    assert_eq!(short, [7, 8]);
}

#[test]
fn diagnostic_line_format() {
    let packet = RxPacket { length: 33, pid: 2, no_ack: true, address: LogicalAddress::Of1, crc: 0 };
    let line = format_packet(&packet, &[33, 5, 0x09, 0xab, 0x00]);
    assert_eq!(String::from_utf8(line).unwrap(), "[1 21 2 1] 09 ab 00 \n");
    let packet = RxPacket { length: 0, pid: 0, no_ack: false, address: LogicalAddress::Of7, crc: 0 };
    assert_eq!(String::from_utf8(format_packet(&packet, &[0])).unwrap(), "[7 00 0 0] \n");
}
