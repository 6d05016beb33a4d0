//! Properties of the engine that relate several of its operations.

use vstd::prelude::*;

use crate::esb::{
    ack_header, ended, frame_ok, spec_header_pid, AsyncResult, EngineState, Error, Esb, Role, Step,
};
use crate::logical_address::LogicalAddress;
use crate::radio::Error as RadioError;

verus! {

/// The error of a poll that failed.
pub open spec fn failure(r: AsyncResult<()>) -> Option<Error> {
    match r {
        Err(nb::Error::Other(e)) => Some(e),
        _ => None,
    }
}

/// Every poll of a well-formed engine, in any state and on any report of
/// the hardware, has an outcome that fits its next state: `Ok` only on
/// reaching Standby, a failure only on entering (or staying in) the error
/// state, and `WouldBlock` otherwise. The only failures are
/// `ReceiveNotStarted` and an error of the radio.
pub proof fn lemma_poll_outcome_fits_state(e: Esb)
    requires
        e.wf(),
    ensures
        ({
            let (s, r) = e.poll_rx();
            &&& failure(r) is Some ==> (failure(r) == Some(Error::ReceiveNotStarted) || failure(
                r,
            )->Some_0 is RadioError)
            &&& r is Ok ==> s == EngineState::Standby
            &&& r == Err::<(), nb::Error<Error>>(nb::Error::WouldBlock) ==> !(s is Error)
            &&& failure(r) is Some && failure(r) != Some(Error::ReceiveNotStarted) ==> s
                == EngineState::Error(failure(r)->Some_0)
        }),
        ({
            let (s, r) = e.poll_tx();
            &&& failure(r) is Some ==> (failure(r) == Some(Error::ReceiveNotStarted) || failure(
                r,
            )->Some_0 is RadioError)
            &&& r is Ok ==> s == EngineState::Standby
            &&& r == Err::<(), nb::Error<Error>>(nb::Error::WouldBlock) ==> !(s is Error)
            &&& failure(r) is Some && failure(r) != Some(Error::ReceiveNotStarted) ==> s
                == EngineState::Error(failure(r)->Some_0)
        }),
{
}

/// The two buffers are never both with the hardware, and the engine never
/// keeps a slot for the one the hardware holds. In Standby the engine holds
/// both; during a transaction the hardware holds the one it uses.
pub proof fn lemma_buffers_exclusive(e: Esb)
    requires
        e.wf(),
    ensures
        e.rx_buffer is Some || e.tx_buffer is Some,
        e.radio.buffer is Some ==> (e.rx_buffer is None) != (e.tx_buffer is None),
        e.radio.buffer is None ==> e.rx_buffer is Some && e.tx_buffer is Some,
        e.state == EngineState::Standby ==> e.radio.buffer is None,
        (e.state is Rx || e.state is RxAck) ==> e.radio.buffer is Some && e.rx_buffer is None,
        (e.state is Tx || e.state is TxAck) ==> e.radio.buffer is Some && e.tx_buffer is None,
{
}

/// The acknowledgement of a frame echoes its PID and goes back on the pipe
/// it came on: when a receive ends in the acknowledgement stage, the packet
/// carries the frame's PID and pipe, and the acknowledgement's header is
/// `[0, PID << 1]`.
pub proof fn lemma_ack_echo(e: Esb)
    requires
        e.wf(),
        e.state is Rx,
        e.poll_rx().0 is TxAck,
    ensures
        ({
            let frame = e.contents(Role::Receive);
            let p = e.poll_rx().0->TxAck_0;
            &&& p.pid == spec_header_pid(frame[1])
            &&& p.address == LogicalAddress::spec_from(e.radio.regs.rxmatch & 7)
            &&& ack_header(p)[0] == 0
            &&& ack_header(p)[1] == spec_header_pid(frame[1]) << 1u8
            &&& ack_header(p)[1] == frame[1] & 0x06u8
        }),
{
    let b = e.contents(Role::Receive)[1];
    assert(((((b >> 1u8) & 3u8) << 1u8) | 0u8) == b & 0x06u8) by (bit_vector);
    assert((((b >> 1u8) & 3u8) << 1u8) | 0u8 == ((b >> 1u8) & 3u8) << 1u8) by (bit_vector);
}

/// A frame with an invalid CRC is never surfaced: the receive is armed
/// again with one retry fewer while retries are left, and fails once they
/// are spent.
pub proof fn lemma_crc_rearm(e: Esb)
    requires
        e.wf(),
        e.state matches EngineState::Rx(_, Step::WaitingEnd),
        ended(e.radio.regs),
        !frame_ok(e.contents(Role::Receive), e.radio.regs),
    ensures
        !(e.poll_rx().1 is Ok),
        e.packet_after_rx() == e.rx_packet,
        e.retries_left > 0 ==> {
            &&& e.poll_rx().0 matches EngineState::Rx(cfg, _)
            &&& e.poll_rx().0->Rx_0 == e.state->Rx_0
            &&& e.retries_after_rx() == e.retries_left - 1
        },
        e.retries_left == 0 ==> e.poll_rx().0 == EngineState::Error(
            Error::RadioError(RadioError::CrcMismatch),
        ),
{
}

/// With `skip_ack`, a frame received is never acknowledged, whatever its
/// NOACK bit: the receive goes to Standby (or waits for the radio to be
/// disabled) with the packet.
pub proof fn lemma_skip_ack(e: Esb)
    requires
        e.wf(),
        e.state matches EngineState::Rx(cfg, Step::WaitingEnd) && cfg.skip_ack,
        ended(e.radio.regs),
    ensures
        !(e.poll_rx().0 is TxAck),
        frame_ok(e.contents(Role::Receive), e.radio.regs) ==> {
            &&& (e.poll_rx().0 == EngineState::Standby || e.poll_rx().0
                == EngineState::Disabling)
            &&& e.packet_after_rx() is Some
        },
{
}

/// The PID after `p`: the counter runs modulo 4.
pub open spec fn next_pid(p: u8) -> u8 {
    ((p + 1) % 4) as u8
}

/// The engine's PID after `n` frames were started: `Esb::new` sets it to 0
/// and each successful `start_tx` moves it to `next_pid`; no other
/// operation changes it.
pub open spec fn pid_after(n: nat) -> u8
    decreases n,
{
    if n == 0 {
        0
    } else {
        next_pid(pid_after((n - 1) as nat))
    }
}

/// The frame started `n`-th (from 0) by an engine is stamped with the PID
/// `n % 4`: the PIDs of successive frames are 0, 1, 2, 3, 0, ...
pub proof fn lemma_pid_sequence(n: nat)
    ensures
        pid_after(n) == n % 4,
    decreases n,
{
    if n > 0 {
        lemma_pid_sequence((n - 1) as nat);
    }
}

} // verus!
