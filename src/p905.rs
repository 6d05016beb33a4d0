//! The P905 role: the responder. It answers pairing requests, then listens
//! for requests.

use vstd::prelude::*;

use crate::esb::{hw_state, rx_step_from, stamped, tx_step_from, EngineState, Error as EsbError, Esb, Role, RxConfig, TxConfig};
use crate::frames::{
    command_code, copy_frame, filled, pairing_response, pairing_response_frame, spec_command_code,
    PAIRING_REQUEST_CODE,
};
use crate::logical_address::LogicalAddress;
use crate::m01::start_outcome;

verus! {

#[derive(Debug, Clone, Copy, PartialEq, Eq, Structural)]
pub enum Error {
    EsbError(EsbError),
}

#[derive(Debug, Clone, Copy, PartialEq, Eq, Structural)]
pub enum State {
    Unpaired,
    WaitPairingRequest,
    SendPairingResponse,
    WaitPairingResponseSent,
    Paired,
    WaitRequest,
    Error(Error),
}

/// What a step has to report on the diagnostic link.
#[derive(Debug, Clone, Copy, PartialEq, Eq, Structural)]
pub enum Notice {
    /// Listening for a pairing request.
    ListeningForPairingRequest,
    /// A frame arrived while waiting for a pairing request.
    ReceivedPairingRequest,
    /// A pairing response is about to be sent.
    SendingPairingResponse,
    /// The pairing response was sent.
    PairingResponseSent,
    /// Listening for requests, once paired.
    ListeningForRequests,
    /// A frame with an unknown command code was received.
    UnknownRequest,
}

/// The state after a poll that is not done: the same state while it
/// would block, else the engine's error.
pub open spec fn on_pending(r: crate::esb::AsyncResult<()>, same: State) -> State {
    match r {
        Err(nb::Error::Other(e)) => State::Error(Error::EsbError(e)),
        _ => same,
    }
}

/// The state after a start: `on_ok`, or the engine's error.
pub open spec fn on_start(s: EngineState, on_ok: State) -> State {
    match start_outcome(s) {
        Ok(()) => on_ok,
        Err(e) => State::Error(Error::EsbError(e)),
    }
}

pub struct Protocol {
    pub esb: Esb,
    pub state: State,
    pub last_state: Option<State>,
}

impl Protocol {
    pub open spec fn wf(&self) -> bool {
        self.esb.wf()
    }

    pub fn new(esb: Esb) -> (r: Self)
        requires
            esb.wf(),
        ensures
            r.wf(),
            r.esb == esb,
            r.state == State::Unpaired,
            r.last_state == None::<State>,
    {
        Protocol { esb, state: State::Unpaired, last_state: None }
    }

    /// The next state and the notice of one step.
    ///
    /// A frame received while waiting for a pairing request that carries
    /// another command code sends the role back to `Unpaired`, which listens
    /// again: the receive is over, so waiting on would only poll an engine
    /// in Standby and fail with `ReceiveNotStarted`.
    pub open spec fn step(&self) -> (State, Option<Notice>) {
        let e = self.esb;
        match self.state {
            State::Unpaired => (
                on_start(e.state, State::WaitPairingRequest),
                Some(Notice::ListeningForPairingRequest),
            ),
            State::WaitPairingRequest => match e.poll_rx().1 {
                Ok(()) => (
                    if spec_command_code(e.contents(Role::Receive)) == Some(PAIRING_REQUEST_CODE) {
                        State::SendPairingResponse
                    } else {
                        State::Unpaired
                    },
                    Some(Notice::ReceivedPairingRequest),
                ),
                r => (on_pending(r, self.state), None),
            },
            State::SendPairingResponse => (
                on_start(e.state, State::WaitPairingResponseSent),
                Some(Notice::SendingPairingResponse),
            ),
            State::WaitPairingResponseSent => match e.poll_tx().1 {
                Ok(()) => (State::Paired, Some(Notice::PairingResponseSent)),
                r => (on_pending(r, self.state), None),
            },
            State::Paired => (
                on_start(e.state, State::WaitRequest),
                if self.last_state == Some(State::WaitRequest) {
                    None
                } else {
                    Some(Notice::ListeningForRequests)
                },
            ),
            State::WaitRequest => match e.poll_rx().1 {
                Ok(()) => if spec_command_code(e.contents(Role::Receive)) == Some(
                    PAIRING_REQUEST_CODE,
                ) {
                    (State::SendPairingResponse, None)
                } else {
                    (State::Paired, Some(Notice::UnknownRequest))
                },
                r => (on_pending(r, self.state), None),
            },
            State::Error(_) => (self.state, None),
        }
    }

    /// The engine's state after one step.
    pub open spec fn engine_after(&self) -> EngineState {
        let e = self.esb;
        let hw = e.radio.regs;
        match self.state {
            State::SendPairingResponse => if e.state == EngineState::Standby {
                EngineState::Tx(
                    TxConfig { address: LogicalAddress::Of0, skip_ack: false, retries: 1 },
                    tx_step_from(hw_state(hw)),
                )
            } else {
                e.state
            },
            State::Unpaired | State::Paired => if e.state == EngineState::Standby {
                EngineState::Rx(RxConfig { skip_ack: false, retries: 1 }, rx_step_from(hw_state(hw)))
            } else {
                e.state
            },
            State::WaitPairingResponseSent => e.poll_tx().0,
            State::WaitPairingRequest | State::WaitRequest => e.poll_rx().0,
            _ => e.state,
        }
    }

    /// Runs one step of the protocol, and says what it has to report. An
    /// unexpected frame while waiting for a pairing request starts the
    /// listening over (see `step`).
    pub fn run(&mut self) -> (r: Option<Notice>)
        requires
            old(self).wf(),
        ensures
            final(self).wf(),
            (final(self).state, r) == old(self).step(),
            final(self).esb.state == old(self).engine_after(),
            final(self).last_state == Some(old(self).state),
            old(self).state == State::SendPairingResponse && old(self).esb.state
                == EngineState::Standby ==> final(self).esb.contents(Role::Transmit) == stamped(
                filled(old(self).esb.contents(Role::Transmit), pairing_response_frame()),
                old(self).esb.pid,
            ),
    {
        let (next_state, notice) = match self.state {
            State::Unpaired => {
                let rx_config = RxConfig::default();
                let next = match self.esb.start_rx(rx_config) {
                    Ok(()) => State::WaitPairingRequest,
                    Err(err) => State::Error(Error::EsbError(err)),
                };
                (next, Some(Notice::ListeningForPairingRequest))
            },
            State::WaitPairingRequest => match self.esb.wait_rx() {
                Ok(()) => {
                    let code = command_code(self.esb.get_rx_buffer());
                    let next = match code {
                        Some(c) if c == PAIRING_REQUEST_CODE => State::SendPairingResponse,
                        _ => State::Unpaired,
                    };
                    (next, Some(Notice::ReceivedPairingRequest))
                },
                Err(error) => (self.handle_esb_error(error), None),
            },
            State::SendPairingResponse => {
                let frame = pairing_response();
                let buf = self.esb.get_tx_buffer();
                copy_frame(buf, frame.as_slice());
                let tx_config = TxConfig::default();
                let next = match self.esb.start_tx(tx_config) {
                    Ok(()) => State::WaitPairingResponseSent,
                    Err(err) => State::Error(Error::EsbError(err)),
                };
                (next, Some(Notice::SendingPairingResponse))
            },
            State::WaitPairingResponseSent => match self.esb.wait_tx() {
                Ok(()) => (State::Paired, Some(Notice::PairingResponseSent)),
                Err(error) => (self.handle_esb_error(error), None),
            },
            State::Paired => {
                let notice = match self.last_state {
                    Some(State::WaitRequest) => None,
                    _ => Some(Notice::ListeningForRequests),
                };
                let rx_config = RxConfig::default();
                let next = match self.esb.start_rx(rx_config) {
                    Ok(()) => State::WaitRequest,
                    Err(err) => State::Error(Error::EsbError(err)),
                };
                (next, notice)
            },
            State::WaitRequest => match self.esb.wait_rx() {
                Ok(()) => {
                    let code = command_code(self.esb.get_rx_buffer());
                    match code {
                        Some(c) if c == PAIRING_REQUEST_CODE => (State::SendPairingResponse, None),
                        _ => (State::Paired, Some(Notice::UnknownRequest)),
                    }
                },
                Err(error) => (self.handle_esb_error(error), None),
            },
            State::Error(_) => (self.state, None),
        };
        self.last_state = Some(self.state);
        self.state = next_state;
        notice
    }

    fn handle_esb_error(&self, error: nb::Error<EsbError>) -> (r: State)
        ensures
            r == on_pending(Err(error), self.state),
    {
        match error {
            nb::Error::WouldBlock => self.state,
            nb::Error::Other(error) => State::Error(Error::EsbError(error)),
        }
    }
}

} // verus!
