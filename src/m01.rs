//! The M01 role: the initiator. It pairs with a P905, then keeps asking it
//! for data.

use vstd::prelude::*;

use crate::esb::{
    hw_state, rx_step_from, stamped, tx_step_from, AsyncResult as EsbAsyncResult, EngineState, Error as EsbError, Esb, Role, RxConfig,
    TxConfig,
};
use crate::frames::{
    command_code, copy_frame, data_request, data_request_frame, filled, pairing_request,
    pairing_request_frame, spec_command_code, DATA_RESPONSE_CODE, PAIRING_RESPONSE_CODE,
};

verus! {

#[derive(Debug, Clone, Copy, PartialEq, Eq, Structural)]
pub enum Error {
    EsbError(EsbError),
}

#[derive(Debug, Clone, Copy, PartialEq, Eq, Structural)]
pub enum State {
    Unpaired,
    SendPairingRequest,
    WaitPairingRequest,
    ReceivePairingResponse,
    WaitPairingResponse,
    SendDataRequest,
    WaitDataRequest,
    ReceiveDataResponse,
    WaitDataResponse,
    Error(Error),
}

/// What a step has to report on the diagnostic link.
#[derive(Debug, Clone, Copy, PartialEq, Eq, Structural)]
pub enum Notice {
    /// Looking for a P905.
    LookingForPeer,
    /// A pairing request is about to be sent.
    SendingPairingRequest,
    /// Listening for the pairing response could not start.
    ReceiveFailed,
    /// The response awaited was received.
    ResponseReceived,
    /// A frame with another command code was received.
    UnknownRequest,
    /// A data request is about to be sent.
    SendingDataRequest,
}

/// What `start_rx` and `start_tx` return in an engine state.
pub open spec fn start_outcome(s: EngineState) -> core::result::Result<(), EsbError> {
    match s {
        EngineState::Standby => Ok(()),
        EngineState::Error(e) => Err(e),
        _ => Err(EsbError::StandbyRequired),
    }
}

/// The state after a start: `on_ok`, or the engine's error.
pub open spec fn after_start(s: EngineState, on_ok: State) -> State {
    match start_outcome(s) {
        Ok(()) => on_ok,
        Err(e) => State::Error(Error::EsbError(e)),
    }
}

/// The state after a poll that is not done: the same state while it
/// would block, else the engine's error.
pub open spec fn after_pending(r: EsbAsyncResult<()>, same: State) -> State {
    match r {
        Err(nb::Error::Other(e)) => State::Error(Error::EsbError(e)),
        _ => same,
    }
}

pub struct Protocol {
    pub esb: Esb,
    pub state: State,
    pub tx_config: TxConfig,
    pub rx_config: RxConfig,
    pub last_state: Option<State>,
}

impl Protocol {
    pub open spec fn wf(&self) -> bool {
        self.esb.wf()
    }

    pub fn new(esb: Esb) -> (r: Self)
        requires
            esb.wf(),
        ensures
            r.wf(),
            r.esb == esb,
            r.state == State::Unpaired,
            r.tx_config == (TxConfig { address: crate::logical_address::LogicalAddress::Of0, skip_ack: false, retries: 1 }),
            r.rx_config == (RxConfig { skip_ack: false, retries: 1 }),
            r.last_state == None::<State>,
    {
        Protocol {
            esb,
            state: State::Unpaired,
            tx_config: TxConfig::default(),
            rx_config: RxConfig::default(),
            last_state: None,
        }
    }

    /// The next state and the notice of one step.
    pub open spec fn step(&self) -> (State, Option<Notice>) {
        let e = self.esb;
        match self.state {
            State::Unpaired => (State::SendPairingRequest, Some(Notice::LookingForPeer)),
            State::SendPairingRequest => (
                after_start(e.state, State::WaitPairingRequest),
                Some(Notice::SendingPairingRequest),
            ),
            State::WaitPairingRequest => match e.poll_tx().1 {
                Ok(()) => (State::ReceivePairingResponse, None),
                r => (after_pending(r, self.state), None),
            },
            State::ReceivePairingResponse => match start_outcome(e.state) {
                Ok(()) => (State::WaitPairingResponse, None),
                Err(x) => (State::Error(Error::EsbError(x)), Some(Notice::ReceiveFailed)),
            },
            State::WaitPairingResponse => match e.poll_rx().1 {
                Ok(()) => if spec_command_code(e.contents(Role::Receive)) == Some(
                    PAIRING_RESPONSE_CODE,
                ) {
                    (State::SendDataRequest, Some(Notice::ResponseReceived))
                } else {
                    (State::SendPairingRequest, Some(Notice::UnknownRequest))
                },
                r => (after_pending(r, self.state), None),
            },
            State::SendDataRequest => (
                after_start(e.state, State::WaitDataRequest),
                Some(Notice::SendingDataRequest),
            ),
            State::WaitDataRequest => match e.poll_tx().1 {
                Ok(()) => (State::ReceiveDataResponse, None),
                r => (after_pending(r, self.state), None),
            },
            State::ReceiveDataResponse => match start_outcome(e.state) {
                Ok(()) => (State::WaitDataResponse, None),
                Err(x) => (State::Error(Error::EsbError(x)), None),
            },
            State::WaitDataResponse => match e.poll_rx().1 {
                Ok(()) => if spec_command_code(e.contents(Role::Receive)) == Some(
                    DATA_RESPONSE_CODE,
                ) {
                    (State::SendDataRequest, Some(Notice::ResponseReceived))
                } else {
                    (State::SendDataRequest, Some(Notice::UnknownRequest))
                },
                r => (after_pending(r, self.state), None),
            },
            State::Error(_) => (self.state, None),
        }
    }

    /// The engine's state after one step.
    pub open spec fn engine_after(&self) -> EngineState {
        let e = self.esb;
        let hw = e.radio.regs;
        match self.state {
            State::SendPairingRequest | State::SendDataRequest => if e.state
                == EngineState::Standby {
                EngineState::Tx(self.tx_config, tx_step_from(hw_state(hw)))
            } else {
                e.state
            },
            State::ReceivePairingResponse | State::ReceiveDataResponse => if e.state
                == EngineState::Standby {
                EngineState::Rx(self.rx_config, rx_step_from(hw_state(hw)))
            } else {
                e.state
            },
            State::WaitPairingRequest | State::WaitDataRequest => e.poll_tx().0,
            State::WaitPairingResponse | State::WaitDataResponse => e.poll_rx().0,
            _ => e.state,
        }
    }

    /// The frame that a sending state puts in the transmit buffer.
    pub open spec fn frame_sent(s: State) -> Option<Seq<u8>> {
        match s {
            State::SendPairingRequest => Some(pairing_request_frame()),
            State::SendDataRequest => Some(data_request_frame()),
            _ => None,
        }
    }

    /// Runs one step of the protocol, and says what it has to report.
    pub fn run(&mut self) -> (r: Option<Notice>)
        requires
            old(self).wf(),
        ensures
            final(self).wf(),
            (final(self).state, r) == old(self).step(),
            final(self).esb.state == old(self).engine_after(),
            final(self).last_state == Some(old(self).state),
            final(self).tx_config == old(self).tx_config,
            final(self).rx_config == old(self).rx_config,
            ({
                let e = old(self).esb;
                match Protocol::frame_sent(old(self).state) {
                    Some(f) => e.state == EngineState::Standby ==> final(self).esb.contents(
                        Role::Transmit,
                    ) == stamped(filled(e.contents(Role::Transmit), f), e.pid),
                    None => true,
                }
            }),
    {
        let (next_state, notice) = match self.state {
            State::Unpaired => (State::SendPairingRequest, Some(Notice::LookingForPeer)),
            State::SendPairingRequest => {
                let frame = pairing_request();
                (self.send(&frame, State::WaitPairingRequest), Some(Notice::SendingPairingRequest))
            },
            State::WaitPairingRequest => match self.esb.wait_tx() {
                Ok(()) => (State::ReceivePairingResponse, None),
                Err(error) => (self.handle_esb_error(error), None),
            },
            State::ReceivePairingResponse => match self.esb.start_rx(self.rx_config) {
                Ok(()) => (State::WaitPairingResponse, None),
                Err(err) => (State::Error(Error::EsbError(err)), Some(Notice::ReceiveFailed)),
            },
            State::WaitPairingResponse => match self.esb.wait_rx() {
                Ok(()) => {
                    let code = command_code(self.esb.get_rx_buffer());
                    match code {
                        Some(c) if c == PAIRING_RESPONSE_CODE => (
                            State::SendDataRequest,
                            Some(Notice::ResponseReceived),
                        ),
                        _ => (State::SendPairingRequest, Some(Notice::UnknownRequest)),
                    }
                },
                Err(error) => (self.handle_esb_error(error), None),
            },
            State::SendDataRequest => {
                let frame = data_request();
                (self.send(&frame, State::WaitDataRequest), Some(Notice::SendingDataRequest))
            },
            State::WaitDataRequest => match self.esb.wait_tx() {
                Ok(()) => (State::ReceiveDataResponse, None),
                Err(error) => (self.handle_esb_error(error), None),
            },
            State::ReceiveDataResponse => match self.esb.start_rx(self.rx_config) {
                Ok(()) => (State::WaitDataResponse, None),
                Err(err) => (State::Error(Error::EsbError(err)), None),
            },
            State::WaitDataResponse => match self.esb.wait_rx() {
                Ok(()) => {
                    let code = command_code(self.esb.get_rx_buffer());
                    match code {
                        Some(c) if c == DATA_RESPONSE_CODE => (
                            State::SendDataRequest,
                            Some(Notice::ResponseReceived),
                        ),
                        _ => (State::SendDataRequest, Some(Notice::UnknownRequest)),
                    }
                },
                Err(error) => (self.handle_esb_error(error), None),
            },
            State::Error(_) => (self.state, None),
        };
        self.last_state = Some(self.state);
        self.state = next_state;
        notice
    }

    /// Fills the transmit buffer with a frame and starts sending it.
    fn send(&mut self, frame: &Vec<u8>, next: State) -> (r: State)
        requires
            old(self).wf(),
        ensures
            final(self).wf(),
            r == after_start(old(self).esb.state, next),
            final(self).esb.state == (if old(self).esb.state == EngineState::Standby {
                EngineState::Tx(old(self).tx_config, tx_step_from(hw_state(old(self).esb.radio.regs)))
            } else {
                old(self).esb.state
            }),
            final(self).state == old(self).state,
            final(self).last_state == old(self).last_state,
            final(self).tx_config == old(self).tx_config,
            final(self).rx_config == old(self).rx_config,
            old(self).esb.state == EngineState::Standby ==> final(self).esb.contents(Role::Transmit)
                == stamped(filled(old(self).esb.contents(Role::Transmit), frame@), old(self).esb.pid),
    {
        let buf = self.esb.get_tx_buffer();
        copy_frame(buf, frame.as_slice());
        match self.esb.start_tx(self.tx_config) {
            Ok(()) => next,
            Err(err) => State::Error(Error::EsbError(err)),
        }
    }

    fn handle_esb_error(&self, error: nb::Error<EsbError>) -> (r: State)
        ensures
            r == after_pending(Err(error), self.state),
    {
        match error {
            nb::Error::WouldBlock => self.state,
            nb::Error::Other(error) => State::Error(Error::EsbError(error)),
        }
    }
}

} // verus!
