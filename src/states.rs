//! The states of the RADIO peripheral, as read from its STATE register.

use vstd::prelude::*;

verus! {

#[derive(Debug, Clone, Copy, PartialEq, Eq, Structural)]
pub enum State {
    Disabled,
    RxRumpUp,
    RxIdle,
    Rx,
    RxDisable,
    TxRumpUp,
    TxIdle,
    Tx,
    TxDisable,
    Unknown(u8),
}

impl State {
    /// The state that a STATE register value stands for.
    pub open spec fn spec_from_value(value: u8) -> State {
        match value {
            0 => State::Disabled,
            1 => State::RxRumpUp,
            2 => State::RxIdle,
            3 => State::Rx,
            4 => State::RxDisable,
            9 => State::TxRumpUp,
            10 => State::TxIdle,
            11 => State::Tx,
            12 => State::TxDisable,
            _ => State::Unknown(value),
        }
    }

    pub fn from_value(value: u8) -> (r: State)
        ensures
            r == State::spec_from_value(value),
    {
        match value {
            0 => State::Disabled,
            1 => State::RxRumpUp,
            2 => State::RxIdle,
            3 => State::Rx,
            4 => State::RxDisable,
            9 => State::TxRumpUp,
            10 => State::TxIdle,
            11 => State::Tx,
            12 => State::TxDisable,
            _ => State::Unknown(value),
        }
    }
}

} // verus!
