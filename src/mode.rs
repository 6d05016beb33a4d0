//! Data rate and modulation: the MODE register.

use vstd::prelude::*;

verus! {

#[derive(Debug, Clone, Copy, PartialEq, Eq, Structural)]
pub enum Mode {
    /// 1 Mbit/s Nordic proprietary radio mode
    Nrf1Mbit,
    /// 2 Mbit/s Nordic proprietary radio mode
    Nrf2Mbit,
    /// 1 Mbit/s BLE
    Ble1Mbit,
    /// 2 Mbit/s BLE
    Ble2Mbit,
    /// Long range 125 kbit/s TX, 125 kbit/s and 500 kbit/s RX
    BleLongRange125Kbit,
    /// Long range 500 kbit/s TX, 125 kbit/s and 500 kbit/s RX
    BleLongRange500Kbit,
    /// IEEE 802.15.4-2006 250 kbit/s
    Ieee802154At250Kbit,
}

impl Mode {
    /// The value of the MODE register that selects this mode.
    pub open spec fn spec_value(self) -> u32 {
        match self {
            Mode::Nrf1Mbit => 0,
            Mode::Nrf2Mbit => 1,
            Mode::Ble1Mbit => 3,
            Mode::Ble2Mbit => 4,
            Mode::BleLongRange125Kbit => 5,
            Mode::BleLongRange500Kbit => 6,
            Mode::Ieee802154At250Kbit => 15,
        }
    }

    pub fn value(&self) -> (r: u32)
        ensures
            r == self.spec_value(),
    {
        match self {
            Mode::Nrf1Mbit => 0,
            Mode::Nrf2Mbit => 1,
            Mode::Ble1Mbit => 3,
            Mode::Ble2Mbit => 4,
            Mode::BleLongRange125Kbit => 5,
            Mode::BleLongRange500Kbit => 6,
            Mode::Ieee802154At250Kbit => 15,
        }
    }
}

} // verus!
