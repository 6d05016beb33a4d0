//! Radio channel: the FREQUENCY register.

use vstd::prelude::*;

verus! {

/// The highest channel number: the frequency is 2400 MHz (or 2360 MHz)
/// plus the channel number, in MHz.
pub const MAX_CHANNEL: u8 = 100;

/// A channel in one of the two frequency maps.
#[derive(Debug, Clone, Copy, PartialEq, Eq, Structural)]
pub enum Frequency {
    /// 2400 MHz + channel
    Default2400MHz(u8),
    /// 2360 MHz + channel
    Low2360MHz(u8),
}

impl Frequency {
    /// The channel number.
    pub open spec fn channel(self) -> u8 {
        match self {
            Frequency::Default2400MHz(c) => c,
            Frequency::Low2360MHz(c) => c,
        }
    }

    /// A frequency is valid when its channel is at most 100.
    pub open spec fn wf(self) -> bool {
        self.channel() <= MAX_CHANNEL
    }

    pub fn from_2400mhz_channel(channel: u8) -> (r: Self)
        requires
            channel <= MAX_CHANNEL,
        ensures
            r == Frequency::Default2400MHz(channel),
            r.wf(),
    {
        Frequency::Default2400MHz(channel)
    }

    pub fn from_2360mhz_channel(channel: u8) -> (r: Self)
        requires
            channel <= MAX_CHANNEL,
        ensures
            r == Frequency::Low2360MHz(channel),
            r.wf(),
    {
        Frequency::Low2360MHz(channel)
    }
}

} // verus!
