use vstd::prelude::*;

verus! {

/// Logical address to be used when transmitting a packet, or on which a
/// packet was received: one of the eight pipes of the radio.
#[derive(Debug, Clone, Copy, PartialEq, Eq, Structural)]
pub enum LogicalAddress {
    Of0,
    Of1,
    Of2,
    Of3,
    Of4,
    Of5,
    Of6,
    Of7,
}

impl LogicalAddress {
    /// The pipe number, 0..=7.
    pub open spec fn spec_value(self) -> u32 {
        match self {
            LogicalAddress::Of0 => 0,
            LogicalAddress::Of1 => 1,
            LogicalAddress::Of2 => 2,
            LogicalAddress::Of3 => 3,
            LogicalAddress::Of4 => 4,
            LogicalAddress::Of5 => 5,
            LogicalAddress::Of6 => 6,
            LogicalAddress::Of7 => 7,
        }
    }

    /// The logical address of a pipe number below 8.
    pub open spec fn spec_from(value: u32) -> LogicalAddress {
        match value {
            0 => LogicalAddress::Of0,
            1 => LogicalAddress::Of1,
            2 => LogicalAddress::Of2,
            3 => LogicalAddress::Of3,
            4 => LogicalAddress::Of4,
            5 => LogicalAddress::Of5,
            6 => LogicalAddress::Of6,
            _ => LogicalAddress::Of7,
        }
    }

    /// The logical address of a pipe number, if there is such a pipe.
    pub fn from(value: u32) -> (r: Option<Self>)
        ensures
            match r {
                Some(a) => a.spec_value() == value && a == LogicalAddress::spec_from(value),
                None => value >= 8,
            },
    {
        match value {
            0 => Some(LogicalAddress::Of0),
            1 => Some(LogicalAddress::Of1),
            2 => Some(LogicalAddress::Of2),
            3 => Some(LogicalAddress::Of3),
            4 => Some(LogicalAddress::Of4),
            5 => Some(LogicalAddress::Of5),
            6 => Some(LogicalAddress::Of6),
            7 => Some(LogicalAddress::Of7),
            _ => None,
        }
    }

    /// The pipe number.
    pub fn value(&self) -> (r: u32)
        ensures
            r == self.spec_value(),
            r < 8,
    {
        match self {
            LogicalAddress::Of0 => 0,
            LogicalAddress::Of1 => 1,
            LogicalAddress::Of2 => 2,
            LogicalAddress::Of3 => 3,
            LogicalAddress::Of4 => 4,
            LogicalAddress::Of5 => 5,
            LogicalAddress::Of6 => 6,
            LogicalAddress::Of7 => 7,
        }
    }
}

} // verus!
