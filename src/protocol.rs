//! Payload sizing of the link.

use vstd::prelude::*;

verus! {

/// The largest payload of a dynamic-length link.
pub const MAX_DYNAMIC_PAYLOAD: u8 = 252;

/// The largest payload of a fixed-length link.
pub const MAX_FIXED_PAYLOAD: u8 = 32;

#[derive(Debug, Clone, Copy, PartialEq, Eq, Structural)]
pub enum Protocol {
    /// Dynamic Payload up to a maximum number of bytes
    DynamicPayloadLength(u8),
    /// Fixed Payload of a given number of bytes
    FixedPayloadLength(u8),
}

impl Protocol {
    /// The payload size is within the bound of its kind.
    pub open spec fn wf(self) -> bool {
        match self {
            Protocol::DynamicPayloadLength(n) => n <= MAX_DYNAMIC_PAYLOAD,
            Protocol::FixedPayloadLength(n) => n <= MAX_FIXED_PAYLOAD,
        }
    }

    /// The largest payload, in bytes.
    pub open spec fn max_payload(self) -> u8 {
        match self {
            Protocol::DynamicPayloadLength(n) => n,
            Protocol::FixedPayloadLength(n) => n,
        }
    }

    /// Dynamic Payload up to a maximum number of bytes
    pub fn dynamic_payload(max_length: u8) -> (r: Self)
        requires
            max_length <= MAX_DYNAMIC_PAYLOAD,
        ensures
            r == Protocol::DynamicPayloadLength(max_length),
            r.wf(),
    {
        Protocol::DynamicPayloadLength(max_length)
    }

    /// Fixed Payload of a given number of bytes
    pub fn fixed_payload(length: u8) -> (r: Self)
        requires
            length <= MAX_FIXED_PAYLOAD,
        ensures
            r == Protocol::FixedPayloadLength(length),
            r.wf(),
    {
        Protocol::FixedPayloadLength(length)
    }
}

} // verus!
