//! A plain-value image of the RADIO peripheral's registers.
//!
//! The driver never touches memory-mapped registers itself. It reads the
//! image and records each access it makes, in order, as an [`Access`]; the
//! firmware replays those accesses on the peripheral and copies the status
//! registers back into the image before the next call.

use vstd::prelude::*;

verus! {

/// The configuration registers that the driver writes.
#[derive(Debug, Clone, Copy, PartialEq, Eq, Structural)]
pub enum Register {
    Power,
    TxPower,
    Mode,
    Pcnf0,
    Pcnf1,
    CrcCnf,
    CrcInit,
    CrcPoly,
    Base0,
    Base1,
    Prefix0,
    Prefix1,
    TxAddress,
    RxAddresses,
    Frequency,
    IntenSet,
    IntenClr,
}

/// The event registers that the driver reads and clears.
#[derive(Debug, Clone, Copy, PartialEq, Eq, Structural)]
pub enum Event {
    Ready,
    Address,
    Payload,
    End,
    Disabled,
}

/// The tasks that the driver triggers.
#[derive(Debug, Clone, Copy, PartialEq, Eq, Structural)]
pub enum Task {
    RxEn,
    TxEn,
    Start,
    Stop,
    Disable,
}

/// One access of the driver to the peripheral.
#[derive(Debug, Clone, Copy, PartialEq, Eq, Structural)]
pub enum Access {
    /// A configuration register is written with a value.
    Write(Register, u32),
    /// PACKETPTR is set to the address of the buffer that the driver holds.
    PacketPtr,
    /// An event register is cleared.
    Clear(Event),
    /// A task is triggered. A release fence must precede the write, so that
    /// the accesses before it are not moved past it.
    Trigger(Task),
}

/// The register image. The configuration fields hold the value last
/// written; the status fields hold what the peripheral reported last.
#[derive(Debug, Clone, Copy, PartialEq, Eq, Structural)]
pub struct RadioRegisters {
    pub power: u32,
    pub txpower: u32,
    pub mode: u32,
    pub pcnf0: u32,
    pub pcnf1: u32,
    pub crccnf: u32,
    pub crcinit: u32,
    pub crcpoly: u32,
    pub base0: u32,
    pub base1: u32,
    pub prefix0: u32,
    pub prefix1: u32,
    pub txaddress: u32,
    pub rxaddresses: u32,
    pub frequency: u32,
    pub intenset: u32,
    pub intenclr: u32,
    /// STATE: the hardware state machine's state.
    pub state: u8,
    pub events_ready: bool,
    pub events_address: bool,
    pub events_payload: bool,
    pub events_end: bool,
    pub events_disabled: bool,
    /// CRCSTATUS: whether the last packet received had a valid CRC.
    pub crc_ok: bool,
    /// RXMATCH: the logical address on which the last packet was received.
    pub rxmatch: u32,
    /// RXCRC: the CRC field of the last packet received.
    pub rxcrc: u32,
}

impl RadioRegisters {
    /// The image of a peripheral after reset: every register is zero, the
    /// state is Disabled and no event is pending.
    pub open spec fn spec_reset() -> RadioRegisters {
        RadioRegisters {
            power: 0,
            txpower: 0,
            mode: 0,
            pcnf0: 0,
            pcnf1: 0,
            crccnf: 0,
            crcinit: 0,
            crcpoly: 0,
            base0: 0,
            base1: 0,
            prefix0: 0,
            prefix1: 0,
            txaddress: 0,
            rxaddresses: 0,
            frequency: 0,
            intenset: 0,
            intenclr: 0,
            state: 0,
            events_ready: false,
            events_address: false,
            events_payload: false,
            events_end: false,
            events_disabled: false,
            crc_ok: false,
            rxmatch: 0,
            rxcrc: 0,
        }
    }

    pub fn reset() -> (r: RadioRegisters)
        ensures
            r == RadioRegisters::spec_reset(),
    {
        RadioRegisters {
            power: 0,
            txpower: 0,
            mode: 0,
            pcnf0: 0,
            pcnf1: 0,
            crccnf: 0,
            crcinit: 0,
            crcpoly: 0,
            base0: 0,
            base1: 0,
            prefix0: 0,
            prefix1: 0,
            txaddress: 0,
            rxaddresses: 0,
            frequency: 0,
            intenset: 0,
            intenclr: 0,
            state: 0,
            events_ready: false,
            events_address: false,
            events_payload: false,
            events_end: false,
            events_disabled: false,
            crc_ok: false,
            rxmatch: 0,
            rxcrc: 0,
        }
    }

    /// The value of a configuration register.
    pub open spec fn value(self, r: Register) -> u32 {
        match r {
            Register::Power => self.power,
            Register::TxPower => self.txpower,
            Register::Mode => self.mode,
            Register::Pcnf0 => self.pcnf0,
            Register::Pcnf1 => self.pcnf1,
            Register::CrcCnf => self.crccnf,
            Register::CrcInit => self.crcinit,
            Register::CrcPoly => self.crcpoly,
            Register::Base0 => self.base0,
            Register::Base1 => self.base1,
            Register::Prefix0 => self.prefix0,
            Register::Prefix1 => self.prefix1,
            Register::TxAddress => self.txaddress,
            Register::RxAddresses => self.rxaddresses,
            Register::Frequency => self.frequency,
            Register::IntenSet => self.intenset,
            Register::IntenClr => self.intenclr,
        }
    }

    /// The image after a configuration register is written.
    pub open spec fn written(self, r: Register, v: u32) -> RadioRegisters {
        match r {
            Register::Power => RadioRegisters { power: v, ..self },
            Register::TxPower => RadioRegisters { txpower: v, ..self },
            Register::Mode => RadioRegisters { mode: v, ..self },
            Register::Pcnf0 => RadioRegisters { pcnf0: v, ..self },
            Register::Pcnf1 => RadioRegisters { pcnf1: v, ..self },
            Register::CrcCnf => RadioRegisters { crccnf: v, ..self },
            Register::CrcInit => RadioRegisters { crcinit: v, ..self },
            Register::CrcPoly => RadioRegisters { crcpoly: v, ..self },
            Register::Base0 => RadioRegisters { base0: v, ..self },
            Register::Base1 => RadioRegisters { base1: v, ..self },
            Register::Prefix0 => RadioRegisters { prefix0: v, ..self },
            Register::Prefix1 => RadioRegisters { prefix1: v, ..self },
            Register::TxAddress => RadioRegisters { txaddress: v, ..self },
            Register::RxAddresses => RadioRegisters { rxaddresses: v, ..self },
            Register::Frequency => RadioRegisters { frequency: v, ..self },
            Register::IntenSet => RadioRegisters { intenset: v, ..self },
            Register::IntenClr => RadioRegisters { intenclr: v, ..self },
        }
    }

    /// Whether an event is pending.
    pub open spec fn event(self, e: Event) -> bool {
        match e {
            Event::Ready => self.events_ready,
            Event::Address => self.events_address,
            Event::Payload => self.events_payload,
            Event::End => self.events_end,
            Event::Disabled => self.events_disabled,
        }
    }

    /// The image after an event register is cleared.
    pub open spec fn cleared(self, e: Event) -> RadioRegisters {
        match e {
            Event::Ready => RadioRegisters { events_ready: false, ..self },
            Event::Address => RadioRegisters { events_address: false, ..self },
            Event::Payload => RadioRegisters { events_payload: false, ..self },
            Event::End => RadioRegisters { events_end: false, ..self },
            Event::Disabled => RadioRegisters { events_disabled: false, ..self },
        }
    }

    pub fn read(&self, r: Register) -> (v: u32)
        ensures
            v == self.value(r),
    {
        match r {
            Register::Power => self.power,
            Register::TxPower => self.txpower,
            Register::Mode => self.mode,
            Register::Pcnf0 => self.pcnf0,
            Register::Pcnf1 => self.pcnf1,
            Register::CrcCnf => self.crccnf,
            Register::CrcInit => self.crcinit,
            Register::CrcPoly => self.crcpoly,
            Register::Base0 => self.base0,
            Register::Base1 => self.base1,
            Register::Prefix0 => self.prefix0,
            Register::Prefix1 => self.prefix1,
            Register::TxAddress => self.txaddress,
            Register::RxAddresses => self.rxaddresses,
            Register::Frequency => self.frequency,
            Register::IntenSet => self.intenset,
            Register::IntenClr => self.intenclr,
        }
    }

    pub fn write(&mut self, r: Register, v: u32)
        ensures
            *final(self) == old(self).written(r, v),
    {
        match r {
            Register::Power => self.power = v,
            Register::TxPower => self.txpower = v,
            Register::Mode => self.mode = v,
            Register::Pcnf0 => self.pcnf0 = v,
            Register::Pcnf1 => self.pcnf1 = v,
            Register::CrcCnf => self.crccnf = v,
            Register::CrcInit => self.crcinit = v,
            Register::CrcPoly => self.crcpoly = v,
            Register::Base0 => self.base0 = v,
            Register::Base1 => self.base1 = v,
            Register::Prefix0 => self.prefix0 = v,
            Register::Prefix1 => self.prefix1 = v,
            Register::TxAddress => self.txaddress = v,
            Register::RxAddresses => self.rxaddresses = v,
            Register::Frequency => self.frequency = v,
            Register::IntenSet => self.intenset = v,
            Register::IntenClr => self.intenclr = v,
        }
    }

    pub fn is_set(&self, e: Event) -> (b: bool)
        ensures
            b == self.event(e),
    {
        match e {
            Event::Ready => self.events_ready,
            Event::Address => self.events_address,
            Event::Payload => self.events_payload,
            Event::End => self.events_end,
            Event::Disabled => self.events_disabled,
        }
    }

    pub fn clear(&mut self, e: Event)
        ensures
            *final(self) == old(self).cleared(e),
    {
        match e {
            Event::Ready => self.events_ready = false,
            Event::Address => self.events_address = false,
            Event::Payload => self.events_payload = false,
            Event::End => self.events_end = false,
            Event::Disabled => self.events_disabled = false,
        }
    }
}

/// `v` with the field of `mask` at bit `shift` set to `x` (cut to the
/// field's width); the bits outside the field are kept.
pub open spec fn spec_insert_field(v: u32, mask: u32, shift: u32, x: u32) -> u32 {
    (v & !(mask << shift)) | ((x & mask) << shift)
}

pub fn insert_field(v: u32, mask: u32, shift: u32, x: u32) -> (r: u32)
    requires
        shift < 32,
    ensures
        r == spec_insert_field(v, mask, shift, x),
{
    (v & !(mask << shift)) | ((x & mask) << shift)
}

/// The bit `i` of `v`.
pub open spec fn bit(v: u32, i: u32) -> u32 {
    (v >> i) & 1
}

/// `r` is `v` with the order of its 32 bits reversed.
pub open spec fn is_bit_reversal(r: u32, v: u32) -> bool {
    forall|i: u32| i < 32 ==> #[trigger] bit(r, i) == bit(v, (31 - i) as u32)
}

/// Relies on `u32::reverse_bits` of core: the least significant bit becomes
/// the most significant, the second least significant the second most
/// significant, and so on.
#[verifier::external_body]
pub(crate) fn reverse_bits(v: u32) -> (r: u32)
    ensures
        is_bit_reversal(r, v),
{
    v.reverse_bits()
}

} // verus!
