//! Driver of the nRF52840 2.4 GHz RADIO peripheral.
//!
//! The driver works on a [`RadioRegisters`] image and records each access
//! in its journal. It holds no policy: each operation checks that the
//! hardware state allows it and performs one primitive step.

use vstd::prelude::*;

use crate::base_address::BaseAddresses;
use crate::frequency::Frequency;
use crate::logical_address::LogicalAddress;
use crate::mode::Mode;
use crate::packet_config::PacketConfig;
use crate::registers::{
    insert_field, reverse_bits, spec_insert_field, is_bit_reversal, Access, Event, RadioRegisters,
    Register, Task,
};
use crate::states::State;
use crate::tx_power::TxPower;

verus! {

#[derive(Debug, Clone, Copy, PartialEq, Eq, Structural)]
pub enum Error {
    /// The operation needs a packet buffer and none is set.
    BufferNotDefined,
    /// The hardware is in a state that cannot serve the operation.
    WrongState,
    /// Packets kept arriving with an invalid CRC.
    CrcMismatch,
}

pub type Result<A> = core::result::Result<A, Error>;

/// The result of a poll: `WouldBlock` until the operation completes.
pub type AsyncResult<T> = core::result::Result<T, nb::Error<Error>>;

// Bit fields of PCNF0.
pub const LFLEN: (u32, u32) = (0xf, 0);
pub const S0LEN: (u32, u32) = (0x1, 8);
pub const S1LEN: (u32, u32) = (0xf, 16);
pub const S1INCL: (u32, u32) = (0x1, 20);
pub const PLEN: (u32, u32) = (0x3, 24);
pub const CRCINC: (u32, u32) = (0x1, 26);

// Bit fields of PCNF1.
pub const MAXLEN: (u32, u32) = (0xff, 0);
pub const STATLEN: (u32, u32) = (0xff, 8);
pub const BALEN: (u32, u32) = (0x7, 16);
pub const ENDIAN: (u32, u32) = (0x1, 24);
pub const WHITEEN: (u32, u32) = (0x1, 25);

// Bit fields of CRCCNF.
pub const CRCLEN: (u32, u32) = (0x3, 0);
pub const SKIPADDR: (u32, u32) = (0x3, 8);

/// The FREQUENCY.MAP bit, set for the 2360 MHz map.
pub const MAP_LOW: u32 = 0x100;

/// The mask of the 24 bits of CRCINIT.
pub const CRC24_MASK: u32 = 0xff_ffff;

/// `v` with the field `f` set to `x` when `x` is given.
pub open spec fn with_opt_field(v: u32, f: (u32, u32), x: Option<u32>) -> u32 {
    match x {
        Some(x) => spec_insert_field(v, f.0, f.1, x),
        None => v,
    }
}

pub open spec fn opt_u8(x: Option<u8>) -> Option<u32> {
    match x {
        Some(x) => Some(x as u32),
        None => None,
    }
}

pub open spec fn opt_bool(x: Option<bool>) -> Option<u32> {
    match x {
        Some(x) => Some(if x { 1u32 } else { 0u32 }),
        None => None,
    }
}

/// PCNF0 after a packet configuration is applied to the value `v`.
pub open spec fn pcnf0_applied(v: u32, pc: PacketConfig) -> u32 {
    let v = with_opt_field(v, LFLEN, opt_u8(pc.length_bits));
    let v = with_opt_field(v, S0LEN, opt_bool(pc.s0_byte_included));
    let v = with_opt_field(
        v,
        S1LEN,
        match pc.s1_len {
            Some(l) => Some(l.spec_value()),
            None => None,
        },
    );
    let v = with_opt_field(
        v,
        S1INCL,
        match pc.s1_include_in_ram {
            Some(i) => Some(i.spec_value()),
            None => None,
        },
    );
    let v = with_opt_field(
        v,
        PLEN,
        match pc.preamble_len {
            Some(l) => Some(l.spec_value()),
            None => None,
        },
    );
    with_opt_field(v, CRCINC, opt_bool(pc.crc_included_in_length))
}

/// PCNF1 after a packet configuration is applied to the value `v`.
pub open spec fn pcnf1_applied(v: u32, pc: PacketConfig) -> u32 {
    let v = with_opt_field(v, MAXLEN, opt_u8(pc.max_bytes));
    let v = with_opt_field(v, STATLEN, opt_u8(pc.static_bytes));
    let v = with_opt_field(
        v,
        ENDIAN,
        match pc.endianess {
            Some(e) => Some(e.spec_value()),
            None => None,
        },
    );
    with_opt_field(v, WHITEEN, opt_bool(pc.whitening_enabled))
}

/// The number of bytes of the base addresses, and the two values whose low
/// bytes are the addresses.
pub open spec fn base_address_fields(addr: BaseAddresses) -> (u32, u32, u32) {
    match addr {
        BaseAddresses::TwoBytes(a0, a1) => (2, a0 as u32, a1 as u32),
        BaseAddresses::ThreeBytes(a0, a1) => (3, a0 & 0xff_ffff, a1 & 0xff_ffff),
        BaseAddresses::FourBytes(a0, a1) => (4, a0, a1),
    }
}

/// The value of FREQUENCY that selects a channel.
pub open spec fn frequency_value(f: Frequency) -> u32 {
    match f {
        Frequency::Default2400MHz(c) => c as u32,
        Frequency::Low2360MHz(c) => c as u32 | MAP_LOW,
    }
}

/// Four bytes as a big-endian word.
pub open spec fn word_of(b0: u8, b1: u8, b2: u8, b3: u8) -> u32 {
    ((b0 as u32) << 24u32) | ((b1 as u32) << 16u32) | ((b2 as u32) << 8u32) | (b3 as u32)
}

fn opt_field(v: u32, f: (u32, u32), x: Option<u32>) -> (r: u32)
    requires
        f.1 < 32,
    ensures
        r == with_opt_field(v, f, x),
{
    match x {
        Some(x) => insert_field(v, f.0, f.1, x),
        None => v,
    }
}

fn bool_value(b: bool) -> (r: u32)
    ensures
        r == (if b { 1u32 } else { 0u32 }),
{
    if b {
        1
    } else {
        0
    }
}

/// PCNF0 with a packet configuration applied.
fn pcnf0_value(v: u32, pcfn: &PacketConfig) -> (r: u32)
    ensures
        r == pcnf0_applied(v, *pcfn),
{
    let v = opt_field(
        v,
        LFLEN,
        match pcfn.length_bits {
            Some(b) => Some(b as u32),
            None => None,
        },
    );
    let v = opt_field(
        v,
        S0LEN,
        match pcfn.s0_byte_included {
            Some(b) => Some(bool_value(b)),
            None => None,
        },
    );
    let v = opt_field(
        v,
        S1LEN,
        match pcfn.s1_len {
            Some(l) => Some(l.value()),
            None => None,
        },
    );
    let v = opt_field(
        v,
        S1INCL,
        match pcfn.s1_include_in_ram {
            Some(i) => Some(i.value()),
            None => None,
        },
    );
    let v = opt_field(
        v,
        PLEN,
        match pcfn.preamble_len {
            Some(l) => Some(l.value()),
            None => None,
        },
    );
    let v = opt_field(
        v,
        CRCINC,
        match pcfn.crc_included_in_length {
            Some(b) => Some(bool_value(b)),
            None => None,
        },
    );
    v
}

/// PCNF1 with a packet configuration applied.
fn pcnf1_value(w: u32, pcfn: &PacketConfig) -> (r: u32)
    ensures
        r == pcnf1_applied(w, *pcfn),
{
    let w = opt_field(
        w,
        MAXLEN,
        match pcfn.max_bytes {
            Some(b) => Some(b as u32),
            None => None,
        },
    );
    let w = opt_field(
        w,
        STATLEN,
        match pcfn.static_bytes {
            Some(b) => Some(b as u32),
            None => None,
        },
    );
    let w = opt_field(
        w,
        ENDIAN,
        match pcfn.endianess {
            Some(e) => Some(e.value()),
            None => None,
        },
    );
    let w = opt_field(
        w,
        WHITEEN,
        match pcfn.whitening_enabled {
            Some(b) => Some(bool_value(b)),
            None => None,
        },
    );
    w
}

/// The driver. It holds the register image, the journal of accesses not yet
/// replayed on the peripheral, and the packet buffer that PACKETPTR points
/// to, if any.
pub struct Radio {
    pub regs: RadioRegisters,
    pub journal: Vec<Access>,
    pub buffer: Option<Vec<u8>>,
}

impl Radio {
    /// The contents of the buffer held by the hardware, if any.
    pub open spec fn held(&self) -> Option<Seq<u8>> {
        match self.buffer {
            Some(b) => Some(b@),
            None => None,
        }
    }

    /// The accesses recorded, in order.
    pub open spec fn log(&self) -> Seq<Access> {
        self.journal@
    }

    pub fn new() -> (r: Radio)
        ensures
            r.regs == RadioRegisters::spec_reset(),
            r.log() == Seq::<Access>::empty(),
            r.held() == None::<Seq<u8>>,
    {
        Radio { regs: RadioRegisters::reset(), journal: Vec::new(), buffer: None }
    }

    /// The configuration registers may be written: the hardware is
    /// disabled or idle.
    pub open spec fn configurable(&self) -> bool {
        self.state() == State::Disabled || self.state() == State::RxIdle || self.state()
            == State::TxIdle
    }

    /// What a configuration write returns.
    pub open spec fn config_result(&self) -> Result<()> {
        if self.configurable() {
            Ok(())
        } else {
            Err(Error::WrongState)
        }
    }

    pub fn is_configurable(&self) -> (r: bool)
        ensures
            r == self.configurable(),
    {
        match self.get_state() {
            State::Disabled | State::RxIdle | State::TxIdle => true,
            _ => false,
        }
    }

    fn write(&mut self, r: Register, v: u32)
        ensures
            final(self).regs == old(self).regs.written(r, v),
            final(self).log() == old(self).log().push(Access::Write(r, v)),
            final(self).buffer == old(self).buffer,
    {
        self.regs.write(r, v);
        self.journal.push(Access::Write(r, v));
    }

    fn clear(&mut self, e: Event)
        ensures
            final(self).regs == old(self).regs.cleared(e),
            final(self).log() == old(self).log().push(Access::Clear(e)),
            final(self).buffer == old(self).buffer,
    {
        self.regs.clear(e);
        self.journal.push(Access::Clear(e));
    }

    fn trigger(&mut self, t: Task)
        ensures
            final(self).regs == old(self).regs,
            final(self).log() == old(self).log().push(Access::Trigger(t)),
            final(self).buffer == old(self).buffer,
    {
        self.journal.push(Access::Trigger(t));
    }

    fn set_packet_ptr(&mut self)
        ensures
            final(self).regs == old(self).regs,
            final(self).log() == old(self).log().push(Access::PacketPtr),
            final(self).buffer == old(self).buffer,
    {
        self.journal.push(Access::PacketPtr);
    }

    /// Hands the accesses recorded so far to the caller, which replays them
    /// on the peripheral in order.
    pub fn take_journal(&mut self) -> (r: Vec<Access>)
        ensures
            r@ == old(self).log(),
            final(self).log() == Seq::<Access>::empty(),
            final(self).regs == old(self).regs,
            final(self).buffer == old(self).buffer,
    {
        let mut taken: Vec<Access> = Vec::new();
        core::mem::swap(&mut taken, &mut self.journal);
        taken
    }

    pub fn enable_interrupts(&mut self, bits: u32) -> (r: Result<()>)
        ensures
            r == old(self).config_result(),
            r is Ok ==> (final(self).regs == old(self).regs.written(Register::IntenSet, bits)),
            r is Ok ==> (final(self).log() == old(self).log().push(Access::Write(Register::IntenSet, bits))),
            final(self).buffer == old(self).buffer,
            r is Err ==> final(self).regs == old(self).regs && final(self).log() == old(self).log(),
    {
        if !self.is_configurable() {
            return Err(Error::WrongState);
        }
        self.write(Register::IntenSet, bits);
        Ok(())
    }

    pub fn disable_interrupts(&mut self, bits: u32) -> (r: Result<()>)
        ensures
            r == old(self).config_result(),
            r is Ok ==> (final(self).regs == old(self).regs.written(Register::IntenClr, bits)),
            r is Ok ==> (final(self).log() == old(self).log().push(Access::Write(Register::IntenClr, bits))),
            final(self).buffer == old(self).buffer,
            r is Err ==> final(self).regs == old(self).regs && final(self).log() == old(self).log(),
    {
        if !self.is_configurable() {
            return Err(Error::WrongState);
        }
        self.write(Register::IntenClr, bits);
        Ok(())
    }

    pub fn disable_all_interrupts(&mut self) -> (r: Result<()>)
        ensures
            r == old(self).config_result(),
            r is Ok ==> (final(self).regs == old(self).regs.written(Register::IntenClr, 0xffff_ffff)),
            r is Ok ==> (final(self).log() == old(self).log().push(
                Access::Write(Register::IntenClr, 0xffff_ffff))),
            final(self).buffer == old(self).buffer,
            r is Err ==> final(self).regs == old(self).regs && final(self).log() == old(self).log(),
    {
        if !self.is_configurable() {
            return Err(Error::WrongState);
        }
        self.write(Register::IntenClr, 0xffff_ffff);
        Ok(())
    }

    pub fn enable_power(&mut self) -> (r: Result<()>)
        ensures
            r == old(self).config_result(),
            r is Ok ==> (final(self).regs == old(self).regs.written(Register::Power, 1)),
            r is Ok ==> (final(self).log() == old(self).log().push(Access::Write(Register::Power, 1))),
            final(self).buffer == old(self).buffer,
            r is Err ==> final(self).regs == old(self).regs && final(self).log() == old(self).log(),
    {
        if !self.is_configurable() {
            return Err(Error::WrongState);
        }
        self.write(Register::Power, 1);
        Ok(())
    }

    pub fn disable_power(&mut self) -> (r: Result<()>)
        ensures
            r == old(self).config_result(),
            r is Ok ==> (final(self).regs == old(self).regs.written(Register::Power, 0)),
            r is Ok ==> (final(self).log() == old(self).log().push(Access::Write(Register::Power, 0))),
            final(self).buffer == old(self).buffer,
            r is Err ==> final(self).regs == old(self).regs && final(self).log() == old(self).log(),
    {
        if !self.is_configurable() {
            return Err(Error::WrongState);
        }
        self.write(Register::Power, 0);
        Ok(())
    }

    pub fn set_tx_power(&mut self, tx_power: TxPower) -> (r: Result<()>)
        ensures
            r == old(self).config_result(),
            r is Ok ==> (final(self).regs == old(self).regs.written(Register::TxPower, tx_power.spec_value())),
            r is Ok ==> (final(self).log() == old(self).log().push(
                Access::Write(Register::TxPower, tx_power.spec_value()))),
            final(self).buffer == old(self).buffer,
            r is Err ==> final(self).regs == old(self).regs && final(self).log() == old(self).log(),
    {
        if !self.is_configurable() {
            return Err(Error::WrongState);
        }
        let v = tx_power.value();
        self.write(Register::TxPower, v);
        Ok(())
    }

    pub fn set_mode(&mut self, mode: Mode) -> (r: Result<()>)
        ensures
            r == old(self).config_result(),
            r is Ok ==> (final(self).regs == old(self).regs.written(Register::Mode, mode.spec_value())),
            r is Ok ==> (final(self).log() == old(self).log().push(
                Access::Write(Register::Mode, mode.spec_value()))),
            final(self).buffer == old(self).buffer,
            r is Err ==> final(self).regs == old(self).regs && final(self).log() == old(self).log(),
    {
        if !self.is_configurable() {
            return Err(Error::WrongState);
        }
        let v = mode.value();
        self.write(Register::Mode, v);
        Ok(())
    }

    /// Applies a packet configuration to PCNF0 and PCNF1: each field that
    /// is set overrides its bit field, the other bits are kept.
    pub fn set_packet_config(&mut self, pcfn: PacketConfig) -> (r: Result<()>)
        ensures
            r == old(self).config_result(),
            r is Ok ==> final(self).regs == old(self).regs.written(
                Register::Pcnf0,
                pcnf0_applied(old(self).regs.pcnf0, pcfn),
            ).written(Register::Pcnf1, pcnf1_applied(old(self).regs.pcnf1, pcfn)),
            r is Ok ==> final(self).log() == old(self).log().push(
                Access::Write(Register::Pcnf0, pcnf0_applied(old(self).regs.pcnf0, pcfn)),
            ).push(Access::Write(Register::Pcnf1, pcnf1_applied(old(self).regs.pcnf1, pcfn))),
            final(self).buffer == old(self).buffer,
            r is Err ==> final(self).regs == old(self).regs && final(self).log() == old(self).log(),
    {
        if !self.is_configurable() {
            return Err(Error::WrongState);
        }
        let v = pcnf0_value(self.regs.pcnf0, &pcfn);
        self.write(Register::Pcnf0, v);
        let w = pcnf1_value(self.regs.pcnf1, &pcfn);
        self.write(Register::Pcnf1, w);
        Ok(())
    }

    fn set_crc_field(&mut self, f: (u32, u32), x: u32)
        requires
            f.1 < 32,
        ensures
            final(self).regs == old(self).regs.written(
                Register::CrcCnf,
                spec_insert_field(old(self).regs.crccnf, f.0, f.1, x),
            ),
            final(self).log() == old(self).log().push(
                Access::Write(Register::CrcCnf, spec_insert_field(old(self).regs.crccnf, f.0, f.1, x)),
            ),
            final(self).buffer == old(self).buffer,
    {
        let v = insert_field(self.regs.crccnf, f.0, f.1, x);
        self.write(Register::CrcCnf, v);
    }

    pub fn set_crc_disabled(&mut self) -> (r: Result<()>)
        ensures
            r == old(self).config_result(),
            r is Ok ==> (final(self).regs == old(self).regs.written(
                Register::CrcCnf,
                spec_insert_field(old(self).regs.crccnf, CRCLEN.0, CRCLEN.1, 0))),
            r is Ok ==> (final(self).log() == old(self).log().push(
                Access::Write(
                    Register::CrcCnf,
                    spec_insert_field(old(self).regs.crccnf, CRCLEN.0, CRCLEN.1, 0),
                ))),
            final(self).buffer == old(self).buffer,
            r is Err ==> final(self).regs == old(self).regs && final(self).log() == old(self).log(),
    {
        if !self.is_configurable() {
            return Err(Error::WrongState);
        }
        self.set_crc_field(CRCLEN, 0);
        Ok(())
    }

    /// One byte of CRC, with an initial value and a polynomial.
    pub fn set_crc_8bits(&mut self, initial: u8, polynomial: u32) -> (r: Result<()>)
        ensures
            r == old(self).config_result(),
            r is Ok ==> (({
                let crccnf = spec_insert_field(old(self).regs.crccnf, CRCLEN.0, CRCLEN.1, 1);
                &&& final(self).regs == old(self).regs.written(Register::CrcCnf, crccnf).written(
                    Register::CrcInit,
                    initial as u32,
                ).written(Register::CrcPoly, polynomial)
                &&& final(self).log() == old(self).log().push(
                    Access::Write(Register::CrcCnf, crccnf),
                ).push(Access::Write(Register::CrcInit, initial as u32)).push(
                    Access::Write(Register::CrcPoly, polynomial),
                )
            })),
            final(self).buffer == old(self).buffer,
            r is Err ==> final(self).regs == old(self).regs && final(self).log() == old(self).log(),
    {
        if !self.is_configurable() {
            return Err(Error::WrongState);
        }
        self.set_crc_field(CRCLEN, 1);
        self.write(Register::CrcInit, initial as u32);
        self.write(Register::CrcPoly, polynomial);
        Ok(())
    }

    /// Two bytes of CRC, with an initial value and a polynomial.
    pub fn set_crc_16bits(&mut self, initial: u16, polynomial: u32) -> (r: Result<()>)
        ensures
            r == old(self).config_result(),
            r is Ok ==> (({
                let crccnf = spec_insert_field(old(self).regs.crccnf, CRCLEN.0, CRCLEN.1, 2);
                &&& final(self).regs == old(self).regs.written(Register::CrcCnf, crccnf).written(
                    Register::CrcInit,
                    initial as u32,
                ).written(Register::CrcPoly, polynomial)
                &&& final(self).log() == old(self).log().push(
                    Access::Write(Register::CrcCnf, crccnf),
                ).push(Access::Write(Register::CrcInit, initial as u32)).push(
                    Access::Write(Register::CrcPoly, polynomial),
                )
            })),
            final(self).buffer == old(self).buffer,
            r is Err ==> final(self).regs == old(self).regs && final(self).log() == old(self).log(),
    {
        if !self.is_configurable() {
            return Err(Error::WrongState);
        }
        self.set_crc_field(CRCLEN, 2);
        self.write(Register::CrcInit, initial as u32);
        self.write(Register::CrcPoly, polynomial);
        Ok(())
    }

    /// Three bytes of CRC, with an initial value (its low 24 bits) and a
    /// polynomial.
    pub fn set_crc_24bits(&mut self, initial: u32, polynomial: u32) -> (r: Result<()>)
        ensures
            r == old(self).config_result(),
            r is Ok ==> (({
                let crccnf = spec_insert_field(old(self).regs.crccnf, CRCLEN.0, CRCLEN.1, 3);
                &&& final(self).regs == old(self).regs.written(Register::CrcCnf, crccnf).written(
                    Register::CrcInit,
                    initial & CRC24_MASK,
                ).written(Register::CrcPoly, polynomial)
                &&& final(self).log() == old(self).log().push(
                    Access::Write(Register::CrcCnf, crccnf),
                ).push(Access::Write(Register::CrcInit, initial & CRC24_MASK)).push(
                    Access::Write(Register::CrcPoly, polynomial),
                )
            })),
            final(self).buffer == old(self).buffer,
            r is Err ==> final(self).regs == old(self).regs && final(self).log() == old(self).log(),
    {
        if !self.is_configurable() {
            return Err(Error::WrongState);
        }
        self.set_crc_field(CRCLEN, 3);
        self.write(Register::CrcInit, initial & CRC24_MASK);
        self.write(Register::CrcPoly, polynomial);
        Ok(())
    }

    /// The CRC covers the address field.
    pub fn set_crc_include_address(&mut self) -> (r: Result<()>)
        ensures
            r == old(self).config_result(),
            r is Ok ==> (final(self).regs == old(self).regs.written(
                Register::CrcCnf,
                spec_insert_field(old(self).regs.crccnf, SKIPADDR.0, SKIPADDR.1, 0))),
            r is Ok ==> (final(self).log() == old(self).log().push(
                Access::Write(
                    Register::CrcCnf,
                    spec_insert_field(old(self).regs.crccnf, SKIPADDR.0, SKIPADDR.1, 0),
                ))),
            final(self).buffer == old(self).buffer,
            r is Err ==> final(self).regs == old(self).regs && final(self).log() == old(self).log(),
    {
        if !self.is_configurable() {
            return Err(Error::WrongState);
        }
        self.set_crc_field(SKIPADDR, 0);
        Ok(())
    }

    /// The CRC skips the address field.
    pub fn set_crc_skip_address(&mut self) -> (r: Result<()>)
        ensures
            r == old(self).config_result(),
            r is Ok ==> (final(self).regs == old(self).regs.written(
                Register::CrcCnf,
                spec_insert_field(old(self).regs.crccnf, SKIPADDR.0, SKIPADDR.1, 1))),
            r is Ok ==> (final(self).log() == old(self).log().push(
                Access::Write(
                    Register::CrcCnf,
                    spec_insert_field(old(self).regs.crccnf, SKIPADDR.0, SKIPADDR.1, 1),
                ))),
            final(self).buffer == old(self).buffer,
            r is Err ==> final(self).regs == old(self).regs && final(self).log() == old(self).log(),
    {
        if !self.is_configurable() {
            return Err(Error::WrongState);
        }
        self.set_crc_field(SKIPADDR, 1);
        Ok(())
    }

    /// The CRC is computed as IEEE 802.15.4 asks.
    pub fn set_crc_ieee802154(&mut self) -> (r: Result<()>)
        ensures
            r == old(self).config_result(),
            r is Ok ==> (final(self).regs == old(self).regs.written(
                Register::CrcCnf,
                spec_insert_field(old(self).regs.crccnf, SKIPADDR.0, SKIPADDR.1, 2))),
            r is Ok ==> (final(self).log() == old(self).log().push(
                Access::Write(
                    Register::CrcCnf,
                    spec_insert_field(old(self).regs.crccnf, SKIPADDR.0, SKIPADDR.1, 2),
                ))),
            final(self).buffer == old(self).buffer,
            r is Err ==> final(self).regs == old(self).regs && final(self).log() == old(self).log(),
    {
        if !self.is_configurable() {
            return Err(Error::WrongState);
        }
        self.set_crc_field(SKIPADDR, 2);
        Ok(())
    }

    /// Sets BALEN to the number of bytes of the base addresses, and BASE0
    /// and BASE1 to the addresses with their 32 bits reversed: the
    /// peripheral sends the least significant bit first.
    pub fn set_base_addresses(&mut self, addr: BaseAddresses) -> (r: Result<()>)
        ensures
            r == old(self).config_result(),
            r is Ok ==> (({
                let (len, a0, a1) = base_address_fields(addr);
                let pcnf1 = spec_insert_field(old(self).regs.pcnf1, BALEN.0, BALEN.1, len);
                exists|b0: u32, b1: u32|
                    {
                        &&& is_bit_reversal(b0, a0)
                        &&& is_bit_reversal(b1, a1)
                        &&& final(self).regs == old(self).regs.written(
                            Register::Pcnf1,
                            pcnf1,
                        ).written(Register::Base0, b0).written(Register::Base1, b1)
                        &&& final(self).log() == old(self).log().push(
                            Access::Write(Register::Pcnf1, pcnf1),
                        ).push(Access::Write(Register::Base0, b0)).push(
                            Access::Write(Register::Base1, b1),
                        )
                    }
            })),
            final(self).buffer == old(self).buffer,
            r is Err ==> final(self).regs == old(self).regs && final(self).log() == old(self).log(),
    {
        if !self.is_configurable() {
            return Err(Error::WrongState);
        }
        let (length, base0, base1): (u32, u32, u32) = match addr {
            BaseAddresses::TwoBytes(addr0, addr1) => (2, addr0 as u32, addr1 as u32),
            BaseAddresses::ThreeBytes(addr0, addr1) => (3, addr0 & 0xff_ffff, addr1 & 0xff_ffff),
            BaseAddresses::FourBytes(addr0, addr1) => (4, addr0, addr1),
        };
        let pcnf1 = insert_field(self.regs.pcnf1, BALEN.0, BALEN.1, length);
        self.write(Register::Pcnf1, pcnf1);
        let b0 = reverse_bits(base0);
        let b1 = reverse_bits(base1);
        self.write(Register::Base0, b0);
        self.write(Register::Base1, b1);
        assert(base_address_fields(addr) == (length, base0, base1));
        Ok(())
    }

    /// Sets PREFIX0 to the prefixes of pipes 0..=3 and PREFIX1 to those of
    /// pipes 4..=7, each word with its 32 bits reversed.
    pub fn set_prefixes(&mut self, prefixes: [u8; 8]) -> (r: Result<()>)
        ensures
            r == old(self).config_result(),
            r is Ok ==> (({
                let p = prefixes@;
                let w0 = word_of(p[0], p[1], p[2], p[3]);
                let w1 = word_of(p[4], p[5], p[6], p[7]);
                exists|r0: u32, r1: u32|
                    {
                        &&& is_bit_reversal(r0, w0)
                        &&& is_bit_reversal(r1, w1)
                        &&& final(self).regs == old(self).regs.written(
                            Register::Prefix0,
                            r0,
                        ).written(Register::Prefix1, r1)
                        &&& final(self).log() == old(self).log().push(
                            Access::Write(Register::Prefix0, r0),
                        ).push(Access::Write(Register::Prefix1, r1))
                    }
            })),
            final(self).buffer == old(self).buffer,
            r is Err ==> final(self).regs == old(self).regs && final(self).log() == old(self).log(),
    {
        if !self.is_configurable() {
            return Err(Error::WrongState);
        }
        let prefix0 = (prefixes[0] as u32) << 24u32 | (prefixes[1] as u32) << 16u32 | (
        prefixes[2] as u32) << 8u32 | (prefixes[3] as u32);
        let prefix1 = (prefixes[4] as u32) << 24u32 | (prefixes[5] as u32) << 16u32 | (
        prefixes[6] as u32) << 8u32 | (prefixes[7] as u32);
        let r0 = reverse_bits(prefix0);
        let r1 = reverse_bits(prefix1);
        self.write(Register::Prefix0, r0);
        self.write(Register::Prefix1, r1);
        Ok(())
    }

    /// Selects a channel: FREQUENCY holds the channel number, and MAP is set
    /// for the 2360 MHz map.
    pub fn set_frequency(&mut self, freq: Frequency) -> (r: Result<()>)
        requires
            freq.wf(),
        ensures
            r == old(self).config_result(),
            r is Ok ==> (final(self).regs == old(self).regs.written(Register::Frequency, frequency_value(freq))),
            r is Ok ==> (final(self).log() == old(self).log().push(
                Access::Write(Register::Frequency, frequency_value(freq)))),
            final(self).buffer == old(self).buffer,
            r is Err ==> final(self).regs == old(self).regs && final(self).log() == old(self).log(),
    {
        if !self.is_configurable() {
            return Err(Error::WrongState);
        }
        let v = match freq {
            Frequency::Default2400MHz(channel) => channel as u32,
            Frequency::Low2360MHz(channel) => channel as u32 | MAP_LOW,
        };
        self.write(Register::Frequency, v);
        Ok(())
    }

    /// RXADDRESSES: the pipes that receive, one bit each.
    pub fn set_rx_addresses(&mut self, mask: u8) -> (r: Result<()>)
        ensures
            r == old(self).config_result(),
            r is Ok ==> (final(self).regs == old(self).regs.written(Register::RxAddresses, mask as u32)),
            r is Ok ==> (final(self).log() == old(self).log().push(
                Access::Write(Register::RxAddresses, mask as u32))),
            final(self).buffer == old(self).buffer,
            r is Err ==> final(self).regs == old(self).regs && final(self).log() == old(self).log(),
    {
        if !self.is_configurable() {
            return Err(Error::WrongState);
        }
        self.write(Register::RxAddresses, mask as u32);
        Ok(())
    }

    /// TXADDRESS: the pipe on which packets are sent.
    pub fn set_tx_address(&mut self, address: LogicalAddress)
        ensures
            final(self).regs == old(self).regs.written(Register::TxAddress, address.spec_value()),
            final(self).log() == old(self).log().push(
                Access::Write(Register::TxAddress, address.spec_value()),
            ),
            final(self).buffer == old(self).buffer,
    {
        let v = address.value();
        self.write(Register::TxAddress, v);
    }

    /// The hardware state, decoded from STATE.
    pub open spec fn state(&self) -> State {
        State::spec_from_value(self.regs.state)
    }

    pub fn get_state(&self) -> (r: State)
        ensures
            r == self.state(),
    {
        State::from_value(self.regs.state)
    }

    pub fn is_ready(&self) -> (r: bool)
        ensures
            r == self.regs.events_ready,
    {
        self.regs.events_ready
    }

    pub fn is_address_received(&self) -> (r: bool)
        ensures
            r == self.regs.events_address,
    {
        self.regs.events_address
    }

    pub fn is_payload_received(&self) -> (r: bool)
        ensures
            r == self.regs.events_payload,
    {
        self.regs.events_payload
    }

    /// Whether END or DISABLED fired: the peripheral may go from END
    /// straight on to DISABLED.
    pub fn is_packet_received(&self) -> (r: bool)
        ensures
            r == (self.regs.events_end || self.regs.events_disabled),
    {
        self.regs.events_end || self.regs.events_disabled
    }

    pub fn is_crc_ok(&self) -> (r: bool)
        ensures
            r == self.regs.crc_ok,
    {
        self.regs.crc_ok
    }

    pub fn is_disabled(&self) -> (r: bool)
        ensures
            r == self.regs.events_disabled,
    {
        self.regs.events_disabled
    }

    /// The pipe on which the last packet was received (RXMATCH).
    pub open spec fn received_address(&self) -> u32 {
        self.regs.rxmatch & 7
    }

    pub fn get_received_address(&self) -> (r: LogicalAddress)
        ensures
            r.spec_value() == self.received_address(),
            r == LogicalAddress::spec_from(self.received_address()),
    {
        let m = self.regs.rxmatch;
        let pipe = m & 7;
        assert(m & 7 < 8) by (bit_vector);
        match LogicalAddress::from(pipe) {
            Some(a) => a,
            None => LogicalAddress::Of0,
        }
    }

    /// The CRC of the last packet received (RXCRC).
    pub fn get_received_crc(&self) -> (r: u32)
        ensures
            r == self.regs.rxcrc,
    {
        self.regs.rxcrc
    }

    /// The buffer held by the hardware, or an empty slice.
    pub fn get_buffer(&self) -> (r: &[u8])
        ensures
            r@ == match self.held() {
                Some(b) => b,
                None => Seq::<u8>::empty(),
            },
    {
        match &self.buffer {
            Some(buffer) => buffer.as_slice(),
            None => &[],
        }
    }

    /// The buffer held by the hardware, writable, or an empty slice.
    pub fn get_buffer_mut(&mut self) -> (r: &mut [u8])
        ensures
            r@ == match old(self).held() {
                Some(b) => b,
                None => Seq::<u8>::empty(),
            },
            old(self).held() is Some ==> final(self).held() == Some(final(r)@),
            old(self).held() is None ==> final(self).held() is None,
            final(self).regs == old(self).regs,
            final(self).log() == old(self).log(),
    {
        match &mut self.buffer {
            Some(buffer) => buffer.as_mut_slice(),
            None => &mut [],
        }
    }

    /// Hands a new buffer to the hardware, or none, and gives back the one
    /// it held. PACKETPTR is pointed at the new buffer.
    pub fn swap_buffer(&mut self, new_buffer: Option<Vec<u8>>) -> (r: Option<Vec<u8>>)
        ensures
            r == old(self).buffer,
            final(self).buffer == new_buffer,
            final(self).regs == old(self).regs,
            final(self).log() == if new_buffer is Some {
                old(self).log().push(Access::PacketPtr)
            } else {
                old(self).log()
            },
    {
        if new_buffer.is_some() {
            self.set_packet_ptr();
        }
        let prev = self.buffer.take();
        self.buffer = new_buffer;
        prev
    }

    /// The accesses of RXEN or TXEN: PACKETPTR, the events cleared, then
    /// the task.
    pub open spec fn enable_accesses(task: Task) -> Seq<Access> {
        seq![
            Access::PacketPtr,
            Access::Clear(Event::Ready),
            Access::Clear(Event::Disabled),
            Access::Clear(Event::End),
            Access::Clear(Event::Address),
            Access::Clear(Event::Payload),
            Access::Trigger(task),
        ]
    }

    /// The image once the events that enabling clears are cleared.
    pub open spec fn enable_cleared(regs: RadioRegisters) -> RadioRegisters {
        regs.cleared(Event::Ready).cleared(Event::Disabled).cleared(Event::End).cleared(
            Event::Address,
        ).cleared(Event::Payload)
    }

    /// What RXEN and TXEN do: a buffer is needed, and the Disabled state.
    pub open spec fn enable_result(&self) -> Result<()> {
        if self.held() is None {
            Err(Error::BufferNotDefined)
        } else if self.state() != State::Disabled {
            Err(Error::WrongState)
        } else {
            Ok(())
        }
    }

    fn enable(&mut self, task: Task) -> (r: Result<()>)
        ensures
            r == old(self).enable_result(),
            final(self).buffer == old(self).buffer,
            r is Ok ==> final(self).regs == Radio::enable_cleared(old(self).regs),
            r is Ok ==> final(self).log() == old(self).log() + Radio::enable_accesses(task),
            r is Err ==> final(self).regs == old(self).regs,
            r is Err ==> final(self).log() == old(self).log(),
    {
        if self.buffer.is_none() {
            return Err(Error::BufferNotDefined);
        }
        match self.get_state() {
            State::Disabled => {
                self.set_packet_ptr();
                self.clear(Event::Ready);
                self.clear(Event::Disabled);
                self.clear(Event::End);
                self.clear(Event::Address);
                self.clear(Event::Payload);
                self.trigger(task);
                assert(self.log() =~= old(self).log() + Radio::enable_accesses(task));
                Ok(())
            },
            _ => Err(Error::WrongState),
        }
    }

    /// Triggers RXEN: the hardware ramps up to receive.
    pub fn enable_rx(&mut self) -> (r: Result<()>)
        ensures
            r == old(self).enable_result(),
            final(self).buffer == old(self).buffer,
            r is Ok ==> final(self).regs == Radio::enable_cleared(old(self).regs),
            r is Ok ==> final(self).log() == old(self).log() + Radio::enable_accesses(Task::RxEn),
            r is Err ==> final(self).regs == old(self).regs,
            r is Err ==> final(self).log() == old(self).log(),
    {
        self.enable(Task::RxEn)
    }

    /// Triggers TXEN: the hardware ramps up to send.
    pub fn enable_tx(&mut self) -> (r: Result<()>)
        ensures
            r == old(self).enable_result(),
            final(self).buffer == old(self).buffer,
            r is Ok ==> final(self).regs == Radio::enable_cleared(old(self).regs),
            r is Ok ==> final(self).log() == old(self).log() + Radio::enable_accesses(Task::TxEn),
            r is Err ==> final(self).regs == old(self).regs,
            r is Err ==> final(self).log() == old(self).log(),
    {
        self.enable(Task::TxEn)
    }

    /// The accesses of START: the events cleared, then the task.
    pub open spec fn start_accesses() -> Seq<Access> {
        seq![
            Access::Clear(Event::End),
            Access::Clear(Event::Address),
            Access::Clear(Event::Payload),
            Access::Clear(Event::Disabled),
            Access::Trigger(Task::Start),
        ]
    }

    /// The image once the events that START clears are cleared.
    pub open spec fn start_cleared(regs: RadioRegisters) -> RadioRegisters {
        regs.cleared(Event::End).cleared(Event::Address).cleared(Event::Payload).cleared(
            Event::Disabled,
        )
    }

    /// What START does: a buffer is needed, and the RxIdle or TxIdle state.
    pub open spec fn start_result(&self) -> Result<()> {
        if self.held() is None {
            Err(Error::BufferNotDefined)
        } else if self.state() != State::RxIdle && self.state() != State::TxIdle {
            Err(Error::WrongState)
        } else {
            Ok(())
        }
    }

    /// Triggers START: the hardware sends or receives one packet.
    pub fn start(&mut self) -> (r: Result<()>)
        ensures
            r == old(self).start_result(),
            final(self).buffer == old(self).buffer,
            r is Ok ==> final(self).regs == Radio::start_cleared(old(self).regs),
            r is Ok ==> final(self).log() == old(self).log() + Radio::start_accesses(),
            r is Err ==> final(self).regs == old(self).regs,
            r is Err ==> final(self).log() == old(self).log(),
    {
        if self.buffer.is_none() {
            return Err(Error::BufferNotDefined);
        }
        match self.get_state() {
            State::RxIdle | State::TxIdle => {
                self.clear(Event::End);
                self.clear(Event::Address);
                self.clear(Event::Payload);
                self.clear(Event::Disabled);
                self.trigger(Task::Start);
                assert(self.log() =~= old(self).log() + Radio::start_accesses());
                Ok(())
            },
            _ => Err(Error::WrongState),
        }
    }

    /// Triggers START in the RxIdle state only, pointing PACKETPTR at the
    /// buffer first.
    pub fn start_rx(&mut self) -> (r: Result<()>)
        ensures
            r == (if old(self).held() is None {
                Err(Error::BufferNotDefined)
            } else if old(self).state() != State::RxIdle {
                Err(Error::WrongState)
            } else {
                Ok(())
            }),
            final(self).buffer == old(self).buffer,
            r is Ok ==> final(self).regs == Radio::start_cleared(old(self).regs),
            r is Ok ==> final(self).log() == old(self).log().push(Access::PacketPtr)
                + Radio::start_accesses(),
            r is Err ==> final(self).regs == old(self).regs,
            r is Err ==> final(self).log() == old(self).log(),
    {
        if self.buffer.is_none() {
            return Err(Error::BufferNotDefined);
        }
        match self.get_state() {
            State::RxIdle => {
                self.set_packet_ptr();
                let r = self.start();
                assert(r is Ok);
                r
            },
            _ => Err(Error::WrongState),
        }
    }

    /// Polls READY; once it fired, clears it.
    pub fn wait_idle(&mut self) -> (r: AsyncResult<()>)
        ensures
            final(self).buffer == old(self).buffer,
            old(self).regs.events_ready ==> {
                &&& r == Ok::<(), nb::Error<Error>>(())
                &&& final(self).regs == old(self).regs.cleared(Event::Ready)
                &&& final(self).log() == old(self).log().push(Access::Clear(Event::Ready))
            },
            !old(self).regs.events_ready ==> {
                &&& r == Err::<(), nb::Error<Error>>(nb::Error::WouldBlock)
                &&& final(self).regs == old(self).regs
                &&& final(self).log() == old(self).log()
            },
    {
        if self.is_ready() {
            self.clear(Event::Ready);
            Ok(())
        } else {
            Err(nb::Error::WouldBlock)
        }
    }

    /// The accesses once a packet was sent or received.
    pub open spec fn end_accesses() -> Seq<Access> {
        seq![Access::Clear(Event::End), Access::Clear(Event::Address), Access::Clear(Event::Payload)]
    }

    /// The image once the events of a packet are cleared.
    pub open spec fn end_cleared(regs: RadioRegisters) -> RadioRegisters {
        regs.cleared(Event::End).cleared(Event::Address).cleared(Event::Payload)
    }

    /// Polls END or DISABLED; once one fired, clears END, ADDRESS and
    /// PAYLOAD.
    pub fn wait_end_or_disable(&mut self) -> (r: AsyncResult<()>)
        ensures
            final(self).buffer == old(self).buffer,
            (old(self).regs.events_end || old(self).regs.events_disabled) ==> {
                &&& r == Ok::<(), nb::Error<Error>>(())
                &&& final(self).regs == Radio::end_cleared(old(self).regs)
                &&& final(self).log() == old(self).log() + Radio::end_accesses()
            },
            !(old(self).regs.events_end || old(self).regs.events_disabled) ==> {
                &&& r == Err::<(), nb::Error<Error>>(nb::Error::WouldBlock)
                &&& final(self).regs == old(self).regs
                &&& final(self).log() == old(self).log()
            },
    {
        if self.is_packet_received() {
            self.clear(Event::End);
            self.clear(Event::Address);
            self.clear(Event::Payload);
            assert(self.log() =~= old(self).log() + Radio::end_accesses());
            Ok(())
        } else {
            Err(nb::Error::WouldBlock)
        }
    }

    /// The same poll as `wait_end_or_disable`.
    pub fn wait_packet_received(&mut self) -> (r: AsyncResult<()>)
        ensures
            final(self).buffer == old(self).buffer,
            (old(self).regs.events_end || old(self).regs.events_disabled) ==> {
                &&& r == Ok::<(), nb::Error<Error>>(())
                &&& final(self).regs == Radio::end_cleared(old(self).regs)
                &&& final(self).log() == old(self).log() + Radio::end_accesses()
            },
            !(old(self).regs.events_end || old(self).regs.events_disabled) ==> {
                &&& r == Err::<(), nb::Error<Error>>(nb::Error::WouldBlock)
                &&& final(self).regs == old(self).regs
                &&& final(self).log() == old(self).log()
            },
    {
        self.wait_end_or_disable()
    }

    /// Triggers STOP, legal only while a packet is sent or received.
    pub fn stop(&mut self) -> (r: Result<()>)
        ensures
            final(self).buffer == old(self).buffer,
            final(self).regs == old(self).regs,
            (old(self).state() == State::Rx || old(self).state() == State::Tx) ==> {
                &&& r == Ok::<(), Error>(())
                &&& final(self).log() == old(self).log().push(Access::Trigger(Task::Stop))
            },
            !(old(self).state() == State::Rx || old(self).state() == State::Tx) ==> {
                &&& r == Err::<(), Error>(Error::WrongState)
                &&& final(self).log() == old(self).log()
            },
    {
        match self.get_state() {
            State::Rx | State::Tx => {
                self.trigger(Task::Stop);
                Ok(())
            },
            _ => Err(Error::WrongState),
        }
    }

    /// Clears DISABLED and triggers DISABLE, from any state.
    pub fn disable(&mut self)
        ensures
            final(self).buffer == old(self).buffer,
            final(self).regs == old(self).regs.cleared(Event::Disabled),
            final(self).log() == old(self).log().push(Access::Clear(Event::Disabled)).push(
                Access::Trigger(Task::Disable),
            ),
    {
        self.clear(Event::Disabled);
        self.trigger(Task::Disable);
    }

    /// Polls DISABLED; once it fired, clears it.
    pub fn wait_disabled(&mut self) -> (r: AsyncResult<()>)
        ensures
            final(self).buffer == old(self).buffer,
            old(self).regs.events_disabled ==> {
                &&& r == Ok::<(), nb::Error<Error>>(())
                &&& final(self).regs == old(self).regs.cleared(Event::Disabled)
                &&& final(self).log() == old(self).log().push(Access::Clear(Event::Disabled))
            },
            !old(self).regs.events_disabled ==> {
                &&& r == Err::<(), nb::Error<Error>>(nb::Error::WouldBlock)
                &&& final(self).regs == old(self).regs
                &&& final(self).log() == old(self).log()
            },
    {
        if self.is_disabled() {
            self.clear(Event::Disabled);
            Ok(())
        } else {
            Err(nb::Error::WouldBlock)
        }
    }

    /// Gives up the driver, returning the register image.
    pub fn free(self) -> (r: RadioRegisters)
        ensures
            r == self.regs,
    {
        self.regs
    }
}

} // verus!
