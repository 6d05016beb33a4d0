//! Packet configuration for the registers PCNF0 and PCNF1.

use vstd::prelude::*;

verus! {

/// Packet configuration for registers PCNF0 and PCNF1.
///
/// Every field is optional: a field that is set overrides the matching
/// bit field of the register, one that is not leaves it as it was.
#[derive(Debug, Clone, Copy, PartialEq, Eq, Structural)]
pub struct PacketConfig {
    /// Length on air of LENGTH field in number of bits.
    pub length_bits: Option<u8>,
    /// Length on air of S0 field in number of bytes.
    pub s0_byte_included: Option<bool>,
    /// Length on air of S1 field in number of bits.
    pub s1_len: Option<S1Length>,
    /// Include or exclude S1 field in RAM.
    pub s1_include_in_ram: Option<S1IncludeInRam>,
    /// Length of preamble on air.
    pub preamble_len: Option<PreambleLength>,
    /// Indicates if LENGTH field contains CRC or not.
    pub crc_included_in_length: Option<bool>,
    /// Maximum length of packet payload in bytes. If the packet payload is
    /// larger, the radio truncates it.
    pub max_bytes: Option<u8>,
    /// Static length in number of bytes, added to the length given by the
    /// LENGTH field when sending and receiving packets.
    pub static_bytes: Option<u8>,
    /// On air endianness of packet, this applies to the S0, LENGTH, S1 and
    /// the PAYLOAD fields.
    pub endianess: Option<Endianess>,
    /// Enable or disable packet whitening.
    pub whitening_enabled: Option<bool>,
}

impl Default for PacketConfig {
    /// A configuration that overrides nothing.
    fn default() -> (r: Self)
        ensures
            r == PacketConfig::empty(),
    {
        PacketConfig {
            length_bits: None,
            s0_byte_included: None,
            s1_len: None,
            s1_include_in_ram: None,
            preamble_len: None,
            crc_included_in_length: None,
            max_bytes: None,
            static_bytes: None,
            endianess: None,
            whitening_enabled: None,
        }
    }
}

impl PacketConfig {
    /// The configuration with no field set.
    pub open spec fn empty() -> PacketConfig {
        PacketConfig {
            length_bits: None,
            s0_byte_included: None,
            s1_len: None,
            s1_include_in_ram: None,
            preamble_len: None,
            crc_included_in_length: None,
            max_bytes: None,
            static_bytes: None,
            endianess: None,
            whitening_enabled: None,
        }
    }

    pub fn with_length_bits(self, bits: u8) -> (r: Self)
        ensures
            r == (PacketConfig { length_bits: Some(bits), ..self }),
    {
        PacketConfig { length_bits: Some(bits), ..self }
    }

    pub fn with_s0_byte_included(self, included: bool) -> (r: Self)
        ensures
            r == (PacketConfig { s0_byte_included: Some(included), ..self }),
    {
        PacketConfig { s0_byte_included: Some(included), ..self }
    }

    pub fn with_s1_len(self, bits: S1Length) -> (r: Self)
        ensures
            r == (PacketConfig { s1_len: Some(bits), ..self }),
    {
        PacketConfig { s1_len: Some(bits), ..self }
    }

    pub fn with_s1_include_in_ram(self, policy: S1IncludeInRam) -> (r: Self)
        ensures
            r == (PacketConfig { s1_include_in_ram: Some(policy), ..self }),
    {
        PacketConfig { s1_include_in_ram: Some(policy), ..self }
    }

    pub fn with_preamble_len(self, bits: PreambleLength) -> (r: Self)
        ensures
            r == (PacketConfig { preamble_len: Some(bits), ..self }),
    {
        PacketConfig { preamble_len: Some(bits), ..self }
    }

    pub fn with_crc_included_in_length(self, included: bool) -> (r: Self)
        ensures
            r == (PacketConfig { crc_included_in_length: Some(included), ..self }),
    {
        PacketConfig { crc_included_in_length: Some(included), ..self }
    }

    pub fn with_max_bytes(self, bytes: u8) -> (r: Self)
        ensures
            r == (PacketConfig { max_bytes: Some(bytes), ..self }),
    {
        PacketConfig { max_bytes: Some(bytes), ..self }
    }

    pub fn with_static_bytes(self, bytes: u8) -> (r: Self)
        ensures
            r == (PacketConfig { static_bytes: Some(bytes), ..self }),
    {
        PacketConfig { static_bytes: Some(bytes), ..self }
    }

    pub fn with_endianess(self, endianess: Endianess) -> (r: Self)
        ensures
            r == (PacketConfig { endianess: Some(endianess), ..self }),
    {
        PacketConfig { endianess: Some(endianess), ..self }
    }

    pub fn with_whitening_enabled(self, enabled: bool) -> (r: Self)
        ensures
            r == (PacketConfig { whitening_enabled: Some(enabled), ..self }),
    {
        PacketConfig { whitening_enabled: Some(enabled), ..self }
    }
}

/// Possible values for the length in bits of the S1 field
#[derive(Debug, Clone, Copy, PartialEq, Eq, Structural)]
pub enum S1Length {
    Of0Bits,
    Of1Bits,
    Of2Bits,
    Of3Bits,
    Of4Bits,
    Of5Bits,
    Of6Bits,
    Of7Bits,
    Of8Bits,
    Of9Bits,
    Of10Bits,
    Of11Bits,
    Of12Bits,
    Of13Bits,
    Of14Bits,
    Of15Bits,
}

impl S1Length {
    /// The value of the register field that selects this variant.
    pub open spec fn spec_value(self) -> u32 {
        match self {
            S1Length::Of0Bits => 0,
            S1Length::Of1Bits => 1,
            S1Length::Of2Bits => 2,
            S1Length::Of3Bits => 3,
            S1Length::Of4Bits => 4,
            S1Length::Of5Bits => 5,
            S1Length::Of6Bits => 6,
            S1Length::Of7Bits => 7,
            S1Length::Of8Bits => 8,
            S1Length::Of9Bits => 9,
            S1Length::Of10Bits => 10,
            S1Length::Of11Bits => 11,
            S1Length::Of12Bits => 12,
            S1Length::Of13Bits => 13,
            S1Length::Of14Bits => 14,
            S1Length::Of15Bits => 15,
        }
    }

    /// The variant selected by a field value, if any.
    pub fn from(value: u32) -> (r: Option<Self>)
        ensures
            match r {
                Some(x) => x.spec_value() == value,
                None => value >= 16,
            },
    {
        match value {
            0 => Some(S1Length::Of0Bits),
            1 => Some(S1Length::Of1Bits),
            2 => Some(S1Length::Of2Bits),
            3 => Some(S1Length::Of3Bits),
            4 => Some(S1Length::Of4Bits),
            5 => Some(S1Length::Of5Bits),
            6 => Some(S1Length::Of6Bits),
            7 => Some(S1Length::Of7Bits),
            8 => Some(S1Length::Of8Bits),
            9 => Some(S1Length::Of9Bits),
            10 => Some(S1Length::Of10Bits),
            11 => Some(S1Length::Of11Bits),
            12 => Some(S1Length::Of12Bits),
            13 => Some(S1Length::Of13Bits),
            14 => Some(S1Length::Of14Bits),
            15 => Some(S1Length::Of15Bits),
            _ => None,
        }
    }

    pub fn value(&self) -> (r: u32)
        ensures
            r == self.spec_value(),
            r < 16,
    {
        match self {
            S1Length::Of0Bits => 0,
            S1Length::Of1Bits => 1,
            S1Length::Of2Bits => 2,
            S1Length::Of3Bits => 3,
            S1Length::Of4Bits => 4,
            S1Length::Of5Bits => 5,
            S1Length::Of6Bits => 6,
            S1Length::Of7Bits => 7,
            S1Length::Of8Bits => 8,
            S1Length::Of9Bits => 9,
            S1Length::Of10Bits => 10,
            S1Length::Of11Bits => 11,
            S1Length::Of12Bits => 12,
            S1Length::Of13Bits => 13,
            S1Length::Of14Bits => 14,
            S1Length::Of15Bits => 15,
        }
    }
}

/// Whether to include or not the S1 field in RAM
#[derive(Debug, Clone, Copy, PartialEq, Eq, Structural)]
pub enum S1IncludeInRam {
    /// Include S1 field in RAM only if S1LEN > 0
    Automatic,
    /// Always include S1 field in RAM independent of S1LEN
    Always,
}

impl S1IncludeInRam {
    /// The value of the register field that selects this variant.
    pub open spec fn spec_value(self) -> u32 {
        match self {
            S1IncludeInRam::Automatic => 0,
            S1IncludeInRam::Always => 1,
        }
    }

    /// The variant selected by a field value, if any.
    pub fn from(value: u32) -> (r: Option<Self>)
        ensures
            match r {
                Some(x) => x.spec_value() == value,
                None => value >= 2,
            },
    {
        match value {
            0 => Some(S1IncludeInRam::Automatic),
            1 => Some(S1IncludeInRam::Always),
            _ => None,
        }
    }

    pub fn value(&self) -> (r: u32)
        ensures
            r == self.spec_value(),
            r < 2,
    {
        match self {
            S1IncludeInRam::Automatic => 0,
            S1IncludeInRam::Always => 1,
        }
    }
}

/// Length of preamble on air
#[derive(Debug, Clone, Copy, PartialEq, Eq, Structural)]
pub enum PreambleLength {
    /// 8-bit preamble
    Of8Bits,
    /// 16-bit preamble
    Of16Bits,
    /// 32-bit zero preamble used for IEEE 802.15.4
    Of32Bits,
    /// Preamble used for BLE long range
    ForLongRange,
}

impl PreambleLength {
    /// The value of the register field that selects this variant.
    pub open spec fn spec_value(self) -> u32 {
        match self {
            PreambleLength::Of8Bits => 0,
            PreambleLength::Of16Bits => 1,
            PreambleLength::Of32Bits => 2,
            PreambleLength::ForLongRange => 3,
        }
    }

    /// The variant selected by a field value, if any.
    pub fn from(value: u32) -> (r: Option<Self>)
        ensures
            match r {
                Some(x) => x.spec_value() == value,
                None => value >= 4,
            },
    {
        match value {
            0 => Some(PreambleLength::Of8Bits),
            1 => Some(PreambleLength::Of16Bits),
            2 => Some(PreambleLength::Of32Bits),
            3 => Some(PreambleLength::ForLongRange),
            _ => None,
        }
    }

    pub fn value(&self) -> (r: u32)
        ensures
            r == self.spec_value(),
            r < 4,
    {
        match self {
            PreambleLength::Of8Bits => 0,
            PreambleLength::Of16Bits => 1,
            PreambleLength::Of32Bits => 2,
            PreambleLength::ForLongRange => 3,
        }
    }
}

/// On air endianness of packet, this applies to the S0, LENGTH, S1 and the PAYLOAD fields
#[derive(Debug, Clone, Copy, PartialEq, Eq, Structural)]
pub enum Endianess {
    /// Least significant bit on air first
    LittleEndian,
    /// Most significant bit on air first
    BigEndian,
}

impl Endianess {
    /// The value of the register field that selects this variant.
    pub open spec fn spec_value(self) -> u32 {
        match self {
            Endianess::LittleEndian => 0,
            Endianess::BigEndian => 1,
        }
    }

    /// The variant selected by a field value, if any.
    pub fn from(value: u32) -> (r: Option<Self>)
        ensures
            match r {
                Some(x) => x.spec_value() == value,
                None => value >= 2,
            },
    {
        match value {
            0 => Some(Endianess::LittleEndian),
            1 => Some(Endianess::BigEndian),
            _ => None,
        }
    }

    pub fn value(&self) -> (r: u32)
        ensures
            r == self.spec_value(),
            r < 2,
    {
        match self {
            Endianess::LittleEndian => 0,
            Endianess::BigEndian => 1,
        }
    }
}

} // verus!
