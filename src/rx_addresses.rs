//! Masks for the RXADDRESSES register: which pipes receive.

use vstd::prelude::*;

verus! {

pub const RX_ADDRESS_ALL: u8 = 0xff;
pub const RX_ADDRESS_NONE: u8 = 0x00;

pub const RX_ADDRESS_1: u8 = 0x01;
pub const RX_ADDRESS_2: u8 = 0x02;
pub const RX_ADDRESS_3: u8 = 0x04;
pub const RX_ADDRESS_4: u8 = 0x08;
pub const RX_ADDRESS_5: u8 = 0x10;
pub const RX_ADDRESS_6: u8 = 0x20;
pub const RX_ADDRESS_7: u8 = 0x40;
pub const RX_ADDRESS_8: u8 = 0x80;

} // verus!
