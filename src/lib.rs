//! Enhanced ShockBurst link layer for the nRF52840 2.4 GHz radio.
//!
//! The crate has two levels: a register-level driver for the RADIO
//! peripheral (`radio`) and a session engine (`esb`) that turns it into an
//! acknowledged datagram link. The peripheral is represented by a
//! plain-value image of its registers (`registers`): every access the
//! driver makes is recorded in order, so that firmware can replay it on the
//! real hardware and copy the status registers back between polls.

pub mod logical_address;
pub mod mode;
pub mod tx_power;
pub mod packet_config;
pub mod base_address;
pub mod frequency;
pub mod rx_addresses;
pub mod states;
pub mod registers;
pub mod poll;
pub mod radio;
pub mod protocol;
pub mod esb;
pub mod laws;
pub mod frames;
pub mod m01;
pub mod p905;
pub mod diagnostics;
