use nrf52_radio_esb::base_address::BaseAddresses;
use nrf52_radio_esb::esb::Esb;
use nrf52_radio_esb::frequency::Frequency;
use nrf52_radio_esb::logical_address::LogicalAddress;
use nrf52_radio_esb::mode::Mode;
use nrf52_radio_esb::packet_config::{
    Endianess, PacketConfig, PreambleLength, S1IncludeInRam, S1Length,
};
use nrf52_radio_esb::protocol::Protocol;
use nrf52_radio_esb::radio::{Error, Radio};
use nrf52_radio_esb::registers::{Access, Register, Task};
use nrf52_radio_esb::rx_addresses::RX_ADDRESS_ALL;
use nrf52_radio_esb::states::State;
use nrf52_radio_esb::tx_power::TxPower;

#[test]
fn base0_is_bit_reversed() {
    let mut radio = Radio::new();
    radio.set_base_addresses(BaseAddresses::from_same_four_bytes([0xa0, 0xb1, 0xc2, 0xd3])).unwrap();
    assert_eq!(radio.regs.base0, 0xA0B1C2D3u32.reverse_bits());
    assert_eq!(radio.regs.base0, 0xCB438D05);
    assert_eq!(radio.regs.base1, 0xA0B1C2D3u32.reverse_bits());
    assert_eq!((radio.regs.pcnf1 >> 16) & 7, 4);
    assert_eq!(
        radio.journal,
        vec![
            Access::Write(Register::Pcnf1, 4 << 16),
            Access::Write(Register::Base0, 0xCB438D05),
            Access::Write(Register::Base1, 0xCB438D05),
        ]
    );
}

#[test]
fn balen_follows_the_variant() {
    let mut radio = Radio::new();
    radio.set_base_addresses(BaseAddresses::ThreeBytes(0x12345678, 0x00abcdef)).unwrap();
    assert_eq!((radio.regs.pcnf1 >> 16) & 7, 3);
    assert_eq!(radio.regs.base0, 0x00345678u32.reverse_bits());
    assert_eq!(radio.regs.base1, 0x00abcdefu32.reverse_bits());
    radio.set_base_addresses(BaseAddresses::from_same_two_bytes([0xa0, 0xb1])).unwrap();
    assert_eq!((radio.regs.pcnf1 >> 16) & 7, 2);
    assert_eq!(radio.regs.base0, 0x0000a0b1u32.reverse_bits());
}

#[test]
fn base_addresses_from_bytes_are_big_endian() {
    assert_eq!(BaseAddresses::from_same_two_bytes([0x12, 0x34]), BaseAddresses::TwoBytes(0x1234, 0x1234));
    assert_eq!(
        BaseAddresses::from_same_three_bytes([0x12, 0x34, 0x56]),
        BaseAddresses::ThreeBytes(0x123456, 0x123456)
    );
    assert_eq!(
        BaseAddresses::from_same_four_bytes([0xa0, 0xb1, 0xc2, 0xd3]),
        BaseAddresses::FourBytes(0xa0b1c2d3, 0xa0b1c2d3)
    );
}

#[test]
fn prefixes_are_bit_reversed_words() {
    let mut radio = Radio::new();
    radio.set_prefixes([0xe0, 0xe1, 0xe2, 0xe3, 0xe4, 0xe5, 0xe6, 0xe7]).unwrap();
    assert_eq!(radio.regs.prefix0, 0xe0e1e2e3u32.reverse_bits());
    assert_eq!(radio.regs.prefix1, 0xe4e5e6e7u32.reverse_bits());
}

#[test]
fn frequency_channels_bounds_accepted() {
    assert_eq!(Frequency::from_2400mhz_channel(0), Frequency::Default2400MHz(0));
    assert_eq!(Frequency::from_2400mhz_channel(100), Frequency::Default2400MHz(100));
    assert_eq!(Frequency::from_2360mhz_channel(100), Frequency::Low2360MHz(100));
    let mut radio = Radio::new();
    radio.set_frequency(Frequency::from_2400mhz_channel(78)).unwrap();
    assert_eq!(radio.regs.frequency, 78);
    radio.set_frequency(Frequency::from_2360mhz_channel(5)).unwrap();
    assert_eq!(radio.regs.frequency, 0x105);
}

#[test]
fn register_values_of_enums() {
    assert_eq!(TxPower::Pos8dBm.value(), 0x08);
    assert_eq!(TxPower::ZerodBm.value(), 0);
    assert_eq!(TxPower::Neg4dBm.value(), 0xfc);
    assert_eq!(TxPower::Neg40dBm.value(), 0xd8);
    assert_eq!(TxPower::Custom(0x33).value(), 0x33);
    assert_eq!(Mode::Nrf1Mbit.value(), 0);
    assert_eq!(Mode::Nrf2Mbit.value(), 1);
    assert_eq!(Mode::Ble1Mbit.value(), 3);
    assert_eq!(Mode::Ieee802154At250Kbit.value(), 15);
    assert_eq!(S1Length::Of3Bits.value(), 3);
    assert_eq!(S1Length::from(15), Some(S1Length::Of15Bits));
    assert_eq!(S1Length::from(16), None);
    assert_eq!(PreambleLength::from(2), Some(PreambleLength::Of32Bits));
    assert_eq!(Endianess::BigEndian.value(), 1);
    assert_eq!(S1IncludeInRam::Always.value(), 1);
    assert_eq!(LogicalAddress::from(3), Some(LogicalAddress::Of3));
    assert_eq!(LogicalAddress::from(8), None);
    assert_eq!(LogicalAddress::Of7.value(), 7);
}

#[test]
fn states_from_register_value() {
    assert_eq!(State::from_value(0), State::Disabled);
    assert_eq!(State::from_value(1), State::RxRumpUp);
    assert_eq!(State::from_value(3), State::Rx);
    assert_eq!(State::from_value(4), State::RxDisable);
    assert_eq!(State::from_value(9), State::TxRumpUp);
    assert_eq!(State::from_value(12), State::TxDisable);
    assert_eq!(State::from_value(5), State::Unknown(5));
}

#[test]
fn simple_register_writes() {
    let mut radio = Radio::new();
    radio.set_tx_power(TxPower::Pos8dBm).unwrap();
    radio.set_mode(Mode::Nrf2Mbit).unwrap();
    radio.set_rx_addresses(RX_ADDRESS_ALL).unwrap();
    radio.enable_power().unwrap();
    radio.disable_all_interrupts().unwrap();
    radio.set_tx_address(LogicalAddress::Of4);
    assert_eq!(radio.regs.txpower, 8);
    assert_eq!(radio.regs.mode, 1);
    assert_eq!(radio.regs.rxaddresses, 0xff);
    assert_eq!(radio.regs.power, 1);
    assert_eq!(radio.regs.intenclr, 0xffff_ffff);
    assert_eq!(radio.regs.txaddress, 4);
    assert_eq!(radio.take_journal().len(), 6);
}

#[test]
fn packet_config_overrides_only_given_fields() {
    let mut radio = Radio::new();
    radio.regs.pcnf0 = 0xffff_ffff;
    radio.regs.pcnf1 = 0;
    radio.set_packet_config(PacketConfig::default().with_length_bits(3).with_static_bytes(7)).unwrap();
    assert_eq!(radio.regs.pcnf0, 0xffff_fff3);
    assert_eq!(radio.regs.pcnf1, 0x0700);
    let pc = PacketConfig::default().with_max_bytes(5).with_whitening_enabled(true);
    assert_eq!(pc.max_bytes, Some(5));
    assert_eq!(pc.whitening_enabled, Some(true));
    assert_eq!(pc.length_bits, None);
}

#[test]
fn fixed_protocol_configures_packet_format() {
    let esb = Esb::new(Radio::new(), Protocol::fixed_payload(32), vec![0; 34], vec![0; 34]);
    assert_eq!(esb.radio.regs.pcnf0, 0x0003_0006);
    assert_eq!(esb.radio.regs.pcnf1, 0x0100_2020);
}

#[test]
fn dynamic_protocol_configures_packet_format() {
    let esb = Esb::new(Radio::new(), Protocol::dynamic_payload(100), vec![0; 102], vec![0; 102]);
    assert_eq!(esb.radio.regs.pcnf0, 0x0003_0008);
    assert_eq!(esb.radio.regs.pcnf1, 0x0100_0064);
    let esb = Esb::new(Radio::new(), Protocol::dynamic_payload(32), vec![0; 34], vec![0; 34]);
    assert_eq!(esb.radio.regs.pcnf0 & 0xf, 6);
    assert_eq!(esb.radio.regs.pcnf1 & 0xff00, 0);
}

#[test]
fn crc_configurations() {
    let mut esb = Esb::new(Radio::new(), Protocol::fixed_payload(32), vec![0; 34], vec![0; 34]);
    esb.set_crc_16bits().unwrap();
    assert_eq!(esb.radio.regs.crccnf & 3, 2);
    assert_eq!(esb.radio.regs.crcinit, 0xffff);
    assert_eq!(esb.radio.regs.crcpoly, 0x11021);
    esb.set_crc_8bits().unwrap();
    assert_eq!(esb.radio.regs.crccnf & 3, 1);
    assert_eq!(esb.radio.regs.crcinit, 0xff);
    assert_eq!(esb.radio.regs.crcpoly, 0x107);
    esb.set_crc_disabled().unwrap();
    assert_eq!(esb.radio.regs.crccnf & 3, 0);
    let mut radio = Radio::new();
    radio.set_crc_24bits(0x1234_5678, 0x65b).unwrap();
    assert_eq!(radio.regs.crccnf, 3);
    assert_eq!(radio.regs.crcinit, 0x34_5678);
    radio.set_crc_skip_address().unwrap();
    assert_eq!(radio.regs.crccnf, 0x103);
    radio.set_crc_include_address().unwrap();
    assert_eq!(radio.regs.crccnf, 0x003);
    radio.set_crc_ieee802154().unwrap();
    assert_eq!(radio.regs.crccnf, 0x203);
}

#[test]
fn driver_refuses_wrong_states() {
    let mut radio = Radio::new();
    assert_eq!(radio.enable_rx(), Err(Error::BufferNotDefined));
    assert_eq!(radio.start(), Err(Error::BufferNotDefined));
    assert_eq!(radio.swap_buffer(Some(vec![0; 4])), None);
    assert_eq!(radio.get_buffer().len(), 4);
    radio.regs.state = 3;
    assert_eq!(radio.enable_tx(), Err(Error::WrongState));
    assert_eq!(radio.start(), Err(Error::WrongState));
    assert_eq!(radio.stop(), Ok(()));
    assert_eq!(radio.journal.last(), Some(&Access::Trigger(Task::Stop)));
    radio.regs.state = 2;
    assert_eq!(radio.stop(), Err(Error::WrongState));
    assert_eq!(radio.start_rx(), Ok(()));
    radio.regs.state = 10;
    assert_eq!(radio.start_rx(), Err(Error::WrongState));
    assert_eq!(radio.start(), Ok(()));
    assert_eq!(radio.swap_buffer(None), Some(vec![0; 4]));
    assert!(radio.get_buffer().is_empty());
}

#[test]
fn polls_would_block_until_the_event() {
    let mut radio = Radio::new();
    assert!(matches!(radio.wait_idle(), Err(nb::Error::WouldBlock)));
    assert!(matches!(radio.wait_disabled(), Err(nb::Error::WouldBlock)));
    assert!(matches!(radio.wait_end_or_disable(), Err(nb::Error::WouldBlock)));
    radio.regs.events_ready = true;
    assert_eq!(radio.wait_idle(), Ok(()));
    assert!(!radio.is_ready());
    radio.regs.events_disabled = true;
    assert!(radio.is_packet_received());
    assert_eq!(radio.wait_packet_received(), Ok(()));
    assert!(radio.is_disabled());
    assert_eq!(radio.wait_disabled(), Ok(()));
    assert!(!radio.is_disabled());
    radio.regs.rxmatch = 6;
    radio.regs.rxcrc = 0xabc;
    assert_eq!(radio.get_received_address(), LogicalAddress::Of6);
    assert_eq!(radio.get_received_crc(), 0xabc);
    radio.disable();
    assert_eq!(radio.journal.last(), Some(&Access::Trigger(Task::Disable)));
}

#[test]
fn configuration_needs_an_idle_radio() {
    let mut radio = Radio::new();
    radio.regs.state = 3;
    assert!(!radio.is_configurable());
    assert_eq!(radio.set_mode(Mode::Nrf2Mbit), Err(Error::WrongState));
    assert_eq!(radio.set_frequency(Frequency::from_2400mhz_channel(1)), Err(Error::WrongState));
    assert_eq!(radio.regs.mode, 0);
    assert!(radio.journal.is_empty());
    radio.regs.state = 10;
    assert_eq!(radio.set_mode(Mode::Nrf2Mbit), Ok(()));
    assert_eq!(radio.regs.mode, 1);
}
