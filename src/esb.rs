//! The Enhanced ShockBurst session engine.
//!
//! The engine owns the radio and two payload buffers, one to receive and
//! one to send. A receive runs the steps of the hardware state machine to
//! get one frame, then sends its acknowledgement; a send runs them to send
//! one frame, then receives its acknowledgement. Each call of `wait_rx` or
//! `wait_tx` advances one step.

use vstd::prelude::*;
use vstd::slice::SliceAdditionalExecFns;

use crate::logical_address::LogicalAddress;
use crate::packet_config::{Endianess, PacketConfig, PreambleLength, S1IncludeInRam, S1Length};
use crate::protocol::Protocol;
use crate::radio::{Error as RadioError, Radio, Result as RadioResult};
use crate::registers::{Access, Event, RadioRegisters, Register, Task};
use crate::states::State as RadioState;

verus! {

#[derive(Debug, Clone, Copy, PartialEq, Eq, Structural)]
pub enum Error {
    /// Standby required before starting a rx/tx transaction
    StandbyRequired,
    /// Rx buffer not ready to start a rx transaction
    RxBufferBusy,
    /// Tx buffer not ready to start a tx transaction
    TxBufferBusy,
    /// wait_rx or wait_tx called without a transaction started before
    ReceiveNotStarted,
    /// Unexpected error from the radio
    RadioError(RadioError),
}

pub type Result<A> = core::result::Result<A, Error>;

pub type AsyncResult<A> = core::result::Result<A, nb::Error<Error>>;

/// How to receive a frame.
#[derive(Debug, Clone, Copy, PartialEq, Eq, Structural)]
pub struct RxConfig {
    /// Do not acknowledge the frame received.
    pub skip_ack: bool,
    /// How many frames with an invalid CRC are skipped before giving up.
    pub retries: usize,
}

impl Default for RxConfig {
    fn default() -> (r: Self)
        ensures
            r == (RxConfig { skip_ack: false, retries: 1 }),
    {
        RxConfig { skip_ack: false, retries: 1 }
    }
}

impl RxConfig {
    pub fn with_skip_ack(self, skip_ack: bool) -> (r: Self)
        ensures
            r == (RxConfig { skip_ack, ..self }),
    {
        RxConfig { skip_ack, ..self }
    }

    pub fn with_retries(self, retries: usize) -> (r: Self)
        ensures
            r == (RxConfig { retries, ..self }),
    {
        RxConfig { retries, ..self }
    }
}

/// How to send a frame.
#[derive(Debug, Clone, Copy, PartialEq, Eq, Structural)]
pub struct TxConfig {
    /// The pipe to send on.
    pub address: LogicalAddress,
    /// Do not wait for an acknowledgement.
    pub skip_ack: bool,
    /// How many acknowledgements with an invalid CRC are skipped before
    /// giving up.
    pub retries: usize,
}

impl Default for TxConfig {
    fn default() -> (r: Self)
        ensures
            r == (TxConfig { address: LogicalAddress::Of0, skip_ack: false, retries: 1 }),
    {
        TxConfig { address: LogicalAddress::Of0, skip_ack: false, retries: 1 }
    }
}

impl TxConfig {
    pub fn new(address: LogicalAddress) -> (r: Self)
        ensures
            r == (TxConfig { address, skip_ack: false, retries: 1 }),
    {
        TxConfig { address, ..TxConfig::default() }
    }

    pub fn with_skip_ack(self, skip_ack: bool) -> (r: Self)
        ensures
            r == (TxConfig { skip_ack, ..self }),
    {
        TxConfig { skip_ack, ..self }
    }

    pub fn with_retries(self, retries: usize) -> (r: Self)
        ensures
            r == (TxConfig { retries, ..self }),
    {
        TxConfig { retries, ..self }
    }
}

/// A frame received with a valid CRC.
#[derive(Debug, Clone, Copy, PartialEq, Eq, Structural)]
pub struct RxPacket {
    /// The LENGTH byte of the frame.
    pub length: u8,
    /// The packet identifier, 0..=3.
    pub pid: u8,
    /// The sender asks for no acknowledgement.
    pub no_ack: bool,
    /// The pipe on which the frame arrived.
    pub address: LogicalAddress,
    /// The CRC of the frame.
    pub crc: u32,
}

/// A frame to send, and whether an acknowledgement is awaited.
#[derive(Debug, Clone, Copy, PartialEq, Eq, Structural)]
pub struct TxPacket {
    pub address: LogicalAddress,
    pub wait_ack: bool,
}

/// The steps of one transaction with the hardware, in order.
#[derive(Debug, Clone, Copy, PartialEq, Eq, Structural)]
pub enum Step {
    Disable,
    WaitingDisable,
    Enable,
    WaitingIdle,
    Start,
    WaitingEnd,
}

/// The engine's state.
#[derive(Debug, Clone, Copy, PartialEq, Eq, Structural)]
pub enum EngineState {
    /// No transaction.
    Standby,
    /// Receiving a frame.
    Rx(RxConfig, Step),
    /// Sending the acknowledgement of a frame received.
    TxAck(RxPacket, Step),
    /// Sending a frame.
    Tx(TxConfig, Step),
    /// Receiving the acknowledgement of a frame sent.
    RxAck(TxConfig, Step),
    /// Waiting for the radio to be disabled, before Standby.
    Disabling,
    /// A fatal error; every further operation returns it.
    Error(Error),
}

/// Which of the engine's two buffers.
#[derive(Debug, Clone, Copy, PartialEq, Eq, Structural)]
pub enum Role {
    Receive,
    Transmit,
}

// ---------------------------------------------------------------------------
// The two-byte header: LENGTH, then PID << 1 | NOACK.

/// The PID held by the second header byte.
pub open spec fn spec_header_pid(b: u8) -> u8 {
    (b >> 1u8) & 3u8
}

/// The NOACK flag held by the second header byte.
pub open spec fn spec_header_no_ack(b: u8) -> bool {
    b & 1u8 == 1u8
}

/// The second header byte for a PID and a NOACK flag.
pub open spec fn spec_header_byte(pid: u8, no_ack: bool) -> u8 {
    (pid << 1u8) | (if no_ack { 1u8 } else { 0u8 })
}

/// The second header byte with its PID bits set to `pid`, the other bits
/// kept.
pub open spec fn spec_stamp_pid(b: u8, pid: u8) -> u8 {
    (b & 0xf9u8) | (pid << 1u8)
}

pub fn header_byte(pid: u8, no_ack: bool) -> (r: u8)
    requires
        pid <= 3,
    ensures
        r == spec_header_byte(pid, no_ack),
{
    (pid << 1u8) | (if no_ack { 1u8 } else { 0u8 })
}

pub fn header_pid(b: u8) -> (r: u8)
    ensures
        r == spec_header_pid(b),
        r <= 3,
{
    assert((b >> 1u8) & 3u8 <= 3u8) by (bit_vector);
    (b >> 1u8) & 3u8
}

pub fn header_no_ack(b: u8) -> (r: bool)
    ensures
        r == spec_header_no_ack(b),
{
    b & 1u8 == 1u8
}

/// Decoding the header byte of a PID and a NOACK flag gives them back.
pub proof fn lemma_header_round_trip(pid: u8, no_ack: bool)
    requires
        pid <= 3,
    ensures
        spec_header_pid(spec_header_byte(pid, no_ack)) == pid,
        spec_header_no_ack(spec_header_byte(pid, no_ack)) == no_ack,
{
    let n: u8 = if no_ack { 1u8 } else { 0u8 };
    assert((((pid << 1u8) | n) >> 1u8) & 3u8 == pid && (((pid << 1u8) | n) & 1u8 == 1u8) == (n
        == 1u8)) by (bit_vector)
        requires
            pid <= 3,
            n <= 1,
    ;
}

/// The packet that a frame with a valid CRC stands for.
pub open spec fn packet_of(frame: Seq<u8>, hw: RadioRegisters) -> RxPacket {
    RxPacket {
        length: frame[0],
        pid: spec_header_pid(frame[1]),
        no_ack: spec_header_no_ack(frame[1]),
        address: LogicalAddress::spec_from(hw.rxmatch & 7),
        crc: hw.rxcrc,
    }
}

/// The acknowledgement of a packet: no payload, the packet's PID, and the
/// NOACK flag clear.
pub open spec fn ack_header(p: RxPacket) -> Seq<u8> {
    seq![0u8, spec_header_byte(p.pid, false)]
}

/// A buffer with its two header bytes replaced, when it has them.
pub open spec fn with_header(b: Seq<u8>, h: Seq<u8>) -> Seq<u8> {
    if b.len() >= 2 {
        b.update(0, h[0]).update(1, h[1])
    } else {
        b
    }
}

// ---------------------------------------------------------------------------
// The transition table.

/// The first step of a receive that suits the hardware state.
pub open spec fn rx_step_from(s: RadioState) -> Step {
    match s {
        RadioState::Disabled => Step::Enable,
        RadioState::RxRumpUp => Step::WaitingIdle,
        RadioState::RxIdle => Step::Start,
        RadioState::Rx => Step::WaitingEnd,
        RadioState::RxDisable => Step::WaitingDisable,
        _ => Step::Disable,
    }
}

/// The first step of a send that suits the hardware state.
pub open spec fn tx_step_from(s: RadioState) -> Step {
    match s {
        RadioState::Disabled => Step::Enable,
        RadioState::TxRumpUp => Step::WaitingIdle,
        RadioState::TxIdle => Step::Start,
        RadioState::Tx => Step::WaitingEnd,
        RadioState::TxDisable => Step::WaitingDisable,
        _ => Step::Disable,
    }
}

pub open spec fn hw_state(hw: RadioRegisters) -> RadioState {
    RadioState::spec_from_value(hw.state)
}

/// The outcome of a step other than WaitingEnd: the step to be in next, or
/// the radio's error.
pub open spec fn step_outcome(step: Step, hw: RadioRegisters) -> core::result::Result<
    Step,
    RadioError,
> {
    match step {
        Step::Disable => Ok(Step::WaitingDisable),
        Step::WaitingDisable => if hw.events_disabled {
            Ok(Step::Enable)
        } else {
            Ok(Step::WaitingDisable)
        },
        Step::Enable => if hw_state(hw) == RadioState::Disabled {
            Ok(Step::WaitingIdle)
        } else {
            Err(RadioError::WrongState)
        },
        Step::WaitingIdle => if hw.events_ready {
            Ok(Step::Start)
        } else {
            Ok(Step::WaitingIdle)
        },
        Step::Start => if hw_state(hw) == RadioState::RxIdle || hw_state(hw) == RadioState::TxIdle {
            Ok(Step::WaitingEnd)
        } else {
            Err(RadioError::WrongState)
        },
        Step::WaitingEnd => Ok(Step::WaitingEnd),
    }
}

/// The status that only the peripheral changes is the same in both images:
/// the state, the CRC status, and the pipe and CRC of the last packet.
pub open spec fn status_kept(a: RadioRegisters, b: RadioRegisters) -> bool {
    &&& a.state == b.state
    &&& a.crc_ok == b.crc_ok
    &&& a.rxmatch == b.rxmatch
    &&& a.rxcrc == b.rxcrc
}

/// The accesses of a step other than WaitingEnd; `task` enables the
/// direction of the transaction.
pub open spec fn step_accesses(step: Step, hw: RadioRegisters, task: Task) -> Seq<Access> {
    match step {
        Step::Disable => seq![Access::Clear(Event::Disabled), Access::Trigger(Task::Disable)],
        Step::WaitingDisable => if hw.events_disabled {
            seq![Access::Clear(Event::Disabled)]
        } else {
            Seq::empty()
        },
        Step::Enable => if hw_state(hw) == RadioState::Disabled {
            Radio::enable_accesses(task)
        } else {
            Seq::empty()
        },
        Step::WaitingIdle => if hw.events_ready {
            seq![Access::Clear(Event::Ready)]
        } else {
            Seq::empty()
        },
        Step::Start => if hw_state(hw) == RadioState::RxIdle || hw_state(hw) == RadioState::TxIdle {
            Radio::start_accesses()
        } else {
            Seq::empty()
        },
        Step::WaitingEnd => Seq::empty(),
    }
}

/// The accesses that end a transaction: DISABLED cleared if it fired,
/// else DISABLE triggered.
pub open spec fn finishing_accesses(hw: RadioRegisters) -> Seq<Access> {
    if hw.events_disabled {
        seq![Access::Clear(Event::Disabled)]
    } else {
        seq![Access::Clear(Event::Disabled), Access::Trigger(Task::Disable)]
    }
}

/// The accesses of the Disabling state's poll.
pub open spec fn disabling_accesses(hw: RadioRegisters) -> Seq<Access> {
    if hw.events_disabled {
        seq![Access::Clear(Event::Disabled)]
    } else {
        Seq::empty()
    }
}

/// Whether END or DISABLED fired.
pub open spec fn ended(hw: RadioRegisters) -> bool {
    hw.events_end || hw.events_disabled
}

/// The frame received is usable: valid CRC and a whole header.
pub open spec fn frame_ok(frame: Seq<u8>, hw: RadioRegisters) -> bool {
    hw.crc_ok && frame.len() >= 2
}

pub open spec fn would_block(s: EngineState) -> (EngineState, AsyncResult<()>) {
    (s, Err(nb::Error::WouldBlock))
}

pub open spec fn fails(e: Error) -> (EngineState, AsyncResult<()>) {
    (EngineState::Error(e), Err(nb::Error::Other(e)))
}

/// The end of a transaction: Standby at once if the radio reported
/// DISABLED, else a wait for it.
pub open spec fn finishing(hw: RadioRegisters) -> (EngineState, AsyncResult<()>) {
    if hw.events_disabled {
        (EngineState::Standby, Ok(()))
    } else {
        would_block(EngineState::Disabling)
    }
}

/// A step other than WaitingEnd, of the transaction whose state is
/// `at(step)`.
pub open spec fn common(
    step: Step,
    hw: RadioRegisters,
    at: spec_fn(Step) -> EngineState,
) -> (EngineState, AsyncResult<()>) {
    match step_outcome(step, hw) {
        Ok(next) => would_block(at(next)),
        Err(e) => fails(Error::RadioError(e)),
    }
}

/// A frame with an invalid CRC: receive again while retries are left.
pub open spec fn retry(
    retries_left: usize,
    hw: RadioRegisters,
    at: spec_fn(Step) -> EngineState,
) -> (EngineState, AsyncResult<()>) {
    if retries_left > 0 {
        would_block(at(rx_step_from(hw_state(hw))))
    } else {
        fails(Error::RadioError(RadioError::CrcMismatch))
    }
}

impl Esb {
    /// The contents of one of the two buffers, wherever it is.
    pub open spec fn contents(&self, role: Role) -> Seq<u8> {
        if self.lent == Some(role) {
            match self.radio.buffer {
                Some(b) => b@,
                None => Seq::empty(),
            }
        } else {
            match if role == Role::Receive {
                self.rx_buffer
            } else {
                self.tx_buffer
            } {
                Some(b) => b@,
                None => Seq::empty(),
            }
        }
    }

    /// Where the buffers must be in each state: the one that the
    /// transaction uses is with the hardware, none is in Standby.
    pub open spec fn lent_in(s: EngineState) -> Option<Option<Role>> {
        match s {
            EngineState::Standby => Some(None),
            EngineState::Disabling => Some(None),
            EngineState::Rx(_, _) => Some(Some(Role::Receive)),
            EngineState::RxAck(_, _) => Some(Some(Role::Receive)),
            EngineState::TxAck(_, _) => Some(Some(Role::Transmit)),
            EngineState::Tx(_, _) => Some(Some(Role::Transmit)),
            EngineState::Error(_) => None,
        }
    }

    /// The engine's invariant: each buffer is in exactly one place, the
    /// hardware holds at most one of them, and which one follows the state.
    pub open spec fn wf(&self) -> bool {
        &&& self.pid <= 3
        &&& self.placed()
        &&& match Esb::lent_in(self.state) {
            Some(l) => self.lent == l,
            None => true,
        }
        &&& match self.state {
            EngineState::TxAck(p, _) => p.pid <= 3,
            EngineState::Error(e) => e is RadioError,
            _ => true,
        }
    }

    /// The next state and the result of `wait_rx`.
    pub open spec fn poll_rx(&self) -> (EngineState, AsyncResult<()>) {
        let hw = self.radio.regs;
        match self.state {
            EngineState::Rx(cfg, Step::WaitingEnd) => {
                let frame = self.contents(Role::Receive);
                if !ended(hw) {
                    would_block(self.state)
                } else if frame_ok(frame, hw) {
                    let p = packet_of(frame, hw);
                    if cfg.skip_ack || p.no_ack {
                        finishing(hw)
                    } else {
                        would_block(EngineState::TxAck(p, tx_step_from(hw_state(hw))))
                    }
                } else {
                    retry(self.retries_left, hw, |s: Step| EngineState::Rx(cfg, s))
                }
            },
            EngineState::Rx(cfg, step) => common(step, hw, |s: Step| EngineState::Rx(cfg, s)),
            EngineState::TxAck(p, Step::WaitingEnd) => if ended(hw) {
                finishing(hw)
            } else {
                would_block(self.state)
            },
            EngineState::TxAck(p, step) => common(step, hw, |s: Step| EngineState::TxAck(p, s)),
            EngineState::Disabling => if hw.events_disabled {
                (EngineState::Standby, Ok(()))
            } else {
                would_block(EngineState::Disabling)
            },
            EngineState::Error(e) => (self.state, Err(nb::Error::Other(e))),
            _ => (self.state, Err(nb::Error::Other(Error::ReceiveNotStarted))),
        }
    }

    /// The last packet received, after `wait_rx`.
    pub open spec fn packet_after_rx(&self) -> Option<RxPacket> {
        let hw = self.radio.regs;
        match self.state {
            EngineState::Rx(cfg, Step::WaitingEnd) => {
                let frame = self.contents(Role::Receive);
                if ended(hw) && frame_ok(frame, hw) && (cfg.skip_ack || packet_of(
                    frame,
                    hw,
                ).no_ack) {
                    Some(packet_of(frame, hw))
                } else {
                    self.rx_packet
                }
            },
            EngineState::TxAck(p, Step::WaitingEnd) => if ended(hw) {
                Some(p)
            } else {
                self.rx_packet
            },
            _ => self.rx_packet,
        }
    }

    /// The retries left after `wait_rx`.
    pub open spec fn retries_after_rx(&self) -> usize {
        let hw = self.radio.regs;
        match self.state {
            EngineState::Rx(_, Step::WaitingEnd) => if ended(hw) && !frame_ok(
                self.contents(Role::Receive),
                hw,
            ) && self.retries_left > 0 {
                (self.retries_left - 1) as usize
            } else {
                self.retries_left
            },
            _ => self.retries_left,
        }
    }

    /// The transmit buffer after `wait_rx`: the acknowledgement's header is
    /// written when its transaction enables the radio.
    pub open spec fn tx_after_rx(&self) -> Seq<u8> {
        match self.state {
            EngineState::TxAck(p, Step::Enable) => with_header(
                self.contents(Role::Transmit),
                ack_header(p),
            ),
            _ => self.contents(Role::Transmit),
        }
    }

    /// The next state and the result of `wait_tx`.
    pub open spec fn poll_tx(&self) -> (EngineState, AsyncResult<()>) {
        let hw = self.radio.regs;
        match self.state {
            EngineState::Tx(cfg, Step::WaitingEnd) => if !ended(hw) {
                would_block(self.state)
            } else if cfg.skip_ack {
                finishing(hw)
            } else {
                would_block(EngineState::RxAck(cfg, rx_step_from(hw_state(hw))))
            },
            EngineState::Tx(cfg, step) => common(step, hw, |s: Step| EngineState::Tx(cfg, s)),
            EngineState::RxAck(cfg, Step::WaitingEnd) => if !ended(hw) {
                would_block(self.state)
            } else if frame_ok(self.contents(Role::Receive), hw) {
                finishing(hw)
            } else {
                retry(self.retries_left, hw, |s: Step| EngineState::RxAck(cfg, s))
            },
            EngineState::RxAck(cfg, step) => common(step, hw, |s: Step| EngineState::RxAck(cfg, s)),
            EngineState::Disabling => if hw.events_disabled {
                (EngineState::Standby, Ok(()))
            } else {
                would_block(EngineState::Disabling)
            },
            EngineState::Error(e) => (self.state, Err(nb::Error::Other(e))),
            _ => (self.state, Err(nb::Error::Other(Error::ReceiveNotStarted))),
        }
    }

    /// The retries left after `wait_tx`.
    pub open spec fn retries_after_tx(&self) -> usize {
        let hw = self.radio.regs;
        match self.state {
            EngineState::Tx(cfg, Step::WaitingEnd) => if ended(hw) && !cfg.skip_ack {
                cfg.retries
            } else {
                self.retries_left
            },
            EngineState::RxAck(_, Step::WaitingEnd) => if ended(hw) && !frame_ok(
                self.contents(Role::Receive),
                hw,
            ) && self.retries_left > 0 {
                (self.retries_left - 1) as usize
            } else {
                self.retries_left
            },
            _ => self.retries_left,
        }
    }
}

impl Esb {
    /// The accesses that `wait_rx` makes.
    pub open spec fn rx_accesses(&self) -> Seq<Access> {
        let hw = self.radio.regs;
        match self.state {
            EngineState::Rx(cfg, Step::WaitingEnd) => {
                let frame = self.contents(Role::Receive);
                if !ended(hw) {
                    Seq::empty()
                } else if frame_ok(frame, hw) {
                    if cfg.skip_ack || packet_of(frame, hw).no_ack {
                        Radio::end_accesses() + finishing_accesses(hw)
                    } else {
                        Radio::end_accesses().push(Access::PacketPtr)
                    }
                } else {
                    Radio::end_accesses()
                }
            },
            EngineState::Rx(_, step) => step_accesses(step, hw, Task::RxEn),
            EngineState::TxAck(_, Step::WaitingEnd) => if ended(hw) {
                Radio::end_accesses() + finishing_accesses(hw)
            } else {
                Seq::empty()
            },
            EngineState::TxAck(p, Step::Enable) => seq![
                Access::Write(Register::TxAddress, p.address.spec_value()),
            ] + step_accesses(Step::Enable, hw, Task::TxEn),
            EngineState::TxAck(_, step) => step_accesses(step, hw, Task::TxEn),
            EngineState::Disabling => disabling_accesses(hw),
            _ => Seq::empty(),
        }
    }

    /// The accesses that `wait_tx` makes.
    pub open spec fn tx_accesses(&self) -> Seq<Access> {
        let hw = self.radio.regs;
        match self.state {
            EngineState::Tx(cfg, Step::WaitingEnd) => if !ended(hw) {
                Seq::empty()
            } else if cfg.skip_ack {
                Radio::end_accesses() + finishing_accesses(hw)
            } else {
                Radio::end_accesses().push(Access::PacketPtr)
            },
            EngineState::Tx(_, step) => step_accesses(step, hw, Task::TxEn),
            EngineState::RxAck(_, Step::WaitingEnd) => if !ended(hw) {
                Seq::empty()
            } else if frame_ok(self.contents(Role::Receive), hw) {
                Radio::end_accesses() + finishing_accesses(hw)
            } else {
                Radio::end_accesses()
            },
            EngineState::RxAck(_, step) => step_accesses(step, hw, Task::RxEn),
            EngineState::Disabling => disabling_accesses(hw),
            _ => Seq::empty(),
        }
    }
}

/// The packet configuration that a protocol asks for: 6 bits of LENGTH (8
/// for a dynamic payload over 32 bytes), no S0, 3 bits of S1, an 8-bit
/// preamble, big endian, no whitening; a fixed payload is all static.
pub open spec fn protocol_packet_config(protocol: Protocol) -> PacketConfig {
    let (length_bits, max, stat) = match protocol {
        Protocol::FixedPayloadLength(n) => (6u8, n, n),
        Protocol::DynamicPayloadLength(n) => (if n <= 32 { 6u8 } else { 8u8 }, n, 0u8),
    };
    PacketConfig {
        length_bits: Some(length_bits),
        s0_byte_included: Some(false),
        s1_len: Some(S1Length::Of3Bits),
        s1_include_in_ram: Some(S1IncludeInRam::Automatic),
        preamble_len: Some(PreambleLength::Of8Bits),
        crc_included_in_length: None,
        max_bytes: Some(max),
        static_bytes: Some(stat),
        endianess: Some(Endianess::BigEndian),
        whitening_enabled: Some(false),
    }
}

/// The engine. All fields can be read; they are written by its methods
/// only, which keep `wf`.
pub struct Esb {
    pub protocol: Protocol,
    pub radio: Radio,
    pub state: EngineState,
    pub rx_buffer: Option<Vec<u8>>,
    pub tx_buffer: Option<Vec<u8>>,
    /// Which buffer the hardware holds.
    pub lent: Option<Role>,
    pub rx_packet: Option<RxPacket>,
    /// The PID of the next frame sent.
    pub pid: u8,
    /// How many frames with an invalid CRC may still be skipped.
    pub retries_left: usize,
}


/// The transmit buffer with the PID stamped into its header.
pub open spec fn stamped(b: Seq<u8>, pid: u8) -> Seq<u8> {
    if b.len() >= 2 {
        b.update(1, spec_stamp_pid(b[1], pid))
    } else {
        b
    }
}

/// The buffer that a slot holds, or an empty one.
pub open spec fn slot(o: Option<Vec<u8>>) -> Seq<u8> {
    match o {
        Some(b) => b@,
        None => Seq::empty(),
    }
}

impl Esb {
    /// The fields other than the radio and the state are those of `other`.
    pub open spec fn same_books(&self, other: &Esb) -> bool {
        &&& self.protocol == other.protocol
        &&& self.rx_packet == other.rx_packet
        &&& self.pid == other.pid
        &&& self.retries_left == other.retries_left
    }

    /// The buffers are where, and what, they are in `other`.
    pub open spec fn same_buffers(&self, other: &Esb) -> bool {
        &&& self.rx_buffer == other.rx_buffer
        &&& self.tx_buffer == other.tx_buffer
        &&& self.lent == other.lent
        &&& self.radio.buffer == other.radio.buffer
    }

    /// Builds the engine on a radio, configuring its packet format for the
    /// protocol. The engine starts in Standby and holds both buffers.
    pub fn new(radio: Radio, protocol: Protocol, read_buffer: Vec<u8>, write_buffer: Vec<u8>) -> (r:
        Esb)
        requires
            radio.configurable(),
        ensures
            r.wf(),
            r.state == EngineState::Standby,
            r.protocol == protocol,
            r.rx_packet == None::<RxPacket>,
            r.pid == 0,
            r.contents(Role::Receive) == read_buffer@,
            r.contents(Role::Transmit) == write_buffer@,
            r.radio.regs == radio.regs.written(
                crate::registers::Register::Pcnf0,
                crate::radio::pcnf0_applied(radio.regs.pcnf0, protocol_packet_config(protocol)),
            ).written(
                crate::registers::Register::Pcnf1,
                crate::radio::pcnf1_applied(radio.regs.pcnf1, protocol_packet_config(protocol)),
            ),
    {
        let mut radio = radio;
        Self::setup_protocol(&mut radio, &protocol);
        let _ = radio.swap_buffer(None);
        Esb {
            protocol,
            radio,
            state: EngineState::Standby,
            rx_buffer: Some(read_buffer),
            tx_buffer: Some(write_buffer),
            lent: None,
            rx_packet: None,
            pid: 0,
            retries_left: 0,
        }
    }

    fn setup_protocol(radio: &mut Radio, protocol: &Protocol)
        requires
            old(radio).configurable(),
        ensures
            final(radio).regs == old(radio).regs.written(
                crate::registers::Register::Pcnf0,
                crate::radio::pcnf0_applied(old(radio).regs.pcnf0, protocol_packet_config(*protocol)),
            ).written(
                crate::registers::Register::Pcnf1,
                crate::radio::pcnf1_applied(old(radio).regs.pcnf1, protocol_packet_config(*protocol)),
            ),
            final(radio).buffer == old(radio).buffer,
    {
        let pcfn = match protocol {
            Protocol::FixedPayloadLength(length) => PacketConfig::default().with_length_bits(
                6,
            ).with_s0_byte_included(false).with_s1_len(S1Length::Of3Bits).with_s1_include_in_ram(
                S1IncludeInRam::Automatic,
            ).with_preamble_len(PreambleLength::Of8Bits).with_max_bytes(*length).with_static_bytes(
                *length,
            ).with_endianess(Endianess::BigEndian).with_whitening_enabled(false),
            Protocol::DynamicPayloadLength(max_length) => {
                let length_bits: u8 = if *max_length <= 32 {
                    6
                } else {
                    8
                };
                PacketConfig::default().with_length_bits(length_bits).with_s0_byte_included(
                    false,
                ).with_s1_len(S1Length::Of3Bits).with_s1_include_in_ram(
                    S1IncludeInRam::Automatic,
                ).with_preamble_len(PreambleLength::Of8Bits).with_max_bytes(
                    *max_length,
                ).with_static_bytes(0).with_endianess(Endianess::BigEndian).with_whitening_enabled(
                    false,
                )
            },
        };
        assert(pcfn == protocol_packet_config(*protocol));
        let r = radio.set_packet_config(pcfn);
        assert(r is Ok);
    }

    /// CRC off.
    pub fn set_crc_disabled(&mut self) -> (r: RadioResult<()>)
        ensures
            r == old(self).radio.config_result(),
            r is Err ==> final(self).radio.regs == old(self).radio.regs,
            r is Ok ==> final(self).radio.regs == old(self).radio.regs.written(
                crate::registers::Register::CrcCnf,
                crate::registers::spec_insert_field(old(self).radio.regs.crccnf, 3, 0, 0),
            ),
            final(self).radio.buffer == old(self).radio.buffer,
            final(self).state == old(self).state,
            final(self).same_books(old(self)),
            final(self).same_buffers(old(self)),
    {
        self.radio.set_crc_disabled()
    }

    /// One byte of CRC: initial value 0xff, polynomial x^8 + x^2 + x + 1.
    pub fn set_crc_8bits(&mut self) -> (r: RadioResult<()>)
        ensures
            r == old(self).radio.config_result(),
            r is Err ==> final(self).radio.regs == old(self).radio.regs,
            r is Ok ==> final(self).radio.regs == old(self).radio.regs.written(
                crate::registers::Register::CrcCnf,
                crate::registers::spec_insert_field(old(self).radio.regs.crccnf, 3, 0, 1),
            ).written(crate::registers::Register::CrcInit, 0xff).written(
                crate::registers::Register::CrcPoly,
                0x107,
            ),
            final(self).radio.buffer == old(self).radio.buffer,
            final(self).state == old(self).state,
            final(self).same_books(old(self)),
            final(self).same_buffers(old(self)),
    {
        self.radio.set_crc_8bits(0xff, 0x107)
    }

    /// Two bytes of CRC: initial value 0xffff, polynomial
    /// x^16 + x^12 + x^5 + 1.
    pub fn set_crc_16bits(&mut self) -> (r: RadioResult<()>)
        ensures
            r == old(self).radio.config_result(),
            r is Err ==> final(self).radio.regs == old(self).radio.regs,
            r is Ok ==> final(self).radio.regs == old(self).radio.regs.written(
                crate::registers::Register::CrcCnf,
                crate::registers::spec_insert_field(old(self).radio.regs.crccnf, 3, 0, 2),
            ).written(crate::registers::Register::CrcInit, 0xffff).written(
                crate::registers::Register::CrcPoly,
                0x11021,
            ),
            final(self).radio.buffer == old(self).radio.buffer,
            final(self).state == old(self).state,
            final(self).same_books(old(self)),
            final(self).same_buffers(old(self)),
    {
        self.radio.set_crc_16bits(0xffff, 0x11021)
    }

    /// The receive buffer, when the engine holds it; else an empty slice.
    pub fn get_rx_buffer(&self) -> (r: &[u8])
        ensures
            r@ == slot(self.rx_buffer),
    {
        match &self.rx_buffer {
            Some(buffer) => buffer.as_slice(),
            None => &[],
        }
    }

    /// The transmit buffer, writable, when the engine holds it; else an
    /// empty slice. The buffer the hardware holds is never handed out.
    pub fn get_tx_buffer(&mut self) -> (r: &mut [u8])
        ensures
            r@ == slot(old(self).tx_buffer),
            old(self).tx_buffer is Some ==> final(self).tx_buffer is Some && slot(
                final(self).tx_buffer,
            ) == final(r)@,
            old(self).tx_buffer is None ==> final(self).tx_buffer is None,
            final(self).rx_buffer == old(self).rx_buffer,
            final(self).lent == old(self).lent,
            final(self).radio == old(self).radio,
            final(self).state == old(self).state,
            final(self).same_books(old(self)),
    {
        match &mut self.tx_buffer {
            Some(buffer) => buffer.as_mut_slice(),
            None => &mut [],
        }
    }

    pub fn get_last_received_packet(&self) -> (r: Option<RxPacket>)
        ensures
            r == self.rx_packet,
    {
        self.rx_packet
    }

    fn rx_step_from_radio_state(&self) -> (r: Step)
        ensures
            r == rx_step_from(hw_state(self.radio.regs)),
    {
        match self.radio.get_state() {
            RadioState::Disabled => Step::Enable,
            RadioState::RxRumpUp => Step::WaitingIdle,
            RadioState::RxIdle => Step::Start,
            RadioState::Rx => Step::WaitingEnd,
            RadioState::RxDisable => Step::WaitingDisable,
            _ => Step::Disable,
        }
    }

    fn tx_step_from_radio_state(&self) -> (r: Step)
        ensures
            r == tx_step_from(hw_state(self.radio.regs)),
    {
        match self.radio.get_state() {
            RadioState::Disabled => Step::Enable,
            RadioState::TxRumpUp => Step::WaitingIdle,
            RadioState::TxIdle => Step::Start,
            RadioState::Tx => Step::WaitingEnd,
            RadioState::TxDisable => Step::WaitingDisable,
            _ => Step::Disable,
        }
    }

    /// Takes back the buffer that the hardware holds, if any.
    fn reclaim(&mut self)
        requires
            old(self).placed(),
        ensures
            final(self).radio.log() == old(self).radio.log(),
            status_kept(old(self).radio.regs, final(self).radio.regs),
            final(self).placed(),
            final(self).lent is None,
            final(self).rx_buffer is Some && final(self).tx_buffer is Some,
            final(self).radio.buffer is None,
            final(self).contents(Role::Receive) == old(self).contents(Role::Receive),
            final(self).contents(Role::Transmit) == old(self).contents(Role::Transmit),
            final(self).radio.regs == old(self).radio.regs,
            final(self).state == old(self).state,
            final(self).same_books(old(self)),
    {
        match self.lent {
            Some(Role::Receive) => {
                self.rx_buffer = self.radio.swap_buffer(None);
            },
            Some(Role::Transmit) => {
                self.tx_buffer = self.radio.swap_buffer(None);
            },
            None => {},
        }
        self.lent = None;
    }

    /// The buffer-placement part of `wf`.
    pub open spec fn placed(&self) -> bool {
        match self.lent {
            None => self.rx_buffer is Some && self.tx_buffer is Some && self.radio.buffer is None,
            Some(Role::Receive) => self.rx_buffer is None && self.tx_buffer is Some
                && self.radio.buffer is Some,
            Some(Role::Transmit) => self.rx_buffer is Some && self.tx_buffer is None
                && self.radio.buffer is Some,
        }
    }

    /// Hands one of the buffers to the hardware, taking back the other.
    fn lend(&mut self, role: Role)
        requires
            old(self).placed(),
        ensures
            final(self).radio.log() == old(self).radio.log() + (if old(self).lent == Some(role) { Seq::<Access>::empty() } else { seq![Access::PacketPtr] }),
            status_kept(old(self).radio.regs, final(self).radio.regs),
            final(self).placed(),
            final(self).lent == Some(role),
            final(self).contents(Role::Receive) == old(self).contents(Role::Receive),
            final(self).contents(Role::Transmit) == old(self).contents(Role::Transmit),
            final(self).radio.regs == old(self).radio.regs,
            final(self).state == old(self).state,
            final(self).same_books(old(self)),
    {
        if self.lent == Some(role) {
            return ;
        }
        match self.lent {
            Some(Role::Receive) => {
                self.rx_buffer = self.radio.swap_buffer(None);
            },
            Some(Role::Transmit) => {
                self.tx_buffer = self.radio.swap_buffer(None);
            },
            None => {},
        }
        match role {
            Role::Receive => {
                let b = self.rx_buffer.take();
                let _ = self.radio.swap_buffer(b);
            },
            Role::Transmit => {
                let b = self.tx_buffer.take();
                let _ = self.radio.swap_buffer(b);
            },
        }
        self.lent = Some(role);
    }

    /// Ends a transaction whose buffers are back: Standby once DISABLED was
    /// seen (and cleared), else DISABLE is triggered and waited for.
    fn finish(&mut self) -> (r: AsyncResult<()>)
        requires
            old(self).placed(),
            old(self).lent is None,
            old(self).pid <= 3,
        ensures
            final(self).radio.log() == old(self).radio.log() + finishing_accesses(old(self).radio.regs),
            status_kept(old(self).radio.regs, final(self).radio.regs),
            final(self).wf(),
            (final(self).state, r) == finishing(old(self).radio.regs),
            final(self).same_buffers(old(self)),
            final(self).same_books(old(self)),
    {
        match self.radio.wait_disabled() {
            Ok(()) => {
                self.state = EngineState::Standby;
                Ok(())
            },
            Err(_) => {
                self.radio.disable();
                self.state = EngineState::Disabling;
                Err(nb::Error::WouldBlock)
            },
        }
    }

    /// Enters the sticky error state.
    fn fail(&mut self, e: Error) -> (r: AsyncResult<()>)
        requires
            old(self).wf(),
            e is RadioError,
        ensures
            status_kept(old(self).radio.regs, final(self).radio.regs),
            final(self).wf(),
            (final(self).state, r) == fails(e),
            final(self).radio == old(self).radio,
            final(self).same_buffers(old(self)),
            final(self).same_books(old(self)),
    {
        self.state = EngineState::Error(e);
        Err(nb::Error::Other(e))
    }

    /// One step other than WaitingEnd, with the hardware holding a buffer.
    fn advance(&mut self, step: Step, receive: bool) -> (r: core::result::Result<Step, RadioError>)
        requires
            old(self).radio.buffer is Some,
            step != Step::WaitingEnd,
        ensures
            final(self).radio.log() == old(self).radio.log() + step_accesses(step, old(self).radio.regs, if receive { Task::RxEn } else { Task::TxEn }),
            status_kept(old(self).radio.regs, final(self).radio.regs),
            r == step_outcome(step, old(self).radio.regs),
            final(self).radio.buffer == old(self).radio.buffer,
            final(self).radio.regs.txaddress == old(self).radio.regs.txaddress,
            final(self).state == old(self).state,
            final(self).same_buffers(old(self)),
            final(self).same_books(old(self)),
    {
        match step {
            Step::Disable => {
                self.radio.disable();
                Ok(Step::WaitingDisable)
            },
            Step::WaitingDisable => match self.radio.wait_disabled() {
                Ok(()) => Ok(Step::Enable),
                Err(_) => Ok(Step::WaitingDisable),
            },
            Step::Enable => {
                let r = if receive {
                    self.radio.enable_rx()
                } else {
                    self.radio.enable_tx()
                };
                match r {
                    Ok(()) => Ok(Step::WaitingIdle),
                    Err(e) => Err(e),
                }
            },
            Step::WaitingIdle => match self.radio.wait_idle() {
                Ok(()) => Ok(Step::Start),
                Err(_) => Ok(Step::WaitingIdle),
            },
            _ => match self.radio.start() {
                Ok(()) => Ok(Step::WaitingEnd),
                Err(e) => Err(e),
            },
        }
    }

    /// Writes the acknowledgement of a packet into the transmit buffer,
    /// which the hardware holds, and sends it on the packet's pipe.
    fn prepare_tx_ack(&mut self, packet: &RxPacket)
        requires
            old(self).placed(),
            old(self).lent == Some(Role::Transmit),
            packet.pid <= 3,
        ensures
            final(self).radio.log() == old(self).radio.log().push(Access::Write(Register::TxAddress, packet.address.spec_value())),
            status_kept(old(self).radio.regs, final(self).radio.regs),
            final(self).placed(),
            final(self).lent == old(self).lent,
            final(self).contents(Role::Transmit) == with_header(
                old(self).contents(Role::Transmit),
                ack_header(*packet),
            ),
            final(self).contents(Role::Receive) == old(self).contents(Role::Receive),
            final(self).radio.regs == old(self).radio.regs.written(
                crate::registers::Register::TxAddress,
                packet.address.spec_value(),
            ),
            final(self).state == old(self).state,
            final(self).same_books(old(self)),
    {
        let b1 = header_byte(packet.pid, false);
        let buf = self.radio.get_buffer_mut();
        if buf.len() >= 2 {
            buf.set(0, 0);
            buf.set(1, b1);
        }
        self.radio.set_tx_address(packet.address);
    }

    /// Starts receiving one frame: from Standby, the receive buffer goes
    /// to the hardware and the first step suits the hardware state.
    pub fn start_rx(&mut self, rx_config: RxConfig) -> (r: Result<()>)
        requires
            old(self).wf(),
        ensures
            final(self).wf(),
            final(self).contents(Role::Receive) == old(self).contents(Role::Receive),
            final(self).contents(Role::Transmit) == old(self).contents(Role::Transmit),
            final(self).pid == old(self).pid,
            final(self).protocol == old(self).protocol,
            final(self).radio.regs == old(self).radio.regs,
            match old(self).state {
                EngineState::Standby => {
                    &&& r == Ok::<(), Error>(())
                    &&& final(self).state == EngineState::Rx(
                        rx_config,
                        rx_step_from(hw_state(old(self).radio.regs)),
                    )
                    &&& final(self).rx_packet == None::<RxPacket>
                    &&& final(self).retries_left == rx_config.retries
                    &&& final(self).radio.log() == old(self).radio.log().push(Access::PacketPtr)
                },
                EngineState::Error(e) => r == Err::<(), Error>(e) && *final(self) == *old(self),
                _ => r == Err::<(), Error>(Error::StandbyRequired) && *final(self) == *old(self),
            },
    {
        match self.state {
            EngineState::Standby => {
                if self.rx_buffer.is_some() {
                    self.rx_packet = None;
                    self.retries_left = rx_config.retries;
                    self.lend(Role::Receive);
                    let step = self.rx_step_from_radio_state();
                    self.state = EngineState::Rx(rx_config, step);
                    Ok(())
                } else {
                    Err(Error::RxBufferBusy)
                }
            },
            EngineState::Error(e) => Err(e),
            _ => Err(Error::StandbyRequired),
        }
    }

    /// Starts sending the frame in the transmit buffer: from Standby, the
    /// frame is stamped with the next PID, the transmit pipe is set, the
    /// buffer goes to the hardware, and the last packet received is
    /// forgotten.
    pub fn start_tx(&mut self, tx_config: TxConfig) -> (r: Result<()>)
        requires
            old(self).wf(),
        ensures
            final(self).wf(),
            final(self).contents(Role::Receive) == old(self).contents(Role::Receive),
            final(self).protocol == old(self).protocol,
            match old(self).state {
                EngineState::Standby => {
                    &&& r == Ok::<(), Error>(())
                    &&& final(self).state == EngineState::Tx(
                        tx_config,
                        tx_step_from(hw_state(old(self).radio.regs)),
                    )
                    &&& final(self).contents(Role::Transmit) == stamped(
                        old(self).contents(Role::Transmit),
                        old(self).pid,
                    )
                    &&& final(self).pid == (old(self).pid + 1) % 4
                    &&& final(self).rx_packet == None::<RxPacket>
                    &&& final(self).retries_left == tx_config.retries
                    &&& final(self).radio.regs == old(self).radio.regs.written(
                        crate::registers::Register::TxAddress,
                        tx_config.address.spec_value(),
                    )
                    &&& final(self).radio.log() == old(self).radio.log().push(
                        Access::Write(Register::TxAddress, tx_config.address.spec_value()),
                    ).push(Access::PacketPtr)
                },
                EngineState::Error(e) => r == Err::<(), Error>(e) && *final(self) == *old(self),
                _ => r == Err::<(), Error>(Error::StandbyRequired) && *final(self) == *old(self),
            },
    {
        match self.state {
            EngineState::Standby => {
                if self.tx_buffer.is_some() {
                    let pid = self.pid;
                    let mut buffer = self.tx_buffer.take().unwrap();
                    if buffer.len() >= 2 {
                        let b1 = buffer[1];
                        buffer.set(1, (b1 & 0xf9u8) | (pid << 1u8));
                    }
                    self.tx_buffer = Some(buffer);
                    self.radio.set_tx_address(tx_config.address);
                    self.lend(Role::Transmit);
                    self.rx_packet = None;
                    self.pid = (pid + 1) % 4;
                    self.retries_left = tx_config.retries;
                    let step = self.tx_step_from_radio_state();
                    self.state = EngineState::Tx(tx_config, step);
                    Ok(())
                } else {
                    Err(Error::TxBufferBusy)
                }
            },
            EngineState::Error(e) => Err(e),
            _ => Err(Error::StandbyRequired),
        }
    }

    /// Polls the DISABLED event while Disabling.
    fn wait_disabling(&mut self) -> (r: AsyncResult<()>)
        requires
            old(self).wf(),
            old(self).state == EngineState::Disabling,
        ensures
            final(self).radio.log() == old(self).radio.log() + disabling_accesses(old(self).radio.regs),
            status_kept(old(self).radio.regs, final(self).radio.regs),
            final(self).wf(),
            (final(self).state, r) == (if old(self).radio.regs.events_disabled {
                (EngineState::Standby, Ok::<(), nb::Error<Error>>(()))
            } else {
                would_block(EngineState::Disabling)
            }),
            final(self).same_buffers(old(self)),
            final(self).same_books(old(self)),
    {
        match self.radio.wait_disabled() {
            Ok(()) => {
                self.state = EngineState::Standby;
                Ok(())
            },
            Err(_) => Err(nb::Error::WouldBlock),
        }
    }

    /// The WaitingEnd step of a receive.
    fn rx_end(&mut self, config: RxConfig) -> (r: AsyncResult<()>)
        requires
            old(self).wf(),
            old(self).state == EngineState::Rx(config, Step::WaitingEnd),
        ensures
            final(self).radio.log() == old(self).radio.log() + old(self).rx_accesses(),
            status_kept(old(self).radio.regs, final(self).radio.regs),
            final(self).wf(),
            (final(self).state, r) == old(self).poll_rx(),
            final(self).rx_packet == old(self).packet_after_rx(),
            final(self).retries_left == old(self).retries_after_rx(),
            final(self).contents(Role::Receive) == old(self).contents(Role::Receive),
            final(self).contents(Role::Transmit) == old(self).tx_after_rx(),
            final(self).pid == old(self).pid,
            final(self).protocol == old(self).protocol,
    {
        match self.radio.wait_end_or_disable() {
            Err(_) => Err(nb::Error::WouldBlock),
            Ok(()) => {
                let usable = self.radio.is_crc_ok() && self.radio.get_buffer().len() >= 2;
                if usable {
                    let frame = self.radio.get_buffer();
                    let length = frame[0];
                    let pid_no_ack = frame[1];
                    let packet = RxPacket {
                        length,
                        pid: header_pid(pid_no_ack),
                        no_ack: header_no_ack(pid_no_ack),
                        address: self.radio.get_received_address(),
                        crc: self.radio.get_received_crc(),
                    };
                    assert(packet == packet_of(old(self).contents(Role::Receive), old(self).radio.regs));
                    if config.skip_ack || packet.no_ack {
                        self.rx_packet = Some(packet);
                        self.reclaim();
                        self.finish()
                    } else {
                        self.lend(Role::Transmit);
                        let step = self.tx_step_from_radio_state();
                        self.state = EngineState::TxAck(packet, step);
                        Err(nb::Error::WouldBlock)
                    }
                } else if self.retries_left > 0 {
                    self.retries_left = self.retries_left - 1;
                    let step = self.rx_step_from_radio_state();
                    self.state = EngineState::Rx(config, step);
                    Err(nb::Error::WouldBlock)
                } else {
                    self.fail(Error::RadioError(RadioError::CrcMismatch))
                }
            },
        }
    }

    /// Advances a receive by one step: the frame, then its acknowledgement.
    /// Returns `WouldBlock` until the engine is back in Standby, then
    /// `Ok(())`; the packet is then given by `get_last_received_packet`.
    pub fn wait_rx(&mut self) -> (r: AsyncResult<()>)
        requires
            old(self).wf(),
        ensures
            final(self).radio.log() == old(self).radio.log() + old(self).rx_accesses(),
            status_kept(old(self).radio.regs, final(self).radio.regs),
            old(self).state is Standby || old(self).state is Error || old(self).state is Tx || old(self).state is RxAck ==> *final(self) == *old(self),
            final(self).wf(),
            (final(self).state, r) == old(self).poll_rx(),
            final(self).rx_packet == old(self).packet_after_rx(),
            final(self).retries_left == old(self).retries_after_rx(),
            final(self).contents(Role::Receive) == old(self).contents(Role::Receive),
            final(self).contents(Role::Transmit) == old(self).tx_after_rx(),
            final(self).pid == old(self).pid,
            final(self).protocol == old(self).protocol,
            old(self).state matches EngineState::TxAck(p, Step::Enable) ==> final(self).radio.regs.txaddress == p.address.spec_value(),
    {
        match self.state {
            EngineState::Rx(config, Step::WaitingEnd) => self.rx_end(config),
            EngineState::Rx(config, step) => match self.advance(step, true) {
                Ok(next) => {
                    self.state = EngineState::Rx(config, next);
                    Err(nb::Error::WouldBlock)
                },
                Err(e) => self.fail(Error::RadioError(e)),
            },
            EngineState::TxAck(packet, Step::WaitingEnd) => match self.radio.wait_end_or_disable() {
                Ok(()) => {
                    self.rx_packet = Some(packet);
                    self.reclaim();
                    self.finish()
                },
                Err(_) => Err(nb::Error::WouldBlock),
            },
            EngineState::TxAck(packet, step) => {
                if step == Step::Enable {
                    self.prepare_tx_ack(&packet);
                }
                match self.advance(step, false) {
                    Ok(next) => {
                        self.state = EngineState::TxAck(packet, next);
                        Err(nb::Error::WouldBlock)
                    },
                    Err(e) => self.fail(Error::RadioError(e)),
                }
            },
            EngineState::Disabling => self.wait_disabling(),
            EngineState::Error(e) => Err(nb::Error::Other(e)),
            _ => Err(nb::Error::Other(Error::ReceiveNotStarted)),
        }
    }

    /// Advances a send by one step: the frame, then the acknowledgement
    /// unless it is skipped. Returns `WouldBlock` until the engine is back
    /// in Standby, then `Ok(())`.
    pub fn wait_tx(&mut self) -> (r: AsyncResult<()>)
        requires
            old(self).wf(),
        ensures
            final(self).radio.log() == old(self).radio.log() + old(self).tx_accesses(),
            status_kept(old(self).radio.regs, final(self).radio.regs),
            old(self).state is Standby || old(self).state is Error || old(self).state is Rx || old(self).state is TxAck ==> *final(self) == *old(self),
            final(self).wf(),
            (final(self).state, r) == old(self).poll_tx(),
            final(self).retries_left == old(self).retries_after_tx(),
            final(self).rx_packet == old(self).rx_packet,
            final(self).contents(Role::Receive) == old(self).contents(Role::Receive),
            final(self).contents(Role::Transmit) == old(self).contents(Role::Transmit),
            final(self).pid == old(self).pid,
            final(self).protocol == old(self).protocol,
    {
        match self.state {
            EngineState::Tx(config, Step::WaitingEnd) => match self.radio.wait_end_or_disable() {
                Ok(()) => {
                    if config.skip_ack {
                        self.reclaim();
                        self.finish()
                    } else {
                        self.lend(Role::Receive);
                        self.retries_left = config.retries;
                        let step = self.rx_step_from_radio_state();
                        self.state = EngineState::RxAck(config, step);
                        Err(nb::Error::WouldBlock)
                    }
                },
                Err(_) => Err(nb::Error::WouldBlock),
            },
            EngineState::Tx(config, step) => match self.advance(step, false) {
                Ok(next) => {
                    self.state = EngineState::Tx(config, next);
                    Err(nb::Error::WouldBlock)
                },
                Err(e) => self.fail(Error::RadioError(e)),
            },
            EngineState::RxAck(config, Step::WaitingEnd) => match self.radio.wait_end_or_disable() {
                Ok(()) => {
                    if self.radio.is_crc_ok() && self.radio.get_buffer().len() >= 2 {
                        self.reclaim();
                        self.finish()
                    } else if self.retries_left > 0 {
                        self.retries_left = self.retries_left - 1;
                        let step = self.rx_step_from_radio_state();
                        self.state = EngineState::RxAck(config, step);
                        Err(nb::Error::WouldBlock)
                    } else {
                        self.fail(Error::RadioError(RadioError::CrcMismatch))
                    }
                },
                Err(_) => Err(nb::Error::WouldBlock),
            },
            EngineState::RxAck(config, step) => match self.advance(step, true) {
                Ok(next) => {
                    self.state = EngineState::RxAck(config, next);
                    Err(nb::Error::WouldBlock)
                },
                Err(e) => self.fail(Error::RadioError(e)),
            },
            EngineState::Disabling => self.wait_disabling(),
            EngineState::Error(e) => Err(nb::Error::Other(e)),
            _ => Err(nb::Error::Other(Error::ReceiveNotStarted)),
        }
    }

    /// Abandons whatever the engine is doing, the error state included:
    /// the buffers come back, DISABLE is triggered, and the next poll of
    /// `wait_rx` or `wait_tx` reaches Standby once the radio reports
    /// DISABLED.
    pub fn reset(&mut self)
        requires
            old(self).wf(),
        ensures
            final(self).wf(),
            final(self).state == EngineState::Disabling,
            final(self).lent is None,
            final(self).contents(Role::Receive) == old(self).contents(Role::Receive),
            final(self).contents(Role::Transmit) == old(self).contents(Role::Transmit),
            final(self).radio.regs == old(self).radio.regs.cleared(
                crate::registers::Event::Disabled,
            ),
            final(self).same_books(old(self)),
    {
        self.reclaim();
        self.radio.disable();
        self.state = EngineState::Disabling;
    }
}

} // verus!
