//! The I2C slave of the firmware: the state machine that the I2C event and error
//! interrupts drive, and the registers that the master reads and writes.
//!
//! The master addresses the slave as a receiver and sends a register number; then it
//! either sends data bytes for the register, or addresses the slave again as a
//! transmitter and reads the register's data.

use vstd::prelude::*;

verus! {

/// The progress of the current transfer.
#[derive(Copy, Clone, Debug, PartialEq, Eq, Structural)]
pub enum TransferState {
    Idle,
    Addressed,
    RegisterSet,
    Receiving,
    Transmitting,
}

/// What the slave reports to the application.
#[derive(Copy, Clone, Debug, PartialEq, Eq, Structural)]
pub enum State {
    /// The master reads the register: the application shall provide the data.
    DataRequested(u8),
    /// The master wrote data to the register: the application shall take them.
    DataReceived(u8),
}

/// The direction of a transfer as the datasheet specifies it.
#[derive(Copy, Clone, Debug, PartialEq, Eq, Structural)]
pub enum Direction {
    /// The slave is the receiver.
    Write,
    /// The slave is the transmitter.
    Read,
}

impl From<Direction> for bool {
    fn from(dir: Direction) -> (b: bool) {
        match dir {
            Direction::Write => false,
            Direction::Read => true,
        }
    }
}

impl vstd::std_specs::convert::FromSpecImpl<Direction> for bool {
    open spec fn obeys_from_spec() -> bool {
        true
    }

    open spec fn from_spec(v: Direction) -> bool {
        v == Direction::Read
    }
}

impl From<bool> for Direction {
    fn from(raw: bool) -> (d: Direction) {
        if raw {
            Direction::Read
        } else {
            Direction::Write
        }
    }
}

impl vstd::std_specs::convert::FromSpecImpl<bool> for Direction {
    open spec fn obeys_from_spec() -> bool {
        true
    }

    open spec fn from_spec(v: bool) -> Direction {
        if v {
            Direction::Read
        } else {
            Direction::Write
        }
    }
}

/// The size of the transfer buffer.
pub const BUFFER_SIZE: usize = 32;

/// The status flags of the I2C peripheral at an event interrupt.
#[derive(Copy, Clone, Debug, PartialEq, Eq, Structural)]
pub struct I2CStatus {
    /// A received byte waits in the data register.
    pub rx_not_empty: bool,
    /// The master ended the transfer with a stop condition.
    pub stopped: bool,
    /// The slave was addressed, in the given direction.
    pub addressed: Option<Direction>,
    /// The data register is empty and takes the next byte to transmit.
    pub tx_empty: bool,
}

/// What the peripheral shall do after an event interrupt.
#[derive(Copy, Clone, Debug, PartialEq, Eq, Structural)]
pub struct I2CReaction {
    /// Clear the stop flag.
    pub clear_stopped: bool,
    /// Write this byte to the data register.
    pub transmit: Option<u8>,
}

/// The mathematical state of the slave.
pub struct I2CSlaveView {
    pub buffer: Seq<u8>,
    pub transfer_len: int,
    pub buffer_index: int,
    pub register: u8,
    pub transfer_state: TransferState,
    pub state: Option<State>,
}

/// Whether the slave reads the data register on an event with the given status.
pub open spec fn reads_data_spec(s: I2CSlaveView, rx_not_empty: bool) -> bool {
    rx_not_empty && (s.transfer_state == TransferState::Addressed || s.transfer_state
        == TransferState::Receiving)
}

/// The inputs on which an event interrupt does not fail: a byte received while
/// receiving still fits in the buffer.
pub open spec fn event_defined(s: I2CSlaveView, status: I2CStatus) -> bool {
    status.rx_not_empty && s.transfer_state == TransferState::Receiving ==> s.buffer_index
        < BUFFER_SIZE
}

/// The state after a received byte is handled.
pub open spec fn after_receive(s: I2CSlaveView, rx_not_empty: bool, data: u8) -> I2CSlaveView {
    let s0 = if s.transfer_state == TransferState::Idle {
        I2CSlaveView { state: None, ..s }
    } else {
        s
    };
    if !rx_not_empty {
        s0
    } else if s0.transfer_state == TransferState::Addressed {
        I2CSlaveView { transfer_state: TransferState::RegisterSet, register: data, ..s0 }
    } else if s0.transfer_state == TransferState::RegisterSet {
        I2CSlaveView { transfer_state: TransferState::Receiving, ..s0 }
    } else if s0.transfer_state == TransferState::Receiving {
        I2CSlaveView {
            buffer: s0.buffer.update(s0.buffer_index, data),
            buffer_index: s0.buffer_index + 1,
            ..s0
        }
    } else {
        s0
    }
}

/// The state after a stop condition is handled.
pub open spec fn after_stop(s: I2CSlaveView, stopped: bool) -> I2CSlaveView {
    if !stopped {
        s
    } else {
        let state = if s.transfer_state == TransferState::Receiving {
            Some(State::DataReceived(s.register))
        } else if s.transfer_state == TransferState::Transmitting {
            None
        } else {
            s.state
        };
        I2CSlaveView { state, transfer_state: TransferState::Idle, ..s }
    }
}

/// The state and the reaction after an event interrupt with the given status, where
/// `data` is the byte read from the data register when the slave reads it.
pub open spec fn event_step(s: I2CSlaveView, status: I2CStatus, data: u8) -> (I2CSlaveView, I2CReaction) {
    let s1 = after_stop(after_receive(s, status.rx_not_empty, data), status.stopped);
    match status.addressed {
        Some(Direction::Write) => (
            I2CSlaveView { transfer_state: TransferState::Addressed, ..s1 },
            I2CReaction { clear_stopped: status.stopped, transmit: None },
        ),
        Some(Direction::Read) => if s1.transfer_state == TransferState::RegisterSet {
            (
                I2CSlaveView {
                    transfer_state: TransferState::Transmitting,
                    state: Some(State::DataRequested(s1.register)),
                    ..s1
                },
                I2CReaction { clear_stopped: status.stopped, transmit: None },
            )
        } else {
            (s1, I2CReaction { clear_stopped: status.stopped, transmit: None })
        },
        None => if status.tx_empty && s1.transfer_state == TransferState::Transmitting {
            if s1.buffer_index < s1.transfer_len {
                (
                    I2CSlaveView { buffer_index: s1.buffer_index + 1, ..s1 },
                    I2CReaction {
                        clear_stopped: status.stopped,
                        transmit: Some(s1.buffer[s1.buffer_index]),
                    },
                )
            } else {
                (
                    I2CSlaveView { state: None, ..s1 },
                    I2CReaction { clear_stopped: status.stopped, transmit: None },
                )
            }
        } else {
            (s1, I2CReaction { clear_stopped: status.stopped, transmit: None })
        },
    }
}

/// The slave once the data of a read are provided.
pub open spec fn with_transmit_data(s: I2CSlaveView, data: Seq<u8>) -> I2CSlaveView {
    I2CSlaveView {
        buffer: data + s.buffer.skip(data.len() as int),
        transfer_len: data.len() as int,
        buffer_index: 0,
        state: None,
        ..s
    }
}

/// The slave once the data of a write are taken.
pub open spec fn with_data_taken(s: I2CSlaveView) -> I2CSlaveView {
    I2CSlaveView { state: None, buffer_index: 0, transfer_len: 0, ..s }
}

/// The I2C slave state machine.
pub struct I2CSlave {
    transfer_buffer: Vec<u8>,
    transfer_len: usize,
    buffer_index: usize,
    register: u8,
    transfer_state: TransferState,
    state: Option<State>,
}

impl I2CSlave {
    /// The mathematical state of the slave.
    pub closed spec fn view(&self) -> I2CSlaveView {
        I2CSlaveView {
            buffer: self.transfer_buffer@,
            transfer_len: self.transfer_len as int,
            buffer_index: self.buffer_index as int,
            register: self.register,
            transfer_state: self.transfer_state,
            state: self.state,
        }
    }

    /// The slave is well formed: a buffer of `BUFFER_SIZE` bytes, and the transfer
    /// length and position inside it.
    pub open spec fn wf(&self) -> bool {
        &&& self.view().buffer.len() == BUFFER_SIZE
        &&& 0 <= self.view().transfer_len <= BUFFER_SIZE
        &&& 0 <= self.view().buffer_index <= BUFFER_SIZE
    }

    /// An idle slave with empty buffers.
    pub fn new() -> (s: Self)
        ensures
            s.wf(),
            s.view().buffer == Seq::new(BUFFER_SIZE as nat, |i: int| 0u8),
            s.view().transfer_len == 0,
            s.view().buffer_index == 0,
            s.view().register == 0,
            s.view().transfer_state == TransferState::Idle,
            s.view().state is None,
    {
        let mut transfer_buffer: Vec<u8> = Vec::new();
        let mut k: usize = 0;
        while k < BUFFER_SIZE
            invariant
                k <= BUFFER_SIZE,
                transfer_buffer@ == Seq::new(k as nat, |i: int| 0u8),
            decreases BUFFER_SIZE - k,
        {
            transfer_buffer.push(0);
            k = k + 1;
        }
        I2CSlave {
            transfer_buffer,
            transfer_len: 0,
            buffer_index: 0,
            register: 0,
            transfer_state: TransferState::Idle,
            state: None,
        }
    }

    /// Whether the next event interrupt reads the data register, given whether a
    /// received byte waits there.
    pub fn reads_data(&self, rx_not_empty: bool) -> (b: bool)
        ensures
            b == reads_data_spec(self.view(), rx_not_empty),
    {
        rx_not_empty && (self.transfer_state == TransferState::Addressed || self.transfer_state
            == TransferState::Receiving)
    }

    /// Handles an event interrupt. `data` is the byte read from the data register,
    /// where `reads_data` says that the slave reads it.
    pub fn event_interrupt(&mut self, status: I2CStatus, data: u8) -> (r: I2CReaction)
        requires
            old(self).wf(),
            event_defined(old(self).view(), status),
        ensures
            final(self).wf(),
            (final(self).view(), r) == event_step(old(self).view(), status, data),
    {
        if self.transfer_state == TransferState::Idle {
            self.state = None;
        }
        if status.rx_not_empty {
            if self.transfer_state == TransferState::Addressed {
                self.transfer_state = TransferState::RegisterSet;
                self.register = data;
            } else if self.transfer_state == TransferState::RegisterSet {
                self.transfer_state = TransferState::Receiving;
            } else if self.transfer_state == TransferState::Receiving {
                self.transfer_buffer.set(self.buffer_index, data);
                self.buffer_index = self.buffer_index + 1;
            }
        }
        let clear_stopped = status.stopped;
        if status.stopped {
            if self.transfer_state == TransferState::Receiving {
                self.state = Some(State::DataReceived(self.register));
            } else if self.transfer_state == TransferState::Transmitting {
                self.state = None;
            }
            self.transfer_state = TransferState::Idle;
        }
        if let Some(Direction::Write) = status.addressed {
            self.transfer_state = TransferState::Addressed;
            return I2CReaction { clear_stopped, transmit: None };
        }
        if let Some(Direction::Read) = status.addressed {
            if self.transfer_state == TransferState::RegisterSet {
                self.transfer_state = TransferState::Transmitting;
                self.state = Some(State::DataRequested(self.register));
            }
            return I2CReaction { clear_stopped, transmit: None };
        }
        let mut transmit: Option<u8> = None;
        if status.tx_empty {
            if self.transfer_state == TransferState::Transmitting {
                if self.buffer_index < self.transfer_len {
                    transmit = Some(self.transfer_buffer[self.buffer_index]);
                    self.buffer_index = self.buffer_index + 1;
                } else {
                    self.state = None;
                }
            }
        }
        I2CReaction { clear_stopped, transmit }
    }

    /// Handles an error interrupt: the transfer is abandoned and the slave is idle.
    pub fn error_interrupt(&mut self)
        requires
            old(self).wf(),
        ensures
            final(self).wf(),
            final(self).view() == (I2CSlaveView {
                transfer_state: TransferState::Idle,
                state: None,
                transfer_len: 0,
                buffer_index: 0,
                ..old(self).view()
            }),
    {
        self.handle_error();
    }

    fn handle_error(&mut self)
        requires
            old(self).wf(),
        ensures
            final(self).wf(),
            final(self).view() == (I2CSlaveView {
                transfer_state: TransferState::Idle,
                state: None,
                transfer_len: 0,
                buffer_index: 0,
                ..old(self).view()
            }),
    {
        self.transfer_state = TransferState::Idle;
        self.state = None;
        self.transfer_len = 0;
        self.buffer_index = 0;
    }

    /// Provides the data that the master reads: the transfer starts at its first byte.
    pub fn set_transmit_buffer(&mut self, buffer: &[u8])
        requires
            old(self).wf(),
            buffer@.len() <= BUFFER_SIZE,
        ensures
            final(self).wf(),
            final(self).view().buffer.take(buffer@.len() as int) == buffer@,
            final(self).view().buffer.skip(buffer@.len() as int) == old(self).view().buffer.skip(
                buffer@.len() as int,
            ),
            final(self).view().transfer_len == buffer@.len(),
            final(self).view().buffer_index == 0,
            final(self).view().state is None,
            final(self).view().register == old(self).view().register,
            final(self).view().transfer_state == old(self).view().transfer_state,
    {
        let ghost old_buffer = self.transfer_buffer@;
        let mut index: usize = 0;
        while index < buffer.len()
            invariant
                index <= buffer@.len() <= BUFFER_SIZE,
                self.transfer_buffer@.len() == BUFFER_SIZE,
                old_buffer.len() == BUFFER_SIZE,
                self.register == old(self).register,
                self.transfer_state == old(self).transfer_state,
                forall|i: int| 0 <= i < index ==> #[trigger] self.transfer_buffer@[i] == buffer@[i],
                forall|i: int| index <= i < BUFFER_SIZE ==> #[trigger] self.transfer_buffer@[i] == old_buffer[i],
            decreases buffer@.len() - index,
        {
            self.transfer_buffer.set(index, buffer[index]);
            index = index + 1;
        }
        self.transfer_len = buffer.len();
        self.buffer_index = 0;
        self.state = None;
    }

    /// Takes the data that the master wrote: the bytes received so far. The report and
    /// the transfer position are cleared.
    pub fn get_received_data(&mut self) -> (data: Vec<u8>)
        requires
            old(self).wf(),
        ensures
            final(self).wf(),
            data@ == old(self).view().buffer.take(old(self).view().buffer_index),
            final(self).view() == (I2CSlaveView {
                state: None,
                buffer_index: 0,
                transfer_len: 0,
                ..old(self).view()
            }),
    {
        let mut data: Vec<u8> = Vec::new();
        let mut k: usize = 0;
        while k < self.buffer_index
            invariant
                k <= self.buffer_index <= self.transfer_buffer@.len(),
                data@ == self.transfer_buffer@.take(k as int),
            decreases self.buffer_index - k,
        {
            assert(self.transfer_buffer@.take(k + 1) =~= self.transfer_buffer@.take(k as int).push(
                self.transfer_buffer@[k as int],
            ));
            data.push(self.transfer_buffer[k]);
            k = k + 1;
        }
        self.state = None;
        self.buffer_index = 0;
        self.transfer_len = 0;
        data
    }

    /// What the slave reports to the application.
    pub fn get_state(&self) -> (s: Option<State>)
        ensures
            s == self.view().state,
    {
        self.state
    }
}

/// The registers of the I2C protocol.
#[derive(Copy, Clone, Debug, PartialEq, Eq, PartialOrd, Structural)]
pub enum I2CRegister {
    AxisSettings,
    Axis1Velocity,
    Axis2Velocity,
    BothAxesVelocity,
    Axis1Position,
    Axis2Position,
    BothAxesPosition,
}

/// The number of a register.
pub open spec fn register_number(r: I2CRegister) -> u8 {
    match r {
        I2CRegister::AxisSettings => 0x10,
        I2CRegister::Axis1Velocity => 0x21,
        I2CRegister::Axis2Velocity => 0x22,
        I2CRegister::Axis1Position => 0x31,
        I2CRegister::Axis2Position => 0x32,
        I2CRegister::BothAxesVelocity => 0x40,
        I2CRegister::BothAxesPosition => 0x50,
    }
}

/// The register that a number stands for, if any.
pub open spec fn register_of(value: u8) -> Option<I2CRegister> {
    if value == 0x10 {
        Some(I2CRegister::AxisSettings)
    } else if value == 0x21 {
        Some(I2CRegister::Axis1Velocity)
    } else if value == 0x22 {
        Some(I2CRegister::Axis2Velocity)
    } else if value == 0x31 {
        Some(I2CRegister::Axis1Position)
    } else if value == 0x32 {
        Some(I2CRegister::Axis2Position)
    } else if value == 0x40 {
        Some(I2CRegister::BothAxesVelocity)
    } else if value == 0x50 {
        Some(I2CRegister::BothAxesPosition)
    } else {
        None
    }
}

impl I2CRegister {
    /// Whether the master may read the register: all but the velocities of both axes.
    pub fn readable(&self) -> (b: bool)
        ensures
            b == (*self != I2CRegister::BothAxesVelocity),
    {
        !matches!(self, I2CRegister::BothAxesVelocity)
    }

    /// Whether the master may write the register: all but the positions of both axes.
    pub fn writeable(&self) -> (b: bool)
        ensures
            b == (*self != I2CRegister::BothAxesPosition),
    {
        !matches!(self, I2CRegister::BothAxesPosition)
    }

    /// Parses a register from its number.
    pub fn try_from(value: u8) -> (r: Result<Self, ()>)
        ensures
            r == match register_of(value) {
                Some(reg) => Ok::<I2CRegister, ()>(reg),
                None => Err(()),
            },
    {
        match value {
            0x10 => Ok(Self::AxisSettings),
            0x21 => Ok(Self::Axis1Velocity),
            0x22 => Ok(Self::Axis2Velocity),
            0x31 => Ok(Self::Axis1Position),
            0x32 => Ok(Self::Axis2Position),
            0x40 => Ok(Self::BothAxesVelocity),
            0x50 => Ok(Self::BothAxesPosition),
            _ => Err(()),
        }
    }
}

/// Parsing the number of a register gives the register back.
pub proof fn lemma_register_round_trip(r: I2CRegister)
    ensures
        register_of(register_number(r)) == Some(r),
{
}

/// The status of an event at which the master addresses the slave as a receiver.
pub open spec fn addressed_write_status() -> I2CStatus {
    I2CStatus { rx_not_empty: false, stopped: false, addressed: Some(Direction::Write), tx_empty: false }
}

/// The status of an event at which the master addresses the slave as a transmitter.
pub open spec fn addressed_read_status() -> I2CStatus {
    I2CStatus { rx_not_empty: false, stopped: false, addressed: Some(Direction::Read), tx_empty: false }
}

/// The status of an event at which a received byte waits in the data register.
pub open spec fn byte_received_status() -> I2CStatus {
    I2CStatus { rx_not_empty: true, stopped: false, addressed: None, tx_empty: false }
}

/// The status of an event at which the data register takes the next byte to transmit.
pub open spec fn byte_requested_status() -> I2CStatus {
    I2CStatus { rx_not_empty: false, stopped: false, addressed: None, tx_empty: true }
}

/// The status of an event at which the master ends the transfer.
pub open spec fn stopped_status() -> I2CStatus {
    I2CStatus { rx_not_empty: false, stopped: true, addressed: None, tx_empty: false }
}

/// The slave after an event at which each of `bytes` is received in turn.
pub open spec fn receive_all(s: I2CSlaveView, bytes: Seq<u8>) -> I2CSlaveView
    decreases bytes.len(),
{
    if bytes.len() == 0 {
        s
    } else {
        receive_all(event_step(s, byte_received_status(), bytes[0]).0, bytes.skip(1))
    }
}

/// The slave and the bytes transmitted after `n` events at which the data register
/// takes the next byte.
pub open spec fn transmit_all(s: I2CSlaveView, n: nat) -> (I2CSlaveView, Seq<Option<u8>>)
    decreases n,
{
    if n == 0 {
        (s, Seq::empty())
    } else {
        let (s1, r) = event_step(s, byte_requested_status(), 0);
        let (s2, sent) = transmit_all(s1, (n - 1) as nat);
        (s2, seq![r.transmit] + sent)
    }
}

/// Receiving bytes appends them to the received data of a slave that receives.
proof fn lemma_receive_all(s: I2CSlaveView, bytes: Seq<u8>)
    requires
        s.transfer_state == TransferState::Receiving,
        s.buffer.len() == BUFFER_SIZE,
        0 <= s.buffer_index,
        s.buffer_index + bytes.len() <= BUFFER_SIZE,
    ensures
        ({
            let r = receive_all(s, bytes);
            &&& r == (I2CSlaveView {
                buffer: r.buffer,
                buffer_index: s.buffer_index + bytes.len(),
                ..s
            })
            &&& r.buffer.len() == BUFFER_SIZE
            &&& r.buffer.take(r.buffer_index) == s.buffer.take(s.buffer_index) + bytes
        }),
    decreases bytes.len(),
{
    if bytes.len() > 0 {
        let s1 = event_step(s, byte_received_status(), bytes[0]).0;
        lemma_receive_all(s1, bytes.skip(1));
        let r = receive_all(s, bytes);
        assert(s1.buffer.take(s1.buffer_index) =~= s.buffer.take(s.buffer_index).push(bytes[0]));
        assert(r.buffer.take(r.buffer_index) =~= s.buffer.take(s.buffer_index) + bytes);
    } else {
        assert(s.buffer.take(s.buffer_index) + bytes =~= s.buffer.take(s.buffer_index));
    }
}

/// A write transaction delivers the written bytes: the master addresses the slave as
/// a receiver, sends the register number, then the data bytes (the event at which the
/// first one arrives only switches to receiving; the byte is read at the next event)
/// and stops. The slave then reports the data received for the register: the bytes
/// received since its data were last taken, followed by the written ones.
pub proof fn lemma_write_transaction(s: I2CSlaveView, register: u8, first: u8, bytes: Seq<u8>)
    requires
        s.buffer.len() == BUFFER_SIZE,
        0 <= s.buffer_index,
        s.buffer_index + bytes.len() <= BUFFER_SIZE,
    ensures
        ({
            let s1 = event_step(s, addressed_write_status(), 0).0;
            let s2 = event_step(s1, byte_received_status(), register).0;
            let s3 = event_step(s2, byte_received_status(), first).0;
            let s4 = receive_all(s3, bytes);
            let s5 = event_step(s4, stopped_status(), 0).0;
            &&& s5.state == Some(State::DataReceived(register))
            &&& s5.transfer_state == TransferState::Idle
            &&& s5.buffer.take(s5.buffer_index) == s.buffer.take(s.buffer_index) + bytes
        }),
{
    let s1 = event_step(s, addressed_write_status(), 0).0;
    let s2 = event_step(s1, byte_received_status(), register).0;
    let s3 = event_step(s2, byte_received_status(), first).0;
    lemma_receive_all(s3, bytes);
}

/// Transmitting sends the remaining bytes of the transmit data in order, then nothing.
proof fn lemma_transmit_all(s: I2CSlaveView, n: nat)
    requires
        s.transfer_state == TransferState::Transmitting,
        0 <= s.buffer_index <= s.transfer_len,
        s.buffer_index + n == s.transfer_len,
    ensures
        ({
            let (r, sent) = transmit_all(s, n);
            &&& sent == Seq::new(n, |i: int| Some(s.buffer[s.buffer_index + i]))
            &&& r == (I2CSlaveView { buffer_index: s.transfer_len, ..s })
        }),
    decreases n,
{
    if n > 0 {
        let (s1, r) = event_step(s, byte_requested_status(), 0);
        lemma_transmit_all(s1, (n - 1) as nat);
        let (_, sent1) = transmit_all(s1, (n - 1) as nat);
        let (_, sent) = transmit_all(s, n);
        assert(sent =~= Seq::new(n, |i: int| Some(s.buffer[s.buffer_index + i])));
    } else {
        let (_, sent) = transmit_all(s, n);
        assert(sent =~= Seq::new(n, |i: int| Some(s.buffer[s.buffer_index + i])));
    }
}

/// A read transaction delivers the provided bytes: the master addresses the slave as a
/// receiver, sends the register number and addresses it as a transmitter; the slave
/// reports the register as requested. Once the application provides the data, the
/// next events transmit them in order, and the event after the last byte transmits
/// nothing and ends the report.
pub proof fn lemma_read_transaction(s: I2CSlaveView, register: u8, data: Seq<u8>)
    requires
        s.buffer.len() == BUFFER_SIZE,
        data.len() <= BUFFER_SIZE,
    ensures
        ({
            let s1 = event_step(s, addressed_write_status(), 0).0;
            let s2 = event_step(s1, byte_received_status(), register).0;
            let s3 = event_step(s2, addressed_read_status(), 0).0;
            let s4 = with_transmit_data(s3, data);
            let (s5, sent) = transmit_all(s4, data.len());
            let (s6, last) = event_step(s5, byte_requested_status(), 0);
            &&& s3.state == Some(State::DataRequested(register))
            &&& sent == data.map_values(|b: u8| Some(b))
            &&& last.transmit is None
            &&& s6.state is None
        }),
{
    let s1 = event_step(s, addressed_write_status(), 0).0;
    let s2 = event_step(s1, byte_received_status(), register).0;
    let s3 = event_step(s2, addressed_read_status(), 0).0;
    let s4 = with_transmit_data(s3, data);
    lemma_transmit_all(s4, data.len());
    let (_, sent) = transmit_all(s4, data.len());
    assert(sent =~= data.map_values(|b: u8| Some(b)));
}

} // verus!
