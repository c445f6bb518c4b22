//! Objects that are used for CANopen communication: NMT states, PDO identifiers
//! and the serialization of the status PDO.

use vstd::prelude::*;

verus! {

/// Error returned from deserializing the raw data from CAN frames.
#[derive(Copy, Clone, Debug, PartialEq, Eq, Structural)]
pub enum PDODeserializationError {
    /// The received data length is not the same as the length required to deserialize the frame.
    IncorrectDataSize,
}

/// Error returned from serializing the PDO to raw data for CAN frames.
#[derive(Copy, Clone, Debug, PartialEq, Eq, Structural)]
pub enum PDOSerializationError {
    /// The provided buffer into which the raw data should be serialized is too small.
    BufferTooSmall,
}

/// States that the NMT master may request from a node.
#[derive(Copy, Clone, Debug, PartialEq, Eq, Structural)]
pub enum NMTRequestedState {
    Operational,
    Stopped,
    PreOperational,
    ResetNode,
    ResetCommunication,
}

/// The NMT state of a node.
#[derive(Copy, Clone, Debug, PartialEq, Eq, Structural)]
pub enum NMTState {
    BootUp,
    Stopped,
    Operational,
    PreOperational,
}

/// The byte by which an NMT state is reported in the heartbeat message.
pub open spec fn nmt_state_code(state: NMTState) -> u8 {
    match state {
        NMTState::BootUp => 0x00,
        NMTState::Stopped => 0x04,
        NMTState::Operational => 0x05,
        NMTState::PreOperational => 0x7f,
    }
}

/// The requested state that an NMT command byte stands for, if any.
pub open spec fn nmt_requested_state_of(value: u8) -> Option<NMTRequestedState> {
    if value == 0x01 {
        Some(NMTRequestedState::Operational)
    } else if value == 0x02 {
        Some(NMTRequestedState::Stopped)
    } else if value == 0x80 {
        Some(NMTRequestedState::PreOperational)
    } else if value == 0x81 {
        Some(NMTRequestedState::ResetNode)
    } else if value == 0x82 {
        Some(NMTRequestedState::ResetCommunication)
    } else {
        None
    }
}

impl NMTState {
    /// The default NMT state is `BootUp`.
    pub fn default() -> (s: Self)
        ensures
            s == NMTState::BootUp,
    {
        NMTState::BootUp
    }
}

/// Used for serialization of `NMTState`.
impl From<NMTState> for u8 {
    fn from(raw: NMTState) -> (code: u8) {
        match raw {
            NMTState::BootUp => 0x00,
            NMTState::Stopped => 0x04,
            NMTState::Operational => 0x05,
            NMTState::PreOperational => 0x7f,
        }
    }
}

impl vstd::std_specs::convert::FromSpecImpl<NMTState> for u8 {
    open spec fn obeys_from_spec() -> bool {
        true
    }

    open spec fn from_spec(v: NMTState) -> u8 {
        nmt_state_code(v)
    }
}

impl NMTRequestedState {
    /// Deserializes the requested state from the command byte of an NMT node control message.
    pub fn try_from(value: u8) -> (r: Result<Self, ()>)
        ensures
            r matches Ok(s) ==> nmt_requested_state_of(value) == Some(s),
            r is Err <==> nmt_requested_state_of(value) is None,
    {
        match value {
            0x01 => Ok(Self::Operational),
            0x02 => Ok(Self::Stopped),
            0x80 => Ok(Self::PreOperational),
            0x81 => Ok(Self::ResetNode),
            0x82 => Ok(Self::ResetCommunication),
            _ => Err(()),
        }
    }
}

/// The identifier of a Process Data Object. The raw identifier differs between
/// received and transmitted PDOs, so the accessor methods give the raw value.
#[derive(Copy, Clone, Debug, PartialEq, Eq, PartialOrd, Structural)]
pub enum PDOId {
    PDO1,
    PDO2,
    PDO3,
    PDO4,
}

impl PDOId {
    /// The function code of this PDO when the node transmits it (device id not included).
    pub open spec fn spec_tx_id(self) -> u16 {
        match self {
            PDOId::PDO1 => 0x180,
            PDOId::PDO2 => 0x280,
            PDOId::PDO3 => 0x380,
            PDOId::PDO4 => 0x480,
        }
    }

    /// The function code of this PDO when the node receives it (device id not included).
    pub open spec fn spec_rx_id(self) -> u16 {
        match self {
            PDOId::PDO1 => 0x200,
            PDOId::PDO2 => 0x300,
            PDOId::PDO3 => 0x400,
            PDOId::PDO4 => 0x500,
        }
    }

    /// Returns the raw ID that represents a `TxPDO` in the CAN frame header.
    /// The ID doesn't encode the device ID.
    pub fn tx_id(&self) -> (id: u16)
        ensures
            id == self.spec_tx_id(),
    {
        match self {
            PDOId::PDO1 => 0x180,
            PDOId::PDO2 => 0x280,
            PDOId::PDO3 => 0x380,
            PDOId::PDO4 => 0x480,
        }
    }

    /// Returns the raw ID that represents a `RxPDO` in the CAN frame header.
    /// The ID doesn't encode the device ID.
    pub fn rx_id(&self) -> (id: u16)
        ensures
            id == self.spec_rx_id(),
    {
        match self {
            PDOId::PDO1 => 0x200,
            PDOId::PDO2 => 0x300,
            PDOId::PDO3 => 0x400,
            PDOId::PDO4 => 0x500,
        }
    }

    /// Returns the `PDOId` parsed from a raw identifier of a received PDO.
    /// Only the seven bits that carry the device ID are ignored: every other bit
    /// must be a receive function code, so a transmit identifier is refused.
    pub fn from_rx(id: u16) -> (r: Result<Self, ()>)
        ensures
            r == match pdo_of_function_code(id & 0xff80) {
                Some(p) => Ok::<PDOId, ()>(p),
                None => Err(()),
            },
            forall|p: PDOId| r == Ok::<PDOId, ()>(p) <==> (id & 0xff80) == p.spec_rx_id(),
    {
        match id & 0xff80 {
            0x200 => Ok(PDOId::PDO1),
            0x300 => Ok(PDOId::PDO2),
            0x400 => Ok(PDOId::PDO3),
            0x500 => Ok(PDOId::PDO4),
            _ => Err(()),
        }
    }
}

/// The received PDO whose function code is `code`, if any.
pub open spec fn pdo_of_function_code(code: u16) -> Option<PDOId> {
    if code == 0x200 {
        Some(PDOId::PDO1)
    } else if code == 0x300 {
        Some(PDOId::PDO2)
    } else if code == 0x400 {
        Some(PDOId::PDO3)
    } else if code == 0x500 {
        Some(PDOId::PDO4)
    } else {
        None
    }
}

/// The value of two bytes read in little-endian order.
pub open spec fn le_u16(b0: u8, b1: u8) -> u16 {
    (b0 + 256 * b1) as u16
}

/// Serialization of a PDO into the data field of a CAN frame.
pub trait SerializePDO: Sized {
    /// The number of data bytes that the PDO occupies.
    spec fn spec_len() -> nat;

    /// The data bytes of the PDO.
    spec fn wire_bytes(&self) -> Seq<u8>;

    /// Returns the number of data bytes that the PDO occupies.
    fn len() -> (n: usize)
        ensures
            n == Self::spec_len(),
    ;

    /// Serializes the PDO into the 8-byte data field of a CAN frame. The first
    /// `len()` bytes carry the PDO.
    fn to_raw(&self) -> (r: Result<[u8; 8], PDOSerializationError>)
        ensures
            r matches Ok(raw) ==> raw@.take(Self::spec_len() as int) == self.wire_bytes(),
    ;
}

/// `TxPDO1` is the first Process Data Object sent by the device to the master.
/// It carries general status information: the motor supply voltage and the die temperature.
#[derive(Copy, Clone, Debug, PartialEq, Eq, Structural)]
pub struct TxPDO1 {
    /// The motor supply voltage, in millivolts.
    pub battery_voltage: u16,
    /// The die temperature, in 0.1 deg C.
    pub temperature: u16,
}

impl TxPDO1 {
    /// The number of data bytes of the PDO.
    pub const SIZE: usize = 4;

    /// The default PDO holds zeros.
    pub fn default() -> (p: Self)
        ensures
            p.battery_voltage == 0,
            p.temperature == 0,
    {
        TxPDO1 { battery_voltage: 0, temperature: 0 }
    }

    /// Deserializes the PDO from the data of a CAN frame: both values little-endian,
    /// the battery voltage first.
    pub fn try_from(value: &[u8]) -> (r: Result<Self, PDODeserializationError>)
        ensures
            r == match tx_pdo1_decode(value@) {
                Some(p) => Ok::<TxPDO1, PDODeserializationError>(p),
                None => Err(PDODeserializationError::IncorrectDataSize),
            },
    {
        if value.len() != Self::SIZE {
            return Err(PDODeserializationError::IncorrectDataSize);
        }
        Ok(TxPDO1 {
            battery_voltage: value[0] as u16 + (value[1] as u16) * 256,
            temperature: value[2] as u16 + (value[3] as u16) * 256,
        })
    }
}

/// The status PDO that four data bytes stand for; `None` for any other length.
pub open spec fn tx_pdo1_decode(data: Seq<u8>) -> Option<TxPDO1> {
    if data.len() == 4 {
        Some(TxPDO1 {
            battery_voltage: le_u16(data[0], data[1]),
            temperature: le_u16(data[2], data[3]),
        })
    } else {
        None
    }
}

/// The little-endian bytes of a 16-bit value.
pub open spec fn le_bytes_u16(v: u16) -> Seq<u8> {
    seq![(v % 256) as u8, (v / 256) as u8]
}

impl SerializePDO for TxPDO1 {
    open spec fn spec_len() -> nat {
        4
    }

    open spec fn wire_bytes(&self) -> Seq<u8> {
        le_bytes_u16(self.battery_voltage) + le_bytes_u16(self.temperature)
    }

    fn len() -> (n: usize) {
        Self::SIZE
    }

    /// Always succeeds: the values little-endian, the battery voltage first, then four
    /// zero bytes.
    fn to_raw(&self) -> (r: Result<[u8; 8], PDOSerializationError>)
        ensures
            r matches Ok(raw) && raw@ == self.wire_bytes() + seq![0u8, 0u8, 0u8, 0u8],
    {
        let raw: [u8; 8] = [
            (self.battery_voltage % 256) as u8,
            (self.battery_voltage / 256) as u8,
            (self.temperature % 256) as u8,
            (self.temperature / 256) as u8,
            0,
            0,
            0,
            0,
        ];
        if raw.len() < Self::SIZE {
            return Err(PDOSerializationError::BufferTooSmall);
        }
        Ok(raw)
    }
}

/// Parsing the function code of a received PDO gives that PDO back, whatever
/// node id (below 0x80) is added to the code.
pub proof fn lemma_pdo_rx_id_round_trip(pdo: PDOId, node_id: u16)
    requires
        node_id < 0x80,
    ensures
        pdo_of_function_code((pdo.spec_rx_id() | node_id) & 0xff80) == Some(pdo),
{
    assert(node_id < 0x80 ==> (0x200u16 | node_id) & 0xff80 == 0x200) by (bit_vector);
    assert(node_id < 0x80 ==> (0x300u16 | node_id) & 0xff80 == 0x300) by (bit_vector);
    assert(node_id < 0x80 ==> (0x400u16 | node_id) & 0xff80 == 0x400) by (bit_vector);
    assert(node_id < 0x80 ==> (0x500u16 | node_id) & 0xff80 == 0x500) by (bit_vector);
}

/// A transmit identifier never parses as a received PDO, whatever node id (below
/// 0x80) is added to it.
pub proof fn lemma_tx_id_refused(pdo: PDOId, node_id: u16)
    requires
        node_id < 0x80,
    ensures
        pdo_of_function_code((pdo.spec_tx_id() | node_id) & 0xff80) is None,
{
    assert(node_id < 0x80 ==> (0x180u16 | node_id) & 0xff80 == 0x180) by (bit_vector);
    assert(node_id < 0x80 ==> (0x280u16 | node_id) & 0xff80 == 0x280) by (bit_vector);
    assert(node_id < 0x80 ==> (0x380u16 | node_id) & 0xff80 == 0x380) by (bit_vector);
    assert(node_id < 0x80 ==> (0x480u16 | node_id) & 0xff80 == 0x480) by (bit_vector);
}

/// Decoding the data bytes of a serialized status PDO gives the same PDO back.
pub proof fn lemma_tx_pdo1_round_trip(pdo: TxPDO1)
    ensures
        tx_pdo1_decode(pdo.wire_bytes()) == Some(pdo),
{
}

/// Every NMT state is reported by a distinct byte.
pub proof fn lemma_nmt_state_code_injective(a: NMTState, b: NMTState)
    ensures
        nmt_state_code(a) == nmt_state_code(b) ==> a == b,
{
}

} // verus!
