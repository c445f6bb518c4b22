//! CANopen messages as the firmware receives and sends them, and the frames that carry them.

use vstd::prelude::*;
use crate::canopen::{NMTRequestedState, nmt_requested_state_of, le_u16};

verus! {

/// The kinds of CANopen message, by the function code in the frame identifier.
#[derive(Copy, Clone, Debug, PartialEq, Eq, Structural)]
pub enum CANOpenMessage {
    NMTNodeControl,
    GlobalFailsafeCommand,
    Sync,
    Emergency,
    TimeStamp,
    TxPDO1,
    RxPDO1,
    TxPDO2,
    RxPDO2,
    TxPDO3,
    RxPDO3,
    TxPDO4,
    RxPDO4,
    TxSDO,
    RxSDO,
    NMTNodeMonitoring,
}

/// The function code of a message kind.
pub open spec fn message_code(message: CANOpenMessage) -> u16 {
    match message {
            CANOpenMessage::NMTNodeControl => 0x000,
            CANOpenMessage::GlobalFailsafeCommand => 0x001,
            CANOpenMessage::Sync => 0x080,
            CANOpenMessage::Emergency => 0x081,
            CANOpenMessage::TimeStamp => 0x100,
            CANOpenMessage::TxPDO1 => 0x180,
            CANOpenMessage::RxPDO1 => 0x200,
            CANOpenMessage::TxPDO2 => 0x280,
            CANOpenMessage::RxPDO2 => 0x300,
            CANOpenMessage::TxPDO3 => 0x380,
            CANOpenMessage::RxPDO3 => 0x400,
            CANOpenMessage::TxPDO4 => 0x480,
            CANOpenMessage::RxPDO4 => 0x500,
            CANOpenMessage::TxSDO => 0x580,
            CANOpenMessage::RxSDO => 0x600,
            CANOpenMessage::NMTNodeMonitoring => 0x700,
    }
}

/// The message kind whose function code is `code`, if any.
pub open spec fn message_of_code(code: u16) -> Option<CANOpenMessage> {
    if code == 0x000 {
        Some(CANOpenMessage::NMTNodeControl)
    } else if code == 0x001 {
        Some(CANOpenMessage::GlobalFailsafeCommand)
    } else if code == 0x080 {
        Some(CANOpenMessage::Sync)
    } else if code == 0x081 {
        Some(CANOpenMessage::Emergency)
    } else if code == 0x100 {
        Some(CANOpenMessage::TimeStamp)
    } else if code == 0x180 {
        Some(CANOpenMessage::TxPDO1)
    } else if code == 0x200 {
        Some(CANOpenMessage::RxPDO1)
    } else if code == 0x280 {
        Some(CANOpenMessage::TxPDO2)
    } else if code == 0x300 {
        Some(CANOpenMessage::RxPDO2)
    } else if code == 0x380 {
        Some(CANOpenMessage::TxPDO3)
    } else if code == 0x400 {
        Some(CANOpenMessage::RxPDO3)
    } else if code == 0x480 {
        Some(CANOpenMessage::TxPDO4)
    } else if code == 0x500 {
        Some(CANOpenMessage::RxPDO4)
    } else if code == 0x580 {
        Some(CANOpenMessage::TxSDO)
    } else if code == 0x600 {
        Some(CANOpenMessage::RxSDO)
    } else if code == 0x700 {
        Some(CANOpenMessage::NMTNodeMonitoring)
    } else {
        None
    }
}

/// Whether the identifier of a message kind carries the id of the device.
pub open spec fn carries_device_id(message: CANOpenMessage) -> bool {
    !(message is NMTNodeControl || message is GlobalFailsafeCommand || message is Sync
        || message is TimeStamp)
}

impl CANOpenMessage {
    /// Parses the message kind from a frame identifier: the low seven bits, which carry
    /// the device id, are cleared first.
    pub fn try_from(value: u16) -> (r: Result<Self, ()>)
        ensures
            r == match message_of_code(value & 0xff80) {
                Some(m) => Ok::<CANOpenMessage, ()>(m),
                None => Err(()),
            },
    {
        match value & 0xff80 {
            0x000 => Ok(Self::NMTNodeControl),
            0x001 => Ok(Self::GlobalFailsafeCommand),
            0x080 => Ok(Self::Sync),
            0x081 => Ok(Self::Emergency),
            0x100 => Ok(Self::TimeStamp),
            0x180 => Ok(Self::TxPDO1),
            0x200 => Ok(Self::RxPDO1),
            0x280 => Ok(Self::TxPDO2),
            0x300 => Ok(Self::RxPDO2),
            0x380 => Ok(Self::TxPDO3),
            0x400 => Ok(Self::RxPDO3),
            0x480 => Ok(Self::TxPDO4),
            0x500 => Ok(Self::RxPDO4),
            0x580 => Ok(Self::TxSDO),
            0x600 => Ok(Self::RxSDO),
            0x700 => Ok(Self::NMTNodeMonitoring),
            _ => Err(()),
        }
    }

    /// The 11-bit identifier of the message sent by (or to) the device `device_id`:
    /// the function code, or'ed with the device id for the node-specific messages.
    pub fn message_id_with_device(&self, device_id: u8) -> (id: u16)
        ensures
            id == (if carries_device_id(*self) {
                message_code(*self) | device_id as u16
            } else {
                message_code(*self)
            }),
            id <= 0x7ff,
    {
        let code = u16::from(self);
        proof {
            lemma_or_below_0x800(code, device_id as u16);
        }
        match self {
            CANOpenMessage::NMTNodeControl
            | CANOpenMessage::GlobalFailsafeCommand
            | CANOpenMessage::Sync
            | CANOpenMessage::TimeStamp => code,
            _ => code | device_id as u16,
        }
    }
}

proof fn lemma_or_below_0x800(code: u16, id: u16)
    requires
        code <= 0x7ff,
        id <= 0xff,
    ensures
        code | id <= 0x7ff,
{
    assert(code <= 0x7ff && id <= 0xff ==> code | id <= 0x7ff) by (bit_vector);
}

/// Used for serialization of the message kind: its function code.
impl<'a> From<&'a CANOpenMessage> for u16 {
    fn from(message: &'a CANOpenMessage) -> (code: u16) {
        match message {
            CANOpenMessage::NMTNodeControl => 0x000,
            CANOpenMessage::GlobalFailsafeCommand => 0x001,
            CANOpenMessage::Sync => 0x080,
            CANOpenMessage::Emergency => 0x081,
            CANOpenMessage::TimeStamp => 0x100,
            CANOpenMessage::TxPDO1 => 0x180,
            CANOpenMessage::RxPDO1 => 0x200,
            CANOpenMessage::TxPDO2 => 0x280,
            CANOpenMessage::RxPDO2 => 0x300,
            CANOpenMessage::TxPDO3 => 0x380,
            CANOpenMessage::RxPDO3 => 0x400,
            CANOpenMessage::TxPDO4 => 0x480,
            CANOpenMessage::RxPDO4 => 0x500,
            CANOpenMessage::TxSDO => 0x580,
            CANOpenMessage::RxSDO => 0x600,
            CANOpenMessage::NMTNodeMonitoring => 0x700,
        }
    }
}

impl<'a> vstd::std_specs::convert::FromSpecImpl<&'a CANOpenMessage> for u16 {
    open spec fn obeys_from_spec() -> bool {
        true
    }

    open spec fn from_spec(v: &'a CANOpenMessage) -> u16 {
        message_code(*v)
    }
}

/// The identifier of a CAN frame.
#[derive(Copy, Clone, Debug, PartialEq, Eq, Structural)]
pub enum FrameId {
    /// An 11-bit identifier.
    Standard(u16),
    /// A 29-bit identifier.
    Extended(u32),
}

/// A CAN frame: its identifier, its data length code and, for a data frame, its data.
pub struct CANFrame {
    id: FrameId,
    dlc: u8,
    data: Option<Vec<u8>>,
}

impl CANFrame {
    #[verifier::type_invariant]
    spec fn wf(self) -> bool {
        &&& self.dlc <= 8
        &&& self.data matches Some(d) ==> d@.len() == self.dlc
    }

    /// The identifier of the frame.
    pub closed spec fn spec_id(&self) -> FrameId {
        self.id
    }

    /// The data length code of the frame.
    pub closed spec fn spec_dlc(&self) -> u8 {
        self.dlc
    }

    /// The data of the frame; `None` for a remote frame.
    pub closed spec fn spec_data(&self) -> Option<Seq<u8>> {
        match self.data {
            Some(d) => Some(d@),
            None => None,
        }
    }

    /// Makes a data frame; `None` when there are more than eight bytes.
    pub fn new_data(id: FrameId, data: &[u8]) -> (f: Option<Self>)
        ensures
            data@.len() > 8 <==> f is None,
            f matches Some(f) ==> f.spec_id() == id && f.spec_dlc() == data@.len() && f.spec_data()
                == Some(data@),
    {
        if data.len() > 8 {
            return None;
        }
        let bytes = vstd::slice::slice_to_vec(data);
        Some(CANFrame { id, dlc: data.len() as u8, data: Some(bytes) })
    }

    /// Makes a remote frame; `None` when the data length code is above eight.
    pub fn new_remote(id: FrameId, dlc: u8) -> (f: Option<Self>)
        ensures
            dlc > 8 <==> f is None,
            f matches Some(f) ==> f.spec_id() == id && f.spec_dlc() == dlc && f.spec_data() is None,
    {
        if dlc > 8 {
            return None;
        }
        Some(CANFrame { id, dlc, data: None })
    }

    /// The identifier of the frame.
    pub fn id(&self) -> (id: FrameId)
        ensures
            id == self.spec_id(),
    {
        self.id
    }

    /// The data length code of the frame.
    pub fn dlc(&self) -> (dlc: u8)
        ensures
            dlc == self.spec_dlc(),
            dlc <= 8,
    {
        proof {
            use_type_invariant(self);
        }
        self.dlc
    }

    /// The data of the frame; `None` for a remote frame.
    pub fn data(&self) -> (d: Option<&[u8]>)
        ensures
            match d {
                Some(d) => self.spec_data() == Some(d@) && d@.len() == self.spec_dlc(),
                None => self.spec_data() is None,
            },
    {
        proof {
            use_type_invariant(self);
        }
        match &self.data {
            Some(d) => Some(d.as_slice()),
            None => None,
        }
    }
}

impl CANOpenMessage {
    /// The data frame by which the message is sent to or by the device `device_id`,
    /// carrying `data`.
    pub fn frame(&self, device_id: u8, data: &[u8]) -> (f: CANFrame)
        requires
            data@.len() <= 8,
        ensures
            f.spec_id() == FrameId::Standard(
                if carries_device_id(*self) {
                    message_code(*self) | device_id as u16
                } else {
                    message_code(*self)
                },
            ),
            f.spec_dlc() == data@.len(),
            f.spec_data() == Some(data@),
    {
        let id = self.message_id_with_device(device_id);
        CANFrame::new_data(FrameId::Standard(id), data).unwrap()
    }
}

/// The message kind of a frame with an identifier, if it is a CANopen message.
pub open spec fn message_of_frame_id(id: FrameId) -> Option<CANOpenMessage> {
    match id {
        FrameId::Standard(raw) => message_of_code(raw & 0xff80),
        FrameId::Extended(_) => None,
    }
}

/// Frames that carry CANopen messages.
pub trait CANOpenFrame {
    /// The message kind that the frame carries.
    spec fn spec_parse_id(&self) -> Option<CANOpenMessage>;

    /// Parses the message kind from the identifier of the frame.
    fn parse_id(&self) -> (m: Option<CANOpenMessage>)
        ensures
            m == self.spec_parse_id(),
    ;
}

impl CANOpenFrame for CANFrame {
    open spec fn spec_parse_id(&self) -> Option<CANOpenMessage> {
        message_of_frame_id(self.spec_id())
    }

    /// A standard identifier carries the function code in its bits above the seven bits
    /// of the device id; frames with an extended identifier carry no CANopen message.
    fn parse_id(&self) -> (m: Option<CANOpenMessage>) {
        let frame_id = match self.id() {
            FrameId::Standard(raw) => raw,
            FrameId::Extended(_) => {
                return None;
            },
        };
        let message_id = frame_id & 0xff80;
        proof {
            assert(message_id & 0xff80 == message_id) by (bit_vector)
                requires
                    message_id == frame_id & 0xff80,
            ;
        }
        match CANOpenMessage::try_from(message_id) {
            Ok(message) => Some(message),
            Err(_) => None,
        }
    }
}

proof fn lemma_code_with_device_id(code: u16, id: u16)
    requires
        code & 0x7f == 0,
        code <= 0x7ff,
        id < 0x80,
    ensures
        (code | id) & 0xff80 == code,
{
    assert(code & 0x7f == 0 && code <= 0x7ff && id < 0x80 ==> (code | id) & 0xff80 == code)
        by (bit_vector);
}

/// The identifier under which a message is sent to or by a device parses back to the
/// same message kind, for every kind whose function code is a multiple of 0x80 (all
/// but the global failsafe command and the emergency) and every device id below 0x80.
pub proof fn lemma_message_id_round_trip(message: CANOpenMessage, device_id: u8)
    requires
        device_id < 0x80,
        !(message is GlobalFailsafeCommand),
        !(message is Emergency),
    ensures
        message_of_code(
            (if carries_device_id(message) {
                message_code(message) | device_id as u16
            } else {
                message_code(message)
            }) & 0xff80,
        ) == Some(message),
{
    let code = message_code(message);
    assert(0x000u16 & 0x7f == 0 && 0x080u16 & 0x7f == 0 && 0x100u16 & 0x7f == 0 && 0x180u16 & 0x7f
        == 0 && 0x200u16 & 0x7f == 0 && 0x280u16 & 0x7f == 0 && 0x300u16 & 0x7f == 0 && 0x380u16
        & 0x7f == 0 && 0x400u16 & 0x7f == 0 && 0x480u16 & 0x7f == 0 && 0x500u16 & 0x7f == 0
        && 0x580u16 & 0x7f == 0 && 0x600u16 & 0x7f == 0 && 0x700u16 & 0x7f == 0) by (bit_vector);
    assert(0x000u16 & 0xff80 == 0x000 && 0x080u16 & 0xff80 == 0x080 && 0x100u16 & 0xff80 == 0x100)
        by (bit_vector);
    lemma_code_with_device_id(code, device_id as u16);
}

} // verus!
