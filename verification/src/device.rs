//! A plain CANopen device: it recognizes the NMT node control frames addressed to it,
//! and it names its PDOs by their exact function codes.

use vstd::prelude::*;
use crate::canopen::{NMTRequestedState, NMTState, nmt_requested_state_of};
use crate::can::{CANFrame, FrameId};

verus! {

/// A CANopen device with its node id and NMT state.
pub struct CANOpenDevice {
    id: u8,
    nmt_state: NMTState,
}

/// What a device makes of a frame.
pub open spec fn device_frame_outcome(id: u8, frame_id: FrameId, dlc: u8, data: Option<Seq<u8>>) -> Result<
    Option<NMTRequestedState>,
    (),
> {
    match frame_id {
        FrameId::Extended(_) => Ok(None),
        FrameId::Standard(raw) => if raw & 0xff80 == 0 {
            let d = match data {
                Some(d) => d,
                None => Seq::empty(),
            };
            if dlc == 2 && d[1] == id {
                Ok(nmt_requested_state_of(d[0]))
            } else {
                Ok(None)
            }
        } else {
            Err(())
        },
    }
}

/// A remote frame with the NMT function code and two data bytes announced: the device
/// would index its missing data.
pub open spec fn remote_nmt_frame(frame_id: FrameId, dlc: u8, data: Option<Seq<u8>>) -> bool {
    &&& frame_id matches FrameId::Standard(raw)
    &&& raw & 0xff80 == 0
    &&& dlc == 2
    &&& data is None
}

impl CANOpenDevice {
    /// The node id of the device.
    pub closed spec fn spec_id(&self) -> u8 {
        self.id
    }

    /// The NMT state of the device.
    pub closed spec fn spec_nmt_state(&self) -> NMTState {
        self.nmt_state
    }

    /// A device with the node id `id`, booting up.
    pub fn new(id: u8) -> (d: Self)
        ensures
            d.spec_id() == id,
            d.spec_nmt_state() == NMTState::BootUp,
    {
        Self { id, nmt_state: NMTState::BootUp }
    }

    /// Examines a received frame. An NMT node control frame (function code 0) with two
    /// data bytes, the second of which is the node id, gives the state that it requests
    /// (`Ok(Some(..))`, when the first byte names one); a frame with any other function
    /// code is unknown (`Err(())`). The NMT state of the device does not change.
    pub fn process_frame(&mut self, frame: &CANFrame) -> (r: Result<Option<NMTRequestedState>, ()>)
        requires
            !remote_nmt_frame(frame.spec_id(), frame.spec_dlc(), frame.spec_data()),
        ensures
            r == device_frame_outcome(
                old(self).spec_id(),
                frame.spec_id(),
                frame.spec_dlc(),
                frame.spec_data(),
            ),
            final(self).spec_id() == old(self).spec_id(),
            final(self).spec_nmt_state() == old(self).spec_nmt_state(),
    {
        let frame_id = match frame.id() {
            FrameId::Standard(raw) => raw,
            FrameId::Extended(_) => {
                return Ok(None);
            },
        };
        let message_id = frame_id & 0xff80;
        if message_id == 0x000 {
            if frame.dlc() == 2 {
                let data = match frame.data() {
                    Some(d) => d,
                    None => {
                        return Ok(None);
                    },
                };
                if data[1] == self.id {
                    return match NMTRequestedState::try_from(data[0]) {
                        Ok(new_state) => Ok(Some(new_state)),
                        Err(_) => Ok(None),
                    };
                }
            }
            Ok(None)
        } else {
            Err(())
        }
    }
}

/// The PDOs of the plain device.
#[derive(Copy, Clone, Debug, PartialEq, Eq, Structural)]
pub enum PDO {
    PDO1,
    PDO2,
    PDO3,
    PDO4,
}

/// The PDO whose exact receive function code is `id`.
pub open spec fn pdo_of_rx_code(id: u16) -> Option<PDO> {
    if id == 0x200 {
        Some(PDO::PDO1)
    } else if id == 0x300 {
        Some(PDO::PDO2)
    } else if id == 0x400 {
        Some(PDO::PDO3)
    } else if id == 0x500 {
        Some(PDO::PDO4)
    } else {
        None
    }
}

impl PDO {
    /// The function code of this PDO when the node transmits it.
    pub open spec fn spec_tx_id(self) -> u16 {
        match self {
            PDO::PDO1 => 0x180,
            PDO::PDO2 => 0x280,
            PDO::PDO3 => 0x380,
            PDO::PDO4 => 0x480,
        }
    }

    /// The function code of this PDO when the node receives it.
    pub open spec fn spec_rx_id(self) -> u16 {
        match self {
            PDO::PDO1 => 0x200,
            PDO::PDO2 => 0x300,
            PDO::PDO3 => 0x400,
            PDO::PDO4 => 0x500,
        }
    }

    /// Returns the function code of this PDO when the node transmits it.
    pub fn tx_id(&self) -> (id: u16)
        ensures
            id == self.spec_tx_id(),
    {
        match self {
            PDO::PDO1 => 0x180,
            PDO::PDO2 => 0x280,
            PDO::PDO3 => 0x380,
            PDO::PDO4 => 0x480,
        }
    }

    /// Returns the function code of this PDO when the node receives it.
    pub fn rx_id(&self) -> (id: u16)
        ensures
            id == self.spec_rx_id(),
    {
        match self {
            PDO::PDO1 => 0x200,
            PDO::PDO2 => 0x300,
            PDO::PDO3 => 0x400,
            PDO::PDO4 => 0x500,
        }
    }

    /// Parses a PDO from its exact receive function code; an identifier that carries a
    /// device id is not recognized.
    pub fn from_rx(id: u16) -> (r: Result<Self, ()>)
        ensures
            r == match pdo_of_rx_code(id) {
                Some(p) => Ok::<PDO, ()>(p),
                None => Err(()),
            },
    {
        match id {
            0x200 => Ok(PDO::PDO1),
            0x300 => Ok(PDO::PDO2),
            0x400 => Ok(PDO::PDO3),
            0x500 => Ok(PDO::PDO4),
            _ => Err(()),
        }
    }
}

/// Parsing the receive function code of a PDO gives the PDO back.
pub proof fn lemma_pdo_round_trip(pdo: PDO)
    ensures
        pdo_of_rx_code(pdo.spec_rx_id()) == Some(pdo),
{
}

} // verus!
