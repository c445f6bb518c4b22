//! Keys of the object dictionary: the entries of each axis and of the device as a whole.

use vstd::prelude::*;

verus! {

/// Selects one of the two motor axes.
#[derive(Copy, Clone, Debug, PartialEq, Eq, Structural)]
pub enum Axis {
    Axis1,
    Axis2,
}

/// A key that has a raw 16-bit code in the object dictionary.
pub trait ObjectDictionaryKey {
    /// The raw code of the key.
    spec fn key_code(&self) -> u16;

    /// Returns the raw code of the key.
    fn raw(&self) -> (code: u16)
        ensures
            code == self.key_code(),
    ;
}

/// The entries of the object dictionary that each axis has.
#[derive(Copy, Clone, Debug, PartialEq, Eq, Structural)]
pub enum AxisKey {
    Mode,
    Enabled,
    TargetVelocity,
    ActualVelocity,
    TargetPosition,
    ActualPosition,
    Acceleration,
    VelocityFeedbackControlEnabled,
    AcceleratingCurrent,
    StandStillCurrent,
    ConstantVelocityCurrent,
    VelocityP,
    VelocityS,
    VelocityD,
    VelocityMaxAction,
    PositionP,
    PositionS,
    PositionD,
    PositionMaxAction,
}

/// The subindex under which an axis entry is stored.
pub open spec fn axis_key_code(key: AxisKey) -> u16 {
    match key {
            AxisKey::Mode => 0x01,
            AxisKey::Enabled => 0x02,
            AxisKey::TargetVelocity => 0x03,
            AxisKey::ActualVelocity => 0x04,
            AxisKey::TargetPosition => 0x05,
            AxisKey::ActualPosition => 0x06,
            AxisKey::Acceleration => 0x07,
            AxisKey::VelocityFeedbackControlEnabled => 0x08,
            AxisKey::AcceleratingCurrent => 0x09,
            AxisKey::StandStillCurrent => 0x0a,
            AxisKey::ConstantVelocityCurrent => 0x0b,
            AxisKey::VelocityP => 0x0c,
            AxisKey::VelocityS => 0x0d,
            AxisKey::VelocityD => 0x0e,
            AxisKey::VelocityMaxAction => 0x0f,
            AxisKey::PositionP => 0x10,
            AxisKey::PositionS => 0x11,
            AxisKey::PositionD => 0x12,
            AxisKey::PositionMaxAction => 0x13,
    }
}

/// The axis entry that a subindex stands for, if any.
pub open spec fn axis_key_of(value: u8) -> Option<AxisKey> {
        if value == 0x01 {
            Some(AxisKey::Mode)
        } else if value == 0x02 {
            Some(AxisKey::Enabled)
        } else if value == 0x03 {
            Some(AxisKey::TargetVelocity)
        } else if value == 0x04 {
            Some(AxisKey::ActualVelocity)
        } else if value == 0x05 {
            Some(AxisKey::TargetPosition)
        } else if value == 0x06 {
            Some(AxisKey::ActualPosition)
        } else if value == 0x07 {
            Some(AxisKey::Acceleration)
        } else if value == 0x08 {
            Some(AxisKey::VelocityFeedbackControlEnabled)
        } else if value == 0x09 {
            Some(AxisKey::AcceleratingCurrent)
        } else if value == 0x0a {
            Some(AxisKey::StandStillCurrent)
        } else if value == 0x0b {
            Some(AxisKey::ConstantVelocityCurrent)
        } else if value == 0x0c {
            Some(AxisKey::VelocityP)
        } else if value == 0x0d {
            Some(AxisKey::VelocityS)
        } else if value == 0x0e {
            Some(AxisKey::VelocityD)
        } else if value == 0x0f {
            Some(AxisKey::VelocityMaxAction)
        } else if value == 0x10 {
            Some(AxisKey::PositionP)
        } else if value == 0x11 {
            Some(AxisKey::PositionS)
        } else if value == 0x12 {
            Some(AxisKey::PositionD)
        } else if value == 0x13 {
            Some(AxisKey::PositionMaxAction)
        } else {
            None
        }
}

impl ObjectDictionaryKey for AxisKey {
    open spec fn key_code(&self) -> u16 {
        axis_key_code(*self)
    }

    fn raw(&self) -> (code: u16) {
        match self {
            AxisKey::Mode => 0x01,
            AxisKey::Enabled => 0x02,
            AxisKey::TargetVelocity => 0x03,
            AxisKey::ActualVelocity => 0x04,
            AxisKey::TargetPosition => 0x05,
            AxisKey::ActualPosition => 0x06,
            AxisKey::Acceleration => 0x07,
            AxisKey::VelocityFeedbackControlEnabled => 0x08,
            AxisKey::AcceleratingCurrent => 0x09,
            AxisKey::StandStillCurrent => 0x0a,
            AxisKey::ConstantVelocityCurrent => 0x0b,
            AxisKey::VelocityP => 0x0c,
            AxisKey::VelocityS => 0x0d,
            AxisKey::VelocityD => 0x0e,
            AxisKey::VelocityMaxAction => 0x0f,
            AxisKey::PositionP => 0x10,
            AxisKey::PositionS => 0x11,
            AxisKey::PositionD => 0x12,
            AxisKey::PositionMaxAction => 0x13,
        }
    }
}

impl AxisKey {
    /// Parses an axis entry from its subindex.
    pub fn try_from(value: u8) -> (r: Result<Self, ()>)
        ensures
            r == match axis_key_of(value) {
                Some(k) => Ok::<AxisKey, ()>(k),
                None => Err(()),
            },
    {
        match value {
            0x01 => Ok(AxisKey::Mode),
            0x02 => Ok(AxisKey::Enabled),
            0x03 => Ok(AxisKey::TargetVelocity),
            0x04 => Ok(AxisKey::ActualVelocity),
            0x05 => Ok(AxisKey::TargetPosition),
            0x06 => Ok(AxisKey::ActualPosition),
            0x07 => Ok(AxisKey::Acceleration),
            0x08 => Ok(AxisKey::VelocityFeedbackControlEnabled),
            0x09 => Ok(AxisKey::AcceleratingCurrent),
            0x0a => Ok(AxisKey::StandStillCurrent),
            0x0b => Ok(AxisKey::ConstantVelocityCurrent),
            0x0c => Ok(AxisKey::VelocityP),
            0x0d => Ok(AxisKey::VelocityS),
            0x0e => Ok(AxisKey::VelocityD),
            0x0f => Ok(AxisKey::VelocityMaxAction),
            0x10 => Ok(AxisKey::PositionP),
            0x11 => Ok(AxisKey::PositionS),
            0x12 => Ok(AxisKey::PositionD),
            0x13 => Ok(AxisKey::PositionMaxAction),
            _ => Err(()),
        }
    }
}

/// A key of the object dictionary: a device-wide entry or an entry of one axis.
#[derive(Copy, Clone, Debug, PartialEq, Eq, Structural)]
pub enum Key {
    BatteryVoltage,
    Temperature,
    Axis1(AxisKey),
    Axis2(AxisKey),
}

/// The key that an SDO index and subindex address; only the high byte of the index counts.
pub open spec fn key_of(index: u16, subindex: u8) -> Option<Key> {
    let high = index & 0xff00;
    if high == 0x0000 {
        if subindex == 0x01 {
            Some(Key::BatteryVoltage)
        } else if subindex == 0x02 {
            Some(Key::Temperature)
        } else {
            None
        }
    } else if high == 0x6100 {
        match axis_key_of(subindex) {
            Some(k) => Some(Key::Axis1(k)),
            None => None,
        }
    } else if high == 0x6200 {
        match axis_key_of(subindex) {
            Some(k) => Some(Key::Axis2(k)),
            None => None,
        }
    } else {
        None
    }
}

impl Key {
    /// The index of the dictionary area that holds the key.
    pub open spec fn spec_offset(self) -> u16 {
        match self {
            Key::BatteryVoltage => 0x0000,
            Key::Temperature => 0x0000,
            Key::Axis1(_) => 0x6100,
            Key::Axis2(_) => 0x6200,
        }
    }

    /// The subindex of the key within its area.
    pub open spec fn spec_subindex(self) -> u8 {
        match self {
            Key::BatteryVoltage => 0x01,
            Key::Temperature => 0x02,
            Key::Axis1(k) => axis_key_code(k) as u8,
            Key::Axis2(k) => axis_key_code(k) as u8,
        }
    }

    /// Parses a key from the index and subindex of an SDO request.
    pub fn parse(index: u16, subindex: u8) -> (r: Option<Key>)
        ensures
            r == key_of(index, subindex),
    {
        let index = index & 0xff00;
        match index {
            0x0000 => match subindex {
                0x01 => Some(Key::BatteryVoltage),
                0x02 => Some(Key::Temperature),
                _ => None,
            },
            0x6100 => match AxisKey::try_from(subindex) {
                Ok(k) => Some(Key::Axis1(k)),
                Err(_) => None,
            },
            0x6200 => match AxisKey::try_from(subindex) {
                Ok(k) => Some(Key::Axis2(k)),
                Err(_) => None,
            },
            _ => None,
        }
    }

    /// Parses a key from an I2C register number; no register addresses a key.
    pub fn parse_i2c(value: u8) -> (r: Option<Key>)
        ensures
            r is None,
    {
        None
    }

    /// Returns the index of the dictionary area that holds the key.
    pub fn offset(&self) -> (o: u16)
        ensures
            o == self.spec_offset(),
    {
        match self {
            Key::BatteryVoltage => 0x0000,
            Key::Temperature => 0x0000,
            Key::Axis1(_) => 0x6100,
            Key::Axis2(_) => 0x6200,
        }
    }

    /// The key of an axis entry for the given axis.
    pub open spec fn spec_key_for_axis(key: AxisKey, axis: Axis) -> Key {
        match axis {
            Axis::Axis1 => Key::Axis1(key),
            Axis::Axis2 => Key::Axis2(key),
        }
    }

    /// Returns the key of the entry `key` of the axis `axis`.
    pub fn key_for_axis(key: AxisKey, axis: Axis) -> (k: Self)
        ensures
            k == Self::spec_key_for_axis(key, axis),
    {
        match axis {
            Axis::Axis1 => Self::Axis1(key),
            Axis::Axis2 => Self::Axis2(key),
        }
    }
}

impl ObjectDictionaryKey for Key {
    open spec fn key_code(&self) -> u16 {
        match *self {
            Key::BatteryVoltage => 0x0001,
            Key::Temperature => 0x0002,
            Key::Axis1(k) => (0x6100 + axis_key_code(k)) as u16,
            Key::Axis2(k) => (0x6200 + axis_key_code(k)) as u16,
        }
    }

    fn raw(&self) -> (code: u16) {
        match self {
            Key::BatteryVoltage => 0x0001,
            Key::Temperature => 0x0002,
            Key::Axis1(key) => self.offset() + key.raw(),
            Key::Axis2(key) => self.offset() + key.raw(),
        }
    }
}

/// Parsing the subindex of an axis entry gives the entry back.
pub proof fn lemma_axis_key_round_trip(key: AxisKey)
    ensures
        axis_key_of(axis_key_code(key) as u8) == Some(key),
        1 <= axis_key_code(key) <= 0x13,
{
}

/// Distinct axis entries have distinct subindices.
pub proof fn lemma_axis_key_code_injective(a: AxisKey, b: AxisKey)
    ensures
        axis_key_code(a) == axis_key_code(b) ==> a == b,
{
}

/// A key is addressed by the index of its area and its subindex, and its raw code
/// is the sum of the two.
pub proof fn lemma_key_round_trip(key: Key)
    ensures
        key_of(key.spec_offset(), key.spec_subindex()) == Some(key),
        key.key_code() == key.spec_offset() + key.spec_subindex(),
{
    assert(0x0000u16 & 0xff00 == 0x0000) by (bit_vector);
    assert(0x6100u16 & 0xff00 == 0x6100) by (bit_vector);
    assert(0x6200u16 & 0xff00 == 0x6200) by (bit_vector);
    match key {
        Key::Axis1(k) => lemma_axis_key_round_trip(k),
        Key::Axis2(k) => lemma_axis_key_round_trip(k),
        _ => {},
    }
}

} // verus!
