//! The axis settings that persist across restarts: each is loaded from the device's
//! storage when a dictionary is made, or takes its default where the storage holds
//! none, and is saved to the storage whenever it is set.
//!
//! A setting is the bit pattern of a single-precision float; the storage keeps it
//! under the raw code of the setting's key.

use vstd::prelude::*;
use crate::i2c_protocol::RawPosition;
use crate::object_dictionary::{Axis, AxisKey, Key, ObjectDictionaryKey};

verus! {

/// The storage of the device, which keeps values under the raw codes of their keys.
pub trait ObjectDictionaryStorage: Sized {
    /// The float bits stored under a key code, if any.
    spec fn stored_f32(&self, code: u16) -> Option<u32>;

    /// The flag stored under a key code, if any.
    spec fn stored_bool(&self, code: u16) -> Option<bool>;

    /// Stores float bits under the key; every other key keeps what it holds.
    fn save_f32<KEY: ObjectDictionaryKey>(&mut self, key: KEY, value: u32)
        ensures
            final(self).stored_f32(key.key_code()) == Some(value),
            forall|c: u16|
                c != key.key_code() ==> #[trigger] final(self).stored_f32(c) == old(self).stored_f32(c),
            forall|c: u16|
                c != key.key_code() ==> #[trigger] final(self).stored_bool(c) == old(self).stored_bool(c),
    ;

    /// Stores a flag under the key; every other key keeps what it holds.
    fn save_bool<KEY: ObjectDictionaryKey>(&mut self, key: KEY, value: bool)
        ensures
            final(self).stored_bool(key.key_code()) == Some(value),
            forall|c: u16|
                c != key.key_code() ==> #[trigger] final(self).stored_f32(c) == old(self).stored_f32(c),
            forall|c: u16|
                c != key.key_code() ==> #[trigger] final(self).stored_bool(c) == old(self).stored_bool(c),
    ;

    /// The float bits stored under the key, if any.
    fn load_f32<KEY: ObjectDictionaryKey>(&self, key: KEY) -> (value: Option<u32>)
        ensures
            value == self.stored_f32(key.key_code()),
    ;

    /// The flag stored under the key, if any.
    fn load_bool<KEY: ObjectDictionaryKey>(&self, key: KEY) -> (value: Option<bool>)
        ensures
            value == self.stored_bool(key.key_code()),
    ;
}

/// Every key but `code` keeps its float and its flag.
pub open spec fn others_kept<S: ObjectDictionaryStorage>(before: S, after: S, code: u16) -> bool {
    &&& forall|c: u16| c != code ==> #[trigger] after.stored_f32(c) == before.stored_f32(c)
    &&& forall|c: u16| c != code ==> #[trigger] after.stored_bool(c) == before.stored_bool(c)
}

/// `after` is `before` with float bits saved under `code`.
pub open spec fn saved_f32<S: ObjectDictionaryStorage>(before: S, after: S, code: u16, value: u32) -> bool {
    &&& after.stored_f32(code) == Some(value)
    &&& others_kept(before, after, code)
}

/// `after` is `before` with a flag saved under `code`.
pub open spec fn saved_bool<S: ObjectDictionaryStorage>(before: S, after: S, code: u16, value: bool) -> bool {
    &&& after.stored_bool(code) == Some(value)
    &&& others_kept(before, after, code)
}

/// The motor currents of an axis (float bits): at standstill, while accelerating, and
/// at constant velocity.
#[derive(Copy, Clone, Debug, PartialEq, Eq, Structural)]
pub struct CurrentSettings {
    pub standstill_current: u32,
    pub accelerating_current: u32,
    pub constant_velocity_current: u32,
}

impl CurrentSettings {
    /// Settings with the given currents.
    pub fn new(standstill_current: u32, accelerating_current: u32, constant_velocity_current: u32) -> (s: Self)
        ensures
            s == (CurrentSettings { standstill_current, accelerating_current, constant_velocity_current }),
    {
        CurrentSettings { standstill_current, accelerating_current, constant_velocity_current }
    }

    pub fn standstill_current(&self) -> (c: u32)
        ensures
            c == self.standstill_current,
    {
        self.standstill_current
    }

    pub fn accelerating_current(&self) -> (c: u32)
        ensures
            c == self.accelerating_current,
    {
        self.accelerating_current
    }

    pub fn constant_velocity_current(&self) -> (c: u32)
        ensures
            c == self.constant_velocity_current,
    {
        self.constant_velocity_current
    }

    pub fn set_standstill_current(&mut self, standstill_current: u32)
        ensures
            *final(self) == (CurrentSettings { standstill_current, ..*old(self) }),
    {
        self.standstill_current = standstill_current;
    }

    pub fn set_accelerating_current(&mut self, accelerating_current: u32)
        ensures
            *final(self) == (CurrentSettings { accelerating_current, ..*old(self) }),
    {
        self.accelerating_current = accelerating_current;
    }

    pub fn set_constant_velocity_current(&mut self, constant_velocity_current: u32)
        ensures
            *final(self) == (CurrentSettings { constant_velocity_current, ..*old(self) }),
    {
        self.constant_velocity_current = constant_velocity_current;
    }
}

impl Default for CurrentSettings {
    /// 0.4 A at standstill, 0.7 A while accelerating, 0.6 A at constant velocity.
    fn default() -> (s: Self)
        ensures
            s == (CurrentSettings {
                standstill_current: 0x3ecc_cccd,
                accelerating_current: 0x3f33_3333,
                constant_velocity_current: 0x3f19_999a,
            }),
    {
        CurrentSettings {
            standstill_current: 0x3ecc_cccd,
            accelerating_current: 0x3f33_3333,
            constant_velocity_current: 0x3f19_999a,
        }
    }
}

/// The gains and the output limit of a PSD controller (float bits).
#[derive(Copy, Clone, Debug, PartialEq, Eq, Structural)]
pub struct ControllerSettings {
    pub proportional: u32,
    pub integral: u32,
    pub derivative: u32,
    pub max_output_amplitude: u32,
}

impl ControllerSettings {
    /// Settings with the given gains and limit.
    pub fn new(proportional: u32, integral: u32, derivative: u32, max_output_amplitude: u32) -> (s: Self)
        ensures
            s == (ControllerSettings { proportional, integral, derivative, max_output_amplitude }),
    {
        ControllerSettings { proportional, integral, derivative, max_output_amplitude }
    }

    pub fn proportional(&self) -> (v: u32)
        ensures
            v == self.proportional,
    {
        self.proportional
    }

    pub fn integral(&self) -> (v: u32)
        ensures
            v == self.integral,
    {
        self.integral
    }

    pub fn derivative(&self) -> (v: u32)
        ensures
            v == self.derivative,
    {
        self.derivative
    }

    pub fn max_output_amplitude(&self) -> (v: u32)
        ensures
            v == self.max_output_amplitude,
    {
        self.max_output_amplitude
    }

    pub fn set_proportional(&mut self, proportional: u32)
        ensures
            *final(self) == (ControllerSettings { proportional, ..*old(self) }),
    {
        self.proportional = proportional;
    }

    pub fn set_integral(&mut self, integral: u32)
        ensures
            *final(self) == (ControllerSettings { integral, ..*old(self) }),
    {
        self.integral = integral;
    }

    pub fn set_derivative(&mut self, derivative: u32)
        ensures
            *final(self) == (ControllerSettings { derivative, ..*old(self) }),
    {
        self.derivative = derivative;
    }

    pub fn set_max_output_amplitude(&mut self, max_output_amplitude: u32)
        ensures
            *final(self) == (ControllerSettings { max_output_amplitude, ..*old(self) }),
    {
        self.max_output_amplitude = max_output_amplitude;
    }
}

/// The default acceleration, 50.0.
pub const DEFAULT_ACCELERATION: u32 = 0x4248_0000;

/// The default standstill current, 0.4 A.
pub const DEFAULT_STANDSTILL_CURRENT: u32 = 0x3ecc_cccd;

/// The default accelerating current, 0.7 A.
pub const DEFAULT_ACCELERATING_CURRENT: u32 = 0x3f33_3333;

/// The default constant velocity current, 0.6 A.
pub const DEFAULT_CONSTANT_VELOCITY_CURRENT: u32 = 0x3f19_999a;

/// The default gains and limit of the velocity controller: 1.0, 0.1, 0.0 and 3.0.
pub const DEFAULT_VELOCITY_P: u32 = 0x3f80_0000;

pub const DEFAULT_VELOCITY_S: u32 = 0x3dcc_cccd;

pub const DEFAULT_VELOCITY_D: u32 = 0x0000_0000;

pub const DEFAULT_VELOCITY_MAX_ACTION: u32 = 0x4040_0000;

/// The default gains and limit of the position controller: 3.0, 0.001, 0.0001 and 3.0.
pub const DEFAULT_POSITION_P: u32 = 0x4040_0000;

pub const DEFAULT_POSITION_S: u32 = 0x3a83_126f;

pub const DEFAULT_POSITION_D: u32 = 0x38d1_b717;

pub const DEFAULT_POSITION_MAX_ACTION: u32 = 0x4040_0000;

/// The persisted settings of an axis.
#[derive(Copy, Clone, Debug, PartialEq, Eq, Structural)]
pub struct PersistedSettings {
    pub axis: Axis,
    pub current: CurrentSettings,
    pub velocity_controller: ControllerSettings,
    pub position_controller: ControllerSettings,
    pub velocity_feedback_control_enabled: bool,
    pub acceleration: u32,
}

/// The raw code under which the storage keeps an entry of an axis.
pub open spec fn entry_code(key: AxisKey, axis: Axis) -> u16 {
    Key::spec_key_for_axis(key, axis).key_code()
}

/// The float bits that the storage holds for an entry of an axis, or the default.
pub open spec fn loaded<S: ObjectDictionaryStorage>(storage: S, key: AxisKey, axis: Axis, default: u32) -> u32 {
    match storage.stored_f32(entry_code(key, axis)) {
        Some(v) => v,
        None => default,
    }
}

/// The settings of an axis as the storage holds them, with the defaults for what it
/// does not hold.
pub open spec fn persisted<S: ObjectDictionaryStorage>(axis: Axis, storage: S) -> PersistedSettings {
    PersistedSettings {
        axis,
        current: CurrentSettings {
            standstill_current: loaded(storage, AxisKey::StandStillCurrent, axis, DEFAULT_STANDSTILL_CURRENT),
            accelerating_current: loaded(
                storage,
                AxisKey::AcceleratingCurrent,
                axis,
                DEFAULT_ACCELERATING_CURRENT,
            ),
            constant_velocity_current: loaded(
                storage,
                AxisKey::ConstantVelocityCurrent,
                axis,
                DEFAULT_CONSTANT_VELOCITY_CURRENT,
            ),
        },
        velocity_controller: ControllerSettings {
            proportional: loaded(storage, AxisKey::VelocityP, axis, DEFAULT_VELOCITY_P),
            integral: loaded(storage, AxisKey::VelocityS, axis, DEFAULT_VELOCITY_S),
            derivative: loaded(storage, AxisKey::VelocityD, axis, DEFAULT_VELOCITY_D),
            max_output_amplitude: loaded(storage, AxisKey::VelocityMaxAction, axis, DEFAULT_VELOCITY_MAX_ACTION),
        },
        position_controller: ControllerSettings {
            proportional: loaded(storage, AxisKey::PositionP, axis, DEFAULT_POSITION_P),
            integral: loaded(storage, AxisKey::PositionS, axis, DEFAULT_POSITION_S),
            derivative: loaded(storage, AxisKey::PositionD, axis, DEFAULT_POSITION_D),
            max_output_amplitude: loaded(storage, AxisKey::PositionMaxAction, axis, DEFAULT_POSITION_MAX_ACTION),
        },
        velocity_feedback_control_enabled: match storage.stored_bool(
            entry_code(AxisKey::VelocityFeedbackControlEnabled, axis),
        ) {
            Some(b) => b,
            None => false,
        },
        acceleration: loaded(storage, AxisKey::Acceleration, axis, DEFAULT_ACCELERATION),
    }
}

/// Whether an entry of an axis persists as float bits.
pub open spec fn persists_as_f32(key: AxisKey) -> bool {
    match key {
        AxisKey::Acceleration | AxisKey::AcceleratingCurrent | AxisKey::StandStillCurrent
        | AxisKey::ConstantVelocityCurrent | AxisKey::VelocityP | AxisKey::VelocityS
        | AxisKey::VelocityD | AxisKey::VelocityMaxAction | AxisKey::PositionP
        | AxisKey::PositionS | AxisKey::PositionD | AxisKey::PositionMaxAction => true,
        _ => false,
    }
}

/// The settings with the entry `key` set to `value`.
pub open spec fn with_setting(d: PersistedSettings, key: AxisKey, value: u32) -> PersistedSettings {
    match key {
        AxisKey::Acceleration => PersistedSettings { acceleration: value, ..d },
        AxisKey::AcceleratingCurrent => PersistedSettings {
            current: CurrentSettings { accelerating_current: value, ..d.current },
            ..d
        },
        AxisKey::StandStillCurrent => PersistedSettings {
            current: CurrentSettings { standstill_current: value, ..d.current },
            ..d
        },
        AxisKey::ConstantVelocityCurrent => PersistedSettings {
            current: CurrentSettings { constant_velocity_current: value, ..d.current },
            ..d
        },
        AxisKey::VelocityP => PersistedSettings {
            velocity_controller: ControllerSettings { proportional: value, ..d.velocity_controller },
            ..d
        },
        AxisKey::VelocityS => PersistedSettings {
            velocity_controller: ControllerSettings { integral: value, ..d.velocity_controller },
            ..d
        },
        AxisKey::VelocityD => PersistedSettings {
            velocity_controller: ControllerSettings { derivative: value, ..d.velocity_controller },
            ..d
        },
        AxisKey::VelocityMaxAction => PersistedSettings {
            velocity_controller: ControllerSettings {
                max_output_amplitude: value,
                ..d.velocity_controller
            },
            ..d
        },
        AxisKey::PositionP => PersistedSettings {
            position_controller: ControllerSettings { proportional: value, ..d.position_controller },
            ..d
        },
        AxisKey::PositionS => PersistedSettings {
            position_controller: ControllerSettings { integral: value, ..d.position_controller },
            ..d
        },
        AxisKey::PositionD => PersistedSettings {
            position_controller: ControllerSettings { derivative: value, ..d.position_controller },
            ..d
        },
        AxisKey::PositionMaxAction => PersistedSettings {
            position_controller: ControllerSettings {
                max_output_amplitude: value,
                ..d.position_controller
            },
            ..d
        },
        _ => d,
    }
}

/// The code of the mode in which a new axis starts: velocity control.
pub const DEFAULT_MODE: u8 = 0;

/// The state of an axis that is not persisted: its mode (by its code), whether it is
/// enabled, its target and actual velocities (float bits) and its target and actual
/// positions.
#[derive(Copy, Clone, Debug, PartialEq, Eq, Structural)]
pub struct AxisRuntime {
    pub mode: u8,
    pub enabled: bool,
    pub target_velocity: u32,
    pub actual_velocity: u32,
    pub target_position: RawPosition,
    pub actual_position: RawPosition,
}

/// The state in which a new axis starts: in the default mode, disabled, at rest (both
/// velocities zero) and at the zero position.
pub open spec fn initial_runtime() -> AxisRuntime {
    AxisRuntime {
        mode: DEFAULT_MODE,
        enabled: false,
        target_velocity: 0,
        actual_velocity: 0,
        target_position: RawPosition { revolutions: 0, angle: 0 },
        actual_position: RawPosition { revolutions: 0, angle: 0 },
    }
}

/// The entries of an axis: the persisted settings, kept in step with the storage,
/// and the state that is not persisted.
pub struct PersistentStoreAxisDictionary {
    axis: Axis,
    runtime: AxisRuntime,
    current: CurrentSettings,
    velocity_controller_settings: ControllerSettings,
    position_controller_settings: ControllerSettings,
    velocity_feedback_control_enabled: bool,
    acceleration: u32,
}

impl View for PersistentStoreAxisDictionary {
    type V = PersistedSettings;

    closed spec fn view(&self) -> PersistedSettings {
        PersistedSettings {
            axis: self.axis,
            current: self.current,
            velocity_controller: self.velocity_controller_settings,
            position_controller: self.position_controller_settings,
            velocity_feedback_control_enabled: self.velocity_feedback_control_enabled,
            acceleration: self.acceleration,
        }
    }
}

/// The float bits stored for an entry of an axis, or the default.
fn load_or<S: ObjectDictionaryStorage>(storage: &S, key: AxisKey, axis: Axis, default: u32) -> (v: u32)
    ensures
        v == loaded(*storage, key, axis, default),
{
    match storage.load_f32(Key::key_for_axis(key, axis)) {
        Some(v) => v,
        None => default,
    }
}

impl PersistentStoreAxisDictionary {
    /// The state of the axis that is not persisted.
    pub closed spec fn runtime(&self) -> AxisRuntime {
        self.runtime
    }

    /// The mode code.
    pub fn mode(&self) -> (m: u8)
        ensures
            m == self.runtime().mode,
    {
        self.runtime.mode
    }

    /// Whether the axis is enabled.
    pub fn enabled(&self) -> (b: bool)
        ensures
            b == self.runtime().enabled,
    {
        self.runtime.enabled
    }

    /// The target velocity.
    pub fn target_velocity(&self) -> (v: u32)
        ensures
            v == self.runtime().target_velocity,
    {
        self.runtime.target_velocity
    }

    /// The actual velocity.
    pub fn actual_velocity(&self) -> (v: u32)
        ensures
            v == self.runtime().actual_velocity,
    {
        self.runtime.actual_velocity
    }

    /// The target position.
    pub fn target_position(&self) -> (p: RawPosition)
        ensures
            p == self.runtime().target_position,
    {
        self.runtime.target_position
    }

    /// The actual position.
    pub fn actual_position(&self) -> (p: RawPosition)
        ensures
            p == self.runtime().actual_position,
    {
        self.runtime.actual_position
    }

    pub fn set_mode(&mut self, mode: u8)
        ensures
            final(self).runtime() == (AxisRuntime { mode, ..old(self).runtime() }),
            final(self)@ == old(self)@,
    {
        self.runtime.mode = mode;
    }

    pub fn set_enabled(&mut self, enabled: bool)
        ensures
            final(self).runtime() == (AxisRuntime { enabled, ..old(self).runtime() }),
            final(self)@ == old(self)@,
    {
        self.runtime.enabled = enabled;
    }

    pub fn set_target_velocity(&mut self, target_velocity: u32)
        ensures
            final(self).runtime() == (AxisRuntime { target_velocity, ..old(self).runtime() }),
            final(self)@ == old(self)@,
    {
        self.runtime.target_velocity = target_velocity;
    }

    pub fn set_actual_velocity(&mut self, actual_velocity: u32)
        ensures
            final(self).runtime() == (AxisRuntime { actual_velocity, ..old(self).runtime() }),
            final(self)@ == old(self)@,
    {
        self.runtime.actual_velocity = actual_velocity;
    }

    pub fn set_target_position(&mut self, target_position: RawPosition)
        ensures
            final(self).runtime() == (AxisRuntime { target_position, ..old(self).runtime() }),
            final(self)@ == old(self)@,
    {
        self.runtime.target_position = target_position;
    }

    pub fn set_actual_position(&mut self, actual_position: RawPosition)
        ensures
            final(self).runtime() == (AxisRuntime { actual_position, ..old(self).runtime() }),
            final(self)@ == old(self)@,
    {
        self.runtime.actual_position = actual_position;
    }

    /// The settings of the axis as the storage holds them, with the defaults for what
    /// it does not hold.
    pub fn new<S: ObjectDictionaryStorage>(axis: Axis, storage: &S) -> (d: Self)
        ensures
            d@ == persisted(axis, *storage),
            d.runtime() == initial_runtime(),
    {
        let acceleration = load_or(storage, AxisKey::Acceleration, axis, DEFAULT_ACCELERATION);
        let velocity_feedback_control_enabled = match storage.load_bool(
            Key::key_for_axis(AxisKey::VelocityFeedbackControlEnabled, axis),
        ) {
            Some(b) => b,
            None => false,
        };
        let current = CurrentSettings::new(
            load_or(storage, AxisKey::StandStillCurrent, axis, DEFAULT_STANDSTILL_CURRENT),
            load_or(storage, AxisKey::AcceleratingCurrent, axis, DEFAULT_ACCELERATING_CURRENT),
            load_or(storage, AxisKey::ConstantVelocityCurrent, axis, DEFAULT_CONSTANT_VELOCITY_CURRENT),
        );
        let velocity_controller_settings = ControllerSettings::new(
            load_or(storage, AxisKey::VelocityP, axis, DEFAULT_VELOCITY_P),
            load_or(storage, AxisKey::VelocityS, axis, DEFAULT_VELOCITY_S),
            load_or(storage, AxisKey::VelocityD, axis, DEFAULT_VELOCITY_D),
            load_or(storage, AxisKey::VelocityMaxAction, axis, DEFAULT_VELOCITY_MAX_ACTION),
        );
        let position_controller_settings = ControllerSettings::new(
            load_or(storage, AxisKey::PositionP, axis, DEFAULT_POSITION_P),
            load_or(storage, AxisKey::PositionS, axis, DEFAULT_POSITION_S),
            load_or(storage, AxisKey::PositionD, axis, DEFAULT_POSITION_D),
            load_or(storage, AxisKey::PositionMaxAction, axis, DEFAULT_POSITION_MAX_ACTION),
        );
        PersistentStoreAxisDictionary {
            axis,
            runtime: AxisRuntime {
                mode: DEFAULT_MODE,
                enabled: false,
                target_velocity: 0,
                actual_velocity: 0,
                target_position: RawPosition { revolutions: 0, angle: 0 },
                actual_position: RawPosition { revolutions: 0, angle: 0 },
            },
            current,
            velocity_controller_settings,
            position_controller_settings,
            velocity_feedback_control_enabled,
            acceleration,
        }
    }

    /// The motor currents.
    pub fn current(&self) -> (c: CurrentSettings)
        ensures
            c == self@.current,
    {
        self.current
    }

    /// The settings of the velocity controller.
    pub fn velocity_controller_settings(&self) -> (c: ControllerSettings)
        ensures
            c == self@.velocity_controller,
    {
        self.velocity_controller_settings
    }

    /// The settings of the position controller.
    pub fn position_controller_settings(&self) -> (c: ControllerSettings)
        ensures
            c == self@.position_controller,
    {
        self.position_controller_settings
    }

    /// Whether the velocity feedback control is enabled.
    pub fn velocity_feedback_control_enabled(&self) -> (b: bool)
        ensures
            b == self@.velocity_feedback_control_enabled,
    {
        self.velocity_feedback_control_enabled
    }

    /// The acceleration.
    pub fn acceleration(&self) -> (a: u32)
        ensures
            a == self@.acceleration,
    {
        self.acceleration
    }

    /// Saves an entry of the axis to the storage.
    fn save<S: ObjectDictionaryStorage>(&self, storage: &mut S, key: AxisKey, value: u32)
        ensures
            saved_f32(*old(storage), *final(storage), entry_code(key, self@.axis), value),
    {
        storage.save_f32(Key::key_for_axis(key, self.axis), value);
    }

    pub fn set_accelerating_current<S: ObjectDictionaryStorage>(&mut self, storage: &mut S, current: u32)
        ensures
            final(self)@ == with_setting(old(self)@, AxisKey::AcceleratingCurrent, current),
            final(self).runtime() == old(self).runtime(),
            saved_f32(*old(storage), *final(storage), entry_code(AxisKey::AcceleratingCurrent, old(self)@.axis), current),
    {
        self.current.set_accelerating_current(current);
        self.save(storage, AxisKey::AcceleratingCurrent, current);
    }

    pub fn set_standstill_current<S: ObjectDictionaryStorage>(&mut self, storage: &mut S, current: u32)
        ensures
            final(self)@ == with_setting(old(self)@, AxisKey::StandStillCurrent, current),
            final(self).runtime() == old(self).runtime(),
            saved_f32(*old(storage), *final(storage), entry_code(AxisKey::StandStillCurrent, old(self)@.axis), current),
    {
        self.current.set_standstill_current(current);
        self.save(storage, AxisKey::StandStillCurrent, current);
    }

    pub fn set_constant_velocity_current<S: ObjectDictionaryStorage>(&mut self, storage: &mut S, current: u32)
        ensures
            final(self)@ == with_setting(old(self)@, AxisKey::ConstantVelocityCurrent, current),
            final(self).runtime() == old(self).runtime(),
            saved_f32(*old(storage), *final(storage), entry_code(AxisKey::ConstantVelocityCurrent, old(self)@.axis), current),
    {
        self.current.set_constant_velocity_current(current);
        self.save(storage, AxisKey::ConstantVelocityCurrent, current);
    }

    pub fn set_velocity_controller_p<S: ObjectDictionaryStorage>(&mut self, storage: &mut S, value: u32)
        ensures
            final(self)@ == with_setting(old(self)@, AxisKey::VelocityP, value),
            final(self).runtime() == old(self).runtime(),
            saved_f32(*old(storage), *final(storage), entry_code(AxisKey::VelocityP, old(self)@.axis), value),
    {
        self.velocity_controller_settings.set_proportional(value);
        self.save(storage, AxisKey::VelocityP, value);
    }

    pub fn set_velocity_controller_s<S: ObjectDictionaryStorage>(&mut self, storage: &mut S, value: u32)
        ensures
            final(self)@ == with_setting(old(self)@, AxisKey::VelocityS, value),
            final(self).runtime() == old(self).runtime(),
            saved_f32(*old(storage), *final(storage), entry_code(AxisKey::VelocityS, old(self)@.axis), value),
    {
        self.velocity_controller_settings.set_integral(value);
        self.save(storage, AxisKey::VelocityS, value);
    }

    pub fn set_velocity_controller_d<S: ObjectDictionaryStorage>(&mut self, storage: &mut S, value: u32)
        ensures
            final(self)@ == with_setting(old(self)@, AxisKey::VelocityD, value),
            final(self).runtime() == old(self).runtime(),
            saved_f32(*old(storage), *final(storage), entry_code(AxisKey::VelocityD, old(self)@.axis), value),
    {
        self.velocity_controller_settings.set_derivative(value);
        self.save(storage, AxisKey::VelocityD, value);
    }

    pub fn set_velocity_controller_max_output<S: ObjectDictionaryStorage>(&mut self, storage: &mut S, value: u32)
        ensures
            final(self)@ == with_setting(old(self)@, AxisKey::VelocityMaxAction, value),
            final(self).runtime() == old(self).runtime(),
            saved_f32(*old(storage), *final(storage), entry_code(AxisKey::VelocityMaxAction, old(self)@.axis), value),
    {
        self.velocity_controller_settings.set_max_output_amplitude(value);
        self.save(storage, AxisKey::VelocityMaxAction, value);
    }

    pub fn set_position_controller_p<S: ObjectDictionaryStorage>(&mut self, storage: &mut S, value: u32)
        ensures
            final(self)@ == with_setting(old(self)@, AxisKey::PositionP, value),
            final(self).runtime() == old(self).runtime(),
            saved_f32(*old(storage), *final(storage), entry_code(AxisKey::PositionP, old(self)@.axis), value),
    {
        self.position_controller_settings.set_proportional(value);
        self.save(storage, AxisKey::PositionP, value);
    }

    pub fn set_position_controller_s<S: ObjectDictionaryStorage>(&mut self, storage: &mut S, value: u32)
        ensures
            final(self)@ == with_setting(old(self)@, AxisKey::PositionS, value),
            final(self).runtime() == old(self).runtime(),
            saved_f32(*old(storage), *final(storage), entry_code(AxisKey::PositionS, old(self)@.axis), value),
    {
        self.position_controller_settings.set_integral(value);
        self.save(storage, AxisKey::PositionS, value);
    }

    pub fn set_position_controller_d<S: ObjectDictionaryStorage>(&mut self, storage: &mut S, value: u32)
        ensures
            final(self)@ == with_setting(old(self)@, AxisKey::PositionD, value),
            final(self).runtime() == old(self).runtime(),
            saved_f32(*old(storage), *final(storage), entry_code(AxisKey::PositionD, old(self)@.axis), value),
    {
        self.position_controller_settings.set_derivative(value);
        self.save(storage, AxisKey::PositionD, value);
    }

    pub fn set_position_controller_max_output<S: ObjectDictionaryStorage>(&mut self, storage: &mut S, value: u32)
        ensures
            final(self)@ == with_setting(old(self)@, AxisKey::PositionMaxAction, value),
            final(self).runtime() == old(self).runtime(),
            saved_f32(*old(storage), *final(storage), entry_code(AxisKey::PositionMaxAction, old(self)@.axis), value),
    {
        self.position_controller_settings.set_max_output_amplitude(value);
        self.save(storage, AxisKey::PositionMaxAction, value);
    }

    pub fn set_acceleration<S: ObjectDictionaryStorage>(&mut self, storage: &mut S, acceleration: u32)
        ensures
            final(self)@ == with_setting(old(self)@, AxisKey::Acceleration, acceleration),
            final(self).runtime() == old(self).runtime(),
            saved_f32(*old(storage), *final(storage), entry_code(AxisKey::Acceleration, old(self)@.axis), acceleration),
    {
        self.acceleration = acceleration;
        self.save(storage, AxisKey::Acceleration, acceleration);
    }

    pub fn set_velocity_feedback_control_enabled<S: ObjectDictionaryStorage>(
        &mut self,
        storage: &mut S,
        velocity_feedback_control_enabled: bool,
    )
        ensures
            final(self)@ == (PersistedSettings { velocity_feedback_control_enabled, ..old(self)@ }),
            final(self).runtime() == old(self).runtime(),
            saved_bool(
                *old(storage),
                *final(storage),
                entry_code(AxisKey::VelocityFeedbackControlEnabled, old(self)@.axis),
                velocity_feedback_control_enabled,
            ),
    {
        self.velocity_feedback_control_enabled = velocity_feedback_control_enabled;
        storage.save_bool(
            Key::key_for_axis(AxisKey::VelocityFeedbackControlEnabled, self.axis),
            velocity_feedback_control_enabled,
        );
    }
}

/// A dictionary that agrees with its storage still agrees after a setting is set: a
/// dictionary made anew from the storage holds the setting as it was set, and every
/// other setting as before.
pub proof fn lemma_setting_persists<S: ObjectDictionaryStorage>(
    d: PersistedSettings,
    before: S,
    after: S,
    key: AxisKey,
    value: u32,
)
    requires
        d == persisted(d.axis, before),
        persists_as_f32(key),
        saved_f32(before, after, entry_code(key, d.axis), value),
    ensures
        persisted(d.axis, after) == with_setting(d, key, value),
{
    match d.axis {
        Axis::Axis1 => match key {
            AxisKey::Acceleration => {},
            AxisKey::AcceleratingCurrent => {},
            AxisKey::StandStillCurrent => {},
            AxisKey::ConstantVelocityCurrent => {},
            AxisKey::VelocityP => {},
            AxisKey::VelocityS => {},
            AxisKey::VelocityD => {},
            AxisKey::VelocityMaxAction => {},
            AxisKey::PositionP => {},
            AxisKey::PositionS => {},
            AxisKey::PositionD => {},
            AxisKey::PositionMaxAction => {},
            _ => {},
        },
        Axis::Axis2 => match key {
            AxisKey::Acceleration => {},
            AxisKey::AcceleratingCurrent => {},
            AxisKey::StandStillCurrent => {},
            AxisKey::ConstantVelocityCurrent => {},
            AxisKey::VelocityP => {},
            AxisKey::VelocityS => {},
            AxisKey::VelocityD => {},
            AxisKey::VelocityMaxAction => {},
            AxisKey::PositionP => {},
            AxisKey::PositionS => {},
            AxisKey::PositionD => {},
            AxisKey::PositionMaxAction => {},
            _ => {},
        },
    }
}

/// A dictionary that agrees with its storage still agrees after the velocity feedback
/// control is switched: a dictionary made anew from the storage has it switched the
/// same way, and every other setting as before.
pub proof fn lemma_flag_persists<S: ObjectDictionaryStorage>(
    d: PersistedSettings,
    before: S,
    after: S,
    enabled: bool,
)
    requires
        d == persisted(d.axis, before),
        saved_bool(before, after, entry_code(AxisKey::VelocityFeedbackControlEnabled, d.axis), enabled),
    ensures
        persisted(d.axis, after) == (PersistedSettings { velocity_feedback_control_enabled: enabled, ..d }),
{
    match d.axis {
        Axis::Axis1 => {},
        Axis::Axis2 => {},
    }
}

/// The object dictionary of the device: the measured battery voltage and temperature
/// (float bits) and the persisted settings of both axes.
pub struct PersistentStoreObjectDictionary {
    battery_voltage: u32,
    temperature: u32,
    axis1: PersistentStoreAxisDictionary,
    axis2: PersistentStoreAxisDictionary,
}

impl PersistentStoreObjectDictionary {
    /// The battery voltage.
    pub closed spec fn spec_battery_voltage(&self) -> u32 {
        self.battery_voltage
    }

    /// The temperature.
    pub closed spec fn spec_temperature(&self) -> u32 {
        self.temperature
    }

    /// The settings of an axis.
    pub closed spec fn spec_axis(&self, axis: Axis) -> PersistedSettings {
        match axis {
            Axis::Axis1 => self.axis1@,
            Axis::Axis2 => self.axis2@,
        }
    }

    /// The state of an axis that is not persisted.
    pub closed spec fn spec_runtime(&self, axis: Axis) -> AxisRuntime {
        match axis {
            Axis::Axis1 => self.axis1.runtime(),
            Axis::Axis2 => self.axis2.runtime(),
        }
    }

    /// Each axis holds its own settings.
    pub open spec fn wf(&self) -> bool {
        &&& self.spec_axis(Axis::Axis1).axis == Axis::Axis1
        &&& self.spec_axis(Axis::Axis2).axis == Axis::Axis2
    }

    /// A dictionary with no measurement yet (both zero) and the settings of both axes
    /// as the storage holds them.
    pub fn new<S: ObjectDictionaryStorage>(storage: &S) -> (od: Self)
        ensures
            od.wf(),
            od.spec_battery_voltage() == 0,
            od.spec_temperature() == 0,
            od.spec_axis(Axis::Axis1) == persisted(Axis::Axis1, *storage),
            od.spec_axis(Axis::Axis2) == persisted(Axis::Axis2, *storage),
            od.spec_runtime(Axis::Axis1) == initial_runtime(),
            od.spec_runtime(Axis::Axis2) == initial_runtime(),
    {
        PersistentStoreObjectDictionary {
            battery_voltage: 0,
            temperature: 0,
            axis1: PersistentStoreAxisDictionary::new(Axis::Axis1, storage),
            axis2: PersistentStoreAxisDictionary::new(Axis::Axis2, storage),
        }
    }

    pub fn battery_voltage(&self) -> (v: u32)
        ensures
            v == self.spec_battery_voltage(),
    {
        self.battery_voltage
    }

    pub fn temperature(&self) -> (t: u32)
        ensures
            t == self.spec_temperature(),
    {
        self.temperature
    }

    pub fn set_battery_voltage(&mut self, battery_voltage: u32)
        ensures
            final(self).spec_battery_voltage() == battery_voltage,
            final(self).spec_temperature() == old(self).spec_temperature(),
            forall|a: Axis| #[trigger] final(self).spec_axis(a) == old(self).spec_axis(a),
            forall|a: Axis| #[trigger] final(self).spec_runtime(a) == old(self).spec_runtime(a),
    {
        self.battery_voltage = battery_voltage;
    }

    pub fn set_temperature(&mut self, temperature: u32)
        ensures
            final(self).spec_temperature() == temperature,
            final(self).spec_battery_voltage() == old(self).spec_battery_voltage(),
            forall|a: Axis| #[trigger] final(self).spec_axis(a) == old(self).spec_axis(a),
            forall|a: Axis| #[trigger] final(self).spec_runtime(a) == old(self).spec_runtime(a),
    {
        self.temperature = temperature;
    }

    /// The settings of an axis.
    pub fn axis(&self, axis: Axis) -> (d: &PersistentStoreAxisDictionary)
        ensures
            d@ == self.spec_axis(axis),
            d.runtime() == self.spec_runtime(axis),
    {
        match axis {
            Axis::Axis1 => &self.axis1,
            Axis::Axis2 => &self.axis2,
        }
    }

    /// The settings of an axis, to change them; the other axis and the measurements
    /// stay as they are.
    pub fn axis_mut(&mut self, axis: Axis) -> (d: &mut PersistentStoreAxisDictionary)
        ensures
            d@ == old(self).spec_axis(axis),
            d.runtime() == old(self).spec_runtime(axis),
            final(self).spec_axis(axis) == final(d)@,
            final(self).spec_runtime(axis) == final(d).runtime(),
            forall|a: Axis| a != axis ==> #[trigger] final(self).spec_axis(a) == old(self).spec_axis(a),
            forall|a: Axis| a != axis ==> #[trigger] final(self).spec_runtime(a) == old(self).spec_runtime(a),
            final(self).spec_battery_voltage() == old(self).spec_battery_voltage(),
            final(self).spec_temperature() == old(self).spec_temperature(),
    {
        match axis {
            Axis::Axis1 => &mut self.axis1,
            Axis::Axis2 => &mut self.axis2,
        }
    }
}

} // verus!
