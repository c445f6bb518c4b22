//! The data of the I2C registers: their byte layout, and how the firmware answers a
//! register read or write of the I2C master.
//!
//! Velocities travel as the little-endian bits of their revolutions per second, a
//! position as its little-endian revolutions followed by its little-endian angle.

use vstd::prelude::*;
use crate::eeprom::{le_bytes_u32, le_u32, lemma_le_u32_round_trip};
use crate::i2c::{
    event_defined, event_step, register_of, with_data_taken, with_transmit_data, I2CReaction,
    I2CRegister, I2CSlave, I2CSlaveView, I2CStatus, State,
};
use crate::object_dictionary::Axis;
use crate::persistent_dictionary::{AxisRuntime, PersistentStoreObjectDictionary};
use crate::canopen::NMTState;
use crate::state::DriverState;

verus! {

/// A position as the protocol carries it: whole revolutions and the angle within
/// the revolution.
#[derive(Copy, Clone, Debug, PartialEq, Eq, Structural)]
pub struct RawPosition {
    pub revolutions: i32,
    pub angle: u32,
}

/// The modes and enable flags of both axes, as the AxisSettings register carries
/// them; a mode is its numeric code.
#[derive(Copy, Clone, Debug, PartialEq, Eq, Structural)]
pub struct AxisSettings {
    pub axis1_mode: u8,
    pub axis2_mode: u8,
    pub axis1_enabled: bool,
    pub axis2_enabled: bool,
}

/// What the registers report of an axis: its mode code, whether it is enabled, the
/// bits of its actual velocity and its actual position.
#[derive(Copy, Clone, Debug, PartialEq, Eq, Structural)]
pub struct AxisReadings {
    pub mode: u8,
    pub enabled: bool,
    pub actual_velocity: u32,
    pub actual_position: RawPosition,
}

/// What a register write asks of the object dictionary.
#[derive(Copy, Clone, Debug, PartialEq, Eq, Structural)]
pub enum DictionaryWrite {
    /// Apply the settings, where the data held them, and go to the operational state.
    AxisSettings(Option<AxisSettings>),
    /// Set the target velocity of an axis (its bits).
    TargetVelocity(Axis, u32),
    /// Set the target velocities of both axes (their bits).
    BothTargetVelocities(u32, u32),
    /// Set the target position of an axis.
    TargetPosition(Axis, RawPosition),
}

/// The bit that stands for a flag.
pub open spec fn flag_bit(b: bool) -> u8 {
    if b {
        1
    } else {
        0
    }
}

/// The bytes of the AxisSettings register: the modes in the first byte and the enable
/// flags in the second, axis 1 in the high nibble and axis 2 in the low one.
pub open spec fn axis_settings_bytes(axis1: AxisReadings, axis2: AxisReadings) -> Seq<u8> {
    seq![
        (axis1.mode << 4u8) | axis2.mode,
        (flag_bit(axis1.enabled) << 4u8) | flag_bit(axis2.enabled),
    ]
}

/// The settings that written AxisSettings data set: axis 1 from the low nibbles and
/// axis 2 from the high ones; none where fewer than two bytes came.
pub open spec fn axis_settings_of(raw: Seq<u8>) -> Option<AxisSettings> {
    if raw.len() < 2 {
        None
    } else {
        Some(
            AxisSettings {
                axis1_mode: raw[0] & 0x0f,
                axis2_mode: (raw[0] & 0xf0) >> 4u8,
                axis1_enabled: raw[1] & 0x0f > 0,
                axis2_enabled: (raw[1] & 0xf0) >> 4u8 > 0,
            },
        )
    }
}

/// The velocity bits that written data hold: the first four bytes, or zero where
/// fewer came.
pub open spec fn velocity_of(raw: Seq<u8>) -> u32 {
    if raw.len() < 4 {
        0
    } else {
        le_u32(raw[0], raw[1], raw[2], raw[3])
    }
}

/// The velocity bits of both axes that written data hold: each from four bytes, or
/// both zero where fewer than eight came.
pub open spec fn both_velocities_of(raw: Seq<u8>) -> (u32, u32) {
    if raw.len() < 8 {
        (0, 0)
    } else {
        (velocity_of(raw.take(4)), velocity_of(raw.skip(4)))
    }
}

/// The bytes of a position.
pub open spec fn position_bytes(p: RawPosition) -> Seq<u8> {
    le_bytes_u32(p.revolutions as u32) + le_bytes_u32(p.angle)
}

/// The position that eight written bytes hold, or the zero position where fewer came.
pub open spec fn position_of(raw: Seq<u8>) -> RawPosition {
    if raw.len() < 8 {
        RawPosition { revolutions: 0, angle: 0 }
    } else {
        RawPosition {
            revolutions: le_u32(raw[0], raw[1], raw[2], raw[3]) as i32,
            angle: le_u32(raw[4], raw[5], raw[6], raw[7]),
        }
    }
}

/// The bytes of a 32-bit value, little-endian.
pub(crate) fn le_bytes(v: u32) -> (b: [u8; 4])
    ensures
        b@ == le_bytes_u32(v),
{
    let b: [u8; 4] = [
        (v % 256) as u8,
        ((v / 256) % 256) as u8,
        ((v / 65536) % 256) as u8,
        (v / 16777216) as u8,
    ];
    b
}

/// The 32-bit value of four bytes of `raw` from `start`, little-endian.
pub(crate) fn le_value(raw: &[u8], start: usize) -> (v: u32)
    requires
        start + 4 <= raw@.len(),
    ensures
        v == le_u32(raw@[start as int], raw@[start + 1], raw@[start + 2], raw@[start + 3]),
{
    let b0: u32 = raw[start] as u32;
    let b1: u32 = raw[start + 1] as u32;
    let b2: u32 = raw[start + 2] as u32;
    let b3: u32 = raw[start + 3] as u32;
    b0 + 256 * b1 + 65536 * b2 + 16777216 * b3
}

/// The bytes of the AxisSettings register for the given axes.
pub fn axis_settings(axis1: &AxisReadings, axis2: &AxisReadings) -> (buffer: [u8; 2])
    ensures
        buffer@ == axis_settings_bytes(*axis1, *axis2),
{
    let enabled1: u8 = if axis1.enabled {
        1
    } else {
        0
    };
    let enabled2: u8 = if axis2.enabled {
        1
    } else {
        0
    };
    let buffer: [u8; 2] = [axis1.mode << 4u8 | axis2.mode, enabled1 << 4u8 | enabled2];
    buffer
}

/// The settings that written AxisSettings data set; `None` where fewer than two bytes
/// came, and then nothing is set.
pub fn set_axis_settings(raw: &[u8]) -> (settings: Option<AxisSettings>)
    ensures
        settings == axis_settings_of(raw@),
{
    if raw.len() < 2 {
        return None;
    }
    Some(
        AxisSettings {
            axis1_mode: raw[0] & 0x0f,
            axis2_mode: (raw[0] & 0xf0) >> 4u8,
            axis1_enabled: (raw[1] & 0x0f) > 0,
            axis2_enabled: ((raw[1] & 0xf0) >> 4u8) > 0,
        },
    )
}

/// The velocity bits that written data hold: zero where fewer than four bytes came.
pub fn parse_velocity(raw: &[u8]) -> (v: u32)
    ensures
        v == velocity_of(raw@),
{
    if raw.len() < 4 {
        return 0;
    }
    le_value(raw, 0)
}

/// The velocity bits of both axes that written data hold: both zero where fewer than
/// eight bytes came.
pub fn parse_both_axes_velocities(raw: &[u8]) -> (v: (u32, u32))
    ensures
        v == both_velocities_of(raw@),
{
    if raw.len() < 8 {
        return (0, 0);
    }
    let first = le_value(raw, 0);
    let second = le_value(raw, 4);
    (first, second)
}

/// The bytes that report the actual velocities of both axes.
pub fn both_axes_velocity(axis1: &AxisReadings, axis2: &AxisReadings) -> (buffer: [u8; 8])
    ensures
        buffer@ == le_bytes_u32(axis1.actual_velocity) + le_bytes_u32(axis2.actual_velocity),
{
    let a = le_bytes(axis1.actual_velocity);
    let b = le_bytes(axis2.actual_velocity);
    let buffer: [u8; 8] = [a[0], a[1], a[2], a[3], b[0], b[1], b[2], b[3]];
    buffer
}

/// The bytes of a position.
pub fn position(p: &RawPosition) -> (buffer: [u8; 8])
    ensures
        buffer@ == position_bytes(*p),
{
    let a = le_bytes(p.revolutions as u32);
    let b = le_bytes(p.angle);
    let buffer: [u8; 8] = [a[0], a[1], a[2], a[3], b[0], b[1], b[2], b[3]];
    buffer
}

/// The position that written data hold: the zero position where fewer than eight
/// bytes came. More than eight bytes are not accepted.
pub fn parse_position(raw: &[u8]) -> (p: RawPosition)
    requires
        raw@.len() <= 8,
    ensures
        p == position_of(raw@),
{
    if raw.len() < 8 {
        return RawPosition { revolutions: 0, angle: 0 };
    }
    let revolutions = le_value(raw, 0) as i32;
    let angle = le_value(raw, 4);
    RawPosition { revolutions, angle }
}

/// The data that the firmware provides when the master reads a register; none for an
/// unknown register and for the velocities of both axes, which cannot be read.
pub open spec fn transmit_data(register: u8, axis1: AxisReadings, axis2: AxisReadings) -> Option<
    Seq<u8>,
> {
    match register_of(register) {
        Some(I2CRegister::AxisSettings) => Some(axis_settings_bytes(axis1, axis2)),
        Some(I2CRegister::Axis1Velocity) => Some(le_bytes_u32(axis1.actual_velocity)),
        Some(I2CRegister::Axis2Velocity) => Some(le_bytes_u32(axis2.actual_velocity)),
        Some(I2CRegister::Axis1Position) => Some(position_bytes(axis1.actual_position)),
        Some(I2CRegister::Axis2Position) => Some(position_bytes(axis2.actual_position)),
        _ => None,
    }
}

/// What data written to a register ask of the object dictionary; nothing for an
/// unknown register and for the positions of both axes, which cannot be written.
pub open spec fn received_write(register: u8, data: Seq<u8>) -> Option<DictionaryWrite> {
    match register_of(register) {
        Some(I2CRegister::AxisSettings) => Some(DictionaryWrite::AxisSettings(axis_settings_of(data))),
        Some(I2CRegister::Axis1Velocity) => Some(
            DictionaryWrite::TargetVelocity(Axis::Axis1, velocity_of(data)),
        ),
        Some(I2CRegister::Axis2Velocity) => Some(
            DictionaryWrite::TargetVelocity(Axis::Axis2, velocity_of(data)),
        ),
        Some(I2CRegister::BothAxesVelocity) => Some(
            DictionaryWrite::BothTargetVelocities(
                both_velocities_of(data).0,
                both_velocities_of(data).1,
            ),
        ),
        Some(I2CRegister::Axis1Position) => Some(
            DictionaryWrite::TargetPosition(Axis::Axis1, position_of(data)),
        ),
        Some(I2CRegister::Axis2Position) => Some(
            DictionaryWrite::TargetPosition(Axis::Axis2, position_of(data)),
        ),
        _ => None,
    }
}

/// Whether a register is one of the positions of a single axis.
pub open spec fn is_axis_position(register: u8) -> bool {
    register_of(register) == Some(I2CRegister::Axis1Position) || register_of(register) == Some(
        I2CRegister::Axis2Position,
    )
}

/// The accesses that the firmware handles without failing: a read of the positions of
/// both axes fails, and so does a write of more than eight bytes to a position.
pub open spec fn access_defined(state: Option<State>, received: Seq<u8>) -> bool {
    match state {
        Some(State::DataRequested(r)) => register_of(r) != Some(I2CRegister::BothAxesPosition),
        Some(State::DataReceived(r)) => is_axis_position(r) ==> received.len() <= 8,
        None => true,
    }
}

/// The slave after the firmware answers what it reports.
pub open spec fn answered(s: I2CSlaveView, axis1: AxisReadings, axis2: AxisReadings) -> I2CSlaveView {
    match s.state {
        Some(State::DataRequested(r)) => match transmit_data(r, axis1, axis2) {
            Some(data) => with_transmit_data(s, data),
            None => s,
        },
        Some(State::DataReceived(r)) => if received_write(r, s.buffer.take(s.buffer_index)) is Some {
            with_data_taken(s)
        } else {
            s
        },
        None => s,
    }
}

/// What the firmware writes to the object dictionary after answering the slave.
pub open spec fn answered_write(s: I2CSlaveView) -> Option<DictionaryWrite> {
    match s.state {
        Some(State::DataReceived(r)) => received_write(r, s.buffer.take(s.buffer_index)),
        _ => None,
    }
}

/// The data that the firmware provides when the master reads the register.
pub fn i2c_transmit_data(register: u8, axis1: &AxisReadings, axis2: &AxisReadings) -> (data:
    Option<Vec<u8>>)
    ensures
        data is Some == transmit_data(register, *axis1, *axis2) is Some,
        data is Some ==> data.unwrap()@ == transmit_data(register, *axis1, *axis2).unwrap(),
{
    match I2CRegister::try_from(register) {
        Ok(I2CRegister::AxisSettings) => {
            let b = axis_settings(axis1, axis2);
            Some(vstd::slice::slice_to_vec(b.as_slice()))
        },
        Ok(I2CRegister::Axis1Velocity) => {
            let b = le_bytes(axis1.actual_velocity);
            Some(vstd::slice::slice_to_vec(b.as_slice()))
        },
        Ok(I2CRegister::Axis2Velocity) => {
            let b = le_bytes(axis2.actual_velocity);
            Some(vstd::slice::slice_to_vec(b.as_slice()))
        },
        Ok(I2CRegister::Axis1Position) => {
            let b = position(&axis1.actual_position);
            Some(vstd::slice::slice_to_vec(b.as_slice()))
        },
        Ok(I2CRegister::Axis2Position) => {
            let b = position(&axis2.actual_position);
            Some(vstd::slice::slice_to_vec(b.as_slice()))
        },
        _ => None,
    }
}

/// What the data written to the register ask of the object dictionary.
pub fn i2c_received_write(register: u8, data: &[u8]) -> (w: Option<DictionaryWrite>)
    requires
        is_axis_position(register) ==> data@.len() <= 8,
    ensures
        w == received_write(register, data@),
{
    match I2CRegister::try_from(register) {
        Ok(I2CRegister::AxisSettings) => Some(DictionaryWrite::AxisSettings(set_axis_settings(data))),
        Ok(I2CRegister::Axis1Velocity) => Some(
            DictionaryWrite::TargetVelocity(Axis::Axis1, parse_velocity(data)),
        ),
        Ok(I2CRegister::Axis2Velocity) => Some(
            DictionaryWrite::TargetVelocity(Axis::Axis2, parse_velocity(data)),
        ),
        Ok(I2CRegister::BothAxesVelocity) => {
            let (axis1_velocity, axis2_velocity) = parse_both_axes_velocities(data);
            Some(DictionaryWrite::BothTargetVelocities(axis1_velocity, axis2_velocity))
        },
        Ok(I2CRegister::Axis1Position) => Some(
            DictionaryWrite::TargetPosition(Axis::Axis1, parse_position(data)),
        ),
        Ok(I2CRegister::Axis2Position) => Some(
            DictionaryWrite::TargetPosition(Axis::Axis2, parse_position(data)),
        ),
        _ => None,
    }
}

/// Handles an I2C event interrupt and answers what the slave then reports: the data
/// of a read register are provided, the data of a written register are taken and
/// returned as what they ask of the object dictionary. `axis1` and `axis2` are what
/// the dictionary holds of the axes.
pub fn process_i2c_event(
    i2c: &mut I2CSlave,
    status: I2CStatus,
    data: u8,
    axis1: &AxisReadings,
    axis2: &AxisReadings,
) -> (r: (I2CReaction, Option<DictionaryWrite>))
    requires
        old(i2c).wf(),
        event_defined(old(i2c).view(), status),
        access_defined(
            event_step(old(i2c).view(), status, data).0.state,
            event_step(old(i2c).view(), status, data).0.buffer.take(
                event_step(old(i2c).view(), status, data).0.buffer_index,
            ),
        ),
    ensures
        final(i2c).wf(),
        r.0 == event_step(old(i2c).view(), status, data).1,
        final(i2c).view() == answered(event_step(old(i2c).view(), status, data).0, *axis1, *axis2),
        r.1 == answered_write(event_step(old(i2c).view(), status, data).0),
{
    let reaction = i2c.event_interrupt(status, data);
    let ghost s1 = i2c.view();
    match i2c.get_state() {
        None => (reaction, None),
        Some(State::DataRequested(register)) => {
            match i2c_transmit_data(register, axis1, axis2) {
                Some(bytes) => {
                    i2c.set_transmit_buffer(bytes.as_slice());
                    assert(i2c.view().buffer =~= bytes@ + s1.buffer.skip(bytes@.len() as int)) by {
                        assert(i2c.view().buffer =~= i2c.view().buffer.take(bytes@.len() as int)
                            + i2c.view().buffer.skip(bytes@.len() as int));
                    }
                    (reaction, None)
                },
                None => (reaction, None),
            }
        },
        Some(State::DataReceived(register)) => {
            if I2CRegister::try_from(register).is_ok() && !is_both_axes_position(register) {
                let received = i2c.get_received_data();
                let write = i2c_received_write(register, received.as_slice());
                (reaction, write)
            } else {
                (reaction, None)
            }
        },
    }
}

/// Whether a register number is that of the positions of both axes.
fn is_both_axes_position(register: u8) -> (b: bool)
    ensures
        b == (register_of(register) == Some(I2CRegister::BothAxesPosition)),
{
    register == 0x50
}

/// A position that the firmware reports reads back as the same position when the
/// master writes its bytes.
pub proof fn lemma_position_round_trip(p: RawPosition)
    ensures
        position_of(position_bytes(p)) == p,
{
    let r = p.revolutions;
    lemma_le_u32_round_trip(r as u32);
    lemma_le_u32_round_trip(p.angle);
    assert((r as u32) as i32 == r) by (bit_vector);
}

/// The velocities of both axes, as the firmware reports them, read back as the same
/// velocities when the master writes their bytes.
pub proof fn lemma_velocities_round_trip(axis1_velocity: u32, axis2_velocity: u32)
    ensures
        velocity_of(le_bytes_u32(axis1_velocity)) == axis1_velocity,
        both_velocities_of(le_bytes_u32(axis1_velocity) + le_bytes_u32(axis2_velocity)) == (
        axis1_velocity,
        axis2_velocity,
        ),
{
    lemma_le_u32_round_trip(axis1_velocity);
    lemma_le_u32_round_trip(axis2_velocity);
    let both = le_bytes_u32(axis1_velocity) + le_bytes_u32(axis2_velocity);
}

/// The AxisSettings data that the firmware reports, written back by the master, set
/// the settings with the two axes swapped: the report puts axis 1 in the high nibbles
/// and a write takes axis 1 from the low ones. Mode codes are below 16.
pub proof fn lemma_axis_settings_read_back_swaps_axes(axis1: AxisReadings, axis2: AxisReadings)
    requires
        axis1.mode < 16,
        axis2.mode < 16,
    ensures
        axis_settings_of(axis_settings_bytes(axis1, axis2)) == Some(
            AxisSettings {
                axis1_mode: axis2.mode,
                axis2_mode: axis1.mode,
                axis1_enabled: axis2.enabled,
                axis2_enabled: axis1.enabled,
            },
        ),
{
    let m1 = axis1.mode;
    let m2 = axis2.mode;
    let e1 = flag_bit(axis1.enabled);
    let e2 = flag_bit(axis2.enabled);
    assert(((m1 << 4u8) | m2) & 0x0f == m2 && (((m1 << 4u8) | m2) & 0xf0) >> 4u8 == m1)
        by (bit_vector)
        requires
            m1 < 16,
            m2 < 16,
    ;
    assert(((e1 << 4u8) | e2) & 0x0f == e2 && (((e1 << 4u8) | e2) & 0xf0) >> 4u8 == e1)
        by (bit_vector)
        requires
            e1 < 2,
            e2 < 2,
    ;
}

/// The dictionary after a register write is applied to it.
pub open spec fn write_applied(
    before: PersistentStoreObjectDictionary,
    after: PersistentStoreObjectDictionary,
    write: DictionaryWrite,
) -> bool {
    let r1 = before.spec_runtime(Axis::Axis1);
    let r2 = before.spec_runtime(Axis::Axis2);
    &&& forall|x: Axis| #[trigger] after.spec_axis(x) == before.spec_axis(x)
    &&& after.spec_battery_voltage() == before.spec_battery_voltage()
    &&& after.spec_temperature() == before.spec_temperature()
    &&& match write {
        DictionaryWrite::AxisSettings(Some(s)) => {
            &&& after.spec_runtime(Axis::Axis1) == (AxisRuntime { mode: s.axis1_mode, enabled: s.axis1_enabled, ..r1 })
            &&& after.spec_runtime(Axis::Axis2) == (AxisRuntime { mode: s.axis2_mode, enabled: s.axis2_enabled, ..r2 })
        },
        DictionaryWrite::AxisSettings(None) => {
            &&& after.spec_runtime(Axis::Axis1) == r1
            &&& after.spec_runtime(Axis::Axis2) == r2
        },
        DictionaryWrite::TargetVelocity(Axis::Axis1, v) => {
            &&& after.spec_runtime(Axis::Axis1) == (AxisRuntime { target_velocity: v, ..r1 })
            &&& after.spec_runtime(Axis::Axis2) == r2
        },
        DictionaryWrite::TargetVelocity(Axis::Axis2, v) => {
            &&& after.spec_runtime(Axis::Axis1) == r1
            &&& after.spec_runtime(Axis::Axis2) == (AxisRuntime { target_velocity: v, ..r2 })
        },
        DictionaryWrite::BothTargetVelocities(v1, v2) => {
            &&& after.spec_runtime(Axis::Axis1) == (AxisRuntime { target_velocity: v1, ..r1 })
            &&& after.spec_runtime(Axis::Axis2) == (AxisRuntime { target_velocity: v2, ..r2 })
        },
        DictionaryWrite::TargetPosition(Axis::Axis1, p) => {
            &&& after.spec_runtime(Axis::Axis1) == (AxisRuntime { target_position: p, ..r1 })
            &&& after.spec_runtime(Axis::Axis2) == r2
        },
        DictionaryWrite::TargetPosition(Axis::Axis2, p) => {
            &&& after.spec_runtime(Axis::Axis1) == r1
            &&& after.spec_runtime(Axis::Axis2) == (AxisRuntime { target_position: p, ..r2 })
        },
    }
}

/// Applies what a register write asks to the driver's dictionary. Written axis
/// settings (even too short ones) also bring the driver to the operational state.
pub fn apply_dictionary_write(write: DictionaryWrite, state: &mut DriverState<PersistentStoreObjectDictionary>)
    ensures
        write_applied(old(state).dictionary(), final(state).dictionary(), write),
        final(state).spec_nmt_state() == if write is AxisSettings {
            NMTState::Operational
        } else {
            old(state).spec_nmt_state()
        },
        final(state).speed_command_counter() == old(state).speed_command_counter(),
{
    match write {
        DictionaryWrite::AxisSettings(settings) => {
            if let Some(s) = settings {
                let od = state.object_dictionary();
                od.axis_mut(Axis::Axis1).set_mode(s.axis1_mode);
                od.axis_mut(Axis::Axis2).set_mode(s.axis2_mode);
                od.axis_mut(Axis::Axis1).set_enabled(s.axis1_enabled);
                od.axis_mut(Axis::Axis2).set_enabled(s.axis2_enabled);
            }
            state.go_to_operational();
        },
        DictionaryWrite::TargetVelocity(axis, v) => {
            state.object_dictionary().axis_mut(axis).set_target_velocity(v);
        },
        DictionaryWrite::BothTargetVelocities(v1, v2) => {
            let od = state.object_dictionary();
            od.axis_mut(Axis::Axis1).set_target_velocity(v1);
            od.axis_mut(Axis::Axis2).set_target_velocity(v2);
        },
        DictionaryWrite::TargetPosition(axis, p) => {
            state.object_dictionary().axis_mut(axis).set_target_position(p);
        },
    }
}

/// What the registers report of an axis of the dictionary.
pub open spec fn readings_of(od: PersistentStoreObjectDictionary, axis: Axis) -> AxisReadings {
    AxisReadings {
        mode: od.spec_runtime(axis).mode,
        enabled: od.spec_runtime(axis).enabled,
        actual_velocity: od.spec_runtime(axis).actual_velocity,
        actual_position: od.spec_runtime(axis).actual_position,
    }
}

/// What the registers report of an axis: its mode, its enable flag, its actual velocity
/// and its actual position, as the dictionary holds them.
pub fn axis_readings(od: &PersistentStoreObjectDictionary, axis: Axis) -> (r: AxisReadings)
    ensures
        r == readings_of(*od, axis),
{
    let d = od.axis(axis);
    AxisReadings {
        mode: d.mode(),
        enabled: d.enabled(),
        actual_velocity: d.actual_velocity(),
        actual_position: d.actual_position(),
    }
}

/// The register that holds the position of an axis.
pub open spec fn position_register(axis: Axis) -> u8 {
    match axis {
        Axis::Axis1 => 0x31,
        Axis::Axis2 => 0x32,
    }
}

/// The register that holds the velocity of an axis.
pub open spec fn velocity_register(axis: Axis) -> u8 {
    match axis {
        Axis::Axis1 => 0x21,
        Axis::Axis2 => 0x22,
    }
}

/// The registers of an axis act on that axis: writing the bytes of a position to its
/// position register sets its own target position to that position, writing the bytes
/// of a velocity to its velocity register sets its own target velocity, and reading
/// these registers reports its own actual position and velocity, whatever the other
/// axis holds.
pub proof fn lemma_axis_registers(axis: Axis, p: RawPosition, v: u32, mine: AxisReadings, other: AxisReadings)
    ensures
        received_write(position_register(axis), position_bytes(p)) == Some(
            DictionaryWrite::TargetPosition(axis, p),
        ),
        received_write(velocity_register(axis), le_bytes_u32(v)) == Some(
            DictionaryWrite::TargetVelocity(axis, v),
        ),
        ({
            let (a1, a2) = if axis is Axis1 {
                (mine, other)
            } else {
                (other, mine)
            };
            &&& transmit_data(position_register(axis), a1, a2) == Some(position_bytes(mine.actual_position))
            &&& transmit_data(velocity_register(axis), a1, a2) == Some(le_bytes_u32(mine.actual_velocity))
        }),
{
    lemma_position_round_trip(p);
    lemma_le_u32_round_trip(v);
}

} // verus!
