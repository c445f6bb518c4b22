//! Reading and writing entries of the object dictionary by their index and subindex,
//! as SDO transfers and the USB protocol do: an entry travels in at most four data
//! bytes, little-endian; a flag or a mode code takes one byte.
//!
//! The target and actual positions travel as their whole revolutions.

use vstd::prelude::*;
use crate::eeprom::{le_bytes_u32, le_u32};
use crate::i2c_protocol::{flag_bit, le_bytes, le_value, RawPosition};
use crate::object_dictionary::{key_of, Axis, AxisKey, Key};
use crate::sdo::{download_response, sdo_download_response, sdo_upload_response, upload_response, SDORequest};
use crate::usb_protocol::USBMessage;
use crate::persistent_dictionary::{
    entry_code, persists_as_f32, saved_bool, saved_f32, with_setting, AxisRuntime,
    ObjectDictionaryStorage, PersistedSettings, PersistentStoreAxisDictionary,
    PersistentStoreObjectDictionary,
};

verus! {

/// The data of an entry of one byte, padded with zeros.
pub open spec fn byte_entry(b: u8) -> (Seq<u8>, usize) {
    (seq![b, 0u8, 0u8, 0u8], 1)
}

/// The data of an entry of four bytes.
pub open spec fn word_entry(v: u32) -> (Seq<u8>, usize) {
    (le_bytes_u32(v), 4)
}

/// The data bytes and the length of an axis entry.
pub open spec fn axis_entry(key: AxisKey, s: PersistedSettings, r: AxisRuntime) -> (Seq<u8>, usize) {
    match key {
        AxisKey::Mode => byte_entry(r.mode),
        AxisKey::Enabled => byte_entry(flag_bit(r.enabled)),
        AxisKey::TargetVelocity => word_entry(r.target_velocity),
        AxisKey::ActualVelocity => word_entry(r.actual_velocity),
        AxisKey::TargetPosition => word_entry(r.target_position.revolutions as u32),
        AxisKey::ActualPosition => word_entry(r.actual_position.revolutions as u32),
        AxisKey::Acceleration => word_entry(s.acceleration),
        AxisKey::VelocityFeedbackControlEnabled => byte_entry(flag_bit(s.velocity_feedback_control_enabled)),
        AxisKey::AcceleratingCurrent => word_entry(s.current.accelerating_current),
        AxisKey::StandStillCurrent => word_entry(s.current.standstill_current),
        AxisKey::ConstantVelocityCurrent => word_entry(s.current.constant_velocity_current),
        AxisKey::VelocityP => word_entry(s.velocity_controller.proportional),
        AxisKey::VelocityS => word_entry(s.velocity_controller.integral),
        AxisKey::VelocityD => word_entry(s.velocity_controller.derivative),
        AxisKey::VelocityMaxAction => word_entry(s.velocity_controller.max_output_amplitude),
        AxisKey::PositionP => word_entry(s.position_controller.proportional),
        AxisKey::PositionS => word_entry(s.position_controller.integral),
        AxisKey::PositionD => word_entry(s.position_controller.derivative),
        AxisKey::PositionMaxAction => word_entry(s.position_controller.max_output_amplitude),
    }
}

/// The four-byte value that written data hold: exactly four bytes, little-endian.
pub open spec fn word_of(data: Seq<u8>) -> Option<u32> {
    if data.len() == 4 {
        Some(le_u32(data[0], data[1], data[2], data[3]))
    } else {
        None
    }
}

/// Whether a write of the axis entry reads its first data byte.
pub open spec fn needs_byte(key: AxisKey) -> bool {
    key is Mode || key is Enabled || key is VelocityFeedbackControlEnabled
}

/// The persisted settings after a write of the axis entry: a persisted setting takes
/// four bytes, the velocity feedback control flag its first byte; other entries and
/// data of the wrong size change nothing.
pub open spec fn settings_written(s: PersistedSettings, key: AxisKey, data: Seq<u8>) -> PersistedSettings {
    if key is VelocityFeedbackControlEnabled {
        PersistedSettings { velocity_feedback_control_enabled: data[0] > 0, ..s }
    } else if persists_as_f32(key) && word_of(data) is Some {
        with_setting(s, key, word_of(data).unwrap())
    } else {
        s
    }
}

/// The state that is not persisted after a write of the axis entry: the mode and the
/// enable flag take the first byte, the target velocity four bytes, the target
/// position four bytes of revolutions (its angle stays); the actual values cannot be
/// written, and data of the wrong size change nothing.
pub open spec fn runtime_written(r: AxisRuntime, key: AxisKey, data: Seq<u8>) -> AxisRuntime {
    match key {
        AxisKey::Mode => AxisRuntime { mode: data[0], ..r },
        AxisKey::Enabled => AxisRuntime { enabled: data[0] > 0, ..r },
        AxisKey::TargetVelocity => match word_of(data) {
            Some(v) => AxisRuntime { target_velocity: v, ..r },
            None => r,
        },
        AxisKey::TargetPosition => match word_of(data) {
            Some(v) => AxisRuntime {
                target_position: RawPosition { revolutions: v as i32, angle: r.target_position.angle },
                ..r
            },
            None => r,
        },
        _ => r,
    }
}

/// The storage after a write of an entry of the axis `axis`: a persisted setting is
/// saved under its key, other writes leave the storage as it was.
pub open spec fn storage_written<S: ObjectDictionaryStorage>(
    before: S,
    after: S,
    axis: Axis,
    key: AxisKey,
    data: Seq<u8>,
) -> bool {
    if key is VelocityFeedbackControlEnabled {
        saved_bool(before, after, entry_code(key, axis), data[0] > 0)
    } else if persists_as_f32(key) && word_of(data) is Some {
        saved_f32(before, after, entry_code(key, axis), word_of(data).unwrap())
    } else {
        after == before
    }
}

/// The four-byte value of written data, if they are exactly four bytes.
fn word_from(data: &[u8]) -> (v: Option<u32>)
    ensures
        v == word_of(data@),
{
    if data.len() == 4 {
        Some(le_value(data, 0))
    } else {
        None
    }
}

/// The data of an entry of one byte.
fn byte_data(b: u8) -> (r: ([u8; 4], usize))
    ensures
        r.0@ == byte_entry(b).0,
        r.1 == byte_entry(b).1,
{
    let data: [u8; 4] = [b, 0, 0, 0];
    assert(data@ =~= byte_entry(b).0);
    (data, 1)
}

/// The data of an entry of four bytes.
fn word_data(v: u32) -> (r: ([u8; 4], usize))
    ensures
        r.0@ == word_entry(v).0,
        r.1 == word_entry(v).1,
{
    (le_bytes(v), 4)
}

/// The byte that stands for a flag.
fn flag_byte(b: bool) -> (r: u8)
    ensures
        r == flag_bit(b),
{
    if b {
        1
    } else {
        0
    }
}

/// Reads an entry of an axis: its data bytes and its length.
pub fn read_axis_dictionary(key: AxisKey, dictionary: &PersistentStoreAxisDictionary) -> (r: ([u8; 4], usize))
    ensures
        r.0@ == axis_entry(key, dictionary@, dictionary.runtime()).0,
        r.1 == axis_entry(key, dictionary@, dictionary.runtime()).1,
{
    match key {
        AxisKey::Mode => byte_data(dictionary.mode()),
        AxisKey::Enabled => byte_data(flag_byte(dictionary.enabled())),
        AxisKey::TargetVelocity => word_data(dictionary.target_velocity()),
        AxisKey::ActualVelocity => word_data(dictionary.actual_velocity()),
        AxisKey::TargetPosition => word_data(dictionary.target_position().revolutions as u32),
        AxisKey::ActualPosition => word_data(dictionary.actual_position().revolutions as u32),
        AxisKey::Acceleration => word_data(dictionary.acceleration()),
        AxisKey::VelocityFeedbackControlEnabled => byte_data(
            flag_byte(dictionary.velocity_feedback_control_enabled()),
        ),
        AxisKey::AcceleratingCurrent => word_data(dictionary.current().accelerating_current()),
        AxisKey::StandStillCurrent => word_data(dictionary.current().standstill_current()),
        AxisKey::ConstantVelocityCurrent => word_data(
            dictionary.current().constant_velocity_current(),
        ),
        AxisKey::VelocityP => word_data(dictionary.velocity_controller_settings().proportional()),
        AxisKey::VelocityS => word_data(dictionary.velocity_controller_settings().integral()),
        AxisKey::VelocityD => word_data(dictionary.velocity_controller_settings().derivative()),
        AxisKey::VelocityMaxAction => word_data(
            dictionary.velocity_controller_settings().max_output_amplitude(),
        ),
        AxisKey::PositionP => word_data(dictionary.position_controller_settings().proportional()),
        AxisKey::PositionS => word_data(dictionary.position_controller_settings().integral()),
        AxisKey::PositionD => word_data(dictionary.position_controller_settings().derivative()),
        AxisKey::PositionMaxAction => word_data(
            dictionary.position_controller_settings().max_output_amplitude(),
        ),
    }
}

/// Writes an entry of an axis from the data of a transfer; a persisted setting is also
/// saved to the storage. Data of the wrong size and the actual values change nothing.
pub fn update_axis_dictionary<S: ObjectDictionaryStorage>(
    key: AxisKey,
    data: &[u8],
    dictionary: &mut PersistentStoreAxisDictionary,
    storage: &mut S,
)
    requires
        needs_byte(key) ==> data@.len() > 0,
    ensures
        final(dictionary)@ == settings_written(old(dictionary)@, key, data@),
        final(dictionary).runtime() == runtime_written(old(dictionary).runtime(), key, data@),
        storage_written(*old(storage), *final(storage), old(dictionary)@.axis, key, data@),
{
    match key {
        AxisKey::Mode => dictionary.set_mode(data[0]),
        AxisKey::Enabled => dictionary.set_enabled(data[0] > 0),
        AxisKey::TargetVelocity => {
            if let Some(v) = word_from(data) {
                dictionary.set_target_velocity(v);
            }
        },
        AxisKey::ActualVelocity => {},
        AxisKey::TargetPosition => {
            if let Some(v) = word_from(data) {
                let position = dictionary.target_position();
                dictionary.set_target_position(RawPosition { revolutions: v as i32, angle: position.angle });
            }
        },
        AxisKey::ActualPosition => {},
        AxisKey::Acceleration => {
            if let Some(v) = word_from(data) {
                dictionary.set_acceleration(storage, v);
            }
        },
        AxisKey::VelocityFeedbackControlEnabled => {
            dictionary.set_velocity_feedback_control_enabled(storage, data[0] > 0);
        },
        AxisKey::AcceleratingCurrent => {
            if let Some(v) = word_from(data) {
                dictionary.set_accelerating_current(storage, v);
            }
        },
        AxisKey::StandStillCurrent => {
            if let Some(v) = word_from(data) {
                dictionary.set_standstill_current(storage, v);
            }
        },
        AxisKey::ConstantVelocityCurrent => {
            if let Some(v) = word_from(data) {
                dictionary.set_constant_velocity_current(storage, v);
            }
        },
        AxisKey::VelocityP => {
            if let Some(v) = word_from(data) {
                dictionary.set_velocity_controller_p(storage, v);
            }
        },
        AxisKey::VelocityS => {
            if let Some(v) = word_from(data) {
                dictionary.set_velocity_controller_s(storage, v);
            }
        },
        AxisKey::VelocityD => {
            if let Some(v) = word_from(data) {
                dictionary.set_velocity_controller_d(storage, v);
            }
        },
        AxisKey::VelocityMaxAction => {
            if let Some(v) = word_from(data) {
                dictionary.set_velocity_controller_max_output(storage, v);
            }
        },
        AxisKey::PositionP => {
            if let Some(v) = word_from(data) {
                dictionary.set_position_controller_p(storage, v);
            }
        },
        AxisKey::PositionS => {
            if let Some(v) = word_from(data) {
                dictionary.set_position_controller_s(storage, v);
            }
        },
        AxisKey::PositionD => {
            if let Some(v) = word_from(data) {
                dictionary.set_position_controller_d(storage, v);
            }
        },
        AxisKey::PositionMaxAction => {
            if let Some(v) = word_from(data) {
                dictionary.set_position_controller_max_output(storage, v);
            }
        },
    }
}

/// The data bytes and the length of the entry at `index`/`subindex`: the measurements
/// take four bytes; an unknown entry reads as four zero bytes.
pub open spec fn object_entry(index: u16, subindex: u8, od: PersistentStoreObjectDictionary) -> (Seq<u8>, usize) {
    match key_of(index, subindex) {
        Some(Key::BatteryVoltage) => word_entry(od.spec_battery_voltage()),
        Some(Key::Temperature) => word_entry(od.spec_temperature()),
        Some(Key::Axis1(k)) => axis_entry(k, od.spec_axis(Axis::Axis1), od.spec_runtime(Axis::Axis1)),
        Some(Key::Axis2(k)) => axis_entry(k, od.spec_axis(Axis::Axis2), od.spec_runtime(Axis::Axis2)),
        None => (seq![0u8, 0u8, 0u8, 0u8], 4),
    }
}

/// The dictionary holds the same measurements and entries.
pub open spec fn same_dictionary(a: PersistentStoreObjectDictionary, b: PersistentStoreObjectDictionary) -> bool {
    &&& b.spec_battery_voltage() == a.spec_battery_voltage()
    &&& b.spec_temperature() == a.spec_temperature()
    &&& forall|x: Axis| #[trigger] b.spec_axis(x) == a.spec_axis(x)
    &&& forall|x: Axis| #[trigger] b.spec_runtime(x) == a.spec_runtime(x)
}

/// `after` is `before` with the entry `key` of the axis `axis` written from `data`.
pub open spec fn axis_entry_written(
    before: PersistentStoreObjectDictionary,
    after: PersistentStoreObjectDictionary,
    axis: Axis,
    key: AxisKey,
    data: Seq<u8>,
) -> bool {
    &&& after.spec_axis(axis) == settings_written(before.spec_axis(axis), key, data)
    &&& after.spec_runtime(axis) == runtime_written(before.spec_runtime(axis), key, data)
    &&& forall|x: Axis| x != axis ==> #[trigger] after.spec_axis(x) == before.spec_axis(x)
    &&& forall|x: Axis| x != axis ==> #[trigger] after.spec_runtime(x) == before.spec_runtime(x)
    &&& after.spec_battery_voltage() == before.spec_battery_voltage()
    &&& after.spec_temperature() == before.spec_temperature()
}

/// The writes on which the dictionary does not fail: an axis entry that takes one byte
/// gets at least one.
pub open spec fn object_write_defined(index: u16, subindex: u8, data: Seq<u8>) -> bool {
    match key_of(index, subindex) {
        Some(Key::Axis1(k)) => needs_byte(k) ==> data.len() > 0,
        Some(Key::Axis2(k)) => needs_byte(k) ==> data.len() > 0,
        _ => true,
    }
}

/// Reads the entry at `index`/`subindex`: its data bytes and its length.
pub fn read_object_dictionary(index: u16, subindex: u8, dictionary: &PersistentStoreObjectDictionary) -> (r: (
    [u8; 4],
    usize,
))
    ensures
        r.0@ == object_entry(index, subindex, *dictionary).0,
        r.1 == object_entry(index, subindex, *dictionary).1,
{
    match Key::parse(index, subindex) {
        Some(Key::BatteryVoltage) => word_data(dictionary.battery_voltage()),
        Some(Key::Temperature) => word_data(dictionary.temperature()),
        Some(Key::Axis1(key)) => read_axis_dictionary(key, dictionary.axis(Axis::Axis1)),
        Some(Key::Axis2(key)) => read_axis_dictionary(key, dictionary.axis(Axis::Axis2)),
        None => {
            let zeros: [u8; 4] = [0, 0, 0, 0];
            assert(zeros@ =~= seq![0u8, 0u8, 0u8, 0u8]);
            (zeros, 4)
        },
    }
}

/// Writes the entry at `index`/`subindex` from the data of a transfer. The
/// measurements cannot be written, and an unknown entry changes nothing.
pub fn update_object_dictionary<S: ObjectDictionaryStorage>(
    index: u16,
    subindex: u8,
    data: &[u8],
    dictionary: &mut PersistentStoreObjectDictionary,
    storage: &mut S,
)
    requires
        object_write_defined(index, subindex, data@),
    ensures
        match key_of(index, subindex) {
            Some(Key::Axis1(k)) => {
                &&& axis_entry_written(*old(dictionary), *final(dictionary), Axis::Axis1, k, data@)
                &&& storage_written(*old(storage), *final(storage), old(dictionary).spec_axis(Axis::Axis1).axis, k, data@)
            },
            Some(Key::Axis2(k)) => {
                &&& axis_entry_written(*old(dictionary), *final(dictionary), Axis::Axis2, k, data@)
                &&& storage_written(*old(storage), *final(storage), old(dictionary).spec_axis(Axis::Axis2).axis, k, data@)
            },
            _ => same_dictionary(*old(dictionary), *final(dictionary)) && *final(storage) == *old(storage),
        },
{
    match Key::parse(index, subindex) {
        Some(Key::Axis1(key)) => update_axis_dictionary(key, data, dictionary.axis_mut(Axis::Axis1), storage),
        Some(Key::Axis2(key)) => update_axis_dictionary(key, data, dictionary.axis_mut(Axis::Axis2), storage),
        _ => {},
    }
}

/// The requests that the dictionary answers without failing: a download carries at
/// most four bytes, and an axis entry that takes one byte gets at least one.
pub open spec fn sdo_request_defined(request: SDORequest) -> bool {
    request matches SDORequest::Download(i, s, d, l) ==> l <= 4 && object_write_defined(i, s, d@.take(l as int))
}

/// What answering an expedited SDO request for the entry `i`/`s` does: a download
/// writes `data` to the entry and is confirmed, an upload reads the entry and changes
/// nothing.
pub open spec fn sdo_effect<S: ObjectDictionaryStorage>(
    download: bool,
    i: u16,
    s: u8,
    data: Seq<u8>,
    od_before: PersistentStoreObjectDictionary,
    od_after: PersistentStoreObjectDictionary,
    st_before: S,
    st_after: S,
    response: Seq<u8>,
) -> bool {
    if download {
        &&& response == download_response(i, s)
        &&& match key_of(i, s) {
            Some(Key::Axis1(k)) => {
                &&& axis_entry_written(od_before, od_after, Axis::Axis1, k, data)
                &&& storage_written(st_before, st_after, od_before.spec_axis(Axis::Axis1).axis, k, data)
            },
            Some(Key::Axis2(k)) => {
                &&& axis_entry_written(od_before, od_after, Axis::Axis2, k, data)
                &&& storage_written(st_before, st_after, od_before.spec_axis(Axis::Axis2).axis, k, data)
            },
            _ => same_dictionary(od_before, od_after) && st_after == st_before,
        }
    } else {
        &&& response == upload_response(i, s, object_entry(i, s, od_before).0)
        &&& same_dictionary(od_before, od_after)
        &&& st_after == st_before
    }
}

/// What answering an SDO request does.
pub open spec fn sdo_processed<S: ObjectDictionaryStorage>(
    request: SDORequest,
    od_before: PersistentStoreObjectDictionary,
    od_after: PersistentStoreObjectDictionary,
    st_before: S,
    st_after: S,
    response: Seq<u8>,
) -> bool {
    match request {
        SDORequest::Download(i, s, d, l) => sdo_effect(
            true,
            i,
            s,
            d@.take(l as int),
            od_before,
            od_after,
            st_before,
            st_after,
            response,
        ),
        SDORequest::Upload(i, s) => sdo_effect(
            false,
            i,
            s,
            Seq::empty(),
            od_before,
            od_after,
            st_before,
            st_after,
            response,
        ),
    }
}

/// Answers an expedited SDO request on the dictionary: a download writes the first
/// `length` data bytes to the entry and is confirmed; an upload reads the entry and
/// sends its four data bytes. Returns the data bytes of the response.
pub fn process_sdo_request<S: ObjectDictionaryStorage>(
    request: SDORequest,
    dictionary: &mut PersistentStoreObjectDictionary,
    storage: &mut S,
) -> (response: [u8; 8])
    requires
        sdo_request_defined(request),
    ensures
        sdo_processed(request, *old(dictionary), *final(dictionary), *old(storage), *final(storage), response@),
{
    match request {
        SDORequest::Download(index, subindex, data, length) => {
            let written = vstd::slice::slice_subrange(data.as_slice(), 0, length);
            assert(written@ =~= data@.take(length as int));
            update_object_dictionary(index, subindex, written, dictionary, storage);
            sdo_download_response(index, subindex)
        },
        SDORequest::Upload(index, subindex) => {
            let (data, _) = read_object_dictionary(index, subindex, dictionary);
            sdo_upload_response(index, subindex, data)
        },
    }
}

/// Answers a message of the USB protocol on the dictionary: a request is answered by a
/// transfer of the entry's data; a transfer writes its first `length` data bytes to the
/// entry and is not answered.
pub fn process_usb_message<S: ObjectDictionaryStorage>(
    message: USBMessage,
    dictionary: &mut PersistentStoreObjectDictionary,
    storage: &mut S,
) -> (answer: Option<USBMessage>)
    requires
        message matches USBMessage::Transfer(i, s, l, d) ==> l <= 4 && object_write_defined(i, s, d@.take(l as int)),
    ensures
        match message {
            USBMessage::Request(i, s) => {
                &&& answer matches Some(USBMessage::Transfer(ai, asub, al, ad)) && ai == i && asub == s
                    && al == object_entry(i, s, *old(dictionary)).1 && ad@ == object_entry(i, s, *old(dictionary)).0
                &&& same_dictionary(*old(dictionary), *final(dictionary))
                &&& *final(storage) == *old(storage)
            },
            USBMessage::Transfer(i, s, l, d) => {
                &&& answer is None
                &&& match key_of(i, s) {
                    Some(Key::Axis1(k)) => {
                        &&& axis_entry_written(*old(dictionary), *final(dictionary), Axis::Axis1, k, d@.take(l as int))
                        &&& storage_written(*old(storage), *final(storage), old(dictionary).spec_axis(Axis::Axis1).axis, k, d@.take(l as int))
                    },
                    Some(Key::Axis2(k)) => {
                        &&& axis_entry_written(*old(dictionary), *final(dictionary), Axis::Axis2, k, d@.take(l as int))
                        &&& storage_written(*old(storage), *final(storage), old(dictionary).spec_axis(Axis::Axis2).axis, k, d@.take(l as int))
                    },
                    _ => same_dictionary(*old(dictionary), *final(dictionary)) && *final(storage) == *old(storage),
                }
            },
        },
{
    match message {
        USBMessage::Request(index, subindex) => {
            let (data, length) = read_object_dictionary(index, subindex, dictionary);
            Some(USBMessage::Transfer(index, subindex, length as u8, data))
        },
        USBMessage::Transfer(index, subindex, length, data) => {
            let written = vstd::slice::slice_subrange(data.as_slice(), 0, length as usize);
            assert(written@ =~= data@.take(length as int));
            update_object_dictionary(index, subindex, written, dictionary, storage);
            None
        },
    }
}

/// Each runtime entry reads the field it names and no other: setting a field is read
/// back from its own entry, as one byte for the mode and the enable flag and as four
/// little-endian bytes for the velocities and the revolutions of the positions, and
/// setting the target of a quantity leaves the entry of its actual value as it was,
/// and the other way round.
pub proof fn lemma_runtime_entries_read_their_fields(
    s: PersistedSettings,
    r: AxisRuntime,
    m: u8,
    b: bool,
    v: u32,
    p: RawPosition,
)
    ensures
        axis_entry(AxisKey::Mode, s, AxisRuntime { mode: m, ..r }) == (seq![m, 0u8, 0u8, 0u8], 1usize),
        axis_entry(AxisKey::Enabled, s, AxisRuntime { enabled: b, ..r }) == (
            seq![if b { 1u8 } else { 0u8 }, 0u8, 0u8, 0u8],
            1usize,
        ),
        axis_entry(AxisKey::TargetVelocity, s, AxisRuntime { target_velocity: v, ..r }) == (
            le_bytes_u32(v),
            4usize,
        ),
        axis_entry(AxisKey::ActualVelocity, s, AxisRuntime { actual_velocity: v, ..r }) == (
            le_bytes_u32(v),
            4usize,
        ),
        axis_entry(AxisKey::ActualVelocity, s, AxisRuntime { target_velocity: v, ..r }) == axis_entry(
            AxisKey::ActualVelocity,
            s,
            r,
        ),
        axis_entry(AxisKey::TargetVelocity, s, AxisRuntime { actual_velocity: v, ..r }) == axis_entry(
            AxisKey::TargetVelocity,
            s,
            r,
        ),
        axis_entry(AxisKey::TargetPosition, s, AxisRuntime { target_position: p, ..r }) == (
            le_bytes_u32(p.revolutions as u32),
            4usize,
        ),
        axis_entry(AxisKey::ActualPosition, s, AxisRuntime { actual_position: p, ..r }) == (
            le_bytes_u32(p.revolutions as u32),
            4usize,
        ),
        axis_entry(AxisKey::ActualPosition, s, AxisRuntime { target_position: p, ..r }) == axis_entry(
            AxisKey::ActualPosition,
            s,
            r,
        ),
        axis_entry(AxisKey::TargetPosition, s, AxisRuntime { actual_position: p, ..r }) == axis_entry(
            AxisKey::TargetPosition,
            s,
            r,
        ),
{
}

/// Each persisted setting reads back from its own entry as the four little-endian
/// bytes it was set to, and setting it leaves every other persisted entry as it was.
pub proof fn lemma_setting_entries_read_their_fields(s: PersistedSettings, r: AxisRuntime, key: AxisKey, other: AxisKey, v: u32)
    requires
        persists_as_f32(key),
    ensures
        axis_entry(key, with_setting(s, key, v), r) == (le_bytes_u32(v), 4usize),
        persists_as_f32(other) && other != key ==> axis_entry(other, with_setting(s, key, v), r)
            == axis_entry(other, s, r),
{
}

/// The bytes of the value of four little-endian bytes are those bytes.
proof fn lemma_le_bytes_of_le_u32(b0: u8, b1: u8, b2: u8, b3: u8)
    ensures
        le_bytes_u32(le_u32(b0, b1, b2, b3)) == seq![b0, b1, b2, b3],
{
    let v = le_u32(b0, b1, b2, b3);
    assert(v == b0 + 256 * b1 + 65536 * b2 + 16777216 * b3);
    assert(v % 256 == b0 && (v / 256) % 256 == b1 && (v / 65536) % 256 == b2 && v / 16777216 == b3)
        by (nonlinear_arith)
        requires
            v == b0 + 256 * b1 + 65536 * b2 + 16777216 * b3,
            0 <= b0 < 256,
            0 <= b1 < 256,
            0 <= b2 < 256,
            0 <= b3 < 256,
    ;
    assert(le_bytes_u32(v) =~= seq![b0, b1, b2, b3]);
}

/// A write of four bytes to an entry that takes them is read back as the same bytes:
/// the target velocity and every persisted setting.
pub proof fn lemma_write_then_read(s: PersistedSettings, r: AxisRuntime, key: AxisKey, data: Seq<u8>)
    requires
        key is TargetVelocity || persists_as_f32(key),
        data.len() == 4,
    ensures
        axis_entry(key, settings_written(s, key, data), runtime_written(r, key, data)) == (data, 4usize),
{
    lemma_le_bytes_of_le_u32(data[0], data[1], data[2], data[3]);
    assert(data =~= seq![data[0], data[1], data[2], data[3]]);
}

} // verus!
