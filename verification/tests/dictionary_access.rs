use sm4::can::{CANFrame, CANOpenMessage, FrameId};
use sm4::canopen::NMTState;
use sm4::node::{process_can_frame, CanOutcome};
use sm4::state::host_nmt_reply;
use sm4::dictionary_access::{
    process_sdo_request, process_usb_message, read_axis_dictionary, read_object_dictionary,
    update_axis_dictionary, update_object_dictionary,
};
use sm4::i2c_protocol::{apply_dictionary_write, axis_readings, AxisReadings, AxisSettings, DictionaryWrite, RawPosition};
use sm4::object_dictionary::{Axis, AxisKey, Key, ObjectDictionaryKey};
use sm4::persistent_dictionary::{
    ObjectDictionaryStorage, PersistentStoreAxisDictionary, PersistentStoreObjectDictionary,
    DEFAULT_ACCELERATION, DEFAULT_MODE,
};
use sm4::sdo::SDORequest;
use sm4::state::DriverState;
use sm4::usb_protocol::USBMessage;
use std::collections::HashMap;

#[derive(Default)]
struct MemoryStorage {
    floats: HashMap<u16, u32>,
    flags: HashMap<u16, bool>,
}

impl ObjectDictionaryStorage for MemoryStorage {
    fn stored_f32(&self, code: u16) -> Option<u32> {
        self.floats.get(&code).copied()
    }

    fn stored_bool(&self, code: u16) -> Option<bool> {
        self.flags.get(&code).copied()
    }

    fn save_f32<KEY: ObjectDictionaryKey>(&mut self, key: KEY, value: u32) {
        self.floats.insert(key.raw(), value);
        self.flags.remove(&key.raw());
    }

    fn save_bool<KEY: ObjectDictionaryKey>(&mut self, key: KEY, value: bool) {
        self.flags.insert(key.raw(), value);
        self.floats.remove(&key.raw());
    }

    fn load_f32<KEY: ObjectDictionaryKey>(&self, key: KEY) -> Option<u32> {
        self.stored_f32(key.raw())
    }

    fn load_bool<KEY: ObjectDictionaryKey>(&self, key: KEY) -> Option<bool> {
        self.stored_bool(key.raw())
    }
}

const ZERO: RawPosition = RawPosition { revolutions: 0, angle: 0 };

#[test]
fn new_axis_starts_disabled_at_rest() {
    let storage = MemoryStorage::default();
    let d = PersistentStoreAxisDictionary::new(Axis::Axis2, &storage);
    assert_eq!(d.mode(), DEFAULT_MODE);
    assert!(!d.enabled());
    assert_eq!(d.target_velocity(), 0);
    assert_eq!(d.actual_velocity(), 0);
    assert_eq!(d.target_position(), ZERO);
    assert_eq!(d.actual_position(), ZERO);
    let od = PersistentStoreObjectDictionary::new(&storage);
    assert!(!od.axis(Axis::Axis1).enabled());
    assert_eq!(od.axis(Axis::Axis1).target_velocity(), 0);
}

#[test]
fn read_axis_entries() {
    let storage = MemoryStorage::default();
    let mut d = PersistentStoreAxisDictionary::new(Axis::Axis1, &storage);
    d.set_mode(1);
    d.set_enabled(true);
    d.set_target_velocity(2.5f32.to_bits());
    d.set_actual_position(RawPosition { revolutions: -2, angle: 7 });
    assert_eq!(read_axis_dictionary(AxisKey::Mode, &d), ([1, 0, 0, 0], 1));
    assert_eq!(read_axis_dictionary(AxisKey::Enabled, &d), ([1, 0, 0, 0], 1));
    assert_eq!(read_axis_dictionary(AxisKey::TargetVelocity, &d), (2.5f32.to_le_bytes(), 4));
    assert_eq!(read_axis_dictionary(AxisKey::ActualPosition, &d), ([0xfe, 0xff, 0xff, 0xff], 4));
    assert_eq!(read_axis_dictionary(AxisKey::Acceleration, &d), (50.0f32.to_le_bytes(), 4));
    assert_eq!(read_axis_dictionary(AxisKey::VelocityFeedbackControlEnabled, &d), ([0, 0, 0, 0], 1));
    assert_eq!(read_axis_dictionary(AxisKey::PositionS, &d), (0.001f32.to_le_bytes(), 4));
}

#[test]
fn update_axis_entries() {
    let mut storage = MemoryStorage::default();
    let mut d = PersistentStoreAxisDictionary::new(Axis::Axis1, &storage);
    d.set_target_position(RawPosition { revolutions: 1, angle: 300 });
    update_axis_dictionary(AxisKey::Mode, &[1], &mut d, &mut storage);
    update_axis_dictionary(AxisKey::Enabled, &[5], &mut d, &mut storage);
    update_axis_dictionary(AxisKey::TargetVelocity, &1.25f32.to_le_bytes(), &mut d, &mut storage);
    update_axis_dictionary(AxisKey::TargetPosition, &(-4i32).to_le_bytes(), &mut d, &mut storage);
    update_axis_dictionary(AxisKey::ActualVelocity, &9.0f32.to_le_bytes(), &mut d, &mut storage);
    assert_eq!(d.mode(), 1);
    assert!(d.enabled());
    assert_eq!(d.target_velocity(), 1.25f32.to_bits());
    // the angle of the target position stays
    assert_eq!(d.target_position(), RawPosition { revolutions: -4, angle: 300 });
    // actual values cannot be written
    assert_eq!(d.actual_velocity(), 0);
    // data of the wrong size change nothing
    update_axis_dictionary(AxisKey::Acceleration, &[1, 2, 3], &mut d, &mut storage);
    assert_eq!(d.acceleration(), DEFAULT_ACCELERATION);
    assert!(storage.floats.is_empty());
    // a persisted setting is saved
    update_axis_dictionary(AxisKey::Acceleration, &12.0f32.to_le_bytes(), &mut d, &mut storage);
    assert_eq!(d.acceleration(), 12.0f32.to_bits());
    let code = Key::key_for_axis(AxisKey::Acceleration, Axis::Axis1).raw();
    assert_eq!(storage.floats.get(&code), Some(&12.0f32.to_bits()));
    update_axis_dictionary(AxisKey::VelocityFeedbackControlEnabled, &[1], &mut d, &mut storage);
    assert!(d.velocity_feedback_control_enabled());
    assert!(PersistentStoreAxisDictionary::new(Axis::Axis1, &storage).velocity_feedback_control_enabled());
}

#[test]
fn read_and_update_object_entries() {
    let mut storage = MemoryStorage::default();
    let mut od = PersistentStoreObjectDictionary::new(&storage);
    od.set_battery_voltage(24.0f32.to_bits());
    assert_eq!(read_object_dictionary(0x0000, 0x01, &od), (24.0f32.to_le_bytes(), 4));
    assert_eq!(read_object_dictionary(0x0000, 0x02, &od), ([0, 0, 0, 0], 4));
    assert_eq!(read_object_dictionary(0x7000, 0x01, &od), ([0, 0, 0, 0], 4));
    // the measurements cannot be written
    update_object_dictionary(0x0000, 0x01, &[0, 0, 0, 0], &mut od, &mut storage);
    assert_eq!(od.battery_voltage(), 24.0f32.to_bits());
    update_object_dictionary(0x6200, 0x03, &3.0f32.to_le_bytes(), &mut od, &mut storage);
    assert_eq!(od.axis(Axis::Axis2).target_velocity(), 3.0f32.to_bits());
    assert_eq!(od.axis(Axis::Axis1).target_velocity(), 0);
    assert_eq!(read_object_dictionary(0x6200, 0x03, &od), (3.0f32.to_le_bytes(), 4));
}

#[test]
fn sdo_download_and_upload() {
    let mut storage = MemoryStorage::default();
    let mut od = PersistentStoreObjectDictionary::new(&storage);
    let response = process_sdo_request(SDORequest::Download(0x6101, 0x02, [1, 0, 0, 0], 1), &mut od, &mut storage);
    assert_eq!(response, [0x60, 0x01, 0x00, 0x02, 0, 0, 0, 0]);
    assert!(od.axis(Axis::Axis1).enabled());
    let response = process_sdo_request(SDORequest::Upload(0x6100, 0x07), &mut od, &mut storage);
    let a = 50.0f32.to_le_bytes();
    assert_eq!(response, [0x40, 0x00, 0x00, 0x07, a[0], a[1], a[2], a[3]]);
}

#[test]
fn usb_request_and_transfer() {
    let mut storage = MemoryStorage::default();
    let mut od = PersistentStoreObjectDictionary::new(&storage);
    let bytes = 0.5f32.to_le_bytes();
    assert_eq!(process_usb_message(USBMessage::Transfer(0x6100, 0x09, 4, bytes), &mut od, &mut storage), None);
    assert_eq!(od.axis(Axis::Axis1).current().accelerating_current(), 0.5f32.to_bits());
    assert_eq!(
        process_usb_message(USBMessage::Request(0x6100, 0x09), &mut od, &mut storage),
        Some(USBMessage::Transfer(0x6100, 0x09, 4, bytes))
    );
    assert_eq!(
        process_usb_message(USBMessage::Request(0x6100, 0x01), &mut od, &mut storage),
        Some(USBMessage::Transfer(0x6100, 0x01, 1, [0, 0, 0, 0]))
    );
}

#[test]
fn i2c_writes_are_applied() {
    let storage = MemoryStorage::default();
    let mut state = DriverState::new(PersistentStoreObjectDictionary::new(&storage));
    apply_dictionary_write(DictionaryWrite::TargetVelocity(Axis::Axis2, 7), &mut state);
    assert_eq!(state.nmt_state(), NMTState::BootUp);
    apply_dictionary_write(
        DictionaryWrite::AxisSettings(Some(AxisSettings {
            axis1_mode: 1,
            axis2_mode: 0,
            axis1_enabled: true,
            axis2_enabled: false,
        })),
        &mut state,
    );
    assert_eq!(state.nmt_state(), NMTState::Operational);
    apply_dictionary_write(DictionaryWrite::BothTargetVelocities(3, 4), &mut state);
    apply_dictionary_write(
        DictionaryWrite::TargetPosition(Axis::Axis1, RawPosition { revolutions: 2, angle: 9 }),
        &mut state,
    );
    let od = state.object_dictionary();
    assert_eq!(od.axis(Axis::Axis1).mode(), 1);
    assert!(od.axis(Axis::Axis1).enabled());
    assert!(!od.axis(Axis::Axis2).enabled());
    assert_eq!(od.axis(Axis::Axis1).target_velocity(), 3);
    assert_eq!(od.axis(Axis::Axis2).target_velocity(), 4);
    assert_eq!(od.axis(Axis::Axis1).target_position(), RawPosition { revolutions: 2, angle: 9 });
}

#[test]
fn failsafe_blocks_after_ten_ticks() {
    for n in 0..30u32 {
        let storage = MemoryStorage::default();
        let mut state = DriverState::new(PersistentStoreObjectDictionary::new(&storage));
        state.go_to_operational();
        state.invalidate_last_received_speed_command_counter();
        for _ in 0..n {
            state.decrement_last_received_speed_command_counter();
        }
        assert_eq!(state.is_movement_blocked(), n >= 10, "after {} ticks", n);
    }
}

fn data_frame(id: u16, data: &[u8]) -> CANFrame {
    CANFrame::new_data(FrameId::Standard(id), data).unwrap()
}

#[test]
fn readings_come_from_the_dictionary() {
    let storage = MemoryStorage::default();
    let mut od = PersistentStoreObjectDictionary::new(&storage);
    od.axis_mut(Axis::Axis2).set_mode(1);
    od.axis_mut(Axis::Axis2).set_enabled(true);
    od.axis_mut(Axis::Axis2).set_actual_velocity(1.5f32.to_bits());
    od.axis_mut(Axis::Axis2).set_actual_position(RawPosition { revolutions: 3, angle: 4 });
    od.axis_mut(Axis::Axis2).set_target_velocity(9);
    assert_eq!(
        axis_readings(&od, Axis::Axis2),
        AxisReadings {
            mode: 1,
            enabled: true,
            actual_velocity: 1.5f32.to_bits(),
            actual_position: RawPosition { revolutions: 3, angle: 4 },
        }
    );
    assert_eq!(
        axis_readings(&od, Axis::Axis1),
        AxisReadings { mode: 0, enabled: false, actual_velocity: 0, actual_position: ZERO }
    );
}

#[test]
fn target_velocities_are_gated() {
    let storage = MemoryStorage::default();
    let mut state = DriverState::new(PersistentStoreObjectDictionary::new(&storage));
    state.object_dictionary().axis_mut(Axis::Axis1).set_target_velocity(5);
    state.object_dictionary().axis_mut(Axis::Axis2).set_target_velocity(6);
    // the first axis is not gated
    assert_eq!(state.axis1_target_velocity(), 5);
    // the second is zero while blocked or disabled
    assert_eq!(state.axis2_target_velocity(), 0);
    state.go_to_operational();
    state.invalidate_last_received_speed_command_counter();
    assert_eq!(state.axis2_target_velocity(), 0);
    state.object_dictionary().axis_mut(Axis::Axis2).set_enabled(true);
    assert_eq!(state.axis2_target_velocity(), 6);
    for _ in 0..10 {
        state.decrement_last_received_speed_command_counter();
    }
    assert_eq!(state.axis2_target_velocity(), 0);
}

#[test]
fn host_asks_for_operational() {
    assert!(host_nmt_reply(5, NMTState::Operational).is_none());
    let f = host_nmt_reply(5, NMTState::PreOperational).unwrap();
    assert_eq!(f.id(), FrameId::Standard(0));
    assert_eq!(f.data(), Some(&[0x01u8, 5][..]));
}

#[test]
fn can_frames_are_dispatched() {
    let mut storage = MemoryStorage::default();
    let mut state = DriverState::new(PersistentStoreObjectDictionary::new(&storage));
    // NMT: go operational
    let out = process_can_frame(0x10, &data_frame(0x000, &[0x01, 0x10]), &mut state, &mut storage);
    assert!(matches!(out, CanOutcome::Handled));
    assert_eq!(state.nmt_state(), NMTState::Operational);
    // SDO download of the enable flag of axis 1
    let out = process_can_frame(
        0x10,
        &data_frame(0x610, &[0x2f, 0x00, 0x61, 0x02, 0x01, 0, 0, 0]),
        &mut state,
        &mut storage,
    );
    match out {
        CanOutcome::Reply(f) => {
            assert_eq!(f.id(), FrameId::Standard(0x590));
            assert_eq!(f.data(), Some(&[0x60u8, 0x00, 0x00, 0x02, 0, 0, 0, 0][..]));
        }
        _ => panic!("expected a reply"),
    }
    assert!(state.object_dictionary().axis(Axis::Axis1).enabled());
    // SDO upload of the acceleration of axis 2
    let out = process_can_frame(
        0x10,
        &data_frame(0x610, &[0x43, 0x07, 0x62, 0x07, 0, 0, 0, 0]),
        &mut state,
        &mut storage,
    );
    let a = 50.0f32.to_le_bytes();
    match out {
        CanOutcome::Reply(f) => {
            assert_eq!(f.data(), Some(&[0x40u8, 0x07, 0x00, 0x07, a[0], a[1], a[2], a[3]][..]));
        }
        _ => panic!("expected a reply"),
    }
    // sync and received PDOs go to the caller, other frames are ignored
    assert!(matches!(
        process_can_frame(0x10, &data_frame(0x080, &[]), &mut state, &mut storage),
        CanOutcome::Forwarded(CANOpenMessage::Sync)
    ));
    assert!(matches!(
        process_can_frame(0x10, &data_frame(0x310, &[0; 8]), &mut state, &mut storage),
        CanOutcome::Forwarded(CANOpenMessage::RxPDO2)
    ));
    assert!(matches!(
        process_can_frame(0x10, &data_frame(0x100, &[0; 4]), &mut state, &mut storage),
        CanOutcome::Ignored
    ));
    // a segmented SDO request is ignored
    assert!(matches!(
        process_can_frame(0x10, &data_frame(0x610, &[0x20, 0x00, 0x61, 0x02, 0, 0, 0, 0]), &mut state, &mut storage),
        CanOutcome::Ignored
    ));
}
