use sm4::object_dictionary::{Axis, AxisKey, Key, ObjectDictionaryKey};
use sm4::persistent_dictionary::{
    ControllerSettings, CurrentSettings, ObjectDictionaryStorage, PersistentStoreAxisDictionary,
    PersistentStoreObjectDictionary, DEFAULT_ACCELERATION,
};
use std::collections::HashMap;

#[derive(Default)]
struct MemoryStorage {
    floats: HashMap<u16, u32>,
    flags: HashMap<u16, bool>,
    saves: usize,
}

impl ObjectDictionaryStorage for MemoryStorage {
    fn stored_f32(&self, code: u16) -> Option<u32> {
        self.floats.get(&code).copied()
    }

    fn stored_bool(&self, code: u16) -> Option<bool> {
        self.flags.get(&code).copied()
    }

    fn save_f32<KEY: ObjectDictionaryKey>(&mut self, key: KEY, value: u32) {
        self.floats.insert(key.raw(), value);
        self.flags.remove(&key.raw());
        self.saves += 1;
    }

    fn save_bool<KEY: ObjectDictionaryKey>(&mut self, key: KEY, value: bool) {
        self.flags.insert(key.raw(), value);
        self.floats.remove(&key.raw());
        self.saves += 1;
    }

    fn load_f32<KEY: ObjectDictionaryKey>(&self, key: KEY) -> Option<u32> {
        self.stored_f32(key.raw())
    }

    fn load_bool<KEY: ObjectDictionaryKey>(&self, key: KEY) -> Option<bool> {
        self.stored_bool(key.raw())
    }
}

#[test]
fn empty_storage_gives_defaults() {
    let storage = MemoryStorage::default();
    let d = PersistentStoreAxisDictionary::new(Axis::Axis1, &storage);
    assert_eq!(f32::from_bits(d.acceleration()), 50.0);
    assert_eq!(d.acceleration(), DEFAULT_ACCELERATION);
    assert!(!d.velocity_feedback_control_enabled());
    let c = d.current();
    assert_eq!(f32::from_bits(c.standstill_current()), 0.4);
    assert_eq!(f32::from_bits(c.accelerating_current()), 0.7);
    assert_eq!(f32::from_bits(c.constant_velocity_current()), 0.6);
    assert_eq!(c, CurrentSettings::default());
    let v = d.velocity_controller_settings();
    assert_eq!(
        (f32::from_bits(v.proportional()), f32::from_bits(v.integral()), f32::from_bits(v.derivative())),
        (1.0, 0.1, 0.0)
    );
    assert_eq!(f32::from_bits(v.max_output_amplitude()), 3.0);
    let p = d.position_controller_settings();
    assert_eq!(
        (f32::from_bits(p.proportional()), f32::from_bits(p.integral()), f32::from_bits(p.derivative())),
        (3.0, 0.001, 0.0001)
    );
    assert_eq!(f32::from_bits(p.max_output_amplitude()), 3.0);
}

#[test]
fn stored_settings_are_loaded() {
    let mut storage = MemoryStorage::default();
    storage.save_f32(Key::key_for_axis(AxisKey::Acceleration, Axis::Axis2), 12.5f32.to_bits());
    storage.save_bool(Key::key_for_axis(AxisKey::VelocityFeedbackControlEnabled, Axis::Axis2), true);
    let d2 = PersistentStoreAxisDictionary::new(Axis::Axis2, &storage);
    assert_eq!(f32::from_bits(d2.acceleration()), 12.5);
    assert!(d2.velocity_feedback_control_enabled());
    // the other axis keeps its defaults
    let d1 = PersistentStoreAxisDictionary::new(Axis::Axis1, &storage);
    assert_eq!(d1.acceleration(), DEFAULT_ACCELERATION);
    assert!(!d1.velocity_feedback_control_enabled());
}

#[test]
fn settings_persist_across_restart() {
    let mut storage = MemoryStorage::default();
    let mut d = PersistentStoreAxisDictionary::new(Axis::Axis1, &storage);
    d.set_acceleration(&mut storage, 7.0f32.to_bits());
    d.set_accelerating_current(&mut storage, 1.1f32.to_bits());
    d.set_standstill_current(&mut storage, 0.2f32.to_bits());
    d.set_constant_velocity_current(&mut storage, 0.9f32.to_bits());
    d.set_velocity_controller_p(&mut storage, 2.0f32.to_bits());
    d.set_velocity_controller_s(&mut storage, 0.5f32.to_bits());
    d.set_velocity_controller_d(&mut storage, 0.25f32.to_bits());
    d.set_velocity_controller_max_output(&mut storage, 4.0f32.to_bits());
    d.set_position_controller_p(&mut storage, 5.0f32.to_bits());
    d.set_position_controller_s(&mut storage, 0.125f32.to_bits());
    d.set_position_controller_d(&mut storage, 0.0625f32.to_bits());
    d.set_position_controller_max_output(&mut storage, 6.0f32.to_bits());
    d.set_velocity_feedback_control_enabled(&mut storage, true);
    assert_eq!(storage.saves, 13);
    let reloaded = PersistentStoreAxisDictionary::new(Axis::Axis1, &storage);
    assert_eq!(reloaded.acceleration(), 7.0f32.to_bits());
    assert_eq!(reloaded.current(), CurrentSettings::new(0.2f32.to_bits(), 1.1f32.to_bits(), 0.9f32.to_bits()));
    assert_eq!(
        reloaded.velocity_controller_settings(),
        ControllerSettings::new(2.0f32.to_bits(), 0.5f32.to_bits(), 0.25f32.to_bits(), 4.0f32.to_bits())
    );
    assert_eq!(
        reloaded.position_controller_settings(),
        ControllerSettings::new(5.0f32.to_bits(), 0.125f32.to_bits(), 0.0625f32.to_bits(), 6.0f32.to_bits())
    );
    assert!(reloaded.velocity_feedback_control_enabled());
    assert_eq!(d.current(), reloaded.current());
}

#[test]
fn object_dictionary_axes_and_measurements() {
    let mut storage = MemoryStorage::default();
    let mut od = PersistentStoreObjectDictionary::new(&storage);
    assert_eq!(od.battery_voltage(), 0);
    assert_eq!(od.temperature(), 0);
    od.set_battery_voltage(12.0f32.to_bits());
    od.set_temperature(25.5f32.to_bits());
    od.axis_mut(Axis::Axis2).set_acceleration(&mut storage, 9.0f32.to_bits());
    assert_eq!(od.axis(Axis::Axis2).acceleration(), 9.0f32.to_bits());
    assert_eq!(od.axis(Axis::Axis1).acceleration(), DEFAULT_ACCELERATION);
    assert_eq!(f32::from_bits(od.battery_voltage()), 12.0);
    assert_eq!(f32::from_bits(od.temperature()), 25.5);
    let fresh = PersistentStoreObjectDictionary::new(&storage);
    assert_eq!(fresh.axis(Axis::Axis2).acceleration(), 9.0f32.to_bits());
    assert_eq!(fresh.axis(Axis::Axis1).acceleration(), DEFAULT_ACCELERATION);
}

#[test]
fn settings_setters() {
    let mut c = CurrentSettings::default();
    c.set_standstill_current(1);
    c.set_accelerating_current(2);
    c.set_constant_velocity_current(3);
    assert_eq!(c, CurrentSettings::new(1, 2, 3));
    let mut s = ControllerSettings::new(0, 0, 0, 0);
    s.set_proportional(4);
    s.set_integral(5);
    s.set_derivative(6);
    s.set_max_output_amplitude(7);
    assert_eq!(s, ControllerSettings::new(4, 5, 6, 7));
}
