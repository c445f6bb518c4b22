use sm4::i2c::{Direction, I2CSlave, I2CStatus, State};
use sm4::i2c_protocol::{
    axis_settings, both_axes_velocity, i2c_received_write, i2c_transmit_data, parse_both_axes_velocities,
    parse_position, parse_velocity, position, process_i2c_event, set_axis_settings, AxisReadings,
    AxisSettings, DictionaryWrite, RawPosition,
};
use sm4::object_dictionary::Axis;

fn readings(mode: u8, enabled: bool, velocity: f32, revolutions: i32, angle: u32) -> AxisReadings {
    AxisReadings {
        mode,
        enabled,
        actual_velocity: velocity.to_bits(),
        actual_position: RawPosition { revolutions, angle },
    }
}

fn status(rx_not_empty: bool, stopped: bool, addressed: Option<Direction>, tx_empty: bool) -> I2CStatus {
    I2CStatus { rx_not_empty, stopped, addressed, tx_empty }
}

fn event(
    slave: &mut I2CSlave,
    s: I2CStatus,
    data: u8,
    a1: &AxisReadings,
    a2: &AxisReadings,
) -> (Option<u8>, Option<DictionaryWrite>) {
    let data = if slave.reads_data(s.rx_not_empty) { data } else { 0 };
    let (reaction, write) = process_i2c_event(slave, s, data, a1, a2);
    (reaction.transmit, write)
}

#[test]
fn axis_settings_layout() {
    let a1 = readings(1, true, 0.0, 0, 0);
    let a2 = readings(2, false, 0.0, 0, 0);
    assert_eq!(axis_settings(&a1, &a2), [0x12, 0x10]);
}

#[test]
fn set_axis_settings_from_master() {
    // the master of the rail control writes these bytes
    assert_eq!(
        set_axis_settings(&[0x11, 0x0f]),
        Some(AxisSettings { axis1_mode: 1, axis2_mode: 1, axis1_enabled: true, axis2_enabled: false })
    );
    assert_eq!(
        set_axis_settings(&[0x21, 0x10]),
        Some(AxisSettings { axis1_mode: 1, axis2_mode: 2, axis1_enabled: false, axis2_enabled: true })
    );
    assert_eq!(set_axis_settings(&[0x11]), None);
}

#[test]
fn axis_settings_read_back_swaps_axes() {
    let a1 = readings(1, true, 0.0, 0, 0);
    let a2 = readings(2, false, 0.0, 0, 0);
    let bytes = axis_settings(&a1, &a2);
    assert_eq!(
        set_axis_settings(&bytes),
        Some(AxisSettings { axis1_mode: 2, axis2_mode: 1, axis1_enabled: false, axis2_enabled: true })
    );
}

#[test]
fn velocity_parsing() {
    assert_eq!(parse_velocity(&1.5f32.to_le_bytes()), 1.5f32.to_bits());
    assert_eq!(parse_velocity(&[1, 2, 3]), 0);
    let mut both = [0u8; 8];
    both[..4].copy_from_slice(&(-2.0f32).to_le_bytes());
    both[4..].copy_from_slice(&3.25f32.to_le_bytes());
    assert_eq!(parse_both_axes_velocities(&both), ((-2.0f32).to_bits(), 3.25f32.to_bits()));
    assert_eq!(parse_both_axes_velocities(&both[..7]), (0, 0));
}

#[test]
fn both_axes_velocity_layout() {
    let a1 = readings(0, false, 1.0, 0, 0);
    let a2 = readings(0, false, -1.0, 0, 0);
    let bytes = both_axes_velocity(&a1, &a2);
    assert_eq!(&bytes[..4], &1.0f32.to_le_bytes());
    assert_eq!(&bytes[4..], &(-1.0f32).to_le_bytes());
    assert_eq!(parse_both_axes_velocities(&bytes), (1.0f32.to_bits(), (-1.0f32).to_bits()));
}

#[test]
fn position_layout_and_round_trip() {
    let p = RawPosition { revolutions: -3, angle: 500 };
    let bytes = position(&p);
    assert_eq!(bytes, [0xfd, 0xff, 0xff, 0xff, 0xf4, 0x01, 0, 0]);
    assert_eq!(parse_position(&bytes), p);
    assert_eq!(parse_position(&bytes[..7]), RawPosition { revolutions: 0, angle: 0 });
}

#[test]
fn transmit_data_per_register() {
    let a1 = readings(1, true, 2.5, 7, 9);
    let a2 = readings(0, false, -0.5, -1, 3);
    assert_eq!(i2c_transmit_data(0x10, &a1, &a2), Some(vec![0x10, 0x10]));
    assert_eq!(i2c_transmit_data(0x21, &a1, &a2), Some(2.5f32.to_le_bytes().to_vec()));
    assert_eq!(i2c_transmit_data(0x22, &a1, &a2), Some((-0.5f32).to_le_bytes().to_vec()));
    assert_eq!(i2c_transmit_data(0x31, &a1, &a2), Some(vec![7, 0, 0, 0, 9, 0, 0, 0]));
    assert_eq!(i2c_transmit_data(0x32, &a1, &a2), Some(vec![0xff, 0xff, 0xff, 0xff, 3, 0, 0, 0]));
    assert_eq!(i2c_transmit_data(0x40, &a1, &a2), None);
    assert_eq!(i2c_transmit_data(0x99, &a1, &a2), None);
}

#[test]
fn received_write_per_register() {
    assert_eq!(
        i2c_received_write(0x10, &[0x11, 0x0f]),
        Some(DictionaryWrite::AxisSettings(Some(AxisSettings {
            axis1_mode: 1,
            axis2_mode: 1,
            axis1_enabled: true,
            axis2_enabled: false
        })))
    );
    assert_eq!(i2c_received_write(0x10, &[]), Some(DictionaryWrite::AxisSettings(None)));
    assert_eq!(
        i2c_received_write(0x22, &0.75f32.to_le_bytes()),
        Some(DictionaryWrite::TargetVelocity(Axis::Axis2, 0.75f32.to_bits()))
    );
    assert_eq!(
        i2c_received_write(0x31, &[1, 0, 0, 0, 2, 0, 0, 0]),
        Some(DictionaryWrite::TargetPosition(Axis::Axis1, RawPosition { revolutions: 1, angle: 2 }))
    );
    assert_eq!(i2c_received_write(0x50, &[1, 2]), None);
    assert_eq!(i2c_received_write(0x01, &[1, 2]), None);
}

#[test]
fn event_answers_a_read() {
    let a1 = readings(1, true, 0.0, 0x01020304, 5);
    let a2 = readings(0, false, 0.0, 0, 0);
    let mut slave = I2CSlave::new();
    event(&mut slave, status(false, false, Some(Direction::Write), false), 0, &a1, &a2);
    event(&mut slave, status(true, false, None, false), 0x31, &a1, &a2);
    let (_, write) = event(&mut slave, status(false, false, Some(Direction::Read), false), 0, &a1, &a2);
    assert_eq!(write, None);
    // the data are provided at once, so nothing is left to report
    assert_eq!(slave.get_state(), None);
    let mut sent = Vec::new();
    loop {
        let (byte, _) = event(&mut slave, status(false, false, None, true), 0, &a1, &a2);
        match byte {
            Some(b) => sent.push(b),
            None => break,
        }
    }
    assert_eq!(sent, vec![4, 3, 2, 1, 5, 0, 0, 0]);
}

#[test]
fn event_answers_a_write() {
    let a1 = readings(0, false, 0.0, 0, 0);
    let a2 = readings(0, false, 0.0, 0, 0);
    let mut slave = I2CSlave::new();
    event(&mut slave, status(false, false, Some(Direction::Write), false), 0, &a1, &a2);
    event(&mut slave, status(true, false, None, false), 0x21, &a1, &a2);
    event(&mut slave, status(true, false, None, false), 0, &a1, &a2);
    for b in 2.0f32.to_le_bytes() {
        event(&mut slave, status(true, false, None, false), b, &a1, &a2);
    }
    let (_, write) = event(&mut slave, status(false, true, None, false), 0, &a1, &a2);
    assert_eq!(write, Some(DictionaryWrite::TargetVelocity(Axis::Axis1, 2.0f32.to_bits())));
    assert_eq!(slave.get_state(), None);
}

#[test]
fn event_leaves_unknown_register_reported() {
    let a1 = readings(0, false, 0.0, 0, 0);
    let a2 = readings(0, false, 0.0, 0, 0);
    let mut slave = I2CSlave::new();
    event(&mut slave, status(false, false, Some(Direction::Write), false), 0, &a1, &a2);
    event(&mut slave, status(true, false, None, false), 0x77, &a1, &a2);
    event(&mut slave, status(true, false, None, false), 0, &a1, &a2);
    event(&mut slave, status(true, false, None, false), 9, &a1, &a2);
    let (_, write) = event(&mut slave, status(false, true, None, false), 0, &a1, &a2);
    assert_eq!(write, None);
    assert_eq!(slave.get_state(), Some(State::DataReceived(0x77)));
}
