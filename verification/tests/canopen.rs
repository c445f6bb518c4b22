use sm4::canopen::{NMTRequestedState, NMTState, PDOId, SerializePDO, TxPDO1, PDODeserializationError};
use sm4::encoder::Direction;
use sm4::object_dictionary::{Axis, AxisKey, Key, ObjectDictionaryKey};

#[test]
fn pdo_ids() {
    assert_eq!(PDOId::PDO1.tx_id(), 0x180);
    assert_eq!(PDOId::PDO1.rx_id(), 0x200);
    assert_eq!(PDOId::PDO4.tx_id(), 0x480);
    assert_eq!(PDOId::PDO4.rx_id(), 0x500);
    assert!(PDOId::PDO1 == PDOId::from_rx(0x200).unwrap());
    assert!(PDOId::PDO1 == PDOId::from_rx(0x201).unwrap());
    assert!(PDOId::PDO3 == PDOId::from_rx(0x47f).unwrap());
    assert!(PDOId::from_rx(0x181).is_err());
    assert!(PDOId::from_rx(0x600).is_err());
    // a transmit identifier of PDO2 is no received PDO1
    assert!(PDOId::from_rx(0x281).is_err());
    assert!(PDOId::from_rx(0x2ff).is_err());
}

#[test]
fn nmt_state_codes() {
    assert_eq!(u8::from(NMTState::BootUp), 0x00);
    assert_eq!(u8::from(NMTState::Stopped), 0x04);
    assert_eq!(u8::from(NMTState::Operational), 0x05);
    assert_eq!(u8::from(NMTState::PreOperational), 0x7f);
    assert_eq!(NMTState::default(), NMTState::BootUp);
}

#[test]
fn nmt_requested_states() {
    assert_eq!(NMTRequestedState::try_from(0x01), Ok(NMTRequestedState::Operational));
    assert_eq!(NMTRequestedState::try_from(0x02), Ok(NMTRequestedState::Stopped));
    assert_eq!(NMTRequestedState::try_from(0x80), Ok(NMTRequestedState::PreOperational));
    assert_eq!(NMTRequestedState::try_from(0x81), Ok(NMTRequestedState::ResetNode));
    assert_eq!(NMTRequestedState::try_from(0x82), Ok(NMTRequestedState::ResetCommunication));
    assert_eq!(NMTRequestedState::try_from(0x00), Err(()));
    assert_eq!(NMTRequestedState::try_from(0x83), Err(()));
}

#[test]
fn tx_pdo1_round_trip() {
    let pdo = TxPDO1 { battery_voltage: 24123, temperature: 351 };
    assert_eq!(TxPDO1::len(), 4);
    let raw = pdo.to_raw().unwrap();
    assert_eq!(raw, [0x3b, 0x5e, 0x5f, 0x01, 0, 0, 0, 0]);
    assert_eq!(TxPDO1::try_from(&raw[..TxPDO1::len()]), Ok(pdo));
    assert_eq!(TxPDO1::try_from(&raw[..3]), Err(PDODeserializationError::IncorrectDataSize));
    assert_eq!(TxPDO1::try_from(&raw[..]), Err(PDODeserializationError::IncorrectDataSize));
    assert_eq!(TxPDO1::default(), TxPDO1 { battery_voltage: 0, temperature: 0 });
}

#[test]
fn direction() {
    assert_eq!(Direction::Clockwise.opposite(), Direction::CounterClockwise);
    assert_eq!(Direction::CounterClockwise.opposite(), Direction::Clockwise);
    assert_eq!(Direction::Clockwise.opposite().opposite(), Direction::Clockwise);
    assert_eq!(Direction::Clockwise.multiplier(), 1);
    assert_eq!(Direction::CounterClockwise.multiplier(), -1);
    assert_eq!(Direction::default(), Direction::Clockwise);
}

#[test]
fn axis_keys() {
    assert_eq!(AxisKey::Mode.raw(), 0x01);
    assert_eq!(AxisKey::StandStillCurrent.raw(), 0x0a);
    assert_eq!(AxisKey::PositionMaxAction.raw(), 0x13);
    assert_eq!(AxisKey::try_from(0x0c), Ok(AxisKey::VelocityP));
    assert_eq!(AxisKey::try_from(0x00), Err(()));
    assert_eq!(AxisKey::try_from(0x14), Err(()));
    for raw in 1u8..=0x13 {
        assert_eq!(AxisKey::try_from(raw).unwrap().raw(), raw as u16);
    }
}

#[test]
fn keys() {
    assert_eq!(Key::parse(0x0000, 0x01), Some(Key::BatteryVoltage));
    assert_eq!(Key::parse(0x0000, 0x02), Some(Key::Temperature));
    assert_eq!(Key::parse(0x0000, 0x03), None);
    assert_eq!(Key::parse(0x6100, 0x03), Some(Key::Axis1(AxisKey::TargetVelocity)));
    assert_eq!(Key::parse(0x62ff, 0x03), Some(Key::Axis2(AxisKey::TargetVelocity)));
    assert_eq!(Key::parse(0x6300, 0x03), None);
    assert_eq!(Key::parse(0x6100, 0x20), None);
    assert_eq!(Key::parse_i2c(0x10), None);
    assert_eq!(Key::BatteryVoltage.raw(), 0x0001);
    assert_eq!(Key::Temperature.raw(), 0x0002);
    assert_eq!(Key::Axis1(AxisKey::Acceleration).raw(), 0x6107);
    assert_eq!(Key::Axis2(AxisKey::PositionP).raw(), 0x6210);
    assert_eq!(Key::Axis2(AxisKey::PositionP).offset(), 0x6200);
    assert_eq!(Key::key_for_axis(AxisKey::Enabled, Axis::Axis1), Key::Axis1(AxisKey::Enabled));
    assert_eq!(Key::key_for_axis(AxisKey::Enabled, Axis::Axis2), Key::Axis2(AxisKey::Enabled));
    let key = Key::Axis2(AxisKey::VelocityD);
    assert_eq!(Key::parse(key.offset(), (key.raw() & 0xff) as u8), Some(key));
}
