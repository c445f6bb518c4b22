use sm4::i2c::{Direction, I2CReaction, I2CRegister, I2CSlave, I2CStatus, State, BUFFER_SIZE};

fn status(rx_not_empty: bool, stopped: bool, addressed: Option<Direction>, tx_empty: bool) -> I2CStatus {
    I2CStatus { rx_not_empty, stopped, addressed, tx_empty }
}

fn event(slave: &mut I2CSlave, s: I2CStatus, data: u8) -> I2CReaction {
    let data = if slave.reads_data(s.rx_not_empty) { data } else { 0 };
    slave.event_interrupt(s, data)
}

#[test]
fn register_write_transaction() {
    let mut slave = I2CSlave::new();
    event(&mut slave, status(false, false, Some(Direction::Write), false), 0);
    event(&mut slave, status(true, false, None, false), 0x21);
    // the first data byte switches to receiving and stays in the data register
    assert!(!slave.reads_data(true));
    event(&mut slave, status(true, false, None, false), 0xaa);
    event(&mut slave, status(true, false, None, false), 0xaa);
    event(&mut slave, status(true, false, None, false), 0xbb);
    let r = event(&mut slave, status(false, true, None, false), 0);
    assert!(r.clear_stopped);
    assert_eq!(slave.get_state(), Some(State::DataReceived(0x21)));
    assert_eq!(slave.get_received_data(), vec![0xaa, 0xbb]);
    assert_eq!(slave.get_state(), None);
}

#[test]
fn register_read_transaction() {
    let mut slave = I2CSlave::new();
    event(&mut slave, status(false, false, Some(Direction::Write), false), 0);
    event(&mut slave, status(true, false, None, false), 0x31);
    event(&mut slave, status(false, false, Some(Direction::Read), false), 0);
    assert_eq!(slave.get_state(), Some(State::DataRequested(0x31)));
    slave.set_transmit_buffer(&[1, 2, 3]);
    assert_eq!(event(&mut slave, status(false, false, None, true), 0).transmit, Some(1));
    assert_eq!(event(&mut slave, status(false, false, None, true), 0).transmit, Some(2));
    assert_eq!(event(&mut slave, status(false, false, None, true), 0).transmit, Some(3));
    assert_eq!(event(&mut slave, status(false, false, None, true), 0).transmit, None);
    event(&mut slave, status(false, true, None, false), 0);
    assert_eq!(slave.get_state(), None);
}

#[test]
fn error_resets_the_transfer() {
    let mut slave = I2CSlave::new();
    event(&mut slave, status(false, false, Some(Direction::Write), false), 0);
    event(&mut slave, status(true, false, None, false), 0x31);
    event(&mut slave, status(false, false, Some(Direction::Read), false), 0);
    slave.error_interrupt();
    assert_eq!(slave.get_state(), None);
    assert_eq!(event(&mut slave, status(false, false, None, true), 0).transmit, None);
    assert_eq!(slave.get_received_data(), Vec::<u8>::new());
    assert_eq!(BUFFER_SIZE, 32);
}

#[test]
fn registers() {
    assert_eq!(I2CRegister::try_from(0x10), Ok(I2CRegister::AxisSettings));
    assert_eq!(I2CRegister::try_from(0x22), Ok(I2CRegister::Axis2Velocity));
    assert_eq!(I2CRegister::try_from(0x50), Ok(I2CRegister::BothAxesPosition));
    assert_eq!(I2CRegister::try_from(0x11), Err(()));
    assert!(!I2CRegister::BothAxesVelocity.readable());
    assert!(I2CRegister::BothAxesVelocity.writeable());
    assert!(!I2CRegister::BothAxesPosition.writeable());
    assert!(I2CRegister::BothAxesPosition.readable());
    assert!(I2CRegister::Axis1Position.readable() && I2CRegister::Axis1Position.writeable());
}

#[test]
fn direction_bits() {
    assert_eq!(bool::from(Direction::Read), true);
    assert_eq!(bool::from(Direction::Write), false);
    assert_eq!(Direction::from(true), Direction::Read);
    assert_eq!(Direction::from(false), Direction::Write);
}
