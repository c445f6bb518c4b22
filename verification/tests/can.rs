use sm4::can::{CANFrame, CANOpenFrame, CANOpenMessage, FrameId};
use sm4::canopen::{NMTRequestedState, NMTState};
use sm4::device::{CANOpenDevice, PDO};
use sm4::sdo::{parse_sdo_request, sdo_download_response, sdo_upload_response, SDORequest};
use sm4::state::{heartbeat_frame, nmt_received, DriverState, SPEED_COMMAND_RESET_INTERVAL};

fn data_frame(id: u16, data: &[u8]) -> CANFrame {
    CANFrame::new_data(FrameId::Standard(id), data).unwrap()
}

#[test]
fn message_kinds() {
    assert_eq!(CANOpenMessage::try_from(0x000), Ok(CANOpenMessage::NMTNodeControl));
    assert_eq!(CANOpenMessage::try_from(0x080), Ok(CANOpenMessage::Sync));
    assert_eq!(CANOpenMessage::try_from(0x181), Ok(CANOpenMessage::TxPDO1));
    assert_eq!(CANOpenMessage::try_from(0x27f), Ok(CANOpenMessage::RxPDO1));
    assert_eq!(CANOpenMessage::try_from(0x605), Ok(CANOpenMessage::RxSDO));
    assert_eq!(CANOpenMessage::try_from(0x701), Ok(CANOpenMessage::NMTNodeMonitoring));
    assert_eq!(CANOpenMessage::try_from(0x680), Err(()));
    // the emergency code shares its upper bits with sync
    assert_eq!(CANOpenMessage::try_from(0x081), Ok(CANOpenMessage::Sync));
    assert_eq!(u16::from(&CANOpenMessage::TxSDO), 0x580);
    assert_eq!(u16::from(&CANOpenMessage::GlobalFailsafeCommand), 0x001);
}

#[test]
fn message_ids_with_device() {
    assert_eq!(CANOpenMessage::Sync.message_id_with_device(0x05), 0x080);
    assert_eq!(CANOpenMessage::NMTNodeControl.message_id_with_device(0x05), 0x000);
    assert_eq!(CANOpenMessage::TxPDO2.message_id_with_device(0x05), 0x285);
    assert_eq!(CANOpenMessage::NMTNodeMonitoring.message_id_with_device(0x7f), 0x77f);
    assert_eq!(CANOpenMessage::Emergency.message_id_with_device(0x7f), 0x0ff);
    let id = CANOpenMessage::RxPDO3.message_id_with_device(0x12);
    assert_eq!(data_frame(id, &[]).parse_id(), Some(CANOpenMessage::RxPDO3));
}

#[test]
fn frames() {
    assert!(CANFrame::new_data(FrameId::Standard(1), &[0; 9]).is_none());
    assert!(CANFrame::new_remote(FrameId::Standard(1), 9).is_none());
    let remote = CANFrame::new_remote(FrameId::Standard(0x181), 4).unwrap();
    assert_eq!(remote.dlc(), 4);
    assert_eq!(remote.data(), None);
    assert_eq!(remote.parse_id(), Some(CANOpenMessage::TxPDO1));
    let extended = CANFrame::new_data(FrameId::Extended(0x181), &[1]).unwrap();
    assert_eq!(extended.parse_id(), None);
    assert_eq!(extended.id(), FrameId::Extended(0x181));
    assert_eq!(data_frame(0x681, &[]).parse_id(), None);
}

#[test]
fn nmt_node_control() {
    let mut state = DriverState::new(());
    assert_eq!(state.nmt_state(), NMTState::BootUp);
    state.go_to_preoperational_if_needed();
    assert_eq!(state.nmt_state(), NMTState::PreOperational);
    nmt_received(0x05, &data_frame(0x000, &[0x01, 0x05]), &mut state);
    assert_eq!(state.nmt_state(), NMTState::Operational);
    // frames for other nodes, of the wrong length or with unknown requests are ignored
    nmt_received(0x05, &data_frame(0x000, &[0x02, 0x06]), &mut state);
    nmt_received(0x05, &data_frame(0x000, &[0x02, 0x05, 0x00]), &mut state);
    nmt_received(0x05, &data_frame(0x000, &[0x03, 0x05]), &mut state);
    assert_eq!(state.nmt_state(), NMTState::Operational);
    nmt_received(0x05, &data_frame(0x000, &[0x02, 0x05]), &mut state);
    assert_eq!(state.nmt_state(), NMTState::Stopped);
    nmt_received(0x05, &data_frame(0x000, &[0x80, 0x05]), &mut state);
    assert_eq!(state.nmt_state(), NMTState::PreOperational);
    state.go_to_preoperational_if_needed();
    assert_eq!(state.nmt_state(), NMTState::PreOperational);
}

#[test]
fn failsafe_blocks_movement() {
    let mut state = DriverState::new(0u32);
    state.go_to_operational();
    assert!(state.is_movement_blocked());
    state.invalidate_last_received_speed_command_counter();
    assert!(!state.is_movement_blocked());
    for _ in 0..SPEED_COMMAND_RESET_INTERVAL - 1 {
        state.decrement_last_received_speed_command_counter();
        assert!(!state.is_movement_blocked());
    }
    state.decrement_last_received_speed_command_counter();
    assert!(state.is_movement_blocked());
    state.decrement_last_received_speed_command_counter();
    assert!(state.is_movement_blocked());
    state.invalidate_last_received_speed_command_counter();
    state.go_to_stopped();
    assert!(state.is_movement_blocked());
    *state.object_dictionary() = 7;
    assert_eq!(*state.object_dictionary(), 7);
}

#[test]
fn sdo_requests() {
    // expedited download of two bytes to 0x6103/0x02
    let frame = data_frame(0x605, &[0b001_0_10_11, 0x03, 0x61, 0x02, 0xaa, 0xbb, 0xcc, 0xdd]);
    assert_eq!(
        parse_sdo_request(&frame),
        Some(SDORequest::Download(0x6103, 0x02, [0xaa, 0xbb, 0xcc, 0xdd], 2))
    );
    // expedited upload
    let frame = data_frame(0x605, &[0b010_0_00_11, 0x01, 0x00, 0x02, 0, 0, 0, 0]);
    assert_eq!(parse_sdo_request(&frame), Some(SDORequest::Upload(0x0001, 0x02)));
    // not expedited, wrong specifier, wrong length
    assert_eq!(parse_sdo_request(&data_frame(0x605, &[0b001_0_00_01, 0, 0, 0, 0, 0, 0, 0])), None);
    assert_eq!(parse_sdo_request(&data_frame(0x605, &[0b011_0_00_11, 0, 0, 0, 0, 0, 0, 0])), None);
    assert_eq!(parse_sdo_request(&data_frame(0x605, &[0b010_0_00_11, 0, 0, 0])), None);
}

#[test]
fn sdo_responses() {
    assert_eq!(sdo_download_response(0x6103, 0x02), [0x60, 0x03, 0x00, 0x02, 0, 0, 0, 0]);
    assert_eq!(
        sdo_upload_response(0x6103, 0x02, [1, 2, 3, 4]),
        [0x40, 0x03, 0x00, 0x02, 1, 2, 3, 4]
    );
}

#[test]
fn first_generation_device() {
    let mut device = CANOpenDevice::new(0x05);
    assert_eq!(
        device.process_frame(&data_frame(0x000, &[0x01, 0x05])),
        Ok(Some(NMTRequestedState::Operational))
    );
    assert_eq!(device.process_frame(&data_frame(0x000, &[0x01, 0x06])), Ok(None));
    assert_eq!(device.process_frame(&data_frame(0x000, &[0x07, 0x05])), Ok(None));
    assert_eq!(device.process_frame(&data_frame(0x080, &[])), Err(()));
    let extended = CANFrame::new_data(FrameId::Extended(0), &[0x01, 0x05]).unwrap();
    assert_eq!(device.process_frame(&extended), Ok(None));
    assert_eq!(PDO::PDO2.tx_id(), 0x280);
    assert_eq!(PDO::PDO2.rx_id(), 0x300);
    assert_eq!(PDO::from_rx(0x300), Ok(PDO::PDO2));
    assert_eq!(PDO::from_rx(0x301), Err(()));
}

#[test]
fn message_frames() {
    let frame = CANOpenMessage::TxSDO.frame(0x05, &sdo_download_response(0x6103, 0x02));
    assert_eq!(frame.id(), FrameId::Standard(0x585));
    assert_eq!(frame.dlc(), 8);
    assert_eq!(frame.data(), Some(&[0x60, 0x03, 0x00, 0x02, 0, 0, 0, 0][..]));
    let frame = CANOpenMessage::Sync.frame(0x05, &[]);
    assert_eq!(frame.id(), FrameId::Standard(0x080));
    assert_eq!(frame.dlc(), 0);
}

#[test]
fn heartbeat() {
    let mut state = DriverState::new(());
    let frame = heartbeat_frame(0x05, &state);
    assert_eq!(frame.id(), FrameId::Standard(0x705));
    assert_eq!(frame.data(), Some(&[0x00][..]));
    state.go_to_operational();
    assert_eq!(heartbeat_frame(0x05, &state).data(), Some(&[0x05][..]));
    state.go_to_preoperational();
    assert_eq!(heartbeat_frame(0x7f, &state).data(), Some(&[0x7f][..]));
    assert_eq!(heartbeat_frame(0x7f, &state).id(), FrameId::Standard(0x77f));
}
