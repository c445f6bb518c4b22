use sm4::usb_protocol::{USBMessage, USBProtocolConsumer};

fn crc(data: &[u8]) -> u8 {
    let mut crc = crc_all::Crc::<u8>::new(0x31, 8, 0xff, 0x00, false);
    crc.update(data);
    crc.finish()
}

#[test]
fn copy_within() {
    let mut buffer = vec![0, 0, 0, 1, 2, 3];
    sm4::usb_protocol::copy_within(&mut buffer, 3);
    assert_eq!(buffer, vec![1, 2, 3, 1, 2, 3]);
}

#[test]
fn not_enough_data() {
    let mut consumer = USBProtocolConsumer::new(
        vec![0x55, 0x20, 0x00, 0x20, 0x00, 0x00, 0x00, 0x00, 0x00, 0x00],
        4,
    );

    assert!(consumer.process_data() == None)
}

#[test]
fn request() {
    let mut buffer = vec![0x55, 0x20, 0x00, 0x20, 0x00, 0x00, 0x00, 0x00, 0x00, 0x00];
    buffer[5] = crc(&buffer[..5]);
    let mut consumer = USBProtocolConsumer::new(buffer, 6);

    assert!(consumer.process_data() == Some(USBMessage::Request(0x2000, 0x00)))
}

#[test]
fn transfer() {
    let mut buffer = vec![0x55, 0x21, 0x00, 0x20, 0x00, 0x02, 0x01, 0x02, 0x00, 0x00];
    buffer[8] = crc(&buffer[..8]);
    let mut consumer = USBProtocolConsumer::new(buffer, 9);

    assert!(
        consumer.process_data() == Some(USBMessage::Transfer(0x2000, 0x00, 2, [0x01, 0x02, 0, 0]))
    )
}

#[test]
fn consumed_frame_clears_the_buffer() {
    let mut buffer = vec![0x55, 0x20, 0x34, 0x12, 0x07, 0x00, 0x00, 0x00];
    buffer[5] = crc(&buffer[..5]);
    let mut consumer = USBProtocolConsumer::new(buffer, 6);
    assert_eq!(consumer.process_data(), Some(USBMessage::Request(0x1234, 0x07)));
    assert_eq!(consumer.buffer(), &[0u8; 8][..]);
    assert_eq!(consumer.buffer_index(), 0);
    assert_eq!(consumer.max_length(), 8);
}

#[test]
fn wrong_checksum_keeps_the_bytes() {
    let mut buffer = vec![0x55, 0x20, 0x00, 0x20, 0x00, 0x00, 0x00, 0x00];
    buffer[5] = crc(&buffer[..5]) ^ 0x01;
    let kept = buffer.clone();
    let mut consumer = USBProtocolConsumer::new(buffer, 6);
    assert_eq!(consumer.process_data(), None);
    assert_eq!(consumer.buffer(), &kept[..]);
    assert_eq!(consumer.buffer_index(), 6);
}

#[test]
fn incomplete_transfer_waits_for_more_bytes() {
    let mut buffer = vec![0x55, 0x21, 0x00, 0x20, 0x00, 0x04, 0x01, 0x02, 0x03, 0x04, 0x00];
    buffer[10] = crc(&buffer[..10]);
    let mut consumer = USBProtocolConsumer::new(buffer, 9);
    assert_eq!(consumer.process_data(), None);
    assert_eq!(consumer.buffer_index(), 9);
}

#[test]
fn resynchronization_clears_the_buffer() {
    // the buffer does not start with the start byte: it is cleared, and the index moves
    // back by the position of the last start byte
    let mut consumer = USBProtocolConsumer::new(vec![0x01, 0x55, 0x20, 0x00, 0x55, 0x00, 0x00, 0x00], 6);
    assert_eq!(consumer.process_data(), None);
    assert_eq!(consumer.buffer(), &[0u8; 8][..]);
    assert_eq!(consumer.buffer_index(), 2);

    let mut consumer = USBProtocolConsumer::new(vec![0x01, 0x02, 0x03], 3);
    assert_eq!(consumer.process_data(), None);
    assert_eq!(consumer.buffer_index(), 0);
}

#[test]
fn try_process_data_reports_failing_inputs() {
    // an empty buffer
    let mut consumer = USBProtocolConsumer::new(vec![], 0);
    assert_eq!(consumer.try_process_data(), None);
    // the last start byte lies past the valid bytes
    let mut consumer = USBProtocolConsumer::new(vec![0x01, 0x00, 0x55], 1);
    assert_eq!(consumer.try_process_data(), None);
    assert_eq!(consumer.buffer(), &[0x01, 0x00, 0x55][..]);
    assert_eq!(consumer.buffer_index(), 1);
    // a transfer with a valid checksum that announces more than four bytes
    let mut buffer = vec![0x55, 0x21, 0x00, 0x20, 0x00, 0x05, 1, 2, 3, 4, 5, 0];
    buffer[11] = crc(&buffer[..11]);
    let mut consumer = USBProtocolConsumer::new(buffer, 12);
    assert_eq!(consumer.try_process_data(), None);
    assert_eq!(consumer.buffer_index(), 12);
}

#[test]
fn transfer_frame_round_trip() {
    let message = USBMessage::Transfer(0x6103, 0x02, 3, [0xaa, 0xbb, 0xcc, 0xdd]);
    let frame = message.to_frame().unwrap();
    assert_eq!(frame.len(), 10);
    assert_eq!(&frame[..9], &[0x55, 0x21, 0x03, 0x61, 0x02, 0x03, 0xaa, 0xbb, 0xcc][..]);
    assert_eq!(frame[9], crc(&frame[..9]));

    let mut buffer = frame.clone();
    buffer.extend_from_slice(&[0, 0, 0]);
    let mut consumer = USBProtocolConsumer::new(buffer, frame.len());
    assert_eq!(
        consumer.process_data(),
        Some(USBMessage::Transfer(0x6103, 0x02, 3, [0xaa, 0xbb, 0xcc, 0x00]))
    );
}

#[test]
fn requests_have_no_frame() {
    assert_eq!(USBMessage::Request(0x6100, 1).to_frame(), None);
}

#[test]
fn checksum_is_the_crc_8_of_the_header() {
    // CRC-8 with polynomial 0x31 and initial value 0xff over "123456789" is 0xf7
    let message = USBMessage::Transfer(0x3231, 0x33, 0, [0; 4]);
    let frame = message.to_frame().unwrap();
    assert_eq!(frame, vec![0x55, 0x21, 0x31, 0x32, 0x33, 0x00, crc(&[0x55, 0x21, 0x31, 0x32, 0x33, 0x00])]);
    assert_eq!(crc(b"123456789"), 0xf7);
}
