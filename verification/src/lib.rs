//! Verified core of the SM4 dual-channel stepper motor controller: the CANopen
//! vocabulary shared by the firmware and the host tools, the USB framing protocol,
//! the flash-backed key/value storage and the protocol state machines of the firmware.

pub mod canopen;
pub mod encoder;
pub mod hal;
pub mod object_dictionary;
pub mod crc;
pub mod usb_protocol;
pub mod eeprom;
pub mod can;
pub mod state;
pub mod sdo;
pub mod device;
pub mod i2c;
pub mod i2c_protocol;
pub mod persistent_dictionary;
pub mod dictionary_access;
pub mod node;
pub mod timing;
pub mod serial;
