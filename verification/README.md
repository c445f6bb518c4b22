# sm4

The verified core of the SM4, a dual-channel stepper motor controller, and of the
tools that talk to it. The library states each function's behaviour as a Verus
contract and proves it.

## Layout

- `src/` — the verified library:
  - `node`: what the firmware's CANopen node does with a received frame.
  - `canopen`, `can`, `device`, `state`, `sdo`: the CANopen vocabulary (NMT states,
    PDO identifiers, the status PDO), CAN frames and message identifiers, the NMT
    state machine of the driver with its speed-command failsafe, and expedited SDO
    requests and responses.
  - `object_dictionary`, `persistent_dictionary`, `dictionary_access`: the keys of the
    object dictionary, the entries of each axis (the settings that are loaded from and
    saved to the device's storage, and the mode, enable flag, velocities and
    positions), and reading and writing entries by index and subindex as SDO
    transfers and the USB protocol do.
  - `eeprom`: a key/value store emulated in two flash sectors, over a model of the
    flash memory.
  - `usb_protocol`, `crc`: the framing protocol of the USB serial port and its CRC-8.
  - `i2c`, `i2c_protocol`: the I2C slave state machine and the data of its registers.
  - `serial`, `timing`, `encoder`, `hal`: UART configuration, task periods, the
    direction of rotation, and hardware abstractions.
- `tests/` — tests of the library on concrete values.
- `app/` — what stays outside the verified library: the floating-point control code
  (PSD controller, trapezoidal ramp, dual-axis driver) and conversions between raw
  values and physical quantities.

Floats appear in the library only as their bit patterns; the arithmetic on them lives
in `app/`.
