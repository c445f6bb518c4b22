//! Expedited SDO transfers: the requests that the firmware answers and its responses.

use vstd::prelude::*;
use crate::canopen::le_u16;
use crate::can::CANFrame;

verus! {

/// An expedited SDO request.
#[derive(Copy, Clone, Debug, PartialEq, Eq)]
pub enum SDORequest {
    /// Initiate download: write the first `length` of the data bytes to the entry
    /// `index`/`subindex`.
    Download(u16, u8, [u8; 4], usize),
    /// Initiate upload: read the entry `index`/`subindex`.
    Upload(u16, u8),
}

/// The client command specifier of an SDO command byte.
pub open spec fn command_specifier(command: u8) -> u8 {
    (command & 0xe0) >> 5
}

/// The number of data bytes that an expedited SDO command byte announces.
pub open spec fn expedited_length(command: u8) -> int {
    4 - ((command & 0x0c) >> 2)
}

/// Whether the command byte marks an expedited transfer with the size indicated.
pub open spec fn expedited_with_size(command: u8) -> bool {
    (command & 0x02) > 0 && (command & 0x01) > 0
}

/// The request that eight SDO data bytes carry: an expedited transfer with the size
/// indicated, whose command specifier is 1 (download) or 2 (upload).
pub open spec fn sdo_request_of(d: Seq<u8>) -> Option<(u8, u16, u8, Seq<u8>, int)> {
    let command = d[0];
    if !expedited_with_size(command) {
        None
    } else if command_specifier(command) == 1 || command_specifier(command) == 2 {
        Some((command_specifier(command), le_u16(d[1], d[2]), d[3], d.subrange(4, 8), expedited_length(command)))
    } else {
        None
    }
}

/// Parses an expedited SDO request from a frame with eight data bytes. Frames of
/// another length, transfers that are not expedited with the size indicated, and other
/// command specifiers give `None`.
pub fn parse_sdo_request(frame: &CANFrame) -> (r: Option<SDORequest>)
    requires
        frame.spec_dlc() == 8 ==> frame.spec_data() is Some,
    ensures
        frame.spec_dlc() != 8 ==> r is None,
        frame.spec_dlc() == 8 ==> match sdo_request_of(frame.spec_data().unwrap()) {
            None => r is None,
            Some((ccs, index, subindex, data, length)) => if ccs == 1 {
                r matches Some(SDORequest::Download(i, s, d, l)) && i == index && s == subindex
                    && d@ == data && l == length
            } else {
                r == Some(SDORequest::Upload(index, subindex))
            },
        },
{
    if frame.dlc() != 8 {
        return None;
    }
    let data = match frame.data() {
        Some(d) => d,
        None => {
            return None;
        },
    };
    let command = data[0];
    let ccs = (command & 0xe0) >> 5;
    assert((command & 0x0c) >> 2 <= 3) by (bit_vector);
    let length = (4 - ((command & 0x0c) >> 2)) as usize;
    let expedited = (command & 0x02) > 0;
    let size_in_command = (command & 0x01) > 0;
    if !(expedited && size_in_command) {
        return None;
    }
    let index = data[1] as u16 + (data[2] as u16) * 256;
    let subindex = data[3];
    if ccs == 1 {
        let raw_data: [u8; 4] = [data[4], data[5], data[6], data[7]];
        Some(SDORequest::Download(index, subindex, raw_data, length))
    } else if ccs == 2 {
        Some(SDORequest::Upload(index, subindex))
    } else {
        None
    }
}

/// The data bytes of the response to a download: command `0x60`, the low byte of
/// the index, the byte `(index & 0x00ff) >> 8`, the subindex, and four zero bytes.
pub open spec fn download_response(index: u16, subindex: u8) -> Seq<u8> {
    seq![0x60u8, (index & 0xff) as u8, ((index & 0x00ff) >> 8) as u8, subindex, 0u8, 0u8, 0u8, 0u8]
}

/// The data bytes of the response to an upload: command `0x40`, the low byte of the
/// index, the byte `(index & 0x00ff) >> 8`, the subindex, and the four bytes read.
pub open spec fn upload_response(index: u16, subindex: u8, data: Seq<u8>) -> Seq<u8> {
    seq![0x40u8, (index & 0xff) as u8, ((index & 0x00ff) >> 8) as u8, subindex] + data
}

/// The data bytes with which the device confirms a download.
pub fn sdo_download_response(index: u16, subindex: u8) -> (r: [u8; 8])
    ensures
        r@ == download_response(index, subindex),
{
    let r: [u8; 8] = [
        0b011_0_00_00,
        (index & 0xff) as u8,
        ((index & 0x00ff) >> 8) as u8,
        subindex,
        0,
        0,
        0,
        0,
    ];
    r
}

/// The data bytes with which the device answers an upload with the four bytes read.
pub fn sdo_upload_response(index: u16, subindex: u8, data: [u8; 4]) -> (r: [u8; 8])
    ensures
        r@ == upload_response(index, subindex, data@),
{
    let r: [u8; 8] = [
        0b010_0_00_00,
        (index & 0xff) as u8,
        ((index & 0x00ff) >> 8) as u8,
        subindex,
        data[0],
        data[1],
        data[2],
        data[3],
    ];
    r
}

/// The byte after the low byte of the index in a response is always zero: the shift
/// moves the bits of the masked low byte out.
pub proof fn lemma_response_index_high_byte_zero(index: u16)
    ensures
        ((index & 0x00ff) >> 8) as u8 == 0,
{
    assert(((index & 0x00ff) >> 8) == 0) by (bit_vector);
}

/// An expedited request with the size indicated carries between one and four data
/// bytes: four minus the number of unused bytes that bits 2 and 3 of the command byte
/// hold. A command byte whose bits 2 and 3 are clear (such as 0x23) carries four.
pub proof fn lemma_expedited_length(d: Seq<u8>)
    requires
        d.len() == 8,
    ensures
        sdo_request_of(d) matches Some((ccs, i, s, data, l)) ==> {
            &&& 1 <= l <= 4
            &&& l + ((d[0] >> 2u8) & 3u8) == 4
            &&& data == d.subrange(4, 8)
        },
{
    let c = d[0];
    assert((c & 0x0c) >> 2u8 == (c >> 2u8) & 3u8 && (c >> 2u8) & 3u8 <= 3) by (bit_vector);
}

} // verus!
