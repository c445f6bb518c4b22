//! The framing protocol spoken over the USB serial port.
//!
//! A frame starts with the byte `0x55`, followed by the frame type (`0x20` for a
//! request, `0x21` for a transfer), the little-endian object dictionary index, the
//! subindex and, for a transfer, the data length and the data. A CRC-8 (polynomial
//! `0x31`, initial value `0xff`) over all preceding bytes closes the frame.

use vstd::prelude::*;
use crate::canopen::le_u16;
use crate::crc::{crc8, crc8_of};

verus! {

/// A message of the USB protocol.
#[derive(Copy, Clone, Debug, PartialEq, Eq)]
pub enum USBMessage {
    /// A request to read an object dictionary entry: index and subindex.
    Request(u16, u8),
    /// A transfer of an object dictionary entry: index, subindex, data length and data.
    Transfer(u16, u8, u8, [u8; 4]),
}

/// The mathematical value of a `USBMessage`.
pub enum USBMessageView {
    Request(u16, u8),
    Transfer(u16, u8, u8, Seq<u8>),
}

impl View for USBMessage {
    type V = USBMessageView;

    open spec fn view(&self) -> USBMessageView {
        match *self {
            USBMessage::Request(index, subindex) => USBMessageView::Request(index, subindex),
            USBMessage::Transfer(index, subindex, length, data) => USBMessageView::Transfer(
                index,
                subindex,
                length,
                data@,
            ),
        }
    }
}

/// The byte that starts every frame.
pub const START_BYTE: u8 = 0x55;
/// The frame type of a request.
pub const REQUEST_TYPE: u8 = 0x20;
/// The frame type of a transfer.
pub const TRANSFER_TYPE: u8 = 0x21;

/// The checksum of the protocol over `data`.
pub open spec fn usb_crc(data: Seq<u8>) -> u8 {
    crc8_of(0x31, 8, 0xff, 0x00, false, data)
}

/// The position of the last start byte in `buf`, if there is one.
pub open spec fn last_start_byte(buf: Seq<u8>) -> Option<int>
    decreases buf.len(),
{
    if buf.len() == 0 {
        None
    } else if buf.last() == START_BYTE {
        Some(buf.len() - 1)
    } else {
        last_start_byte(buf.drop_last())
    }
}

/// The last start byte lies inside the buffer and is a start byte.
proof fn lemma_last_start_byte_bounds(buf: Seq<u8>)
    ensures
        last_start_byte(buf) matches Some(s) ==> 0 <= s < buf.len() && buf[s] == START_BYTE,
    decreases buf.len(),
{
    if buf.len() > 0 && buf.last() != START_BYTE {
        lemma_last_start_byte_bounds(buf.drop_last());
    }
}

/// A sequence of `n` zero bytes.
pub open spec fn zeros(n: nat) -> Seq<u8> {
    Seq::new(n, |i: int| 0u8)
}

/// The buffer and index after resynchronization: a buffer that does not start with
/// the start byte is cleared, and the index is moved back by the position of the last
/// start byte (to zero where there is none).
pub open spec fn synced(buf: Seq<u8>, idx: int) -> (Seq<u8>, int) {
    if buf[0] == START_BYTE {
        (buf, idx)
    } else {
        (
            zeros(buf.len()),
            match last_start_byte(buf) {
                Some(s) => idx - s,
                None => 0,
            },
        )
    }
}

/// The data of a transfer: the `n` bytes after the header, padded with zeros to four bytes.
pub open spec fn transfer_data(b: Seq<u8>, n: int) -> Seq<u8> {
    b.subrange(6, 6 + n) + zeros((4 - n) as nat)
}

/// The inputs on which processing the buffer does not fail: the buffer is not empty,
/// the index does not fall below zero on resynchronization, every byte that is read lies
/// inside the buffer, and a transfer with a valid checksum carries at most four bytes.
pub open spec fn usb_process_defined(buf: Seq<u8>, idx: int) -> bool {
    &&& buf.len() >= 1
    &&& buf[0] != START_BYTE ==> match last_start_byte(buf) {
        Some(s) => s <= idx,
        None => true,
    }
    &&& {
        let (b, i) = synced(buf, idx);
        i > 5 ==> {
            &&& b.len() >= 5
            &&& b[1] == REQUEST_TYPE ==> b.len() >= 6
            &&& b[1] == TRANSFER_TYPE ==> {
                &&& b.len() >= 6
                &&& 7 + b[5] <= i ==> {
                    &&& 7 + b[5] <= b.len()
                    &&& b[6 + b[5]] == usb_crc(b.take(6 + b[5])) ==> b[5] <= 4
                }
            }
        }
    }
}

/// The buffer, the index and the message after processing the received bytes `buf`
/// of which the first `idx` are valid. A complete frame with a valid checksum is
/// consumed (the buffer is cleared and the index reset) and its message returned.
pub open spec fn usb_process(buf: Seq<u8>, idx: int) -> (Seq<u8>, int, Option<USBMessageView>) {
    let (b, i) = synced(buf, idx);
    let cleared = zeros(b.len());
    if i > 5 {
        let index = le_u16(b[2], b[3]);
        let subindex = b[4];
        if b[1] == REQUEST_TYPE {
            if b[5] == usb_crc(b.take(5)) {
                (cleared, 0, Some(USBMessageView::Request(index, subindex)))
            } else {
                (b, i, None)
            }
        } else if b[1] == TRANSFER_TYPE {
            let n = b[5] as int;
            if 7 + n <= i && b[6 + n] == usb_crc(b.take(6 + n)) {
                (
                    cleared,
                    0,
                    Some(USBMessageView::Transfer(index, subindex, b[5], transfer_data(b, n))),
                )
            } else {
                (b, i, None)
            }
        } else {
            (b, i, None)
        }
    } else {
        (b, i, None)
    }
}

/// The view of an optional message.
pub open spec fn message_view(m: Option<USBMessage>) -> Option<USBMessageView> {
    match m {
        Some(m) => Some(m@),
        None => None,
    }
}

/// Copies the bytes from position `start` on to the front of `buffer`; the bytes
/// at the end keep their values.
pub fn copy_within(buffer: &mut Vec<u8>, start: usize)
    requires
        start <= old(buffer).len(),
    ensures
        final(buffer).len() == old(buffer).len(),
        forall|i: int|
            0 <= i < old(buffer).len() - start ==> #[trigger] final(buffer)@[i] == old(buffer)@[i
                + start],
        forall|i: int|
            old(buffer).len() - start <= i < old(buffer).len() ==> #[trigger] final(buffer)@[i]
                == old(buffer)@[i],
{
    let n = buffer.len();
    let ghost before = buffer@;
    let mut k: usize = 0;
    while k < n - start
        invariant
            start <= n,
            n == before.len(),
            buffer.len() == n,
            k <= n - start,
            forall|i: int| 0 <= i < k ==> #[trigger] buffer@[i] == before[i + start],
            forall|i: int| k <= i < n ==> #[trigger] buffer@[i] == before[i],
        decreases n - start - k,
    {
        let v = buffer[k + start];
        buffer.set(k, v);
        k = k + 1;
    }
}

/// Sets every byte of `buffer` to zero.
fn fill_zero(buffer: &mut Vec<u8>)
    ensures
        final(buffer)@ == zeros(old(buffer)@.len()),
{
    let n = buffer.len();
    let mut k: usize = 0;
    while k < n
        invariant
            buffer.len() == n,
            k <= n,
            forall|i: int| 0 <= i < k ==> #[trigger] buffer@[i] == 0u8,
        decreases n - k,
    {
        buffer.set(k, 0);
        k = k + 1;
    }
}

/// Finds the position of the last start byte in `buffer`.
fn find_last_start_byte(buffer: &Vec<u8>) -> (r: Option<usize>)
    ensures
        match r {
            Some(s) => last_start_byte(buffer@) == Some(s as int),
            None => last_start_byte(buffer@) is None,
        },
{
    let mut start: Option<usize> = None;
    let mut k: usize = 0;
    while k < buffer.len()
        invariant
            k <= buffer.len(),
            match start {
                Some(s) => last_start_byte(buffer@.take(k as int)) == Some(s as int),
                None => last_start_byte(buffer@.take(k as int)) is None,
            },
        decreases buffer.len() - k,
    {
        assert(buffer@.take(k + 1).drop_last() =~= buffer@.take(k as int));
        if buffer[k] == START_BYTE {
            start = Some(k);
        }
        k = k + 1;
    }
    assert(buffer@.take(buffer.len() as int) =~= buffer@);
    start
}

/// The receive side of the USB protocol: a buffer of received bytes of which the
/// first `buffer_index` are valid.
pub struct USBProtocolConsumer {
    buffer: Vec<u8>,
    buffer_index: usize,
}

impl USBProtocolConsumer {
    /// The bytes of the receive buffer.
    pub closed spec fn buffer_view(&self) -> Seq<u8> {
        self.buffer@
    }

    /// The number of valid bytes in the receive buffer.
    pub closed spec fn index_view(&self) -> usize {
        self.buffer_index
    }

    /// Makes a consumer over `buffer` of which the first `index` bytes are valid.
    pub fn new(buffer: Vec<u8>, index: usize) -> (c: Self)
        ensures
            c.buffer_view() == buffer@,
            c.index_view() == index,
    {
        USBProtocolConsumer { buffer, buffer_index: index }
    }

    /// The receive buffer.
    pub fn buffer(&self) -> (b: &[u8])
        ensures
            b@ == self.buffer_view(),
    {
        self.buffer.as_slice()
    }

    /// The number of valid bytes in the receive buffer.
    pub fn buffer_index(&self) -> (i: usize)
        ensures
            i == self.index_view(),
    {
        self.buffer_index
    }

    /// The capacity of the receive buffer.
    pub fn max_length(&self) -> (n: usize)
        ensures
            n == self.buffer_view().len(),
    {
        self.buffer.len()
    }

    /// Processes the received bytes as `process_data` does, where that does not fail;
    /// returns `None` and leaves the consumer unchanged where it would.
    pub fn try_process_data(&mut self) -> (r: Option<Option<USBMessage>>)
        ensures
            !usb_process_defined(old(self).buffer_view(), old(self).index_view() as int) ==> {
                &&& r is None
                &&& final(self).buffer_view() == old(self).buffer_view()
                &&& final(self).index_view() == old(self).index_view()
            },
            usb_process_defined(old(self).buffer_view(), old(self).index_view() as int) ==> {
                let (b, i, m) = usb_process(old(self).buffer_view(), old(self).index_view() as int);
                &&& r matches Some(msg) && message_view(msg) == m
                &&& final(self).buffer_view() == b
                &&& final(self).index_view() == i
            },
    {
        let ghost buf0 = self.buffer@;
        let ghost idx0 = self.buffer_index as int;
        if self.buffer.len() == 0 {
            return None;
        }
        // Resynchronize on a buffer that does not start with the start byte.
        let mut b = self.buffer.clone();
        let mut i = self.buffer_index;
        if b[0] != START_BYTE {
            let start = find_last_start_byte(&b);
            proof {
                lemma_last_start_byte_bounds(b@);
            }
            fill_zero(&mut b);
            match start {
                Some(s) => {
                    if s > i {
                        return None;
                    }
                    copy_within(&mut b, s);
                    i = i - s;
                },
                None => {
                    i = 0;
                },
            }
        }
        if i > 5 {
            if b.len() < 5 {
                return None;
            }
            let index = b[2] as u16 + (b[3] as u16) * 256;
            let subindex = b[4];
            if b[1] == REQUEST_TYPE {
                if b.len() < 6 {
                    return None;
                }
                let crc = crc8(0x31, 8, 0xff, 0x00, false, vstd::slice::slice_subrange(b.as_slice(), 0, 5));
                if b[5] == crc {
                    fill_zero(&mut b);
                    self.buffer = b;
                    self.buffer_index = 0;
                    return Some(Some(USBMessage::Request(index, subindex)));
                }
            } else if b[1] == TRANSFER_TYPE {
                if b.len() < 6 {
                    return None;
                }
                let length = b[5] as usize;
                let total_length = 6 + length + 1;
                if i >= total_length {
                    if total_length > b.len() {
                        return None;
                    }
                    let crc = crc8(
                        0x31,
                        8,
                        0xff,
                        0x00,
                        false,
                        vstd::slice::slice_subrange(b.as_slice(), 0, total_length - 1),
                    );
                    if b[total_length - 1] == crc {
                        if length > 4 {
                            return None;
                        }
                        let output_buffer: [u8; 4] = [
                            if length > 0 { b[6] } else { 0 },
                            if length > 1 { b[7] } else { 0 },
                            if length > 2 { b[8] } else { 0 },
                            if length > 3 { b[9] } else { 0 },
                        ];
                        assert(output_buffer@ =~= transfer_data(b@, length as int));
                        fill_zero(&mut b);
                        self.buffer = b;
                        self.buffer_index = 0;
                        return Some(
                            Some(USBMessage::Transfer(index, subindex, length as u8, output_buffer)),
                        );
                    }
                }
            }
        }
        self.buffer = b;
        self.buffer_index = i;
        Some(None)
    }

    /// Takes bytes read from the serial port: a read that does not fit behind the valid
    /// bytes replaces the buffer and resets the index; then the buffer is processed.
    /// Only a read that fills the whole buffer is taken without failing: a shorter read
    /// is copied into a longer part of the buffer, or into the whole buffer.
    pub fn receive(&mut self, data: &[u8]) -> (m: Option<USBMessage>)
        requires
            data@.len() == old(self).buffer_view().len(),
            usb_process_defined(data@, 0),
        ensures
            ({
                let (b, i, v) = usb_process(data@, 0);
                &&& message_view(m) == v
                &&& final(self).buffer_view() == b
                &&& final(self).index_view() == i
            }),
            m is None,
    {
        let count = data.len();
        // a read that fits behind the valid bytes would be copied into the longer rest of
        // the buffer: the precondition leaves it out
        fill_zero(&mut self.buffer);
        self.buffer_index = 0;
        let mut k: usize = 0;
        while k < count
            invariant
                count == data@.len() == self.buffer@.len(),
                self.buffer_index == 0,
                k <= count,
                forall|i: int| 0 <= i < k ==> #[trigger] self.buffer@[i] == data@[i],
            decreases count - k,
        {
            self.buffer.set(k, data[k]);
            k = k + 1;
        }
        assert(self.buffer@ =~= data@);
        self.process_data()
    }

    /// Processes the received bytes. A buffer that does not start with the start byte
    /// is resynchronized first. When the valid bytes hold a complete request or
    /// transfer frame with a valid checksum, the buffer is cleared and the message
    /// is returned; otherwise `None` is returned and the bytes are kept.
    pub fn process_data(&mut self) -> (m: Option<USBMessage>)
        requires
            usb_process_defined(old(self).buffer_view(), old(self).index_view() as int),
        ensures
            ({
                let (b, i, v) = usb_process(old(self).buffer_view(), old(self).index_view() as int);
                &&& message_view(m) == v
                &&& final(self).buffer_view() == b
                &&& final(self).index_view() == i
            }),
    {
        match self.try_process_data() {
            Some(m) => m,
            None => None,
        }
    }
}

/// The header of a frame: start byte, frame type, little-endian index and subindex.
pub open spec fn frame_header(frame_type: u8, index: u16, subindex: u8) -> Seq<u8> {
    seq![START_BYTE, frame_type, (index % 256) as u8, (index / 256) as u8, subindex]
}

/// The frame that carries a request for the entry `index`/`subindex`.
pub open spec fn request_frame(index: u16, subindex: u8) -> Seq<u8> {
    let body = frame_header(REQUEST_TYPE, index, subindex);
    body.push(usb_crc(body))
}

/// The frame that carries a transfer of the first `length` bytes of `data`.
pub open spec fn transfer_frame(index: u16, subindex: u8, length: u8, data: Seq<u8>) -> Seq<u8> {
    let body = frame_header(TRANSFER_TYPE, index, subindex).push(length) + data.take(length as int);
    body.push(usb_crc(body))
}

impl USBMessage {
    /// The frame by which the device sends the message. Only transfers are sent: there
    /// is no frame for a request (`None`). A transfer carries the first `length` bytes
    /// of its data.
    pub fn to_frame(&self) -> (f: Option<Vec<u8>>)
        requires
            self matches USBMessage::Transfer(_, _, length, _) ==> length <= 4,
        ensures
            match *self {
                USBMessage::Request(_, _) => f is None,
                USBMessage::Transfer(index, subindex, length, data) => f matches Some(frame)
                    && frame@ == transfer_frame(index, subindex, length, data@),
            },
    {
        match *self {
            USBMessage::Request(_, _) => None,
            USBMessage::Transfer(index, subindex, length, data) => {
                let mut buffer: Vec<u8> = Vec::new();
                buffer.push(START_BYTE);
                buffer.push(TRANSFER_TYPE);
                buffer.push((index % 256) as u8);
                buffer.push((index / 256) as u8);
                buffer.push(subindex);
                buffer.push(length);
                let mut k: usize = 0;
                while k < length as usize
                    invariant
                        length <= 4,
                        k <= length,
                        buffer@ == frame_header(TRANSFER_TYPE, index, subindex).push(length)
                            + data@.take(k as int),
                    decreases length - k,
                {
                    buffer.push(data[k]);
                    k = k + 1;
                }
                let crc = crc8(0x31, 8, 0xff, 0x00, false, buffer.as_slice());
                buffer.push(crc);
                Some(buffer)
            },
        }
    }
}

/// A request frame at the start of the buffer, with the index past it, is consumed:
/// processing returns the request and clears the buffer.
pub proof fn lemma_request_frame_round_trip(index: u16, subindex: u8, rest: Seq<u8>)
    ensures
        ({
            let buf = request_frame(index, subindex) + rest;
            &&& usb_process_defined(buf, 6)
            &&& usb_process(buf, 6) == (
                zeros(buf.len()),
                0int,
                Some(USBMessageView::Request(index, subindex)),
            )
        }),
{
    let f = request_frame(index, subindex);
    let buf = f + rest;
    assert(buf.take(5) =~= frame_header(REQUEST_TYPE, index, subindex));
}

/// A transfer frame at the start of the buffer, with the index past it, is consumed:
/// processing returns the transfer, whose data are the sent bytes padded with zeros.
pub proof fn lemma_transfer_frame_round_trip(
    index: u16,
    subindex: u8,
    length: u8,
    data: Seq<u8>,
    rest: Seq<u8>,
)
    requires
        length <= 4,
        data.len() == 4,
    ensures
        ({
            let f = transfer_frame(index, subindex, length, data);
            let buf = f + rest;
            &&& usb_process_defined(buf, f.len() as int)
            &&& usb_process(buf, f.len() as int) == (
                zeros(buf.len()),
                0int,
                Some(
                    USBMessageView::Transfer(
                        index,
                        subindex,
                        length,
                        data.take(length as int) + zeros((4 - length) as nat),
                    ),
                ),
            )
        }),
{
    let body = frame_header(TRANSFER_TYPE, index, subindex).push(length) + data.take(length as int);
    let f = transfer_frame(index, subindex, length, data);
    let buf = f + rest;
    let n = length as int;
    assert(buf.take(6 + n) =~= body);
    assert(transfer_data(buf, n) =~= data.take(n) + zeros((4 - n) as nat));
}

/// A decoded message is consumed: whenever processing returns a message, the buffer
/// is all zeros afterwards and the index is zero.
pub proof fn lemma_message_consumes_buffer(buf: Seq<u8>, idx: int)
    ensures
        usb_process(buf, idx).2 is Some ==> usb_process(buf, idx).0 == zeros(buf.len()) && usb_process(
            buf,
            idx,
        ).1 == 0,
{
}

/// A request frame at the start of the buffer is consumed whenever the valid bytes
/// cover it, however many bytes of a next frame follow it.
pub proof fn lemma_request_frame_decoded(index: u16, subindex: u8, rest: Seq<u8>, idx: int)
    requires
        idx >= 6,
    ensures
        ({
            let buf = request_frame(index, subindex) + rest;
            &&& usb_process_defined(buf, idx)
            &&& usb_process(buf, idx) == (
                zeros(buf.len()),
                0int,
                Some(USBMessageView::Request(index, subindex)),
            )
        }),
{
    let f = request_frame(index, subindex);
    let buf = f + rest;
    assert(buf.take(5) =~= frame_header(REQUEST_TYPE, index, subindex));
}

/// A transfer frame at the start of the buffer is consumed whenever the valid bytes
/// cover it, however many bytes of a next frame follow it: processing returns the
/// transfer, whose data are the sent bytes padded with zeros.
pub proof fn lemma_transfer_frame_decoded(
    index: u16,
    subindex: u8,
    length: u8,
    data: Seq<u8>,
    rest: Seq<u8>,
    idx: int,
)
    requires
        length <= 4,
        data.len() == 4,
        idx >= transfer_frame(index, subindex, length, data).len(),
    ensures
        ({
            let buf = transfer_frame(index, subindex, length, data) + rest;
            &&& usb_process_defined(buf, idx)
            &&& usb_process(buf, idx) == (
                zeros(buf.len()),
                0int,
                Some(
                    USBMessageView::Transfer(
                        index,
                        subindex,
                        length,
                        data.take(length as int) + zeros((4 - length) as nat),
                    ),
                ),
            )
        }),
{
    let body = frame_header(TRANSFER_TYPE, index, subindex).push(length) + data.take(length as int);
    let f = transfer_frame(index, subindex, length, data);
    let buf = f + rest;
    let n = length as int;
    assert(buf.take(6 + n) =~= body);
    assert(transfer_data(buf, n) =~= data.take(n) + zeros((4 - n) as nat));
}

} // verus!
