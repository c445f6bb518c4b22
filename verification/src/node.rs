//! The CANopen node of the firmware: what it does with a received frame.

use vstd::prelude::*;
use crate::can::{message_code, CANFrame, CANOpenFrame, CANOpenMessage, FrameId};
use crate::dictionary_access::{object_write_defined, process_sdo_request, same_dictionary, sdo_effect};
use crate::persistent_dictionary::{ObjectDictionaryStorage, PersistentStoreObjectDictionary};
use crate::sdo::{parse_sdo_request, sdo_request_of};
use crate::state::{nmt_command, nmt_received, nmt_transition, DriverState};

verus! {

/// What the node does with a received frame.
pub enum CanOutcome {
    /// The frame asks nothing of the node.
    Ignored,
    /// The frame was applied to the node; nothing is sent.
    Handled,
    /// The frame is answered with this frame.
    Reply(CANFrame),
    /// A sync or a received PDO, which the caller handles.
    Forwarded(CANOpenMessage),
}

/// Whether a message is one that the caller handles.
pub open spec fn forwarded(m: CANOpenMessage) -> bool {
    m is Sync || m is RxPDO1 || m is RxPDO2 || m is RxPDO3 || m is RxPDO4
}

/// The frames that the node handles without failing: an NMT node control data frame
/// of two bytes, which requests no reset, and an SDO request with eight data bytes,
/// whose download writes at least one byte to an axis entry that takes one.
pub open spec fn frame_defined(id: u8, frame: CANFrame) -> bool {
    match frame.spec_parse_id() {
        Some(CANOpenMessage::NMTNodeControl) => {
            &&& frame.spec_dlc() == 2 ==> frame.spec_data() is Some
            &&& !(nmt_command(id, frame.spec_dlc(), frame.spec_data()) matches Some(r) && (r
                is ResetNode || r is ResetCommunication))
        },
        Some(CANOpenMessage::RxSDO) => frame.spec_dlc() == 8 ==> (frame.spec_data() is Some
            && sdo_download_defined(frame.spec_data().unwrap())),
        _ => true,
    }
}

/// An SDO download in the data bytes writes at least one byte to an axis entry that
/// takes one.
pub open spec fn sdo_download_defined(data: Seq<u8>) -> bool {
    match sdo_request_of(data) {
        Some((ccs, i, s, d, l)) => ccs == 1 ==> object_write_defined(i, s, d.take(l)),
        None => true,
    }
}

/// The node and the storage are as they were.
pub open spec fn node_unchanged<S: ObjectDictionaryStorage>(
    before: DriverState<PersistentStoreObjectDictionary>,
    after: DriverState<PersistentStoreObjectDictionary>,
    st_before: S,
    st_after: S,
) -> bool {
    &&& after.spec_nmt_state() == before.spec_nmt_state()
    &&& after.speed_command_counter() == before.speed_command_counter()
    &&& same_dictionary(before.dictionary(), after.dictionary())
    &&& st_after == st_before
}

/// Processes a frame received by the node `id`: an NMT node control message changes
/// the NMT state; an expedited SDO request is applied to the dictionary and answered
/// by the device's SDO response; a sync or a received PDO is passed to the caller;
/// every other frame is ignored.
pub fn process_can_frame<S: ObjectDictionaryStorage>(
    id: u8,
    frame: &CANFrame,
    state: &mut DriverState<PersistentStoreObjectDictionary>,
    storage: &mut S,
) -> (outcome: CanOutcome)
    requires
        frame_defined(id, *frame),
    ensures
        match frame.spec_parse_id() {
            Some(CANOpenMessage::NMTNodeControl) => {
                &&& outcome is Handled
                &&& final(state).spec_nmt_state() == nmt_transition(
                    old(state).spec_nmt_state(),
                    nmt_command(id, frame.spec_dlc(), frame.spec_data()),
                )
                &&& final(state).speed_command_counter() == old(state).speed_command_counter()
                &&& same_dictionary(old(state).dictionary(), final(state).dictionary())
                &&& *final(storage) == *old(storage)
            },
            Some(CANOpenMessage::RxSDO) => if frame.spec_dlc() == 8 && sdo_request_of(
                frame.spec_data().unwrap(),
            ) is Some {
                let (ccs, i, s, d, l) = sdo_request_of(frame.spec_data().unwrap()).unwrap();
                &&& outcome matches CanOutcome::Reply(f) && f.spec_id() == FrameId::Standard(
                    message_code(CANOpenMessage::TxSDO) | id as u16,
                ) && f.spec_dlc() == 8 && sdo_effect(
                    ccs == 1,
                    i,
                    s,
                    d.take(l),
                    old(state).dictionary(),
                    final(state).dictionary(),
                    *old(storage),
                    *final(storage),
                    f.spec_data().unwrap(),
                )
                &&& final(state).spec_nmt_state() == old(state).spec_nmt_state()
                &&& final(state).speed_command_counter() == old(state).speed_command_counter()
            } else {
                &&& outcome is Ignored
                &&& node_unchanged(*old(state), *final(state), *old(storage), *final(storage))
            },
            Some(m) => if forwarded(m) {
                &&& outcome == CanOutcome::Forwarded(m)
                &&& node_unchanged(*old(state), *final(state), *old(storage), *final(storage))
            } else {
                &&& outcome is Ignored
                &&& node_unchanged(*old(state), *final(state), *old(storage), *final(storage))
            },
            None => {
                &&& outcome is Ignored
                &&& node_unchanged(*old(state), *final(state), *old(storage), *final(storage))
            },
        },
{
    let message = match frame.parse_id() {
        Some(m) => m,
        None => {
            return CanOutcome::Ignored;
        },
    };
    match message {
        CANOpenMessage::NMTNodeControl => {
            nmt_received(id, frame, state);
            CanOutcome::Handled
        },
        CANOpenMessage::Sync => CanOutcome::Forwarded(message),
        CANOpenMessage::RxPDO1 => CanOutcome::Forwarded(message),
        CANOpenMessage::RxPDO2 => CanOutcome::Forwarded(message),
        CANOpenMessage::RxPDO3 => CanOutcome::Forwarded(message),
        CANOpenMessage::RxPDO4 => CanOutcome::Forwarded(message),
        CANOpenMessage::RxSDO => {
            match parse_sdo_request(frame) {
                Some(request) => {
                    let response = process_sdo_request(request, state.object_dictionary(), storage);
                    CanOutcome::Reply(CANOpenMessage::TxSDO.frame(id, response.as_slice()))
                },
                None => CanOutcome::Ignored,
            }
        },
        _ => CanOutcome::Ignored,
    }
}

} // verus!
