//! The state of the driver that the CANopen protocol drives: the NMT state machine and
//! the failsafe that blocks movement when no speed command arrives in time.

use vstd::prelude::*;
use crate::canopen::{NMTRequestedState, NMTState, nmt_requested_state_of};
use crate::can::{CANFrame, CANOpenMessage, FrameId};
use crate::canopen::nmt_state_code;
use crate::object_dictionary::Axis;
use crate::persistent_dictionary::PersistentStoreObjectDictionary;

verus! {

/// The number of failsafe timer ticks for which a received speed command stays valid.
pub const SPEED_COMMAND_RESET_INTERVAL: u8 = 10;

/// The counter after one failsafe tick: it counts down to zero and stays there.
pub open spec fn ticked(counter: u8) -> u8 {
    if counter == 0 {
        0
    } else {
        (counter - 1) as u8
    }
}

/// The counter after `n` failsafe ticks.
pub open spec fn after_ticks(counter: u8, n: nat) -> u8
    decreases n,
{
    if n == 0 {
        counter
    } else {
        ticked(after_ticks(counter, (n - 1) as nat))
    }
}

/// Movement is blocked unless the node is operational and a speed command is still valid.
pub open spec fn movement_blocked(nmt_state: NMTState, counter: u8) -> bool {
    nmt_state != NMTState::Operational || counter == 0
}

/// The requested state that an NMT node control frame carries for the node `id`: the
/// frame must have two data bytes, the second of which is the node id.
pub open spec fn nmt_command(id: u8, dlc: u8, data: Option<Seq<u8>>) -> Option<NMTRequestedState> {
    match data {
        Some(d) => if dlc == 2 && d[1] == id {
            nmt_requested_state_of(d[0])
        } else {
            None
        },
        None => None,
    }
}

/// The NMT state after a requested state is applied; a missing request keeps the state.
pub open spec fn nmt_transition(state: NMTState, request: Option<NMTRequestedState>) -> NMTState {
    match request {
        Some(NMTRequestedState::Operational) => NMTState::Operational,
        Some(NMTRequestedState::Stopped) => NMTState::Stopped,
        Some(NMTRequestedState::PreOperational) => NMTState::PreOperational,
        _ => state,
    }
}

/// The state of the driver: its NMT state, its object dictionary and the countdown of
/// the last received speed command.
pub struct DriverState<OD> {
    nmt_state: NMTState,
    object_dictionary: OD,
    last_received_speed_command_down_counter: u8,
}

impl<OD> DriverState<OD> {
    /// The NMT state.
    pub closed spec fn spec_nmt_state(&self) -> NMTState {
        self.nmt_state
    }

    /// The countdown of the last received speed command.
    pub closed spec fn speed_command_counter(&self) -> u8 {
        self.last_received_speed_command_down_counter
    }

    /// The object dictionary.
    pub closed spec fn dictionary(&self) -> OD {
        self.object_dictionary
    }

    /// A fresh state: booting up, with no valid speed command.
    pub fn new(object_dictionary: OD) -> (s: Self)
        ensures
            s.spec_nmt_state() == NMTState::BootUp,
            s.speed_command_counter() == 0,
            s.dictionary() == object_dictionary,
    {
        DriverState {
            nmt_state: NMTState::default(),
            object_dictionary,
            last_received_speed_command_down_counter: 0,
        }
    }

    /// The NMT state.
    pub fn nmt_state(&self) -> (s: NMTState)
        ensures
            s == self.spec_nmt_state(),
    {
        self.nmt_state
    }

    /// Leaves the boot-up state for the pre-operational state; any other state is kept.
    pub fn go_to_preoperational_if_needed(&mut self)
        ensures
            final(self).spec_nmt_state() == (if old(self).spec_nmt_state() == NMTState::BootUp {
                NMTState::PreOperational
            } else {
                old(self).spec_nmt_state()
            }),
            final(self).speed_command_counter() == old(self).speed_command_counter(),
            final(self).dictionary() == old(self).dictionary(),
    {
        if self.nmt_state == NMTState::BootUp {
            self.nmt_state = NMTState::PreOperational;
        }
    }

    /// Enters the operational state.
    pub fn go_to_operational(&mut self)
        ensures
            final(self).spec_nmt_state() == NMTState::Operational,
            final(self).speed_command_counter() == old(self).speed_command_counter(),
            final(self).dictionary() == old(self).dictionary(),
    {
        self.nmt_state = NMTState::Operational;
    }

    /// Enters the stopped state.
    pub fn go_to_stopped(&mut self)
        ensures
            final(self).spec_nmt_state() == NMTState::Stopped,
            final(self).speed_command_counter() == old(self).speed_command_counter(),
            final(self).dictionary() == old(self).dictionary(),
    {
        self.nmt_state = NMTState::Stopped;
    }

    /// Enters the pre-operational state.
    pub fn go_to_preoperational(&mut self)
        ensures
            final(self).spec_nmt_state() == NMTState::PreOperational,
            final(self).speed_command_counter() == old(self).speed_command_counter(),
            final(self).dictionary() == old(self).dictionary(),
    {
        self.nmt_state = NMTState::PreOperational;
    }

    /// Whether movement is blocked: the node is not operational, or no speed command
    /// is valid any more.
    pub fn is_movement_blocked(&self) -> (b: bool)
        ensures
            b == movement_blocked(self.spec_nmt_state(), self.speed_command_counter()),
    {
        self.nmt_state != NMTState::Operational || self.last_received_speed_command_down_counter == 0
    }

    /// Counts one failsafe tick off the validity of the last speed command.
    pub fn decrement_last_received_speed_command_counter(&mut self)
        ensures
            final(self).speed_command_counter() == ticked(old(self).speed_command_counter()),
            final(self).spec_nmt_state() == old(self).spec_nmt_state(),
            final(self).dictionary() == old(self).dictionary(),
    {
        if self.last_received_speed_command_down_counter != 0 {
            self.last_received_speed_command_down_counter = self.last_received_speed_command_down_counter
                - 1;
        }
    }

    /// Records that a speed command arrived: it stays valid for the reset interval.
    pub fn invalidate_last_received_speed_command_counter(&mut self)
        ensures
            final(self).speed_command_counter() == SPEED_COMMAND_RESET_INTERVAL,
            final(self).spec_nmt_state() == old(self).spec_nmt_state(),
            final(self).dictionary() == old(self).dictionary(),
    {
        self.last_received_speed_command_down_counter = SPEED_COMMAND_RESET_INTERVAL;
    }

    /// The object dictionary, for reading and changing it.
    pub fn object_dictionary(&mut self) -> (od: &mut OD)
        ensures
            *od == old(self).dictionary(),
            final(self).dictionary() == *final(od),
            final(self).spec_nmt_state() == old(self).spec_nmt_state(),
            final(self).speed_command_counter() == old(self).speed_command_counter(),
    {
        &mut self.object_dictionary
    }
}

/// Applies an NMT node control frame addressed to the node `id`: a frame with two data
/// bytes whose second byte is the node id requests the state that its first byte names.
/// Malformed frames, frames for other nodes and unknown requests change nothing.
pub fn nmt_received<OD>(id: u8, frame: &CANFrame, state: &mut DriverState<OD>)
    requires
        frame.spec_dlc() == 2 ==> frame.spec_data() is Some,
        !(nmt_command(id, frame.spec_dlc(), frame.spec_data()) matches Some(r) && (r
            is ResetNode || r is ResetCommunication)),
    ensures
        final(state).spec_nmt_state() == nmt_transition(
            old(state).spec_nmt_state(),
            nmt_command(id, frame.spec_dlc(), frame.spec_data()),
        ),
        final(state).speed_command_counter() == old(state).speed_command_counter(),
        final(state).dictionary() == old(state).dictionary(),
{
    if frame.dlc() != 2 {
        return;
    }
    let data = match frame.data() {
        Some(d) => d,
        None => {
            return;
        },
    };
    if data[1] != id {
        return;
    }
    match NMTRequestedState::try_from(data[0]) {
        Ok(nmt_state) => match nmt_state {
            NMTRequestedState::Operational => {
                state.go_to_operational();
            },
            NMTRequestedState::Stopped => {
                state.go_to_stopped();
            },
            NMTRequestedState::PreOperational => {
                state.go_to_preoperational();
            },
            NMTRequestedState::ResetNode => {},
            NMTRequestedState::ResetCommunication => {},
        },
        Err(_) => {},
    }
}

/// The heartbeat of the node `device_id`: the NMT node monitoring message that reports
/// the NMT state by its code.
pub fn heartbeat_frame<OD>(device_id: u8, state: &DriverState<OD>) -> (f: CANFrame)
    ensures
        f.spec_id() == FrameId::Standard((0x700u16 | device_id as u16) as u16),
        f.spec_data() == Some(seq![nmt_state_code(state.spec_nmt_state())]),
        f.spec_dlc() == 1,
{
    let code: [u8; 1] = [u8::from(state.nmt_state())];
    CANOpenMessage::NMTNodeMonitoring.frame(device_id, code.as_slice())
}

/// After `n` failsafe ticks the counter has counted down by `n`, to zero at most.
pub proof fn lemma_after_ticks(counter: u8, n: nat)
    ensures
        after_ticks(counter, n) == (if n >= counter {
            0
        } else {
            counter - n
        }),
    decreases n,
{
    if n > 0 {
        lemma_after_ticks(counter, (n - 1) as nat);
    }
}

/// The failsafe: once a speed command has arrived, an operational node may move for
/// fewer than `SPEED_COMMAND_RESET_INTERVAL` failsafe ticks; from then on, movement is
/// blocked until the next speed command.
pub proof fn lemma_failsafe(nmt_state: NMTState, n: nat)
    ensures
        movement_blocked(nmt_state, after_ticks(SPEED_COMMAND_RESET_INTERVAL, n)) <==> (nmt_state
            != NMTState::Operational || n >= SPEED_COMMAND_RESET_INTERVAL),
{
    lemma_after_ticks(SPEED_COMMAND_RESET_INTERVAL, n);
}

/// Leaving the boot-up state is idempotent and never leaves another state.
pub proof fn lemma_preoperational_if_needed(state: NMTState)
    ensures
        ({
            let once = if state == NMTState::BootUp {
                NMTState::PreOperational
            } else {
                state
            };
            &&& once != NMTState::BootUp
            &&& (if once == NMTState::BootUp {
                NMTState::PreOperational
            } else {
                once
            }) == once
            &&& state != NMTState::BootUp ==> once == state
        }),
{
}

/// The velocity that an axis is driven with: zero while movement is blocked or the
/// axis is disabled, its target velocity otherwise.
pub open spec fn gated_velocity(blocked: bool, enabled: bool, target: u32) -> u32 {
    if blocked || !enabled {
        0
    } else {
        target
    }
}

impl DriverState<PersistentStoreObjectDictionary> {
    /// The velocity that the first axis is driven with: its target velocity, whether or
    /// not movement is blocked or the axis is enabled (the gating is not applied to it).
    pub fn axis1_target_velocity(&self) -> (v: u32)
        ensures
            v == self.dictionary().spec_runtime(Axis::Axis1).target_velocity,
    {
        self.object_dictionary.axis(Axis::Axis1).target_velocity()
    }

    /// The velocity that the second axis is driven with: zero while movement is blocked
    /// or the axis is disabled, its target velocity otherwise.
    pub fn axis2_target_velocity(&self) -> (v: u32)
        ensures
            v == gated_velocity(
                movement_blocked(self.spec_nmt_state(), self.speed_command_counter()),
                self.dictionary().spec_runtime(Axis::Axis2).enabled,
                self.dictionary().spec_runtime(Axis::Axis2).target_velocity,
            ),
    {
        if self.is_movement_blocked() || !self.object_dictionary.axis(Axis::Axis2).enabled() {
            0
        } else {
            self.object_dictionary.axis(Axis::Axis2).target_velocity()
        }
    }
}

/// The host's answer to a reported NMT state: a node that is not operational is asked
/// to go to the operational state.
pub open spec fn host_nmt_request(reported: NMTState) -> Option<NMTRequestedState> {
    if reported == NMTState::Operational {
        None
    } else {
        Some(NMTRequestedState::Operational)
    }
}

/// The command frame by which the host answers the NMT state that the node `id`
/// reports: the NMT node control message with the command "go to operational" and the
/// node id, or no frame when the node is operational.
pub fn host_nmt_reply(id: u8, reported: NMTState) -> (f: Option<CANFrame>)
    ensures
        (f is Some) == (host_nmt_request(reported) is Some),
        f matches Some(frame) ==> frame.spec_id() == FrameId::Standard(0u16) && frame.spec_dlc() == 2
            && frame.spec_data() == Some(seq![0x01u8, id]),
{
    if reported == NMTState::Operational {
        return None;
    }
    let data: [u8; 2] = [0x01, id];
    Some(CANOpenMessage::NMTNodeControl.frame(id, data.as_slice()))
}

/// An NMT node control frame of two bytes addressed to the node sets the state that
/// its command byte requests, whatever the state was before: 0x01 starts the node
/// (operational), 0x02 stops it, 0x80 makes it pre-operational. A frame for another
/// node, or with another length, changes nothing.
pub proof fn lemma_nmt_command_sets_state(prior: NMTState, id: u8, command: u8, target: u8, dlc: u8, rest: Seq<u8>)
    ensures
        ({
            let data = seq![command, target] + rest;
            let after = nmt_transition(prior, nmt_command(id, dlc, Some(data)));
            &&& (dlc == 2 && target == id && command == 0x01) ==> after == NMTState::Operational
            &&& (dlc == 2 && target == id && command == 0x02) ==> after == NMTState::Stopped
            &&& (dlc == 2 && target == id && command == 0x80) ==> after == NMTState::PreOperational
            &&& (dlc != 2 || target != id) ==> after == prior
        }),
{
    let data = seq![command, target] + rest;
    assert(data[0] == command && data[1] == target);
}

/// Whether the node ends in a requested state does not depend on where it started:
/// two nodes in any states that get the same recognised start, stop or pre-operational
/// command end in the same state.
pub proof fn lemma_nmt_result_independent_of_prior(a: NMTState, b: NMTState, request: NMTRequestedState)
    requires
        request is Operational || request is Stopped || request is PreOperational,
    ensures
        nmt_transition(a, Some(request)) == nmt_transition(b, Some(request)),
{
}

} // verus!
