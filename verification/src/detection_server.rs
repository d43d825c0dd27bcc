use crate::client_request::ClientRequest;
use crate::detect_gesture_dummy::determine_gesture_dummy;
use crate::direction_result::DirectionResult;
use crate::generic_gesture_type::GenericGestureType;
use crate::gesture_detection::GestureDetection;
use crate::packed_result::{
    GestureOutcome, BOOMERANG_BITWISE_OFFSET, CIRCLE_BITWISE_OFFSET, CLICK_INDEX_BITWISE_OFFSET,
    ERROR_BITWISE_OFFSET, HOLD_BITWISE_OFFSET, SWIPE_BITWISE_OFFSET,
};
use crate::rotation_direction::RotationDirection;
use crate::server_state::ServerState;
use crate::shared_memory::{GestureDetectionIPC, IpcRecord};
use vstd::arithmetic::power2::*;
use vstd::prelude::*;

verus! {

/// What the worker's driver has to do after the worker has looked at the
/// record once.
#[derive(Debug, Clone, Copy, PartialEq, Eq, Structural)]
pub enum ServerSignal {
    /// A request was carried out. The worker looks at the record again.
    Continue,
    /// There was nothing to carry out: no request, or one that the worker's
    /// state does not allow. The driver comes back later.
    Idle,
    /// A halt was carried out. The worker has to end, with the ordinal of the
    /// state in which the halt found it.
    Exit(i32),
    /// The record had been retired before. The worker has to end at once.
    NotAlive,
}

impl IpcRecord {
    /// Whether the worker carries out the request that the record holds:
    /// only while it lives, and only in the state that the request needs.
    pub open spec fn accepts_request(self) -> bool {
        self.is_alive && match self.client_request {
            ClientRequest::Uninitialized => false,
            ClientRequest::Ping => self.server_state == ServerState::WaitingForCommand,
            ClientRequest::Begin => self.server_state == ServerState::WaitingForCommand,
            ClientRequest::Detect => self.server_state == ServerState::WaitingForArgs,
            ClientRequest::ClearAcknowledgement => self.server_state
                == ServerState::DetectionComplete || self.server_state
                == ServerState::PingAcknowledged,
            ClientRequest::Halt => true,
        }
    }

    /// The record after the worker has looked at it once, where a detection
    /// finds `outcome`. A request that is not accepted changes nothing.
    pub open spec fn after_request(self, outcome: GestureOutcome) -> IpcRecord {
        if !self.accepts_request() {
            self
        } else {
            match self.client_request {
                ClientRequest::Uninitialized => self,
                ClientRequest::Ping => IpcRecord {
                    server_state: ServerState::PingAcknowledged,
                    ..self
                },
                ClientRequest::Begin => IpcRecord {
                    server_state: ServerState::WaitingForCommand,
                    points: Seq::empty(),
                    ..self
                },
                ClientRequest::Detect => self.after_detection(outcome),
                ClientRequest::ClearAcknowledgement => IpcRecord {
                    server_state: ServerState::WaitingForCommand,
                    ..self
                },
                ClientRequest::Halt => IpcRecord {
                    server_state: ServerState::Exited,
                    is_alive: false,
                    ..self
                },
            }
        }
    }

    /// The record after a detection that found `outcome`: the packed outcome
    /// is the result, and the detection is complete.
    pub open spec fn after_detection(self, outcome: GestureOutcome) -> IpcRecord {
        IpcRecord {
            server_state: ServerState::DetectionComplete,
            result: outcome.spec_pack() as int,
            ..self
        }
    }

    /// The record after the requester has written a request into it.
    pub open spec fn with_request(self, request: ClientRequest) -> IpcRecord {
        IpcRecord { client_request: request, ..self }
    }

    /// The record after a run in which the requester writes each of
    /// `requests` in turn and the worker looks at the record once after each
    /// of them, where every detection finds `outcome`.
    pub open spec fn after_requests(
        self,
        requests: Seq<ClientRequest>,
        outcome: GestureOutcome,
    ) -> IpcRecord
        decreases requests.len(),
    {
        if requests.len() == 0 {
            self
        } else {
            self.with_request(requests[0]).after_request(outcome).after_requests(
                requests.skip(1),
                outcome,
            )
        }
    }

    /// What the driver is told after the worker has looked at the record.
    pub open spec fn signal(self) -> ServerSignal {
        if !self.is_alive {
            ServerSignal::NotAlive
        } else if !self.accepts_request() {
            ServerSignal::Idle
        } else if self.client_request == ClientRequest::Halt {
            ServerSignal::Exit(self.server_state.spec_ordinal() as i32)
        } else {
            ServerSignal::Continue
        }
    }
}

/// While the worker waits for a command it accepts a ping, a begin and a
/// halt, and no other request.
pub proof fn lemma_accepted_while_waiting_for_command(record: IpcRecord)
    requires
        record.is_alive,
        record.server_state == ServerState::WaitingForCommand,
    ensures
        record.accepts_request() <==> record.client_request == ClientRequest::Ping
            || record.client_request == ClientRequest::Begin || record.client_request
            == ClientRequest::Halt,
{
}

/// A request that the worker's state does not allow changes nothing: a ping
/// or a begin unless the worker waits for a command, a detect unless it waits
/// for arguments, a clearing unless a detection is complete or a ping is
/// acknowledged. The driver is told that there was nothing to do.
pub proof fn lemma_request_in_wrong_state_changes_nothing(
    record: IpcRecord,
    outcome: GestureOutcome,
)
    requires
        record.is_alive,
        match record.client_request {
            ClientRequest::Uninitialized => true,
            ClientRequest::Ping => record.server_state != ServerState::WaitingForCommand,
            ClientRequest::Begin => record.server_state != ServerState::WaitingForCommand,
            ClientRequest::Detect => record.server_state != ServerState::WaitingForArgs,
            ClientRequest::ClearAcknowledgement => record.server_state
                != ServerState::DetectionComplete && record.server_state
                != ServerState::PingAcknowledged,
            ClientRequest::Halt => false,
        },
    ensures
        record.after_request(outcome) == record,
        record.signal() == ServerSignal::Idle,
{
}

/// What an accepted request does to the worker's state, and that it leaves
/// the request in the record: a ping is acknowledged, a begin and a clearing
/// lead to waiting for a command, a detection is completed, a halt leads to
/// the exit.
pub proof fn lemma_accepted_request_moves_state(record: IpcRecord, outcome: GestureOutcome)
    requires
        record.accepts_request(),
    ensures
        record.after_request(outcome).client_request == record.client_request,
        record.after_request(outcome).server_state == match record.client_request {
            ClientRequest::Ping => ServerState::PingAcknowledged,
            ClientRequest::Begin => ServerState::WaitingForCommand,
            ClientRequest::Detect => ServerState::DetectionComplete,
            ClientRequest::ClearAcknowledgement => ServerState::WaitingForCommand,
            ClientRequest::Halt => ServerState::Exited,
            ClientRequest::Uninitialized => record.server_state,
        },
        record.after_request(outcome).is_alive == (record.client_request != ClientRequest::Halt),
        record.client_request == ClientRequest::Detect ==> record.after_request(outcome).result
            == outcome.spec_pack(),
        record.client_request == ClientRequest::Begin ==> record.after_request(
            outcome,
        ).points.len() == 0,
{
}

/// A request is carried out once: when the worker looks at the record again
/// before the requester has written another request, nothing changes any
/// more.
pub proof fn lemma_request_is_carried_out_once(
    record: IpcRecord,
    outcome: GestureOutcome,
    next_outcome: GestureOutcome,
)
    ensures
        record.after_request(outcome).after_request(next_outcome) == record.after_request(
            outcome,
        ),
{
    let after = record.after_request(outcome);
    if record.accepts_request() && record.client_request == ClientRequest::Begin {
        assert(after.after_request(next_outcome).points =~= after.points);
    }
}

/// A detection that is taken up and completed in two steps leaves the record
/// as a detection in one step does.
pub proof fn lemma_detection_in_two_steps(record: IpcRecord, outcome: GestureOutcome)
    requires
        record.accepts_request(),
        record.client_request == ClientRequest::Detect,
    ensures
        (IpcRecord { server_state: ServerState::DetectingGesture, ..record }).after_detection(
            outcome,
        ) == record.after_request(outcome),
{
}

/// Once the record is retired, no request of any kind changes it, and the
/// worker's driver is told so.
pub proof fn lemma_retired_record_never_changes(
    record: IpcRecord,
    request: ClientRequest,
    outcome: GestureOutcome,
)
    requires
        !record.is_alive,
    ensures
        record.with_request(request).after_request(outcome) == record.with_request(request),
        record.with_request(request).signal() == ServerSignal::NotAlive,
{
}

/// Once the record is retired, a run of requests of any length and kind
/// leaves it as it was, but for the request that the requester wrote last.
pub proof fn lemma_retired_record_ignores_every_run(
    record: IpcRecord,
    requests: Seq<ClientRequest>,
    outcome: GestureOutcome,
)
    requires
        !record.is_alive,
    ensures
        record.after_requests(requests, outcome) == if requests.len() == 0 {
            record
        } else {
            record.with_request(requests.last())
        },
    decreases requests.len(),
{
    if requests.len() > 0 {
        let next = record.with_request(requests[0]);
        let rest = requests.skip(1);
        lemma_retired_record_ignores_every_run(next, rest, outcome);
        if rest.len() > 0 {
            assert(rest.last() == requests.last());
        }
    }
}

/// The worker lives as long as it has not exited: where that holds of a
/// record, it holds after whatever request the worker finds in it.
pub proof fn lemma_alive_until_exited(record: IpcRecord, outcome: GestureOutcome)
    requires
        record.is_alive <==> record.server_state != ServerState::Exited,
    ensures
        record.after_request(outcome).is_alive <==> record.after_request(outcome).server_state
            != ServerState::Exited,
{
}

/// A halt is accepted in every state of a living worker and retires the
/// record, so that nothing changes it afterwards.
pub proof fn lemma_halt_retires_record(
    record: IpcRecord,
    outcome: GestureOutcome,
    next_request: ClientRequest,
    next_outcome: GestureOutcome,
)
    requires
        record.is_alive,
        record.client_request == ClientRequest::Halt,
    ensures
        !record.after_request(outcome).is_alive,
        record.after_request(outcome).server_state == ServerState::Exited,
        record.signal() == ServerSignal::Exit(record.server_state.spec_ordinal() as i32),
        record.after_request(outcome).with_request(next_request).after_request(next_outcome)
            == record.after_request(outcome).with_request(next_request),
{
}

/// The packed result of a gesture type that needs a compass direction: the
/// bit at `base` plus the direction's ordinal, or the error bit where the
/// classifier gave no compass direction.
pub open spec fn spec_directional_offset(maybe_direction: Option<DirectionResult>, base: nat) -> nat {
    match maybe_direction {
        Some(DirectionResult::Drag(direction)) => pow2((direction.spec_ordinal() + base) as nat),
        _ => pow2(ERROR_BITWISE_OFFSET as nat),
    }
}

/// The worker's side of the protocol. Each function acts on the record while
/// the caller holds it exclusively.
pub struct GestureDetectionServer {}

impl GestureDetectionServer {
    /// Puts the worker into a state, whatever state it was in.
    pub fn set_server_state(ipc: &mut GestureDetectionIPC, new_server_state: ServerState)
        ensures
            final(ipc)@ == (IpcRecord { server_state: new_server_state, ..old(ipc)@ }),
    {
        ipc.set_server_state(new_server_state);
    }

    /// Two to the power of `exponent`.
    pub fn int_pow2(exponent: u32) -> (r: u32)
        requires
            exponent < 32,
        ensures
            r == pow2(exponent as nat),
    {
        GestureDetectionIPC::int_pow2(exponent)
    }

    /// The packed result of a gesture type that needs a compass direction
    /// and whose bits begin at `i`.
    pub fn directional_offset_for(maybe_direction: Option<DirectionResult>, i: u32) -> (r: u32)
        requires
            i <= 24,
        ensures
            r == spec_directional_offset(maybe_direction, i as nat),
    {
        match maybe_direction {
            None => Self::int_pow2(ERROR_BITWISE_OFFSET),
            Some(direction_result) => match direction_result {
                DirectionResult::Drag(direction) => Self::int_pow2(direction.java_ordinal() + i),
                _ => Self::int_pow2(ERROR_BITWISE_OFFSET),
            },
        }
    }

    /// The packed result of what a classifier found.
    pub fn packed_result(
        generic_gesture_type: GenericGestureType,
        maybe_direction: Option<DirectionResult>,
    ) -> (r: u32)
        ensures
            r == GestureOutcome::spec_from_classification(
                generic_gesture_type,
                maybe_direction,
            ).spec_pack(),
    {
        match generic_gesture_type {
            GenericGestureType::Click => Self::int_pow2(CLICK_INDEX_BITWISE_OFFSET),
            GenericGestureType::Hold => Self::int_pow2(HOLD_BITWISE_OFFSET),
            GenericGestureType::Boomerang => Self::directional_offset_for(
                maybe_direction,
                BOOMERANG_BITWISE_OFFSET,
            ),
            GenericGestureType::Swipe => Self::directional_offset_for(
                maybe_direction,
                SWIPE_BITWISE_OFFSET,
            ),
            GenericGestureType::Circle => match maybe_direction {
                Some(direction_result) => match direction_result {
                    DirectionResult::Circular(rotation_direction) => match rotation_direction {
                        RotationDirection::Clockwise => Self::int_pow2(CIRCLE_BITWISE_OFFSET),
                        RotationDirection::AntiClockwise => Self::int_pow2(
                            CIRCLE_BITWISE_OFFSET + 1,
                        ),
                    },
                    DirectionResult::Drag(_) => Self::int_pow2(ERROR_BITWISE_OFFSET),
                    DirectionResult::Unknown => Self::int_pow2(ERROR_BITWISE_OFFSET),
                },
                _ => Self::int_pow2(ERROR_BITWISE_OFFSET),
            },
        }
    }

    /// The workspace for a classifier, filled from the record: the duration,
    /// the touch path and the fling direction, with every gesture type still
    /// possible.
    pub fn candidate_set(ipc: &GestureDetectionIPC) -> (r: GestureDetection)
        ensures
            r.duration == ipc@.duration,
            r.touch_points@ == ipc@.points,
            r.fling_direction == ipc@.fling_direction,
            r.direction_result == DirectionResult::Unknown,
            r.possible_gestures == crate::generic_gesture_type::ALL_GESTURE_TYPES_POSSIBLE,
            r.removal_reasons@.len() == 0,
    {
        let memory = ipc.memory();
        let touch_points = memory.points().clone();
        assert(touch_points@ =~= ipc@.points);
        GestureDetection::new(
            memory.duration(),
            touch_points,
            crate::shared_memory::fling_direction_from_code(memory.fling_direction()),
        )
    }

    /// Takes up a detection request for a classifier of the caller's: the
    /// worker is detecting, and the caller gets the workspace for its
    /// classifier. What the classifier finds goes to `complete_detection`.
    /// None, with nothing changed, unless the record holds a detection
    /// request that the worker accepts; `process_server_actions` then deals
    /// with what the record holds.
    pub fn begin_detection(ipc: &mut GestureDetectionIPC) -> (r: Option<GestureDetection>)
        ensures
            r is Some <==> old(ipc)@.accepts_request() && old(ipc)@.client_request
                == ClientRequest::Detect,
            r is None ==> final(ipc)@ == old(ipc)@,
            r matches Some(detection) ==> {
                &&& final(ipc)@ == (IpcRecord {
                    server_state: ServerState::DetectingGesture,
                    ..old(ipc)@
                })
                &&& detection.duration == old(ipc)@.duration
                &&& detection.touch_points@ == old(ipc)@.points
                &&& detection.fling_direction == old(ipc)@.fling_direction
                &&& detection.direction_result == DirectionResult::Unknown
                &&& detection.possible_gestures
                    == crate::generic_gesture_type::ALL_GESTURE_TYPES_POSSIBLE
                &&& detection.removal_reasons@.len() == 0
            },
    {
        let memory = ipc.memory();
        if memory.is_alive() && memory.client_request() == ClientRequest::Detect
            && memory.server_state() == ServerState::WaitingForArgs {
            Self::set_server_state(ipc, ServerState::DetectingGesture);
            Some(Self::candidate_set(ipc))
        } else {
            None
        }
    }

    /// Stores what a classifier found as the packed result and marks the
    /// detection complete. Returns the packed result.
    pub fn complete_detection(
        ipc: &mut GestureDetectionIPC,
        generic_gesture_type: GenericGestureType,
        maybe_direction: Option<DirectionResult>,
    ) -> (r: i64)
        ensures
            final(ipc)@ == old(ipc)@.after_detection(
                GestureOutcome::spec_from_classification(generic_gesture_type, maybe_direction),
            ),
            r == final(ipc)@.result,
    {
        let result = Self::packed_result(generic_gesture_type, maybe_direction);
        ipc.set_result(result as i64);
        ipc.set_server_state(ServerState::DetectionComplete);
        ipc.memory().result()
    }

    /// Runs a detection on what the record holds, with the stand-in
    /// classifier: the worker is detecting, then the detection is complete
    /// and the result is a click.
    pub fn detect_gesture(ipc: &mut GestureDetectionIPC) -> (r: i64)
        ensures
            final(ipc)@ == old(ipc)@.after_detection(GestureOutcome::Click),
            r == 1,
    {
        Self::set_server_state(ipc, ServerState::DetectingGesture);
        let mut detection = Self::candidate_set(ipc);
        let mut touch_points = detection.touch_points.clone();
        let (generic_gesture_type, maybe_direction) = determine_gesture_dummy(
            &mut touch_points,
            &mut detection,
        );
        proof {
            lemma2_to64();
        }
        Self::complete_detection(ipc, generic_gesture_type, maybe_direction)
    }

    /// Looks at the record once, as the worker: carries out the request that
    /// the record holds if the worker lives and its state allows the
    /// request, and changes nothing otherwise. A detection runs with the
    /// stand-in classifier.
    pub fn process_server_actions(ipc: &mut GestureDetectionIPC) -> (signal: ServerSignal)
        ensures
            final(ipc)@ == old(ipc)@.after_request(GestureOutcome::Click),
            signal == old(ipc)@.signal(),
    {
        if !ipc.memory().is_alive() {
            return ServerSignal::NotAlive;
        }
        let request = ipc.memory().client_request();
        let server_state = ipc.memory().server_state();
        match request {
            ClientRequest::Ping => {
                if server_state != ServerState::WaitingForCommand {
                    return ServerSignal::Idle;
                }
                Self::set_server_state(ipc, ServerState::PingAcknowledged);
                ServerSignal::Continue
            },
            ClientRequest::Begin => {
                if server_state != ServerState::WaitingForCommand {
                    return ServerSignal::Idle;
                }
                ipc.set_points(Vec::new());
                Self::set_server_state(ipc, ServerState::WaitingForCommand);
                ServerSignal::Continue
            },
            ClientRequest::Detect => {
                if server_state != ServerState::WaitingForArgs {
                    return ServerSignal::Idle;
                }
                Self::set_server_state(ipc, ServerState::DetectingGesture);
                Self::detect_gesture(ipc);
                Self::set_server_state(ipc, ServerState::DetectionComplete);
                ServerSignal::Continue
            },
            ClientRequest::Halt => {
                let last_server_state = server_state.java_ordinal() as i32;
                Self::set_server_state(ipc, ServerState::Exited);
                ipc.set_alive(false);
                ServerSignal::Exit(last_server_state)
            },
            ClientRequest::ClearAcknowledgement => {
                if server_state != ServerState::DetectionComplete && server_state
                    != ServerState::PingAcknowledged {
                    return ServerSignal::Idle;
                }
                Self::set_server_state(ipc, ServerState::WaitingForCommand);
                ServerSignal::Continue
            },
            ClientRequest::Uninitialized => ServerSignal::Idle,
        }
    }
}

} // verus!
