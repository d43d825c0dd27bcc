use crate::client_request::ClientRequest;
use crate::direction::Direction;
use crate::point::Point;
use crate::server_state::ServerState;
use crate::shared_memory::{
    fling_direction_from_code, spec_fling_direction_from_code, GestureDetectionIPC, IpcRecord,
    POINT_ARRAY_SIZE,
};
use vstd::prelude::*;

verus! {

/// How long the requester sleeps between two looks at the worker's state, in
/// microseconds.
pub const POLL_INTERVAL_MICROS: u64 = 100;

/// How long the requester waits for the worker, in whole milliseconds. The
/// wait is given up once more than that many have gone by.
pub const TIMEOUT_MILLIS: u128 = 40;

/// What a wait returns that was given up, and what a wait for the worker's
/// exit returns.
pub const TIMEOUT_SENTINEL: i64 = -1;

/// What the requester's driver has to do next during a wait.
#[derive(Debug, Clone, Copy, PartialEq, Eq, Structural)]
pub enum WaitStep {
    /// Look at the record again.
    Poll,
    /// Sleep for this many microseconds, then read the clock.
    Sleep(u64),
    /// The wait is over, with this value.
    Finished(i64),
}

/// A wait of the requester for the worker to reach a state.
#[derive(Debug, Clone, Copy, PartialEq, Eq, Structural)]
pub struct BlockingWait {
    /// The state that is waited for.
    pub desired_server_state: ServerState,
}

/// What a wait returns that found the worker in the state it waited for: the
/// packed result after a detection, -1 after the worker's exit, and the
/// ordinal of the state otherwise.
pub open spec fn spec_reached_value(record: IpcRecord, desired: ServerState) -> int {
    match desired {
        ServerState::Exited => -1,
        ServerState::DetectionComplete => record.result,
        _ => desired.spec_ordinal(),
    }
}

/// Whether a wait is given up at a reading of the clock: when more than the
/// timeout has gone by since the wait began, counted in whole milliseconds.
pub open spec fn spec_timed_out(elapsed_micros: int) -> bool {
    elapsed_micros / 1000 > TIMEOUT_MILLIS
}

/// The fling direction that a detection request leaves in the record: with
/// two points or more, the direction of the angle of the path's last
/// segment; with fewer, what the caller gave.
pub open spec fn spec_requested_fling_direction(
    fling_direction: int,
    points: Seq<Point>,
    fling_angle: u64,
) -> Option<Direction> {
    if points.len() >= 2 {
        Some(Direction::spec_direction_from_alpha(fling_angle))
    } else {
        spec_fling_direction_from_code(fling_direction)
    }
}

/// The last segment of a touch path: its last point, and the point before
/// that. None for a path of fewer than two points.
pub open spec fn spec_last_segment(points: Seq<Point>) -> Option<(Point, Point)> {
    if points.len() >= 2 {
        Some((points[points.len() - 1], points[points.len() - 2]))
    } else {
        None
    }
}

/// One round of a wait: what a look at the record finds, and what the clock
/// shows after the sleep that follows the look.
pub struct WaitRound {
    pub record: IpcRecord,
    pub elapsed_micros: int,
}

impl BlockingWait {
    /// The step after a look at the record.
    pub open spec fn spec_poll(self, record: IpcRecord) -> WaitStep {
        if record.server_state == self.desired_server_state {
            WaitStep::Finished(spec_reached_value(record, self.desired_server_state) as i64)
        } else {
            WaitStep::Sleep(POLL_INTERVAL_MICROS)
        }
    }

    /// The step after a sleep, at a reading of the clock.
    pub open spec fn spec_after_sleep(self, elapsed_micros: int) -> WaitStep {
        if spec_timed_out(elapsed_micros) {
            WaitStep::Finished(TIMEOUT_SENTINEL)
        } else {
            WaitStep::Poll
        }
    }

    /// The value with which a round ends the wait, if it ends it: the look
    /// finds the state that is waited for, or the clock shows that the
    /// timeout has gone by.
    pub open spec fn spec_round(self, round: WaitRound) -> Option<i64> {
        match self.spec_poll(round.record) {
            WaitStep::Finished(value) => Some(value),
            _ => match self.spec_after_sleep(round.elapsed_micros) {
                WaitStep::Finished(value) => Some(value),
                _ => None,
            },
        }
    }

    /// The value with which a wait ends that goes through `rounds`: that of
    /// the first round that ends it. None where no round ends it.
    pub open spec fn spec_outcome(self, rounds: Seq<WaitRound>) -> Option<i64>
        decreases rounds.len(),
    {
        if rounds.len() == 0 {
            None
        } else {
            match self.spec_round(rounds[0]) {
                Some(value) => Some(value),
                None => self.spec_outcome(rounds.skip(1)),
            }
        }
    }

    /// A wait for a state that the worker does not reach ends with -1, and
    /// it ends as soon as the clock shows that the timeout has gone by.
    pub proof fn lemma_unreached_state_times_out(self, rounds: Seq<WaitRound>)
        requires
            forall|i: int|
                0 <= i < rounds.len() ==> (#[trigger] rounds[i]).record.server_state
                    != self.desired_server_state,
        ensures
            self.spec_outcome(rounds) == if exists|i: int|
                0 <= i < rounds.len() && spec_timed_out((#[trigger] rounds[i]).elapsed_micros) {
                Some(TIMEOUT_SENTINEL)
            } else {
                None
            },
        decreases rounds.len(),
    {
        if rounds.len() > 0 {
            let rest = rounds.skip(1);
            assert forall|i: int| 0 <= i < rest.len() implies (#[trigger] rest[i]).record.server_state
                != self.desired_server_state by {
                assert(rest[i] == rounds[i + 1]);
            }
            self.lemma_unreached_state_times_out(rest);
            if spec_timed_out(rounds[0].elapsed_micros) {
            } else if exists|i: int|
                0 <= i < rounds.len() && spec_timed_out((#[trigger] rounds[i]).elapsed_micros) {
                let i = choose|i: int|
                    0 <= i < rounds.len() && spec_timed_out((#[trigger] rounds[i]).elapsed_micros);
                assert(rest[i - 1] == rounds[i]);
            } else {
                assert forall|i: int| 0 <= i < rest.len() implies !spec_timed_out(
                    (#[trigger] rest[i]).elapsed_micros,
                ) by {
                    assert(rest[i] == rounds[i + 1]);
                }
            }
        }
    }

    /// A wait is given up within the timeout and one poll interval, where
    /// no round takes longer than the poll interval. The timeout is counted
    /// in whole milliseconds, so it has gone by when its last millisecond
    /// has: the clock reading at which the wait is given up lies less than
    /// one poll interval beyond that.
    pub proof fn lemma_timeout_is_bounded(self, rounds: Seq<WaitRound>, last: int)
        requires
            0 <= last < rounds.len(),
            rounds[0].elapsed_micros <= POLL_INTERVAL_MICROS,
            forall|i: int|
                0 < i <= last ==> (#[trigger] rounds[i]).elapsed_micros <= rounds[i
                    - 1].elapsed_micros + POLL_INTERVAL_MICROS,
            forall|i: int| 0 <= i < last ==> self.spec_round(#[trigger] rounds[i]) is None,
            spec_timed_out(rounds[last].elapsed_micros),
        ensures
            rounds[last].elapsed_micros < (TIMEOUT_MILLIS + 1) * 1000 + POLL_INTERVAL_MICROS,
    {
        if last > 0 {
            assert(self.spec_round(rounds[last - 1]) is None);
        }
    }

    /// Looks at the record: the wait is over if the worker is in the state
    /// that is waited for, and goes on with a sleep otherwise. The record is
    /// left as it is.
    pub fn poll(&self, ipc: &GestureDetectionIPC) -> (r: WaitStep)
        ensures
            r == self.spec_poll(ipc@),
    {
        let memory = ipc.memory();
        if memory.server_state() == self.desired_server_state {
            match self.desired_server_state {
                ServerState::Exited => WaitStep::Finished(TIMEOUT_SENTINEL),
                ServerState::DetectionComplete => WaitStep::Finished(memory.result()),
                _ => WaitStep::Finished(self.desired_server_state.java_ordinal()),
            }
        } else {
            WaitStep::Sleep(POLL_INTERVAL_MICROS)
        }
    }

    /// Reads the clock after a sleep: `elapsed_micros` microseconds have
    /// gone by since the wait began. The wait is given up with -1 once the
    /// timeout has gone by, and goes on with a look at the record otherwise.
    pub fn after_sleep(&self, elapsed_micros: u128) -> (r: WaitStep)
        ensures
            r == self.spec_after_sleep(elapsed_micros as int),
    {
        if elapsed_micros / 1000 > TIMEOUT_MILLIS {
            WaitStep::Finished(TIMEOUT_SENTINEL)
        } else {
            WaitStep::Poll
        }
    }
}

/// The requester's side of the protocol. Each function acts on the record
/// while the caller holds it exclusively, and returns at once: where the
/// requester has to wait for the worker, the function hands back the wait,
/// and the caller sleeps and looks again as the wait tells it.
pub struct CompositeGestureDetectionClient {}

impl CompositeGestureDetectionClient {
    /// Whether the worker lives, by the record's liveness flag. The answer
    /// is current after a ping has been waited for.
    pub fn is_alive(ipc: &GestureDetectionIPC) -> (r: bool)
        ensures
            r == ipc@.is_alive,
    {
        ipc.memory().is_alive()
    }

    /// The last segment of a touch path: its last point, and the point
    /// before that. None for a path of fewer than two points.
    pub fn last_segment(points: &Vec<Point>) -> (r: Option<(Point, Point)>)
        ensures
            r == spec_last_segment(points@),
    {
        if points.len() > 1 {
            Some((points[points.len() - 1], points[points.len() - 2]))
        } else {
            None
        }
    }

    /// Asks for a detection. Writes the touch path, its duration and the
    /// fling direction into the record, all in one step, then requests the
    /// detection and hands back the wait for its completion.
    ///
    /// `fling_angle` is the angle at which the last point of the path lies
    /// from the point before it, the two points of `last_segment`, as an
    /// angle pattern. It is read where there are two points or more, and
    /// then decides the fling direction in place of `fling_direction`.
    pub fn detect(
        ipc: &mut GestureDetectionIPC,
        duration: i128,
        fling_direction: i64,
        points: Vec<Point>,
        fling_angle: u64,
    ) -> (wait: BlockingWait)
        requires
            points@.len() <= POINT_ARRAY_SIZE,
        ensures
            final(ipc)@ == (IpcRecord {
                points: points@,
                duration: duration as int,
                fling_direction: spec_requested_fling_direction(
                    fling_direction as int,
                    points@,
                    fling_angle,
                ),
                client_request: ClientRequest::Detect,
                ..old(ipc)@
            }),
            wait.desired_server_state == ServerState::DetectionComplete,
    {
        let fling = if points.len() > 1 {
            Some(Direction::direction_from_alpha(fling_angle))
        } else {
            fling_direction_from_code(fling_direction)
        };
        ipc.set_points(points);
        ipc.set_duration(duration);
        ipc.set_fling_direction(fling);
        Self::block_until(ipc, ClientRequest::Detect, ServerState::DetectionComplete)
    }

    /// Asks the worker for a sign of life, and hands back the wait for it.
    pub fn ping(ipc: &mut GestureDetectionIPC) -> (wait: BlockingWait)
        ensures
            final(ipc)@ == (IpcRecord { client_request: ClientRequest::Ping, ..old(ipc)@ }),
            wait.desired_server_state == ServerState::PingAcknowledged,
    {
        Self::block_until(ipc, ClientRequest::Ping, ServerState::PingAcknowledged)
    }

    /// Asks the worker to begin a detection, and hands back the wait for it
    /// to wait for arguments.
    pub fn acknowledge_begin(ipc: &mut GestureDetectionIPC) -> (wait: BlockingWait)
        ensures
            final(ipc)@ == (IpcRecord { client_request: ClientRequest::Begin, ..old(ipc)@ }),
            wait.desired_server_state == ServerState::WaitingForArgs,
    {
        Self::block_until(ipc, ClientRequest::Begin, ServerState::WaitingForArgs)
    }

    /// Writes a request into the record.
    pub fn set_client_request(ipc: &mut GestureDetectionIPC, request: ClientRequest)
        ensures
            final(ipc)@ == (IpcRecord { client_request: request, ..old(ipc)@ }),
    {
        ipc.set_client_request(request);
    }

    /// Writes a request into the record and hands back the wait for the
    /// worker to reach a state.
    pub fn block_until(
        ipc: &mut GestureDetectionIPC,
        request: ClientRequest,
        desired_server_state: ServerState,
    ) -> (wait: BlockingWait)
        ensures
            final(ipc)@ == (IpcRecord { client_request: request, ..old(ipc)@ }),
            wait.desired_server_state == desired_server_state,
    {
        Self::set_client_request(ipc, request);
        BlockingWait { desired_server_state }
    }
}

} // verus!
