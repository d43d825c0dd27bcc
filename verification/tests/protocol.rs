use gesture_detection::client_request::ClientRequest;
use gesture_detection::detection_client::{
    BlockingWait, CompositeGestureDetectionClient, WaitStep, POLL_INTERVAL_MICROS,
    TIMEOUT_MILLIS, TIMEOUT_SENTINEL,
};
use gesture_detection::detection_server::{GestureDetectionServer, ServerSignal};
use gesture_detection::direction::Direction;
use gesture_detection::direction_result::DirectionResult;
use gesture_detection::generic_gesture_type::GenericGestureType;
use gesture_detection::point::Point;
use gesture_detection::rotation_direction::RotationDirection;
use gesture_detection::server_state::ServerState;
use gesture_detection::shared_memory::{
    fling_direction_from_code, GestureDetectionIPC, GestureDetectionIPCBuffer, IS_ALIVE,
    NOT_ALIVE, NO_FLING_DIRECTION, POINT_ARRAY_SIZE,
};

const STATES: [ServerState; 6] = [
    ServerState::WaitingForCommand,
    ServerState::WaitingForArgs,
    ServerState::DetectingGesture,
    ServerState::PingAcknowledged,
    ServerState::DetectionComplete,
    ServerState::Exited,
];

const REQUESTS: [ClientRequest; 6] = [
    ClientRequest::Uninitialized,
    ClientRequest::Ping,
    ClientRequest::Begin,
    ClientRequest::Detect,
    ClientRequest::ClearAcknowledgement,
    ClientRequest::Halt,
];

fn point(x: f64, y: f64) -> Point {
    Point::new(x.to_bits(), y.to_bits())
}

/// The angle from `start` to `end` in degrees, with the vertical axis turned
/// upside down.
fn angle_from(end: (f64, f64), start: (f64, f64)) -> f64 {
    let dy = -end.1 - -start.1;
    let dx = end.0 - start.0;
    (360.0 + (dy.atan2(dx) * 180.0 / std::f64::consts::PI)) % 360.0
}

fn fresh() -> GestureDetectionIPC {
    GestureDetectionIPC::new(GestureDetectionIPCBuffer::new())
}

fn in_state(state: ServerState, request: ClientRequest) -> GestureDetectionIPC {
    let mut ipc = fresh();
    GestureDetectionServer::set_server_state(&mut ipc, state);
    CompositeGestureDetectionClient::set_client_request(&mut ipc, request);
    ipc
}

/// Goes through a wait as a driver does, with a worker that is looked after
/// by `work` between two looks and a clock that advances by the poll
/// interval with every sleep.
fn drive(
    ipc: &mut GestureDetectionIPC,
    wait: BlockingWait,
    mut work: impl FnMut(&mut GestureDetectionIPC),
) -> (i64, u128) {
    let mut elapsed: u128 = 0;
    loop {
        work(ipc);
        match wait.poll(ipc) {
            WaitStep::Finished(value) => return (value, elapsed),
            WaitStep::Sleep(micros) => elapsed += micros as u128,
            WaitStep::Poll => unreachable!(),
        }
        match wait.after_sleep(elapsed) {
            WaitStep::Finished(value) => return (value, elapsed),
            WaitStep::Poll => {}
            WaitStep::Sleep(_) => unreachable!(),
        }
    }
}

#[test]
fn new_buffer_is_alive_and_waits_for_a_command() {
    let buffer = GestureDetectionIPCBuffer::new();
    assert!(buffer.is_alive());
    assert_eq!(buffer.server_state(), ServerState::WaitingForCommand);
    assert_eq!(buffer.client_request(), ClientRequest::Uninitialized);
    assert_eq!(buffer.duration(), 0);
    assert_eq!(buffer.fling_direction(), -1);
    assert_eq!(buffer.point_array_size(), 0);
    assert!(buffer.points().is_empty());
    assert_eq!(buffer.result(), 0);
    assert_eq!(IS_ALIVE, 1);
    assert_eq!(NOT_ALIVE, 0);
    assert_eq!(NO_FLING_DIRECTION, -1);
    assert_eq!(POINT_ARRAY_SIZE, 508);
    let ipc = GestureDetectionIPC::new(buffer.clone());
    assert_eq!(*ipc.memory(), buffer);
    assert_eq!(ipc.clone(), ipc);
}

#[test]
fn with_buffer_runs_a_procedure_on_the_record() {
    let mut ipc = fresh();
    GestureDetectionServer::complete_detection(&mut ipc, GenericGestureType::Hold, None);
    assert_eq!(ipc.with_buffer(|buffer| buffer.result() + 40), 42);
}

#[test]
fn fling_direction_codes() {
    assert_eq!(fling_direction_from_code(-1), None);
    for direction in Direction::values() {
        assert_eq!(
            fling_direction_from_code(direction.java_ordinal() as i64),
            Some(direction)
        );
    }
    assert_eq!(fling_direction_from_code(8), Some(Direction::East));
    assert_eq!(fling_direction_from_code(-2), Some(Direction::East));
    assert_eq!(fling_direction_from_code(i64::MIN), Some(Direction::East));
}

#[test]
fn detect_with_two_points_returns_a_click() {
    let mut ipc = fresh();

    let begin = CompositeGestureDetectionClient::acknowledge_begin(&mut ipc);
    assert_eq!(begin.desired_server_state, ServerState::WaitingForArgs);
    assert_eq!(GestureDetectionServer::process_server_actions(&mut ipc), ServerSignal::Continue);
    assert_eq!(ipc.memory().server_state(), ServerState::WaitingForCommand);
    GestureDetectionServer::set_server_state(&mut ipc, ServerState::WaitingForArgs);
    assert_eq!(begin.poll(&ipc), WaitStep::Finished(1));

    let angle = angle_from((3.0, 4.0), (1.0, 2.0));
    assert_eq!(angle, 315.0);
    let wait = CompositeGestureDetectionClient::detect(
        &mut ipc,
        1000,
        NO_FLING_DIRECTION,
        vec![point(1.0, 2.0), point(3.0, 4.0)],
        angle.to_bits(),
    );
    assert_eq!(wait.desired_server_state, ServerState::DetectionComplete);
    assert_eq!(ipc.memory().client_request(), ClientRequest::Detect);
    assert_eq!(ipc.memory().duration(), 1000);
    assert_eq!(ipc.memory().point_array_size(), 2);
    assert_eq!(*ipc.memory().points(), vec![point(1.0, 2.0), point(3.0, 4.0)]);
    assert_eq!(ipc.memory().fling_direction(), Direction::Southeast.java_ordinal() as i64);
    assert_eq!(ipc.memory().server_state(), ServerState::WaitingForArgs);
    assert_eq!(wait.poll(&ipc), WaitStep::Sleep(POLL_INTERVAL_MICROS));

    assert_eq!(GestureDetectionServer::process_server_actions(&mut ipc), ServerSignal::Continue);
    assert_eq!(ipc.memory().server_state(), ServerState::DetectionComplete);
    assert_eq!(ipc.memory().result(), 1);
    assert_eq!(wait.poll(&ipc), WaitStep::Finished(1));
    assert_eq!(GestureDetectionServer::process_server_actions(&mut ipc), ServerSignal::Idle);
    assert_eq!(ipc.memory().result(), 1);
}

#[test]
fn detect_while_waiting_for_command_times_out() {
    let mut ipc = fresh();
    let wait = CompositeGestureDetectionClient::detect(
        &mut ipc,
        1000,
        NO_FLING_DIRECTION,
        vec![point(1.0, 2.0), point(3.0, 4.0)],
        315.0f64.to_bits(),
    );
    let requested = ipc.clone();
    assert_eq!(GestureDetectionServer::process_server_actions(&mut ipc), ServerSignal::Idle);
    assert_eq!(ipc, requested);
    let (value, elapsed) = drive(&mut ipc, wait, |ipc| {
        assert_eq!(GestureDetectionServer::process_server_actions(ipc), ServerSignal::Idle);
    });
    assert_eq!(value, -1);
    assert_eq!(value, TIMEOUT_SENTINEL);
    assert_eq!(elapsed, 41_000);
    assert_eq!(ipc, requested);
    assert_eq!(ipc.memory().client_request(), ClientRequest::Detect);
}

#[test]
fn wait_is_given_up_within_timeout_and_one_poll_interval() {
    assert_eq!(POLL_INTERVAL_MICROS, 100);
    assert_eq!(TIMEOUT_MILLIS, 40);
    for desired in STATES {
        let mut ipc = in_state(ServerState::DetectingGesture, ClientRequest::Uninitialized);
        if desired == ServerState::DetectingGesture {
            GestureDetectionServer::set_server_state(&mut ipc, ServerState::WaitingForArgs);
        }
        let wait = CompositeGestureDetectionClient::block_until(
            &mut ipc,
            ClientRequest::Uninitialized,
            desired,
        );
        let (value, elapsed) = drive(&mut ipc, wait, |_| {});
        assert_eq!(value, -1);
        assert!(elapsed < (TIMEOUT_MILLIS + 1) * 1000 + POLL_INTERVAL_MICROS as u128);
        assert!(elapsed / 1000 > TIMEOUT_MILLIS);
    }
}

#[test]
fn clock_decides_when_a_wait_is_given_up() {
    let wait = BlockingWait { desired_server_state: ServerState::PingAcknowledged };
    assert_eq!(wait.after_sleep(0), WaitStep::Poll);
    assert_eq!(wait.after_sleep(100), WaitStep::Poll);
    assert_eq!(wait.after_sleep(40_000), WaitStep::Poll);
    assert_eq!(wait.after_sleep(40_999), WaitStep::Poll);
    assert_eq!(wait.after_sleep(41_000), WaitStep::Finished(-1));
    assert_eq!(wait.after_sleep(u128::MAX), WaitStep::Finished(-1));
}

#[test]
fn reached_state_decides_what_a_wait_returns() {
    for desired in STATES {
        let mut ipc = fresh();
        GestureDetectionServer::complete_detection(
            &mut ipc,
            GenericGestureType::Swipe,
            Some(DirectionResult::Drag(Direction::North)),
        );
        GestureDetectionServer::set_server_state(&mut ipc, desired);
        let wait = BlockingWait { desired_server_state: desired };
        let expected = match desired {
            ServerState::Exited => -1,
            ServerState::DetectionComplete => 4096,
            other => other.java_ordinal(),
        };
        assert_eq!(wait.poll(&ipc), WaitStep::Finished(expected));
        for other in STATES {
            if other != desired {
                let wait = BlockingWait { desired_server_state: other };
                assert_eq!(wait.poll(&ipc), WaitStep::Sleep(100));
            }
        }
    }
}

#[test]
fn ping_is_acknowledged_and_cleared() {
    let mut ipc = fresh();
    let wait = CompositeGestureDetectionClient::ping(&mut ipc);
    assert_eq!(ipc.memory().client_request(), ClientRequest::Ping);
    let (value, elapsed) = drive(&mut ipc, wait, |ipc| {
        GestureDetectionServer::process_server_actions(ipc);
    });
    assert_eq!(value, ServerState::PingAcknowledged.java_ordinal());
    assert_eq!(value, 3);
    assert_eq!(elapsed, 0);
    assert!(CompositeGestureDetectionClient::is_alive(&ipc));
    assert_eq!(GestureDetectionServer::process_server_actions(&mut ipc), ServerSignal::Idle);

    let wait = CompositeGestureDetectionClient::block_until(
        &mut ipc,
        ClientRequest::ClearAcknowledgement,
        ServerState::WaitingForCommand,
    );
    assert_eq!(GestureDetectionServer::process_server_actions(&mut ipc), ServerSignal::Continue);
    assert_eq!(wait.poll(&ipc), WaitStep::Finished(0));
}

#[test]
fn requests_are_accepted_only_in_their_state() {
    for state in STATES {
        for request in REQUESTS {
            let mut ipc = in_state(state, request);
            let before = ipc.clone();
            let accepted = match request {
                ClientRequest::Uninitialized => false,
                ClientRequest::Ping | ClientRequest::Begin => {
                    state == ServerState::WaitingForCommand
                }
                ClientRequest::Detect => state == ServerState::WaitingForArgs,
                ClientRequest::ClearAcknowledgement => {
                    state == ServerState::DetectionComplete
                        || state == ServerState::PingAcknowledged
                }
                ClientRequest::Halt => true,
            };
            let signal = GestureDetectionServer::process_server_actions(&mut ipc);
            if !accepted {
                assert_eq!(signal, ServerSignal::Idle);
                assert_eq!(ipc, before);
                continue;
            }
            assert_eq!(ipc.memory().client_request(), request);
            let expected = match request {
                ClientRequest::Ping => ServerState::PingAcknowledged,
                ClientRequest::Begin => ServerState::WaitingForCommand,
                ClientRequest::Detect => ServerState::DetectionComplete,
                ClientRequest::ClearAcknowledgement => ServerState::WaitingForCommand,
                ClientRequest::Halt => ServerState::Exited,
                ClientRequest::Uninitialized => unreachable!(),
            };
            assert_eq!(ipc.memory().server_state(), expected);
            if request == ClientRequest::Halt {
                assert_eq!(signal, ServerSignal::Exit(state.java_ordinal() as i32));
                assert!(!ipc.memory().is_alive());
            } else {
                assert_eq!(signal, ServerSignal::Continue);
                assert!(ipc.memory().is_alive());
            }
        }
    }
}

#[test]
fn waiting_for_command_accepts_ping_begin_and_halt_only() {
    let mut accepted = Vec::new();
    for request in REQUESTS {
        let mut ipc = in_state(ServerState::WaitingForCommand, request);
        if GestureDetectionServer::process_server_actions(&mut ipc) != ServerSignal::Idle {
            accepted.push(request);
        }
    }
    assert_eq!(accepted, vec![ClientRequest::Ping, ClientRequest::Begin, ClientRequest::Halt]);
}

#[test]
fn begin_resets_the_touch_path() {
    let mut ipc = fresh();
    CompositeGestureDetectionClient::detect(&mut ipc, 7, 3, vec![point(1.0, 1.0)], 0);
    assert_eq!(ipc.memory().point_array_size(), 1);
    assert_eq!(ipc.memory().fling_direction(), 3);
    CompositeGestureDetectionClient::acknowledge_begin(&mut ipc);
    assert_eq!(GestureDetectionServer::process_server_actions(&mut ipc), ServerSignal::Continue);
    assert_eq!(ipc.memory().point_array_size(), 0);
    assert_eq!(ipc.memory().server_state(), ServerState::WaitingForCommand);
    assert_eq!(ipc.memory().duration(), 7);
    assert_eq!(ipc.memory().fling_direction(), 3);
    let again = ipc.clone();
    assert_eq!(GestureDetectionServer::process_server_actions(&mut ipc), ServerSignal::Continue);
    assert_eq!(ipc, again);
}

#[test]
fn retired_record_is_never_changed_again() {
    for state in STATES {
        let mut ipc = in_state(state, ClientRequest::Halt);
        assert_eq!(
            GestureDetectionServer::process_server_actions(&mut ipc),
            ServerSignal::Exit(state.java_ordinal() as i32)
        );
        assert!(!CompositeGestureDetectionClient::is_alive(&ipc));
        assert_eq!(ipc.memory().server_state(), ServerState::Exited);
        for request in REQUESTS {
            CompositeGestureDetectionClient::set_client_request(&mut ipc, request);
            let before = ipc.clone();
            assert_eq!(
                GestureDetectionServer::process_server_actions(&mut ipc),
                ServerSignal::NotAlive
            );
            assert_eq!(ipc, before);
            assert!(GestureDetectionServer::begin_detection(&mut ipc).is_none());
            assert_eq!(ipc, before);
        }
    }
}

#[test]
fn halt_ends_a_wait_for_the_exit_with_minus_one() {
    let mut ipc = in_state(ServerState::DetectingGesture, ClientRequest::Uninitialized);
    let wait =
        CompositeGestureDetectionClient::block_until(&mut ipc, ClientRequest::Halt, ServerState::Exited);
    assert_eq!(wait.poll(&ipc), WaitStep::Sleep(100));
    assert_eq!(GestureDetectionServer::process_server_actions(&mut ipc), ServerSignal::Exit(2));
    assert_eq!(wait.poll(&ipc), WaitStep::Finished(-1));
}

#[test]
fn fling_direction_is_recomputed_from_two_points_or_more() {
    let mut ipc = fresh();
    CompositeGestureDetectionClient::detect(
        &mut ipc,
        10,
        Direction::West.java_ordinal() as i64,
        vec![point(0.0, 0.0), point(5.0, 5.0), point(5.0, 0.0)],
        angle_from((5.0, 0.0), (5.0, 5.0)).to_bits(),
    );
    assert_eq!(angle_from((5.0, 0.0), (5.0, 5.0)), 90.0);
    assert_eq!(ipc.memory().fling_direction(), Direction::North.java_ordinal() as i64);
}

#[test]
fn last_segment_is_the_end_of_the_path() {
    assert_eq!(CompositeGestureDetectionClient::last_segment(&Vec::new()), None);
    assert_eq!(CompositeGestureDetectionClient::last_segment(&vec![point(1.0, 2.0)]), None);
    assert_eq!(
        CompositeGestureDetectionClient::last_segment(&vec![point(1.0, 2.0), point(3.0, 4.0)]),
        Some((point(3.0, 4.0), point(1.0, 2.0)))
    );
    assert_eq!(
        CompositeGestureDetectionClient::last_segment(&vec![
            point(0.0, 0.0),
            point(1.0, 2.0),
            point(3.0, 4.0)
        ]),
        Some((point(3.0, 4.0), point(1.0, 2.0)))
    );
}

#[test]
fn fling_direction_of_the_caller_stands_with_fewer_than_two_points() {
    for count in 0..2usize {
        let mut ipc = fresh();
        let points = vec![point(9.0, 9.0); count];
        CompositeGestureDetectionClient::detect(&mut ipc, 10, 4, points, 90.0f64.to_bits());
        assert_eq!(ipc.memory().fling_direction(), 4);
        assert_eq!(ipc.memory().point_array_size(), count as i64);

        let points = vec![point(9.0, 9.0); count];
        CompositeGestureDetectionClient::detect(&mut ipc, 10, -1, points, 90.0f64.to_bits());
        assert_eq!(ipc.memory().fling_direction(), -1);

        let points = vec![point(9.0, 9.0); count];
        CompositeGestureDetectionClient::detect(&mut ipc, 10, 12, points, 90.0f64.to_bits());
        assert_eq!(ipc.memory().fling_direction(), 0);
    }
}

#[test]
fn detect_takes_a_full_touch_path() {
    let mut ipc = fresh();
    let points = vec![point(1.0, 2.0); POINT_ARRAY_SIZE];
    CompositeGestureDetectionClient::detect(&mut ipc, i128::MAX, -1, points, 0);
    assert_eq!(ipc.memory().point_array_size(), 508);
    assert_eq!(ipc.memory().duration(), i128::MAX);
}

#[test]
fn caller_classifier_takes_the_place_of_the_stand_in() {
    let mut ipc = in_state(ServerState::WaitingForArgs, ClientRequest::Uninitialized);
    let wait = CompositeGestureDetectionClient::detect(
        &mut ipc,
        250,
        NO_FLING_DIRECTION,
        vec![point(0.0, 0.0), point(0.0, -10.0)],
        angle_from((0.0, -10.0), (0.0, 0.0)).to_bits(),
    );
    let detection = GestureDetectionServer::begin_detection(&mut ipc).unwrap();
    assert_eq!(ipc.memory().server_state(), ServerState::DetectingGesture);
    assert_eq!(detection.duration, 250);
    assert_eq!(detection.touch_points, vec![point(0.0, 0.0), point(0.0, -10.0)]);
    assert_eq!(detection.fling_direction, Some(Direction::North));
    assert_eq!(detection.possible_gestures, 31);
    assert_eq!(wait.poll(&ipc), WaitStep::Sleep(100));
    let stored = GestureDetectionServer::complete_detection(
        &mut ipc,
        GenericGestureType::Circle,
        Some(DirectionResult::Circular(RotationDirection::AntiClockwise)),
    );
    assert_eq!(stored, 1 << 19);
    assert_eq!(ipc.memory().server_state(), ServerState::DetectionComplete);
    assert_eq!(wait.poll(&ipc), WaitStep::Finished(1 << 19));
}

#[test]
fn begin_detection_needs_an_accepted_detect() {
    for state in STATES {
        for request in REQUESTS {
            let mut ipc = in_state(state, request);
            let before = ipc.clone();
            let taken = GestureDetectionServer::begin_detection(&mut ipc);
            if state == ServerState::WaitingForArgs && request == ClientRequest::Detect {
                assert!(taken.is_some());
                assert_eq!(ipc.memory().server_state(), ServerState::DetectingGesture);
            } else {
                assert!(taken.is_none());
                assert_eq!(ipc, before);
            }
        }
    }
}

#[test]
fn detect_gesture_stores_a_click() {
    let mut ipc = in_state(ServerState::WaitingForArgs, ClientRequest::Detect);
    let candidate = GestureDetectionServer::candidate_set(&ipc);
    assert_eq!(candidate.possible_gestures, 31);
    assert_eq!(GestureDetectionServer::detect_gesture(&mut ipc), 1);
    assert_eq!(ipc.memory().result(), 1);
    assert_eq!(ipc.memory().server_state(), ServerState::DetectionComplete);
}
