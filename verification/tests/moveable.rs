use elevator_simulator::moveable::{
    Endpoint, Motion, MoveBetweenPoints, MoveBetweenPointsPosition, MoveBetweenPointsState,
};

use elevator_simulator::moveable::MoveBetweenPointsPosition::{AtFrom, AtTo, InMiddle};
use elevator_simulator::moveable::MoveBetweenPointsState::{Idle, MovingBackward, MovingForward};

type Elevator = MoveBetweenPoints<(f32, f32, f32), f32>;

fn elevator() -> Elevator {
    MoveBetweenPoints::new((0.0, 0.0, 0.0), (0.0, 5.0, 0.0), 3.0)
}

fn with(
    state: MoveBetweenPointsState,
    prev_state: Option<MoveBetweenPointsState>,
    position: MoveBetweenPointsPosition,
) -> Elevator {
    let mut m = elevator();
    m.state = state;
    m.prev_state = prev_state;
    m.position = position;
    m
}

#[test]
fn new_rests_in_the_middle_without_history() {
    let m = elevator();
    assert_eq!(m.from, (0.0, 0.0, 0.0));
    assert_eq!(m.to, (0.0, 5.0, 0.0));
    assert_eq!(m.speed, 3.0);
    assert_eq!(m.state, MoveBetweenPointsState::Idle);
    assert_eq!(m.prev_state, None);
    assert_eq!(m.position, MoveBetweenPointsPosition::InMiddle);
}

#[test]
fn move_forwards_records_previous_state() {
    let mut m = elevator();
    m.move_forwards();
    assert_eq!(m.state, MoveBetweenPointsState::MovingForward);
    assert_eq!(m.prev_state, Some(MoveBetweenPointsState::Idle));
    assert_eq!(m.position, MoveBetweenPointsPosition::InMiddle);
}

#[test]
fn move_backwards_records_previous_state() {
    let mut m = with(MoveBetweenPointsState::MovingForward, Some(MoveBetweenPointsState::Idle), MoveBetweenPointsPosition::InMiddle);
    m.move_backwards();
    assert_eq!(m.state, MoveBetweenPointsState::MovingBackward);
    assert_eq!(m.prev_state, Some(MoveBetweenPointsState::MovingForward));
}

#[test]
fn stop_records_previous_state() {
    let mut m = with(MoveBetweenPointsState::MovingBackward, Some(MoveBetweenPointsState::Idle), MoveBetweenPointsPosition::InMiddle);
    m.stop();
    assert_eq!(m.state, MoveBetweenPointsState::Idle);
    assert_eq!(m.prev_state, Some(MoveBetweenPointsState::MovingBackward));
    assert_eq!(m.position, MoveBetweenPointsPosition::InMiddle);
}

#[test]
fn resume_fresh_body_goes_forward() {
    let mut m = elevator();
    m.resume();
    assert_eq!(m.state, MoveBetweenPointsState::MovingForward);
    assert_eq!(m.prev_state, Some(MoveBetweenPointsState::Idle));
}

#[test]
fn resume_without_history_goes_forward_even_at_to() {
    let mut m = with(MoveBetweenPointsState::Idle, None, MoveBetweenPointsPosition::AtTo);
    m.resume();
    assert_eq!(m.state, MoveBetweenPointsState::MovingForward);
}

#[test]
fn resume_table() {
    let cases = [
        (Idle, InMiddle, MovingForward),
        (Idle, AtFrom, MovingForward),
        (Idle, AtTo, MovingBackward),
        (MovingForward, InMiddle, MovingForward),
        (MovingForward, AtFrom, MovingForward),
        (MovingForward, AtTo, MovingBackward),
        (MovingBackward, InMiddle, MovingBackward),
        (MovingBackward, AtFrom, MovingForward),
        (MovingBackward, AtTo, MovingBackward),
    ];
    for (prev, position, expected) in cases {
        let mut m = with(Idle, Some(prev), position);
        m.resume();
        assert_eq!(m.state, expected);
        assert_eq!(m.prev_state, Some(Idle));
        assert_eq!(m.position, position);
    }
}

#[test]
fn resume_leaves_moving_body_alone() {
    let mut m = with(MoveBetweenPointsState::MovingBackward, Some(MoveBetweenPointsState::Idle), MoveBetweenPointsPosition::AtTo);
    m.resume();
    assert_eq!(m.state, MoveBetweenPointsState::MovingBackward);
    assert_eq!(m.prev_state, Some(MoveBetweenPointsState::Idle));
    assert_eq!(m.position, MoveBetweenPointsPosition::AtTo);
}

#[test]
fn resume_twice_is_resume_once() {
    let mut m = with(MoveBetweenPointsState::Idle, Some(MoveBetweenPointsState::MovingForward), MoveBetweenPointsPosition::AtTo);
    m.resume();
    m.resume();
    assert_eq!(m.state, MoveBetweenPointsState::MovingBackward);
    assert_eq!(m.prev_state, Some(MoveBetweenPointsState::Idle));
}

#[test]
fn heading_and_point() {
    let mut m = elevator();
    assert_eq!(m.heading(), None);
    m.move_forwards();
    assert_eq!(m.heading(), Some(Endpoint::To));
    assert_eq!(*m.point(Endpoint::To), (0.0, 5.0, 0.0));
    m.move_backwards();
    assert_eq!(m.heading(), Some(Endpoint::From));
    assert_eq!(*m.point(Endpoint::From), (0.0, 0.0, 0.0));
}

#[test]
fn step_at_rest_halts_and_changes_nothing() {
    let mut m = with(MoveBetweenPointsState::Idle, Some(MoveBetweenPointsState::MovingForward), MoveBetweenPointsPosition::AtTo);
    assert_eq!(m.step(true), Motion::Halt);
    assert_eq!(m.step(false), Motion::Halt);
    assert_eq!(m.state, MoveBetweenPointsState::Idle);
    assert_eq!(m.prev_state, Some(MoveBetweenPointsState::MovingForward));
    assert_eq!(m.position, MoveBetweenPointsPosition::AtTo);
}

#[test]
fn step_travelling_is_in_the_middle() {
    let mut m = with(MoveBetweenPointsState::MovingForward, Some(MoveBetweenPointsState::Idle), MoveBetweenPointsPosition::AtFrom);
    assert_eq!(m.step(false), Motion::Travel(Endpoint::To));
    assert_eq!(m.state, MoveBetweenPointsState::MovingForward);
    assert_eq!(m.position, MoveBetweenPointsPosition::InMiddle);
    assert_eq!(m.prev_state, Some(MoveBetweenPointsState::Idle));

    let mut m = with(MoveBetweenPointsState::MovingBackward, Some(MoveBetweenPointsState::Idle), MoveBetweenPointsPosition::AtTo);
    assert_eq!(m.step(false), Motion::Travel(Endpoint::From));
    assert_eq!(m.position, MoveBetweenPointsPosition::InMiddle);
}

#[test]
fn step_arriving_stops_at_the_end() {
    let mut m = with(MoveBetweenPointsState::MovingForward, Some(MoveBetweenPointsState::Idle), MoveBetweenPointsPosition::InMiddle);
    assert_eq!(m.step(true), Motion::Arrive(Endpoint::To));
    assert_eq!(m.state, MoveBetweenPointsState::Idle);
    assert_eq!(m.prev_state, Some(MoveBetweenPointsState::MovingForward));
    assert_eq!(m.position, MoveBetweenPointsPosition::AtTo);

    let mut m = with(MoveBetweenPointsState::MovingBackward, Some(MoveBetweenPointsState::Idle), MoveBetweenPointsPosition::InMiddle);
    assert_eq!(m.step(true), Motion::Arrive(Endpoint::From));
    assert_eq!(m.state, MoveBetweenPointsState::Idle);
    assert_eq!(m.prev_state, Some(MoveBetweenPointsState::MovingBackward));
    assert_eq!(m.position, MoveBetweenPointsPosition::AtFrom);
}

#[test]
fn stop_then_resume_continues_in_the_middle() {
    let mut m = with(MoveBetweenPointsState::MovingBackward, Some(MoveBetweenPointsState::Idle), MoveBetweenPointsPosition::InMiddle);
    m.stop();
    m.resume();
    assert_eq!(m.state, MoveBetweenPointsState::MovingBackward);

    let mut m = with(MoveBetweenPointsState::MovingForward, Some(MoveBetweenPointsState::Idle), MoveBetweenPointsPosition::AtFrom);
    m.stop();
    m.resume();
    assert_eq!(m.state, MoveBetweenPointsState::MovingForward);
}

#[test]
fn arrive_then_resume_turns_back() {
    let mut m = with(MoveBetweenPointsState::MovingForward, Some(MoveBetweenPointsState::Idle), MoveBetweenPointsPosition::InMiddle);
    m.step(true);
    m.resume();
    assert_eq!(m.state, MoveBetweenPointsState::MovingBackward);
}

#[test]
fn interact_resumes_only_resting_body() {
    let mut m = elevator();
    m.handle_interact();
    assert_eq!(m.state, MoveBetweenPointsState::MovingForward);
    m.handle_interact();
    assert_eq!(m.state, MoveBetweenPointsState::MovingForward);
    assert_eq!(m.prev_state, Some(MoveBetweenPointsState::Idle));
}

#[test]
fn round_trip_up_and_down() {
    let mut m = elevator();
    m.handle_interact();
    assert_eq!(m.step(false), Motion::Travel(Endpoint::To));
    assert_eq!(m.step(false), Motion::Travel(Endpoint::To));
    assert_eq!(m.step(true), Motion::Arrive(Endpoint::To));
    assert_eq!(m.position, MoveBetweenPointsPosition::AtTo);
    assert_eq!(m.step(false), Motion::Halt);
    m.handle_interact();
    assert_eq!(m.state, MoveBetweenPointsState::MovingBackward);
    assert_eq!(m.step(false), Motion::Travel(Endpoint::From));
    assert_eq!(m.step(true), Motion::Arrive(Endpoint::From));
    assert_eq!(m.state, MoveBetweenPointsState::Idle);
    assert_eq!(m.position, MoveBetweenPointsPosition::AtFrom);
    assert_eq!(m.from, (0.0, 0.0, 0.0));
    assert_eq!(m.to, (0.0, 5.0, 0.0));
    assert_eq!(m.speed, 3.0);
}
