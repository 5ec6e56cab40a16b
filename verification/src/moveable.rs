//! A body that moves back and forth between two points: the elevator.
use vstd::prelude::*;

verus! {

/// What the body is doing right now.
#[derive(Clone, Copy, PartialEq, Eq, Structural, Debug)]
pub enum MoveBetweenPointsState {
    Idle,
    MovingForward,
    MovingBackward,
}

/// Where the body last was seen: somewhere between the points, or at one of them.
#[derive(Clone, Copy, PartialEq, Eq, Structural, Debug)]
pub enum MoveBetweenPointsPosition {
    /// Somewhere in the middle, not necessarily the middle.
    InMiddle,
    AtFrom,
    AtTo,
}

/// One of the two points a body travels between.
#[derive(Clone, Copy, PartialEq, Eq, Structural, Debug)]
pub enum Endpoint {
    From,
    To,
}

/// What the engine is to do with the body on one fixed step.
#[derive(Clone, Copy, PartialEq, Eq, Structural, Debug)]
pub enum Motion {
    /// The body rests: its velocity is zero.
    Halt,
    /// The body has reached the endpoint: place it exactly there and zero its velocity.
    Arrive(Endpoint),
    /// The body is on its way: give it velocity towards the endpoint, at its speed.
    Travel(Endpoint),
}

/// A body travelling between `from` and `to` at `speed`.
///
/// The points and the speed are carried for the engine, which measures
/// distances; the state machine below never reads them.
pub struct MoveBetweenPoints<P, S> {
    pub from: P,
    pub to: P,
    pub speed: S,
    pub state: MoveBetweenPointsState,
    pub prev_state: Option<MoveBetweenPointsState>,
    pub position: MoveBetweenPointsPosition,
}

/// The direction that a resumed body takes, from the state it was in before
/// it came to rest and from where it rests.
///
/// A body that never moved goes forward. One that was moving backward goes
/// on backward unless it rests at `from`; any other goes forward unless it
/// rests at `to`.
pub open spec fn resume_direction(
    prev: Option<MoveBetweenPointsState>,
    position: MoveBetweenPointsPosition,
) -> MoveBetweenPointsState {
    match prev {
        None => MoveBetweenPointsState::MovingForward,
        Some(MoveBetweenPointsState::MovingBackward) => if position == MoveBetweenPointsPosition::AtFrom {
            MoveBetweenPointsState::MovingForward
        } else {
            MoveBetweenPointsState::MovingBackward
        },
        Some(_) => if position == MoveBetweenPointsPosition::AtTo {
            MoveBetweenPointsState::MovingBackward
        } else {
            MoveBetweenPointsState::MovingForward
        },
    }
}

/// The endpoint that a body in `state` is heading for, if it moves at all.
pub open spec fn heading_of(state: MoveBetweenPointsState) -> Option<Endpoint> {
    match state {
        MoveBetweenPointsState::Idle => None,
        MoveBetweenPointsState::MovingForward => Some(Endpoint::To),
        MoveBetweenPointsState::MovingBackward => Some(Endpoint::From),
    }
}

/// The position a body has once it has reached `end`.
pub open spec fn position_at(end: Endpoint) -> MoveBetweenPointsPosition {
    match end {
        Endpoint::From => MoveBetweenPointsPosition::AtFrom,
        Endpoint::To => MoveBetweenPointsPosition::AtTo,
    }
}

impl<P, S> MoveBetweenPoints<P, S> {
    /// The value after a change of state to `next`: the current state becomes
    /// the previous one, everything else stays.
    pub open spec fn transitioned(self, next: MoveBetweenPointsState) -> Self {
        MoveBetweenPoints { prev_state: Some(self.state), state: next, ..self }
    }

    /// The value with only its position replaced.
    pub open spec fn placed(self, position: MoveBetweenPointsPosition) -> Self {
        MoveBetweenPoints { position, ..self }
    }

    /// What `resume` makes of the value: a resting body starts moving in
    /// `resume_direction`; a moving one is left as it is.
    pub open spec fn resumed(self) -> Self {
        if self.state == MoveBetweenPointsState::Idle {
            self.transitioned(resume_direction(self.prev_state, self.position))
        } else {
            self
        }
    }

    /// What one fixed step makes of the value and what it asks of the engine,
    /// given whether the body has come within reach of the endpoint it heads for.
    pub open spec fn stepped(self, arrived: bool) -> (Self, Motion) {
        match heading_of(self.state) {
            None => (self, Motion::Halt),
            Some(end) => if arrived {
                (
                    self.transitioned(MoveBetweenPointsState::Idle).placed(position_at(end)),
                    Motion::Arrive(end),
                )
            } else {
                (self.placed(MoveBetweenPointsPosition::InMiddle), Motion::Travel(end))
            },
        }
    }

    /// The body has a history that agrees with where it is: one that never
    /// changed state rests between the points.
    pub open spec fn consistent(self) -> bool {
        self.prev_state is None ==> (self.state == MoveBetweenPointsState::Idle
            && self.position == MoveBetweenPointsPosition::InMiddle)
    }

    /// A resting body between `from` and `to`, with no history.
    pub fn new(from: P, to: P, speed: S) -> (r: Self)
        ensures
            r.from == from,
            r.to == to,
            r.speed == speed,
            r.state == MoveBetweenPointsState::Idle,
            r.prev_state == None::<MoveBetweenPointsState>,
            r.position == MoveBetweenPointsPosition::InMiddle,
    {
        MoveBetweenPoints {
            from,
            to,
            speed,
            state: MoveBetweenPointsState::Idle,
            prev_state: None,
            position: MoveBetweenPointsPosition::InMiddle,
        }
    }

    /// Starts moving towards `to`, remembering the state it leaves.
    pub fn move_forwards(&mut self)
        ensures
            *final(self) == old(self).transitioned(MoveBetweenPointsState::MovingForward),
    {
        self.save_prev_state();
        self.state = MoveBetweenPointsState::MovingForward;
    }

    /// Starts moving towards `from`, remembering the state it leaves.
    pub fn move_backwards(&mut self)
        ensures
            *final(self) == old(self).transitioned(MoveBetweenPointsState::MovingBackward),
    {
        self.save_prev_state();
        self.state = MoveBetweenPointsState::MovingBackward;
    }

    /// Sets a resting body moving again, in the direction that its history and
    /// its position call for; a moving body is left alone.
    pub fn resume(&mut self)
        ensures
            *final(self) == old(self).resumed(),
    {
        match self.state {
            MoveBetweenPointsState::Idle => {
                match self.prev_state {
                    None => self.move_forwards(),
                    Some(MoveBetweenPointsState::Idle) => {
                        match self.position {
                            MoveBetweenPointsPosition::InMiddle => {
                                self.move_forwards();
                            },
                            MoveBetweenPointsPosition::AtFrom => {
                                self.move_forwards();
                            },
                            MoveBetweenPointsPosition::AtTo => {
                                self.move_backwards();
                            },
                        }
                    },
                    Some(MoveBetweenPointsState::MovingForward) => {
                        match self.position {
                            MoveBetweenPointsPosition::InMiddle => {
                                self.move_forwards();
                            },
                            MoveBetweenPointsPosition::AtFrom => {
                                self.move_forwards();
                            },
                            MoveBetweenPointsPosition::AtTo => {
                                self.move_backwards();
                            },
                        }
                    },
                    Some(MoveBetweenPointsState::MovingBackward) => {
                        match self.position {
                            MoveBetweenPointsPosition::InMiddle => {
                                self.move_backwards();
                            },
                            MoveBetweenPointsPosition::AtFrom => {
                                self.move_forwards();
                            },
                            MoveBetweenPointsPosition::AtTo => {
                                self.move_backwards();
                            },
                        }
                    },
                }
            },
            _ => {},
        }
    }

    /// Comes to rest, remembering the state it leaves.
    pub fn stop(&mut self)
        ensures
            *final(self) == old(self).transitioned(MoveBetweenPointsState::Idle),
    {
        self.save_prev_state();
        self.state = MoveBetweenPointsState::Idle;
    }

    fn save_prev_state(&mut self)
        ensures
            *final(self) == (MoveBetweenPoints { prev_state: Some(old(self).state), ..*old(self) }),
    {
        self.prev_state = Some(self.state);
    }

    fn at_to(&mut self)
        ensures
            *final(self) == old(self).placed(MoveBetweenPointsPosition::AtTo),
    {
        self.position = MoveBetweenPointsPosition::AtTo;
    }

    fn at_from(&mut self)
        ensures
            *final(self) == old(self).placed(MoveBetweenPointsPosition::AtFrom),
    {
        self.position = MoveBetweenPointsPosition::AtFrom;
    }

    fn in_middle(&mut self)
        ensures
            *final(self) == old(self).placed(MoveBetweenPointsPosition::InMiddle),
    {
        self.position = MoveBetweenPointsPosition::InMiddle;
    }

    /// The endpoint the body heads for: `to` when moving forward, `from` when
    /// moving backward, none at rest.
    pub fn heading(&self) -> (h: Option<Endpoint>)
        ensures
            h == heading_of(self.state),
    {
        match self.state {
            MoveBetweenPointsState::Idle => None,
            MoveBetweenPointsState::MovingForward => Some(Endpoint::To),
            MoveBetweenPointsState::MovingBackward => Some(Endpoint::From),
        }
    }

    /// The point that `end` names.
    pub fn point(&self, end: Endpoint) -> (p: &P)
        ensures
            *p == (match end {
                Endpoint::From => self.from,
                Endpoint::To => self.to,
            }),
    {
        match end {
            Endpoint::From => &self.from,
            Endpoint::To => &self.to,
        }
    }

    /// One fixed step of travel. `arrived` says whether the body has come
    /// within the arrival threshold of the endpoint it heads for. A resting
    /// body stays put; an arriving one stops and records the endpoint it
    /// reached; any other is between the points and keeps going.
    pub fn step(&mut self, arrived: bool) -> (m: Motion)
        ensures
            (*final(self), m) == old(self).stepped(arrived),
    {
        match self.state {
            MoveBetweenPointsState::Idle => Motion::Halt,
            MoveBetweenPointsState::MovingForward => {
                if arrived {
                    self.stop();
                    self.at_to();
                    Motion::Arrive(Endpoint::To)
                } else {
                    self.in_middle();
                    Motion::Travel(Endpoint::To)
                }
            },
            MoveBetweenPointsState::MovingBackward => {
                if arrived {
                    self.stop();
                    self.at_from();
                    Motion::Arrive(Endpoint::From)
                } else {
                    self.in_middle();
                    Motion::Travel(Endpoint::From)
                }
            },
        }
    }

    /// What an interaction does to the body: a resting one is resumed, a
    /// moving one is left alone.
    pub fn handle_interact(&mut self)
        ensures
            *final(self) == old(self).resumed(),
    {
        match self.state {
            MoveBetweenPointsState::Idle => {
                self.resume();
            },
            _ => {},
        }
    }
}

/// Resuming a resting body always sets it moving, and it remembers that it rested.
pub proof fn lemma_resume_starts_motion<P, S>(m: MoveBetweenPoints<P, S>)
    requires
        m.state == MoveBetweenPointsState::Idle,
    ensures
        m.resumed().state != MoveBetweenPointsState::Idle,
        m.resumed().prev_state == Some(MoveBetweenPointsState::Idle),
        m.resumed().position == m.position,
{
}

/// Resuming twice is the same as resuming once.
pub proof fn lemma_resume_idempotent<P, S>(m: MoveBetweenPoints<P, S>)
    ensures
        m.resumed().resumed() == m.resumed(),
{
}

/// Stopping a moving body and resuming it carries on the interrupted motion,
/// unless the body stands at the very endpoint that motion was heading for.
pub proof fn lemma_stop_then_resume_continues<P, S>(m: MoveBetweenPoints<P, S>)
    requires
        m.state != MoveBetweenPointsState::Idle,
        m.state == MoveBetweenPointsState::MovingForward ==> m.position != MoveBetweenPointsPosition::AtTo,
        m.state == MoveBetweenPointsState::MovingBackward ==> m.position != MoveBetweenPointsPosition::AtFrom,
    ensures
        m.transitioned(MoveBetweenPointsState::Idle).resumed().state == m.state,
{
}

/// A body that arrives at an endpoint and is then resumed heads back the
/// other way.
pub proof fn lemma_arrive_then_resume_turns_back<P, S>(m: MoveBetweenPoints<P, S>)
    requires
        m.state != MoveBetweenPointsState::Idle,
    ensures
        m.stepped(true).0.resumed().state == (if m.state == MoveBetweenPointsState::MovingForward {
            MoveBetweenPointsState::MovingBackward
        } else {
            MoveBetweenPointsState::MovingForward
        }),
{
}

/// Every operation keeps a consistent body consistent: one that never
/// changed state rests between the points.
pub proof fn lemma_operations_keep_consistent<P, S>(
    m: MoveBetweenPoints<P, S>,
    next: MoveBetweenPointsState,
    arrived: bool,
)
    requires
        m.consistent(),
    ensures
        m.transitioned(next).consistent(),
        m.resumed().consistent(),
        m.stepped(arrived).0.consistent(),
{
}

/// A full round trip: a consistent body that rests at `from`, or has never
/// moved, once resumed and carried to its end, resumed again and carried to
/// its end, rests at `from` again, with its points and speed untouched.
pub proof fn lemma_round_trip<P, S>(m: MoveBetweenPoints<P, S>)
    requires
        m.consistent(),
        m.state == MoveBetweenPointsState::Idle,
        m.position == MoveBetweenPointsPosition::AtFrom || m.prev_state is None,
    ensures
        ({
            let up = m.resumed().stepped(true);
            let down = up.0.resumed().stepped(true);
            &&& up.1 == Motion::Arrive(Endpoint::To)
            &&& up.0.position == MoveBetweenPointsPosition::AtTo
            &&& down.1 == Motion::Arrive(Endpoint::From)
            &&& down.0.state == MoveBetweenPointsState::Idle
            &&& down.0.position == MoveBetweenPointsPosition::AtFrom
            &&& down.0.from == m.from
            &&& down.0.to == m.to
            &&& down.0.speed == m.speed
        }),
{
    assert(m.resumed().state == MoveBetweenPointsState::MovingForward);
}

/// Every change of state sets exactly the state asked for and records the one
/// it leaves, for every state and every target; nothing else moves.
pub proof fn lemma_transition_sets_state_and_history<P, S>(
    m: MoveBetweenPoints<P, S>,
    next: MoveBetweenPointsState,
)
    ensures
        m.transitioned(next).state == next,
        m.transitioned(next).prev_state == Some(m.state),
        m.transitioned(next).position == m.position,
        m.transitioned(next).from == m.from,
        m.transitioned(next).to == m.to,
        m.transitioned(next).speed == m.speed,
{
}

/// Resuming only ever touches the state and its history: the points, the
/// speed and the position are those of the body before.
pub proof fn lemma_resume_keeps_points_and_speed<P, S>(m: MoveBetweenPoints<P, S>)
    ensures
        m.resumed().from == m.from,
        m.resumed().to == m.to,
        m.resumed().speed == m.speed,
        m.resumed().position == m.position,
        m.state != MoveBetweenPointsState::Idle ==> m.resumed() == m,
{
}

/// The direction a resting body takes when resumed, case by case: with no
/// history it goes forward; at `to` it goes backward and at `from` forward;
/// in the middle it goes backward only if it last moved backward.
pub proof fn lemma_resume_direction_table<P, S>(m: MoveBetweenPoints<P, S>)
    requires
        m.state == MoveBetweenPointsState::Idle,
    ensures
        m.resumed().prev_state == Some(MoveBetweenPointsState::Idle),
        m.prev_state is None ==> m.resumed().state == MoveBetweenPointsState::MovingForward,
        m.prev_state is Some && m.position == MoveBetweenPointsPosition::AtTo
            ==> m.resumed().state == MoveBetweenPointsState::MovingBackward,
        m.prev_state is Some && m.position == MoveBetweenPointsPosition::AtFrom
            ==> m.resumed().state == MoveBetweenPointsState::MovingForward,
        m.position == MoveBetweenPointsPosition::InMiddle
            ==> m.resumed().state == (if m.prev_state == Some(MoveBetweenPointsState::MovingBackward) {
            MoveBetweenPointsState::MovingBackward
        } else {
            MoveBetweenPointsState::MovingForward
        }),
{
}

/// A resting body, whatever its history and position and whether or not it
/// counts as arrived, is told to halt and is left exactly as it was.
pub proof fn lemma_step_at_rest_halts<P, S>(m: MoveBetweenPoints<P, S>, arrived: bool)
    requires
        m.state == MoveBetweenPointsState::Idle,
    ensures
        m.stepped(arrived).1 == Motion::Halt,
        m.stepped(arrived).0 == m,
{
}

/// A moving body that has not arrived travels on towards the endpoint of its
/// direction (`to` forward, `from` backward), whatever its position and
/// history; its state, history, points and speed stay, and it is in the middle.
pub proof fn lemma_step_travels_towards_heading<P, S>(m: MoveBetweenPoints<P, S>)
    requires
        m.state != MoveBetweenPointsState::Idle,
    ensures
        m.stepped(false).1 == (if m.state == MoveBetweenPointsState::MovingForward {
            Motion::Travel(Endpoint::To)
        } else {
            Motion::Travel(Endpoint::From)
        }),
        m.stepped(false).0.state == m.state,
        m.stepped(false).0.prev_state == m.prev_state,
        m.stepped(false).0.position == MoveBetweenPointsPosition::InMiddle,
        m.stepped(false).0.from == m.from,
        m.stepped(false).0.to == m.to,
        m.stepped(false).0.speed == m.speed,
{
}

/// A moving body that arrives is told to snap onto the endpoint of its
/// direction, comes to rest there, and records the motion it ended; its
/// points and speed stay.
pub proof fn lemma_step_arrives_at_heading<P, S>(m: MoveBetweenPoints<P, S>)
    requires
        m.state != MoveBetweenPointsState::Idle,
    ensures
        m.stepped(true).1 == (if m.state == MoveBetweenPointsState::MovingForward {
            Motion::Arrive(Endpoint::To)
        } else {
            Motion::Arrive(Endpoint::From)
        }),
        m.stepped(true).0.state == MoveBetweenPointsState::Idle,
        m.stepped(true).0.prev_state == Some(m.state),
        m.stepped(true).0.position == (if m.state == MoveBetweenPointsState::MovingForward {
            MoveBetweenPointsPosition::AtTo
        } else {
            MoveBetweenPointsPosition::AtFrom
        }),
        m.stepped(true).0.from == m.from,
        m.stepped(true).0.to == m.to,
        m.stepped(true).0.speed == m.speed,
{
}

/// A resting body heads nowhere; one moving forward heads for `to`, one
/// moving backward for `from`.
pub proof fn lemma_heading_follows_direction()
    ensures
        heading_of(MoveBetweenPointsState::Idle) == None::<Endpoint>,
        heading_of(MoveBetweenPointsState::MovingForward) == Some(Endpoint::To),
        heading_of(MoveBetweenPointsState::MovingBackward) == Some(Endpoint::From),
{
}

} // verus!
