//! The life of one session, from connection to teardown.
//!
//! A session serves exactly one connection. It is created, runs, drains and is
//! terminated, in this order and never backwards. Draining is where the
//! vehicle is made safe: the tracks are commanded to rest before anything is
//! released.

use crate::client::LoopExit;
use crate::messages::{GoliathCommand, MotorCommand, Scalar};
use vstd::prelude::*;

verus! {

/// The number of motor commands that can wait for the controller.
pub const MOTOR_QUEUE_CAPACITY: usize = 32;

#[derive(Copy, Clone, Debug, PartialEq, Eq)]
pub enum SessionState {
    /// Pump and controller exist but do not run.
    Created,
    /// The pump's loops, the controller and the video transport run.
    Running,
    /// The session is being taken down.
    Draining,
    /// The controller has been joined and the pump's loops have ended.
    Terminated,
}

#[derive(Copy, Clone, Debug, PartialEq, Eq)]
pub enum SessionEvent {
    /// The owner starts the session.
    Start,
    /// The peer closed the connection.
    PeerClosed,
    /// The connection failed.
    TransportError,
    /// The owner asks for shutdown.
    ShutdownRequested,
    /// The controller was joined and both pump loops have ended.
    TeardownComplete,
}

#[derive(Copy, Clone, Debug, PartialEq, Eq)]
pub enum SessionAction {
    /// Nothing to do: the event has no meaning in this state.
    Nothing,
    /// Start the pump's loops, the controller and the video transport.
    StartAll,
    /// Send `drain_commands` to the controller, ask the video transport to
    /// stop, cancel the pump, then wait for the controller and the pump.
    Drain,
    /// Release the session.
    Release,
}

impl SessionState {
    /// The place of a state in the session's life.
    pub open spec fn rank(self) -> nat {
        match self {
            SessionState::Created => 0,
            SessionState::Running => 1,
            SessionState::Draining => 2,
            SessionState::Terminated => 3,
        }
    }

    /// Whether an event asks for the session to end.
    pub open spec fn ends_session(event: SessionEvent) -> bool {
        event is PeerClosed || event is TransportError || event is ShutdownRequested
    }

    /// The next state and what to do on the way. An event that does not fit
    /// the state changes nothing.
    pub open spec fn next(self, event: SessionEvent) -> (SessionState, SessionAction) {
        match self {
            SessionState::Created => if event is Start {
                (SessionState::Running, SessionAction::StartAll)
            } else {
                (self, SessionAction::Nothing)
            },
            SessionState::Running => if Self::ends_session(event) {
                (SessionState::Draining, SessionAction::Drain)
            } else {
                (self, SessionAction::Nothing)
            },
            SessionState::Draining => if event is TeardownComplete {
                (SessionState::Terminated, SessionAction::Release)
            } else {
                (self, SessionAction::Nothing)
            },
            SessionState::Terminated => (self, SessionAction::Nothing),
        }
    }

    /// The state after a series of events, and the actions taken on the way.
    pub open spec fn trace(self, events: Seq<SessionEvent>) -> (SessionState, Seq<SessionAction>)
        decreases events.len(),
    {
        if events.len() == 0 {
            (self, Seq::empty())
        } else {
            let (before, actions) = self.trace(events.drop_last());
            let (after, action) = before.next(events.last());
            (after, actions.push(action))
        }
    }

    /// Takes an event: the next state and the action.
    ///
    /// A session never goes back, moves at most one step, and leaves
    /// `Running` only through `Draining`.
    pub fn advance(self, event: SessionEvent) -> (next: (SessionState, SessionAction))
        ensures
            next == self.next(event),
            self.rank() <= next.0.rank() <= self.rank() + 1,
            next.1 is Drain <==> (self is Running && next.0 is Draining),
            next.0 != self <==> !(next.1 is Nothing),
    {
        match self {
            SessionState::Created => match event {
                SessionEvent::Start => (SessionState::Running, SessionAction::StartAll),
                _ => (self, SessionAction::Nothing),
            },
            SessionState::Running => match event {
                SessionEvent::PeerClosed
                | SessionEvent::TransportError
                | SessionEvent::ShutdownRequested => (SessionState::Draining, SessionAction::Drain),
                _ => (self, SessionAction::Nothing),
            },
            SessionState::Draining => match event {
                SessionEvent::TeardownComplete => (
                    SessionState::Terminated,
                    SessionAction::Release,
                ),
                _ => (self, SessionAction::Nothing),
            },
            SessionState::Terminated => (self, SessionAction::Nothing),
        }
    }
}

/// What the end of the receive loop means for the session. A close or the end
/// of the stream is the peer's doing, a cancellation is the owner's, and
/// everything else counts as a failed connection.
pub open spec fn exit_event(exit: LoopExit) -> SessionEvent {
    match exit {
        LoopExit::PeerClosed | LoopExit::StreamEnded => SessionEvent::PeerClosed,
        LoopExit::Cancelled => SessionEvent::ShutdownRequested,
        LoopExit::TransportFailed
        | LoopExit::EncodeFailed
        | LoopExit::QueueFull
        | LoopExit::ChannelClosed => SessionEvent::TransportError,
    }
}

/// Turns the end of the receive loop into the event that ends the session.
pub fn on_loop_exit(exit: LoopExit) -> (event: SessionEvent)
    ensures
        event == exit_event(exit),
        SessionState::ends_session(event),
{
    match exit {
        LoopExit::PeerClosed | LoopExit::StreamEnded => SessionEvent::PeerClosed,
        LoopExit::Cancelled => SessionEvent::ShutdownRequested,
        LoopExit::TransportFailed
        | LoopExit::EncodeFailed
        | LoopExit::QueueFull
        | LoopExit::ChannelClosed => SessionEvent::TransportError,
    }
}

/// Teardown makes the vehicle safe first: whatever events arrive, a session
/// that has got beyond running has been told to drain, and so has one that is
/// terminated.
pub proof fn lemma_no_teardown_without_drain(events: Seq<SessionEvent>)
    ensures
        SessionState::Created.trace(events).0.rank() >= 2 ==> SessionState::Created.trace(
            events,
        ).1.contains(SessionAction::Drain),
    decreases events.len(),
{
    if events.len() > 0 {
        lemma_no_teardown_without_drain(events.drop_last());
        let (before, actions) = SessionState::Created.trace(events.drop_last());
        let (after, action) = before.next(events.last());
        let all = actions.push(action);
        if before.rank() >= 2 {
            let i = choose|i: int| 0 <= i < actions.len() && actions[i] == SessionAction::Drain;
            assert(all[i] == SessionAction::Drain);
        } else if after.rank() >= 2 {
            assert(all[all.len() - 1] == SessionAction::Drain);
        }
    }
}

/// The commands that put the vehicle at rest and end its controller: zero
/// thrust, zero steer, then `End`.
pub fn drain_commands() -> (commands: [MotorCommand; 3])
    ensures
        commands@ == seq![
            MotorCommand::Thrust(Scalar::zero()),
            MotorCommand::Steer(Scalar::zero()),
            MotorCommand::End,
        ],
{
    let commands = [
        MotorCommand::Thrust(Scalar::new_zero()),
        MotorCommand::Steer(Scalar::new_zero()),
        MotorCommand::End,
    ];
    assert(commands@ =~= seq![
        MotorCommand::Thrust(Scalar::zero()),
        MotorCommand::Steer(Scalar::zero()),
        MotorCommand::End,
    ]);
    commands
}

/// The commands an operator sends for one reading of the controls: thrust
/// first, then steer.
pub fn control_commands(thrust: Scalar, steer: Scalar) -> (commands: [GoliathCommand; 2])
    ensures
        commands@ == seq![
            GoliathCommand::Motor(MotorCommand::Thrust(thrust)),
            GoliathCommand::Motor(MotorCommand::Steer(steer)),
        ],
{
    let commands = [
        GoliathCommand::Motor(MotorCommand::Thrust(thrust)),
        GoliathCommand::Motor(MotorCommand::Steer(steer)),
    ];
    assert(commands@ =~= seq![
        GoliathCommand::Motor(MotorCommand::Thrust(thrust)),
        GoliathCommand::Motor(MotorCommand::Steer(steer)),
    ]);
    commands
}

/// The commands an operator sends when its session ends: zero thrust, then
/// zero steer.
pub fn parking_commands() -> (commands: [GoliathCommand; 2])
    ensures
        commands@ == seq![
            GoliathCommand::Motor(MotorCommand::Thrust(Scalar::zero())),
            GoliathCommand::Motor(MotorCommand::Steer(Scalar::zero())),
        ],
{
    control_commands(Scalar::new_zero(), Scalar::new_zero())
}

} // verus!
