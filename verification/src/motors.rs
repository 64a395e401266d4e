//! The motor controller's decisions.
//!
//! Commands arrive in bursts over the network. The controller applies each to
//! its record of thrust and steer at once, but writes to the actuators only
//! now and then: after every fifth command since the last write, and whenever
//! it finds its channel empty. `End` and a lost channel both stop the tracks.
//!
//! The loop that polls the channel and drives the pins lives outside this
//! library. It hands each poll result to `MotorsController::on_poll` and does
//! what the returned action says.

use crate::messages::{MotorCommand, Scalar};
use vstd::prelude::*;

verus! {

/// The number of commands after which the actuators are written at the latest.
pub const FLUSH_EVERY: u32 = 5;

/// What a poll of the command channel found.
#[derive(Copy, Clone, Debug, PartialEq, Eq)]
pub enum ChannelPoll {
    Command(MotorCommand),
    /// Nothing is waiting.
    Empty,
    /// Every sender is gone.
    Disconnected,
}

/// What the loop has to do after a poll.
#[derive(Copy, Clone, Debug, PartialEq, Eq)]
pub enum MotorAction {
    /// Nothing; poll again.
    Wait,
    /// Write thrust and steer to the tracks, then poll again.
    Flush,
    /// Write the zeroed thrust and steer to the tracks and leave the loop
    /// without an error.
    Shutdown,
    /// Write the zeroed thrust and steer to the tracks and leave the loop,
    /// reporting that the channel is gone.
    EmergencyStop,
}

/// Thrust and steer of the two tracks.
#[derive(Copy, Clone, Debug, PartialEq, Eq)]
pub struct TracksDriver {
    thrust: Scalar,
    steer: Scalar,
}

impl TracksDriver {
    pub closed spec fn spec_thrust(&self) -> Scalar {
        self.thrust
    }

    pub closed spec fn spec_steer(&self) -> Scalar {
        self.steer
    }

    /// Thrust and steer both lie in `[-1, 1]`.
    pub open spec fn wf(&self) -> bool {
        self.spec_thrust().in_unit_range() && self.spec_steer().in_unit_range()
    }

    /// Tracks at rest.
    pub fn new() -> (tracks: Self)
        ensures
            tracks.wf(),
            tracks.spec_thrust() == Scalar::zero(),
            tracks.spec_steer() == Scalar::zero(),
    {
        TracksDriver { thrust: Scalar::new_zero(), steer: Scalar::new_zero() }
    }

    pub fn set_thrust(&mut self, thrust: Scalar)
        requires
            thrust.in_unit_range(),
        ensures
            final(self).spec_thrust() == thrust,
            final(self).spec_steer() == old(self).spec_steer(),
    {
        self.thrust = thrust;
    }

    pub fn set_steer(&mut self, steer: Scalar)
        requires
            steer.in_unit_range(),
        ensures
            final(self).spec_steer() == steer,
            final(self).spec_thrust() == old(self).spec_thrust(),
    {
        self.steer = steer;
    }

    #[verifier::when_used_as_spec(spec_thrust)]
    pub fn thrust(&self) -> (thrust: Scalar)
        ensures
            thrust == self.spec_thrust(),
    {
        self.thrust
    }

    #[verifier::when_used_as_spec(spec_steer)]
    pub fn steer(&self) -> (steer: Scalar)
        ensures
            steer == self.spec_steer(),
    {
        self.steer
    }
}

/// The controller as plain values.
pub struct ControllerState {
    pub thrust: Scalar,
    pub steer: Scalar,
    /// Whether thrust or steer was set since the last write to the actuators.
    pub modified: bool,
    /// The number of commands applied since the last write or empty poll.
    pub count: nat,
}

impl ControllerState {
    /// Tracks at rest, nothing pending.
    pub open spec fn at_rest() -> ControllerState {
        ControllerState { thrust: Scalar::zero(), steer: Scalar::zero(), modified: false, count: 0 }
    }

    /// The state with one more command applied. Nothing is written yet.
    pub open spec fn applied(self, command: MotorCommand) -> ControllerState {
        let counted = ControllerState { count: self.count + 1, ..self };
        match command {
            MotorCommand::Thrust(thrust) => ControllerState { thrust, modified: true, ..counted },
            MotorCommand::Steer(steer) => ControllerState { steer, modified: true, ..counted },
            MotorCommand::TurretAngle(_) => counted,
            MotorCommand::End => counted,
        }
    }

    /// The state after a write to the actuators, or after the chance of one.
    pub open spec fn settled(self) -> ControllerState {
        ControllerState { modified: false, count: 0, ..self }
    }

    /// What is due when the controller may write: a write if something
    /// changed, else nothing.
    pub open spec fn due(self) -> MotorAction {
        if self.modified {
            MotorAction::Flush
        } else {
            MotorAction::Wait
        }
    }

    /// One turn of the control loop: the next state and the action.
    pub open spec fn step(self, poll: ChannelPoll) -> (ControllerState, MotorAction) {
        match poll {
            ChannelPoll::Command(MotorCommand::End) => (
                ControllerState::at_rest(),
                MotorAction::Shutdown,
            ),
            ChannelPoll::Command(command) => {
                let next = self.applied(command);
                if next.count >= FLUSH_EVERY {
                    (next.settled(), next.due())
                } else {
                    (next, MotorAction::Wait)
                }
            },
            ChannelPoll::Empty => (self.settled(), self.due()),
            ChannelPoll::Disconnected => (ControllerState::at_rest(), MotorAction::EmergencyStop),
        }
    }

    /// The state after a burst of commands with no empty poll between them,
    /// and the number of writes to the actuators during the burst.
    pub open spec fn burst(self, commands: Seq<MotorCommand>) -> (ControllerState, nat)
        decreases commands.len(),
    {
        if commands.len() == 0 {
            (self, 0)
        } else {
            let (before, writes) = self.burst(commands.drop_last());
            let (after, action) = before.step(ChannelPoll::Command(commands.last()));
            (
                after,
                if action is Flush {
                    writes + 1
                } else {
                    writes
                },
            )
        }
    }
}

/// Coalescing: a burst of thrust and steer commands that starts right after a
/// write causes one write for every five commands. As this holds of every
/// beginning of the burst, the writes come after the fifth command, the
/// tenth, and so on. What is left over, fewer than five commands, is pending,
/// and the next empty poll writes it.
pub proof fn lemma_burst_writes(state: ControllerState, commands: Seq<MotorCommand>)
    requires
        state.count == 0,
        !state.modified,
        forall|i: int|
            0 <= i < commands.len() ==> (#[trigger] commands[i] is Thrust || commands[i] is Steer),
    ensures
        state.burst(commands).1 == commands.len() / 5,
        state.burst(commands).0.count == commands.len() % 5,
        state.burst(commands).0.modified == (commands.len() % 5 != 0),
        state.burst(commands).0.step(ChannelPoll::Empty).1 == (if commands.len() % 5 != 0 {
            MotorAction::Flush
        } else {
            MotorAction::Wait
        }),
    decreases commands.len(),
{
    if commands.len() > 0 {
        let head = commands.drop_last();
        lemma_burst_writes(state, head);
        assert(commands.last() == commands[commands.len() - 1]);
    }
}

/// `End` and a lost channel stop the tracks whatever came before: the state is
/// at rest and the action is the terminal write.
pub proof fn lemma_terminal_stop(state: ControllerState)
    ensures
        state.step(ChannelPoll::Command(MotorCommand::End)) == (
            ControllerState::at_rest(),
            MotorAction::Shutdown,
        ),
        state.step(ChannelPoll::Disconnected) == (
            ControllerState::at_rest(),
            MotorAction::EmergencyStop,
        ),
{
}

pub struct MotorsController {
    tracks_driver: TracksDriver,
    modified_tracks: bool,
    msg_count: u32,
}

impl View for MotorsController {
    type V = ControllerState;

    closed spec fn view(&self) -> ControllerState {
        ControllerState {
            thrust: self.tracks_driver.spec_thrust(),
            steer: self.tracks_driver.spec_steer(),
            modified: self.modified_tracks,
            count: self.msg_count as nat,
        }
    }
}

impl MotorsController {
    /// Thrust and steer lie in `[-1, 1]`, and fewer than five commands are
    /// pending.
    pub open spec fn wf(&self) -> bool {
        &&& self@.thrust.in_unit_range()
        &&& self@.steer.in_unit_range()
        &&& self@.count < FLUSH_EVERY
    }

    /// A controller with the tracks at rest.
    pub fn new() -> (controller: Self)
        ensures
            controller.wf(),
            controller@ == ControllerState::at_rest(),
    {
        MotorsController { tracks_driver: TracksDriver::new(), modified_tracks: false, msg_count: 0 }
    }

    /// The tracks as they are to be written at the next flush.
    pub fn tracks(&self) -> (tracks: TracksDriver)
        requires
            self.wf(),
        ensures
            tracks.wf(),
            tracks.spec_thrust() == self@.thrust,
            tracks.spec_steer() == self@.steer,
    {
        self.tracks_driver
    }

    /// Takes one poll result and says what the loop has to do.
    ///
    /// The command has to keep thrust and steer in `[-1, 1]`; test it with
    /// `MotorCommand::is_in_range` first.
    pub fn on_poll(&mut self, poll: ChannelPoll) -> (action: MotorAction)
        requires
            old(self).wf(),
            poll matches ChannelPoll::Command(command) ==> command.in_range(),
        ensures
            final(self).wf(),
            (final(self)@, action) == old(self)@.step(poll),
    {
        match poll {
            ChannelPoll::Command(command) => {
                match command {
                    MotorCommand::Thrust(thrust) => {
                        self.tracks_driver.set_thrust(thrust);
                        self.modified_tracks = true;
                    },
                    MotorCommand::Steer(steer) => {
                        self.tracks_driver.set_steer(steer);
                        self.modified_tracks = true;
                    },
                    MotorCommand::TurretAngle(_) => {},
                    MotorCommand::End => {
                        return self.stop(MotorAction::Shutdown);
                    },
                }
                self.msg_count += 1;
                if self.msg_count >= FLUSH_EVERY {
                    self.settle()
                } else {
                    MotorAction::Wait
                }
            },
            ChannelPoll::Empty => self.settle(),
            ChannelPoll::Disconnected => self.stop(MotorAction::EmergencyStop),
        }
    }

    /// Says whether a write is due and starts a new count.
    fn settle(&mut self) -> (action: MotorAction)
        ensures
            action == old(self)@.due(),
            final(self)@ == old(self)@.settled(),
    {
        let action = if self.modified_tracks {
            MotorAction::Flush
        } else {
            MotorAction::Wait
        };
        self.modified_tracks = false;
        self.msg_count = 0;
        action
    }

    /// Puts the tracks at rest.
    fn stop(&mut self, action: MotorAction) -> (r: MotorAction)
        ensures
            r == action,
            final(self)@ == ControllerState::at_rest(),
    {
        self.tracks_driver.set_thrust(Scalar::new_zero());
        self.tracks_driver.set_steer(Scalar::new_zero());
        self.modified_tracks = false;
        self.msg_count = 0;
        action
    }
}

} // verus!
