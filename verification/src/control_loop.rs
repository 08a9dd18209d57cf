//! The control loop: commands to the pyro channels, and their state for telemetry.
use vstd::prelude::*;

use crate::pyro_channel::{Level, Pin, PinWrite, PyroChannel, PyroState};

verus! {

/// How often the state is sent, in milliseconds.
pub const CTRL_LOOP_TM_INTERVAL_MS: u64 = 500;

/// How long a fire command holds the loop, in milliseconds.
pub const FIRE_CMD_HOLD_MS: u64 = 400;

/// A pyro channel, as commands name it.
#[derive(Clone, Copy, Debug, PartialEq, Eq, Structural)]
pub enum Ch {
    Channel1,
    Channel2,
}

/// A command to a pyro channel.
#[derive(Clone, Copy, Debug, PartialEq, Eq, Structural)]
pub enum PyroCommand {
    Arm(Ch),
    Disarm(Ch),
    Fire(Ch),
}

/// The state of both channels, as telemetry reports it.
#[derive(Clone, Copy, Debug, PartialEq, Eq, Structural)]
pub struct StateFlags {
    pub armd_a: bool,
    pub fire_a: bool,
    pub armd_b: bool,
    pub fire_b: bool,
}

/// What wakes the loop.
#[derive(Clone, Copy, Debug, PartialEq, Eq, Structural)]
pub enum LoopEvent {
    /// The telemetry interval is over.
    Tick,
    /// A command has come in.
    Command(PyroCommand),
}

/// What is left to do.
#[derive(Clone, Copy, Debug, PartialEq, Eq, Structural)]
pub enum LoopAction {
    /// Nothing.
    Wait,
    /// Drive a pin of the channel.
    Write { channel: Ch, write: PinWrite },
    /// Send the state.
    SendState(StateFlags),
    /// Hold the loop for `millis`, then call `hold_elapsed` for the channel.
    HoldThenReset { channel: Ch, millis: u64 },
}

/// The state of both channels.
#[derive(Clone, Copy, Debug, PartialEq, Eq, Structural)]
pub struct ControlState {
    pub a: PyroState,
    pub b: PyroState,
}

impl ControlState {
    pub open spec fn get(self, channel: Ch) -> PyroState {
        match channel {
            Ch::Channel1 => self.a,
            Ch::Channel2 => self.b,
        }
    }

    pub open spec fn with(self, channel: Ch, state: PyroState) -> Self {
        match channel {
            Ch::Channel1 => ControlState { a: state, ..self },
            Ch::Channel2 => ControlState { b: state, ..self },
        }
    }

    pub open spec fn flags(self) -> StateFlags {
        StateFlags {
            armd_a: self.a.is_armed(),
            fire_a: self.a.fired,
            armd_b: self.b.is_armed(),
            fire_b: self.b.fired,
        }
    }

    /// The state right after a command came in.
    pub open spec fn commanded(self, cmd: PyroCommand) -> Self {
        match cmd {
            PyroCommand::Arm(channel) => self.with(channel, self.get(channel).armed()),
            PyroCommand::Disarm(channel) => self.with(channel, self.get(channel).disarmed()),
            PyroCommand::Fire(channel) => self,
        }
    }

    /// What is left to do of a command.
    pub open spec fn follow_up(self, cmd: PyroCommand) -> LoopAction {
        match cmd {
            PyroCommand::Arm(channel) => write_action(
                channel,
                self.get(channel).safe_write(Level::High),
            ),
            PyroCommand::Disarm(channel) => write_action(
                channel,
                self.get(channel).safe_write(Level::Low),
            ),
            PyroCommand::Fire(channel) => LoopAction::HoldThenReset {
                channel,
                millis: FIRE_CMD_HOLD_MS,
            },
        }
    }

    /// The state once a command was worked off.
    pub open spec fn completed(self, cmd: PyroCommand) -> Self {
        match cmd {
            PyroCommand::Fire(channel) => self.with(channel, self.get(channel).reset()),
            _ => self.commanded(cmd),
        }
    }

    /// The state once a number of commands were worked off.
    pub open spec fn completed_all(self, cmds: Seq<PyroCommand>) -> Self
        decreases cmds.len(),
    {
        if cmds.len() == 0 {
            self
        } else {
            self.completed_all(cmds.drop_last()).completed(cmds.last())
        }
    }
}

/// The action for what a channel asked for.
pub open spec fn write_action(channel: Ch, write: Option<PinWrite>) -> LoopAction {
    match write {
        Some(write) => LoopAction::Write { channel, write },
        None => LoopAction::Wait,
    }
}

/// The action for what a channel asked for.
fn to_action(channel: Ch, write: Option<PinWrite>) -> (action: LoopAction)
    ensures
        action == write_action(channel, write),
{
    match write {
        Some(write) => LoopAction::Write { channel, write },
        None => LoopAction::Wait,
    }
}

/// The two channels under control.
pub struct ControlLoop {
    pyro_channel_a: PyroChannel,
    pyro_channel_b: PyroChannel,
}

impl View for ControlLoop {
    type V = ControlState;

    closed spec fn view(&self) -> ControlState {
        ControlState { a: self.pyro_channel_a@, b: self.pyro_channel_b@ }
    }
}

impl ControlLoop {
    pub fn spawn(pyro_channel_a: PyroChannel, pyro_channel_b: PyroChannel) -> (spawned: Self)
        ensures
            spawned@ == (ControlState { a: pyro_channel_a@, b: pyro_channel_b@ }),
    {
        ControlLoop { pyro_channel_a, pyro_channel_b }
    }

    /// Starts on a command. A fire command drives no pin: it holds the loop, after which
    /// the channel is reset.
    pub fn handle_cmd(&mut self, cmd: PyroCommand) -> (action: LoopAction)
        ensures
            final(self)@ == old(self)@.commanded(cmd),
            action == old(self)@.follow_up(cmd),
    {
        match cmd {
            PyroCommand::Arm(channel) => {
                let write = match channel {
                    Ch::Channel1 => self.pyro_channel_a.arm(),
                    Ch::Channel2 => self.pyro_channel_b.arm(),
                };
                to_action(channel, write)
            },
            PyroCommand::Disarm(channel) => {
                let write = match channel {
                    Ch::Channel1 => self.pyro_channel_a.disarm(),
                    Ch::Channel2 => self.pyro_channel_b.disarm(),
                };
                to_action(channel, write)
            },
            PyroCommand::Fire(channel) => LoopAction::HoldThenReset {
                channel,
                millis: FIRE_CMD_HOLD_MS,
            },
        }
    }

    /// Ends a fire command, once the loop was held for it.
    pub fn hold_elapsed(&mut self, channel: Ch)
        ensures
            final(self)@ == old(self)@.with(channel, old(self)@.get(channel).reset()),
    {
        match channel {
            Ch::Channel1 => self.pyro_channel_a.reset(),
            Ch::Channel2 => self.pyro_channel_b.reset(),
        }
    }

    /// The state to be sent.
    pub fn state(&self) -> (flags: StateFlags)
        ensures
            flags == self@.flags(),
    {
        StateFlags {
            armd_a: self.pyro_channel_a.is_armed(),
            fire_a: self.pyro_channel_a.is_fired(),
            armd_b: self.pyro_channel_b.is_armed(),
            fire_b: self.pyro_channel_b.is_fired(),
        }
    }

    /// One turn of the loop.
    pub fn handle_event(&mut self, event: LoopEvent) -> (action: LoopAction)
        ensures
            event is Tick ==> final(self)@ == old(self)@ && action == LoopAction::SendState(
                old(self)@.flags(),
            ),
            event matches LoopEvent::Command(cmd) ==> final(self)@ == old(self)@.commanded(cmd)
                && action == old(self)@.follow_up(cmd),
    {
        match event {
            LoopEvent::Tick => LoopAction::SendState(self.state()),
            LoopEvent::Command(cmd) => self.handle_cmd(cmd),
        }
    }
}

/// The channel that a command is for.
pub open spec fn target(cmd: PyroCommand) -> Ch {
    match cmd {
        PyroCommand::Arm(channel) => channel,
        PyroCommand::Disarm(channel) => channel,
        PyroCommand::Fire(channel) => channel,
    }
}

/// A command to one channel leaves the other as it is.
pub proof fn law_channels_are_independent(s: ControlState, cmd: PyroCommand, other: Ch)
    requires
        other != target(cmd),
    ensures
        s.commanded(cmd).get(other) == s.get(other),
        s.completed(cmd).get(other) == s.get(other),
{
}

/// Working a command off is starting on it and, where the loop is to be held, resetting
/// the channel after that.
pub proof fn law_completion(s: ControlState, cmd: PyroCommand)
    ensures
        s.completed(cmd) == match s.follow_up(cmd) {
            LoopAction::HoldThenReset { channel, millis } => s.commanded(cmd).with(
                channel,
                s.commanded(cmd).get(channel).reset(),
            ),
            _ => s.commanded(cmd),
        },
{
}

/// The flags of a channel after a command to it: armed by `Arm` and not by `Disarm`,
/// unless it has fired, and never fired after `Fire`.
pub proof fn law_flags_follow_commands(s: ControlState, channel: Ch)
    ensures
        s.completed(PyroCommand::Arm(channel)).get(channel).is_armed() == !s.get(channel).fired,
        !s.completed(PyroCommand::Disarm(channel)).get(channel).is_armed(),
        !s.completed(PyroCommand::Fire(channel)).get(channel).fired,
        s.completed(PyroCommand::Fire(channel)).get(channel).safe == s.get(channel).safe,
{
}

/// Whatever commands come in, no fire pin moves, and a channel that has not fired
/// stays so.
pub proof fn law_commands_never_fire(s: ControlState, cmds: Seq<PyroCommand>, channel: Ch)
    ensures
        s.completed_all(cmds).get(channel).fire == s.get(channel).fire,
        s.completed_all(cmds).get(channel).fired ==> s.get(channel).fired,
    decreases cmds.len(),
{
    if cmds.len() > 0 {
        law_commands_never_fire(s, cmds.drop_last(), channel);
    }
}

/// The pins of the channels are where the writes that commands asked for have put them.
/// No command asks for a write to a fire pin.
pub proof fn law_writes_move_the_pins(s: ControlState, cmd: PyroCommand)
    ensures
        match s.follow_up(cmd) {
            LoopAction::Write { channel, write } => {
                &&& write.pin == Pin::Safe
                &&& s.commanded(cmd) == s.with(channel, s.get(channel).written(write))
            },
            _ => s.commanded(cmd) == s,
        },
{
}

/// Whatever commands come in, a channel that has fired has both pins low.
pub proof fn law_fired_is_safe(s: ControlState, cmds: Seq<PyroCommand>, channel: Ch)
    requires
        s.get(channel).wf(),
    ensures
        s.completed_all(cmds).get(channel).wf(),
    decreases cmds.len(),
{
    if cmds.len() > 0 {
        law_fired_is_safe(s, cmds.drop_last(), channel);
    }
}

/// While it has not fired, a channel is armed just if the last `Arm` or `Disarm` to it
/// was an `Arm`.
pub proof fn law_last_command_decides(
    s: ControlState,
    cmds: Seq<PyroCommand>,
    channel: Ch,
    at: int,
)
    requires
        !s.get(channel).fired,
        0 <= at < cmds.len(),
        cmds[at] == PyroCommand::Arm(channel) || cmds[at] == PyroCommand::Disarm(channel),
        forall|k: int|
            at < k < cmds.len() ==> #[trigger] cmds[k] != PyroCommand::Arm(channel) && cmds[k]
                != PyroCommand::Disarm(channel),
    ensures
        s.completed_all(cmds).get(channel).is_armed() <==> cmds[at] == PyroCommand::Arm(channel),
    decreases cmds.len(),
{
    let before = cmds.drop_last();
    law_commands_never_fire(s, before, channel);
    if at < cmds.len() - 1 {
        law_last_command_decides(s, before, channel, at);
    }
}

/// What the flags say: of each channel, whether its safe pin is high while it has not fired,
/// and whether it has fired.
pub proof fn law_flags(s: ControlState)
    ensures
        s.flags().armd_a <==> s.a.safe == Level::High && !s.a.fired,
        s.flags().fire_a <==> s.a.fired,
        s.flags().armd_b <==> s.b.safe == Level::High && !s.b.fired,
        s.flags().fire_b <==> s.b.fired,
{
}

/// What `Arm` does: it raises the safe pin of its channel, unless that has fired.
pub proof fn law_arm_command(s: ControlState, channel: Ch)
    ensures
        ({
            let t = s.commanded(PyroCommand::Arm(channel));
            let (old_state, new_state, other_old, other_new) = match channel {
                Ch::Channel1 => (s.a, t.a, s.b, t.b),
                Ch::Channel2 => (s.b, t.b, s.a, t.a),
            };
            &&& other_new == other_old
            &&& new_state.fire == old_state.fire && new_state.fired == old_state.fired
            &&& old_state.fired ==> new_state == old_state && s.follow_up(
                PyroCommand::Arm(channel),
            ) == LoopAction::Wait
            &&& !old_state.fired ==> new_state.safe is High && s.follow_up(
                PyroCommand::Arm(channel),
            ) == (LoopAction::Write {
                channel,
                write: PinWrite { pin: Pin::Safe, level: Level::High },
            })
        }),
{
}

/// What `Disarm` does: it lowers the safe pin of its channel, unless that has fired.
pub proof fn law_disarm_command(s: ControlState, channel: Ch)
    ensures
        ({
            let t = s.commanded(PyroCommand::Disarm(channel));
            let (old_state, new_state, other_old, other_new) = match channel {
                Ch::Channel1 => (s.a, t.a, s.b, t.b),
                Ch::Channel2 => (s.b, t.b, s.a, t.a),
            };
            &&& other_new == other_old
            &&& new_state.fire == old_state.fire && new_state.fired == old_state.fired
            &&& old_state.fired ==> new_state == old_state && s.follow_up(
                PyroCommand::Disarm(channel),
            ) == LoopAction::Wait
            &&& !old_state.fired ==> new_state.safe is Low && s.follow_up(
                PyroCommand::Disarm(channel),
            ) == (LoopAction::Write {
                channel,
                write: PinWrite { pin: Pin::Safe, level: Level::Low },
            })
        }),
{
}

/// What `Fire` does: it changes nothing and holds the loop for 400 ms. After that its channel
/// has not fired, and no pin has moved.
pub proof fn law_fire_command(s: ControlState, channel: Ch)
    ensures
        s.commanded(PyroCommand::Fire(channel)) == s,
        s.follow_up(PyroCommand::Fire(channel)) == (LoopAction::HoldThenReset {
            channel,
            millis: 400,
        }),
        ({
            let t = s.completed(PyroCommand::Fire(channel));
            let held = s.with(channel, s.get(channel).reset());
            &&& t == held
            &&& t.a.safe == s.a.safe && t.a.fire == s.a.fire
            &&& t.b.safe == s.b.safe && t.b.fire == s.b.fire
            &&& t.a.fired <==> s.a.fired && channel != Ch::Channel1
            &&& t.b.fired <==> s.b.fired && channel != Ch::Channel2
        }),
{
}

/// The state is sent every 500 ms.
pub proof fn law_telemetry_interval()
    ensures
        CTRL_LOOP_TM_INTERVAL_MS == 500,
{
}

} // verus!
