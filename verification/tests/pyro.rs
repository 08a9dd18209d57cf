use pyro_fw::control_loop::{
    Ch, ControlLoop, LoopAction, LoopEvent, PyroCommand, StateFlags,
};
use pyro_fw::pyro_channel::{Level, Pin, PinWrite, PyroChannel};

fn channel() -> PyroChannel {
    PyroChannel::new(Level::Low, Level::Low)
}

fn safe(level: Level) -> PinWrite {
    PinWrite { pin: Pin::Safe, level }
}

fn fire(level: Level) -> PinWrite {
    PinWrite { pin: Pin::Fire, level }
}

fn control_loop() -> ControlLoop {
    ControlLoop::spawn(channel(), channel())
}

/// Works a command off, as the loop does.
fn complete(control: &mut ControlLoop, cmd: PyroCommand) -> LoopAction {
    let action = control.handle_cmd(cmd);
    if let LoopAction::HoldThenReset { channel, .. } = action {
        control.hold_elapsed(channel);
    }
    action
}

const NONE: StateFlags = StateFlags { armd_a: false, fire_a: false, armd_b: false, fire_b: false };

#[test]
fn new_channel_is_neither_armed_nor_fired() {
    let c = channel();
    assert!(!c.is_armed());
    assert!(!c.is_fired());
    assert!(PyroChannel::new(Level::High, Level::Low).is_armed());
}

#[test]
fn arm_and_disarm_move_the_safe_pin() {
    let mut c = channel();
    assert_eq!(c.arm(), Some(safe(Level::High)));
    assert!(c.is_armed());
    assert_eq!((c.safe_level(), c.fire_level()), (Level::High, Level::Low));
    c.arm();
    assert!(c.is_armed());
    assert_eq!(c.disarm(), Some(safe(Level::Low)));
    assert!(!c.is_armed());
    assert_eq!((c.safe_level(), c.fire_level()), (Level::Low, Level::Low));
}

#[test]
fn firing_holds_the_fire_pin() {
    let mut c = channel();
    c.arm();
    assert_eq!(c.fire(), Some((fire(Level::High), 400)));
    assert_eq!((c.safe_level(), c.fire_level()), (Level::High, Level::High));
    assert!(!c.is_fired());
    // The fire pin falls before the safe pin.
    assert_eq!(c.fire_held(), [fire(Level::Low), safe(Level::Low)]);
    assert_eq!((c.safe_level(), c.fire_level()), (Level::Low, Level::Low));
    assert!(c.is_fired());
    assert!(!c.is_armed());
}

#[test]
fn fired_channel_takes_no_request_until_reset() {
    let mut c = channel();
    c.fire();
    c.fire_held();
    assert_eq!(c.arm(), None);
    assert_eq!(c.safe_level(), Level::Low);
    assert_eq!(c.disarm(), None);
    assert_eq!(c.fire(), None);
    assert_eq!(c.fire_level(), Level::Low);
    assert!(c.is_fired());
    c.reset();
    assert!(!c.is_fired());
    c.arm();
    assert!(c.is_armed());
}

#[test]
fn writes_move_the_pins() {
    let mut c = channel();
    let (mut safe_pin, mut fire_pin) = (Level::Low, Level::Low);
    let mut drive = |write: PinWrite| {
        match write.pin {
            Pin::Safe => safe_pin = write.level,
            Pin::Fire => fire_pin = write.level,
        }
        (safe_pin, fire_pin)
    };
    assert_eq!(drive(c.arm().unwrap()), (c.safe_level(), c.fire_level()));
    assert_eq!(drive(c.disarm().unwrap()), (c.safe_level(), c.fire_level()));
    assert_eq!(drive(c.arm().unwrap()), (c.safe_level(), c.fire_level()));
    assert_eq!(drive(c.fire().unwrap().0), (Level::High, Level::High));
    let [first, second] = c.fire_held();
    assert_eq!(drive(first), (Level::High, Level::Low));
    assert_eq!(drive(second), (Level::Low, Level::Low));
    assert_eq!((c.safe_level(), c.fire_level()), (Level::Low, Level::Low));
}

#[test]
fn commands_arm_and_disarm_their_channel() {
    let mut control = control_loop();
    assert_eq!(control.state(), NONE);
    assert_eq!(
        control.handle_cmd(PyroCommand::Arm(Ch::Channel1)),
        LoopAction::Write { channel: Ch::Channel1, write: safe(Level::High) }
    );
    assert_eq!(control.state(), StateFlags { armd_a: true, ..NONE });
    assert_eq!(
        control.handle_cmd(PyroCommand::Arm(Ch::Channel2)),
        LoopAction::Write { channel: Ch::Channel2, write: safe(Level::High) }
    );
    assert_eq!(control.state(), StateFlags { armd_a: true, armd_b: true, ..NONE });
    assert_eq!(
        control.handle_cmd(PyroCommand::Disarm(Ch::Channel1)),
        LoopAction::Write { channel: Ch::Channel1, write: safe(Level::Low) }
    );
    assert_eq!(control.state(), StateFlags { armd_b: true, ..NONE });
}

#[test]
fn fire_command_holds_and_resets_without_moving_a_pin() {
    let mut control = control_loop();
    control.handle_cmd(PyroCommand::Arm(Ch::Channel2));
    let before = control.state();
    let action = control.handle_cmd(PyroCommand::Fire(Ch::Channel2));
    assert_eq!(action, LoopAction::HoldThenReset { channel: Ch::Channel2, millis: 400 });
    assert_eq!(before, control.state());
    control.hold_elapsed(Ch::Channel2);
    assert_eq!(before, control.state());
}

#[test]
fn fire_command_resets_a_fired_channel() {
    let mut fired = channel();
    fired.fire();
    fired.fire_held();
    let mut control = ControlLoop::spawn(fired, channel());
    assert_eq!(control.state(), StateFlags { fire_a: true, ..NONE });
    assert_eq!(complete(&mut control, PyroCommand::Arm(Ch::Channel1)), LoopAction::Wait);
    assert_eq!(complete(&mut control, PyroCommand::Disarm(Ch::Channel1)), LoopAction::Wait);
    assert_eq!(control.state(), StateFlags { fire_a: true, ..NONE });
    complete(&mut control, PyroCommand::Fire(Ch::Channel2));
    assert_eq!(control.state(), StateFlags { fire_a: true, ..NONE });
    complete(&mut control, PyroCommand::Fire(Ch::Channel1));
    assert_eq!(control.state(), NONE);
    complete(&mut control, PyroCommand::Arm(Ch::Channel1));
    assert_eq!(control.state(), StateFlags { armd_a: true, ..NONE });
}

#[test]
fn ticks_send_the_state() {
    let mut control = control_loop();
    assert_eq!(control.handle_event(LoopEvent::Tick), LoopAction::SendState(NONE));
    assert_eq!(
        control.handle_event(LoopEvent::Command(PyroCommand::Arm(Ch::Channel1))),
        LoopAction::Write { channel: Ch::Channel1, write: safe(Level::High) }
    );
    assert_eq!(
        control.handle_event(LoopEvent::Tick),
        LoopAction::SendState(StateFlags { armd_a: true, ..NONE })
    );
    assert_eq!(
        control.handle_event(LoopEvent::Command(PyroCommand::Fire(Ch::Channel1))),
        LoopAction::HoldThenReset { channel: Ch::Channel1, millis: 400 }
    );
}

#[test]
fn no_run_of_commands_moves_a_fire_pin() {
    let mut control = control_loop();
    let cmds = [
        PyroCommand::Arm(Ch::Channel1),
        PyroCommand::Fire(Ch::Channel1),
        PyroCommand::Disarm(Ch::Channel1),
        PyroCommand::Fire(Ch::Channel2),
        PyroCommand::Arm(Ch::Channel2),
        PyroCommand::Fire(Ch::Channel2),
    ];
    for cmd in cmds {
        if let LoopAction::Write { write, .. } = complete(&mut control, cmd) {
            assert_eq!(write.pin, Pin::Safe);
        }
        assert!(!control.state().fire_a && !control.state().fire_b);
    }
    assert_eq!(control.state(), StateFlags { armd_b: true, ..NONE });
}
