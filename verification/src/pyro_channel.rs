//! One pyro channel: a safe pin, a fire pin, and whether it has fired.
use vstd::prelude::*;

verus! {

/// How long the fire pin is held, in milliseconds.
pub const FIRE_DURATION_MS: u64 = 400;

/// The level that an output pin is driven to.
#[derive(Clone, Copy, Debug, PartialEq, Eq, Structural)]
pub enum Level {
    Low,
    High,
}

/// The pins of a channel.
#[derive(Clone, Copy, Debug, PartialEq, Eq, Structural)]
pub enum Pin {
    Safe,
    Fire,
}

/// A pin that has to be driven to a level.
#[derive(Clone, Copy, Debug, PartialEq, Eq, Structural)]
pub struct PinWrite {
    pub pin: Pin,
    pub level: Level,
}

/// What firing asks for, step by step.
#[derive(Clone, Copy, Debug, PartialEq, Eq, Structural)]
pub enum FireStep {
    /// Drive a pin.
    Write(PinWrite),
    /// Wait for so many milliseconds.
    Hold(u64),
}

/// The writes that end the firing, in their order: the fire pin falls before the safe pin.
pub open spec fn burn_writes() -> Seq<PinWrite> {
    seq![
        PinWrite { pin: Pin::Fire, level: Level::Low },
        PinWrite { pin: Pin::Safe, level: Level::Low },
    ]
}

/// All there is to know of a channel.
#[derive(Clone, Copy, Debug, PartialEq, Eq, Structural)]
pub struct PyroState {
    pub safe: Level,
    pub fire: Level,
    pub fired: bool,
}

impl PyroState {
    /// A channel that has fired has both pins low.
    pub open spec fn wf(self) -> bool {
        self.fired ==> self.safe is Low && self.fire is Low
    }

    pub open spec fn is_armed(self) -> bool {
        self.safe is High && !self.fired
    }

    pub open spec fn armed(self) -> Self {
        if self.fired {
            self
        } else {
            PyroState { safe: Level::High, ..self }
        }
    }

    pub open spec fn disarmed(self) -> Self {
        if self.fired {
            self
        } else {
            PyroState { safe: Level::Low, ..self }
        }
    }

    /// The state in which the fire pin is held.
    pub open spec fn firing(self) -> Self {
        if self.fired {
            self
        } else {
            PyroState { fire: Level::High, ..self }
        }
    }

    /// The state once the fire pin was held long enough.
    pub open spec fn burnt(self) -> Self {
        PyroState { safe: Level::Low, fire: Level::Low, fired: true }
    }

    pub open spec fn reset(self) -> Self {
        PyroState { fired: false, ..self }
    }

    /// The write that an arming or disarming asks for.
    pub open spec fn safe_write(self, level: Level) -> Option<PinWrite> {
        if self.fired {
            None
        } else {
            Some(PinWrite { pin: Pin::Safe, level })
        }
    }

    /// The write that a firing starts with, and the milliseconds that it is held.
    pub open spec fn fire_write(self) -> Option<(PinWrite, u64)> {
        if self.fired {
            None
        } else {
            Some((PinWrite { pin: Pin::Fire, level: Level::High }, FIRE_DURATION_MS))
        }
    }

    /// The state with one pin driven.
    pub open spec fn written(self, write: PinWrite) -> Self {
        match write.pin {
            Pin::Safe => PyroState { safe: write.level, ..self },
            Pin::Fire => PyroState { fire: write.level, ..self },
        }
    }

    /// All that firing asks for, first to last.
    pub open spec fn fire_steps(self) -> Seq<FireStep> {
        match self.fire_write() {
            Some((write, millis)) => seq![FireStep::Write(write), FireStep::Hold(millis)]
                + burn_writes().map_values(|w: PinWrite| FireStep::Write(w)),
            None => seq![],
        }
    }
}

/// A pyro channel. The owner of the pins carries out the writes that its methods give, in
/// their order.
pub struct PyroChannel {
    safe: Level,
    fire: Level,
    fired: bool,
}

impl View for PyroChannel {
    type V = PyroState;

    closed spec fn view(&self) -> PyroState {
        PyroState { safe: self.safe, fire: self.fire, fired: self.fired }
    }
}

impl PyroChannel {
    #[verifier::type_invariant]
    spec fn inv(self) -> bool {
        self@.wf()
    }

    /// A channel that has not fired, on pins at the given levels.
    pub fn new(safe: Level, fire: Level) -> (created: Self)
        ensures
            created@ == (PyroState { safe, fire, fired: false }),
    {
        PyroChannel { safe, fire, fired: false }
    }

    /// The level of the safe pin.
    pub fn safe_level(&self) -> (level: Level)
        ensures
            level == self@.safe,
    {
        self.safe
    }

    /// The level of the fire pin.
    pub fn fire_level(&self) -> (level: Level)
        ensures
            level == self@.fire,
    {
        self.fire
    }

    pub fn is_armed(&self) -> (armed: bool)
        ensures
            armed == self@.is_armed(),
    {
        matches!(self.safe, Level::High) && !self.is_fired()
    }

    /// Whether the channel has fired; both its pins are low then.
    pub fn is_fired(&self) -> (fired: bool)
        ensures
            fired == self@.fired,
            fired ==> self@.safe is Low && self@.fire is Low,
    {
        proof {
            use_type_invariant(self);
        }
        self.fired
    }

    /// Raises the safe pin, unless the channel has fired.
    pub fn arm(&mut self) -> (write: Option<PinWrite>)
        ensures
            final(self)@ == old(self)@.armed(),
            write == old(self)@.safe_write(Level::High),
    {
        if self.is_fired() {
            return None;
        }
        self.safe = Level::High;
        Some(PinWrite { pin: Pin::Safe, level: Level::High })
    }

    /// Lowers the safe pin, unless the channel has fired.
    pub fn disarm(&mut self) -> (write: Option<PinWrite>)
        ensures
            final(self)@ == old(self)@.disarmed(),
            write == old(self)@.safe_write(Level::Low),
    {
        if self.is_fired() {
            return None;
        }
        self.safe = Level::Low;
        Some(PinWrite { pin: Pin::Safe, level: Level::Low })
    }

    /// Raises the fire pin and says for how many milliseconds it has to be held before
    /// `fire_held` is called. A channel that has fired is left alone, and nothing has to
    /// be written or held.
    pub fn fire(&mut self) -> (write: Option<(PinWrite, u64)>)
        ensures
            final(self)@ == old(self)@.firing(),
            write == old(self)@.fire_write(),
    {
        if self.is_fired() {
            return None;
        }
        self.fire = Level::High;
        Some((PinWrite { pin: Pin::Fire, level: Level::High }, FIRE_DURATION_MS))
    }

    /// Ends the firing: lowers the fire pin, then the safe pin, and remembers that the
    /// channel has fired.
    pub fn fire_held(&mut self) -> (writes: [PinWrite; 2])
        ensures
            final(self)@ == old(self)@.burnt(),
            writes@ == burn_writes(),
    {
        proof {
            use_type_invariant(&*self);
        }
        self.fire = Level::Low;
        self.safe = Level::Low;
        self.fired = true;
        let writes: [PinWrite; 2] = [
            PinWrite { pin: Pin::Fire, level: Level::Low },
            PinWrite { pin: Pin::Safe, level: Level::Low },
        ];
        assert(writes@ =~= burn_writes());
        writes
    }

    /// Forgets that the channel has fired.
    pub fn reset(&mut self)
        ensures
            final(self)@ == old(self)@.reset(),
    {
        self.fired = false;
    }
}

/// Until it is reset, a channel that has fired is not armed and takes no request.
pub proof fn law_fired_is_latched(s: PyroState)
    requires
        s.fired,
    ensures
        !s.is_armed(),
        s.armed() == s,
        s.disarmed() == s,
        s.firing() == s,
{
}

/// A channel that has not fired is armed after `arm` and not after `disarm`, and the
/// last of several such requests alone decides.
pub proof fn law_last_request_decides(s: PyroState)
    requires
        !s.fired,
    ensures
        s.armed().is_armed(),
        !s.disarmed().is_armed(),
        s.armed().armed() == s.armed(),
        s.disarmed().armed() == s.armed(),
        s.armed().disarmed() == s.disarmed(),
        s.disarmed().disarmed() == s.disarmed(),
{
}

/// Once fired, a channel has both pins low, whatever was requested before.
pub proof fn law_firing_ends_safe(s: PyroState)
    ensures
        s.firing().burnt() == (PyroState { safe: Level::Low, fire: Level::Low, fired: true }),
        !s.firing().burnt().is_armed(),
{
}

/// Firing a channel that has not fired writes the fire pin high, holds it for 400 ms,
/// writes the fire pin low and then the safe pin low, and nothing else. One that has fired
/// is asked for nothing.
pub proof fn law_firing_order(s: PyroState)
    ensures
        !s.fired ==> s.fire_steps() =~= seq![
            FireStep::Write(PinWrite { pin: Pin::Fire, level: Level::High }),
            FireStep::Hold(400),
            FireStep::Write(PinWrite { pin: Pin::Fire, level: Level::Low }),
            FireStep::Write(PinWrite { pin: Pin::Safe, level: Level::Low }),
        ],
        s.fired ==> s.fire_steps().len() == 0,
{
}

/// The pins of a channel are where the writes that it gave have put them.
pub proof fn law_writes_move_the_pins(s: PyroState)
    ensures
        s.safe_write(Level::High) matches Some(w) ==> s.written(w) == s.armed(),
        s.safe_write(Level::High) is None ==> s.armed() == s,
        s.safe_write(Level::Low) matches Some(w) ==> s.written(w) == s.disarmed(),
        s.safe_write(Level::Low) is None ==> s.disarmed() == s,
        s.fire_write() matches Some((w, _)) ==> s.written(w) == s.firing(),
        s.fire_write() is None ==> s.firing() == s,
        ({
            let fallen = s.written(burn_writes()[0]);
            let safe = fallen.written(burn_writes()[1]);
            &&& fallen.fire is Low && fallen.safe == s.safe
            &&& (PyroState { fired: true, ..safe }) == s.burnt()
        }),
{
}

/// Whatever is asked of it, a channel that has fired has both pins low.
pub proof fn law_fired_is_safe(s: PyroState)
    requires
        s.wf(),
    ensures
        s.armed().wf(),
        s.disarmed().wf(),
        s.firing().wf(),
        s.burnt().wf(),
        s.reset().wf(),
{
}

/// Only firing moves the fire pin.
pub proof fn law_only_firing_moves_the_fire_pin(s: PyroState)
    ensures
        s.armed().fire == s.fire,
        s.disarmed().fire == s.fire,
        s.reset().fire == s.fire,
{
}

/// A reset lets a fired channel be armed again.
pub proof fn law_reset_allows_arming(s: PyroState)
    ensures
        s.reset().armed().is_armed(),
        s.reset().safe == s.safe,
{
}

/// What arming does: the safe pin goes high and nothing else changes, unless the channel has
/// fired, which changes nothing.
pub proof fn law_arming(s: PyroState)
    ensures
        s.armed().fire == s.fire,
        s.armed().fired == s.fired,
        s.fired ==> s.armed().safe == s.safe && s.safe_write(Level::High) is None,
        !s.fired ==> s.armed().safe is High && s.safe_write(Level::High) == Some(
            PinWrite { pin: Pin::Safe, level: Level::High },
        ),
{
}

/// What disarming does: the safe pin goes low and nothing else changes, unless the channel
/// has fired, which changes nothing.
pub proof fn law_disarming(s: PyroState)
    ensures
        s.disarmed().fire == s.fire,
        s.disarmed().fired == s.fired,
        s.fired ==> s.disarmed().safe == s.safe && s.safe_write(Level::Low) is None,
        !s.fired ==> s.disarmed().safe is Low && s.safe_write(Level::Low) == Some(
            PinWrite { pin: Pin::Safe, level: Level::Low },
        ),
{
}

/// What firing does: the fire pin goes high for 400 ms and nothing else changes, unless the
/// channel has fired, which changes nothing. After that both pins are low, the fire pin first,
/// and the channel has fired.
pub proof fn law_firing(s: PyroState)
    ensures
        s.firing().safe == s.safe,
        s.firing().fired == s.fired,
        s.fired ==> s.firing().fire == s.fire && s.fire_write() is None,
        !s.fired ==> s.firing().fire is High && s.fire_write() == Some(
            (PinWrite { pin: Pin::Fire, level: Level::High }, 400u64),
        ),
        s.burnt().safe is Low,
        s.burnt().fire is Low,
        s.burnt().fired,
        burn_writes().len() == 2,
        burn_writes()[0] == (PinWrite { pin: Pin::Fire, level: Level::Low }),
        burn_writes()[1] == (PinWrite { pin: Pin::Safe, level: Level::Low }),
{
}

/// What a reset does: the channel has not fired, and no pin moves.
pub proof fn law_reset(s: PyroState)
    ensures
        !s.reset().fired,
        s.reset().safe == s.safe,
        s.reset().fire == s.fire,
{
}

/// A channel is armed just if its safe pin is high and it has not fired.
pub proof fn law_armed_means_safe_pin_high(s: PyroState)
    ensures
        s.is_armed() <==> s.safe == Level::High && s.fired == false,
        s.wf() <==> (s.fired ==> s.safe == Level::Low && s.fire == Level::Low),
{
}

} // verus!
