//! The charge/discharge sequencer as a state machine.
//!
//! The machine never touches hardware. Each call of [`Sequencer::step`] takes
//! what the hardware reported and answers with the next thing to do. A cycle
//! runs the same four steps twice, once per [`Phase`]: discharge and settle,
//! charge and start the capture, poll the sense pin until it reads high and
//! sample the capture, then discharge and settle again.

use vstd::prelude::*;
use crate::pins::{Level, Phase, PinRole, PinRoles};

verus! {

/// Iterations of the settle delay on the board the sequencer was made for.
pub const SETTLE_CYCLES: u32 = 100_000;

/// Timeout of the capture on that board, in microseconds: longer than any
/// transient that is expected, a margin and not a bound that is enforced.
pub const CAPTURE_TIMEOUT_US: u32 = 10_000;

/// Ticks that the capture counts per second.
pub const TICKS_PER_SECOND: u32 = 1_000_000;

/// Period of the trigger that starts each cycle, in milliseconds.
pub const TRIGGER_PERIOD_MS: u32 = 1_000;

/// The two fixed quantities of a cycle.
#[derive(Clone, Copy, Debug, PartialEq, Eq, Structural)]
pub struct Settings {
    /// Iterations of the busy-wait that lets the capacitor empty.
    pub settle_cycles: u32,
    /// Timeout the capture is armed with, in microseconds.
    pub capture_timeout_us: u32,
}

/// The two raw tick counts of a cycle.
#[derive(Clone, Copy, Debug, PartialEq, Eq, Structural)]
pub struct Intervals {
    /// Ticks until the threshold while charging through drive pin A.
    pub t1_ticks: u32,
    /// Ticks until the threshold while charging through drive pin B.
    pub t2_ticks: u32,
}

/// What the hardware reports back to the machine.
#[derive(Clone, Copy, Debug, PartialEq, Eq, Structural)]
pub enum Event {
    /// The periodic trigger fired.
    Triggered,
    /// The last action, one that yields no value, was carried out.
    Done,
    /// The level read from the sense pin.
    Sensed(Level),
    /// The ticks counted since the capture was started.
    Ticks(u32),
}

/// What the machine asks the hardware to do next.
#[derive(Clone, Copy, Debug, PartialEq, Eq, Structural)]
pub enum Action {
    /// Put the three pins into these roles. Answered by `Done`.
    Configure(PinRoles),
    /// Busy-wait for this many iterations. Answered by `Done`.
    Settle(u32),
    /// Arm the capture with this timeout in microseconds and start it
    /// counting from zero. Answered by `Done`.
    StartCapture(u32),
    /// Read the level of the sense pin. Answered by `Sensed`.
    ReadSense,
    /// Read the elapsed ticks of the capture. Answered by `Ticks`.
    SampleCapture,
    /// Stop the capture and disarm its timeout. Answered by `Done`.
    CancelCapture,
    /// The cycle is over: these are its two intervals. The machine is at rest
    /// and expects `Triggered` next.
    Report(Intervals),
}

/// Why an event was refused.
#[derive(Clone, Copy, Debug, PartialEq, Eq, Structural)]
pub enum Rejection {
    /// The trigger fired while a cycle was still running.
    Busy,
    /// Something other than the trigger arrived while the machine was at rest.
    NotTriggered,
    /// The event does not answer the action that was issued last.
    Unexpected,
}

/// Where in the cycle the machine stands. Every stage but `Idle` is named
/// after the action that was issued on entering it and now awaits its answer.
#[derive(Clone, Copy, Debug, PartialEq, Eq, Structural)]
pub enum Stage {
    /// At rest between cycles.
    Idle,
    /// The discharge configuration was issued.
    Discharging(Phase),
    /// The settle delay after the discharge was issued.
    Settling(Phase),
    /// The charge configuration was issued.
    Charging(Phase),
    /// The start of the capture was issued.
    Starting(Phase),
    /// A read of the sense pin was issued. The poll has no bound of its own:
    /// the machine asks again for as long as the pin reads low.
    Polling(Phase),
    /// A sample of the capture was issued.
    Sampling(Phase),
    /// The cancellation of the capture was issued.
    Cancelling(Phase),
    /// The discharge configuration that closes the phase was issued.
    Redischarging(Phase),
    /// The settle delay that closes the phase was issued.
    Resettling(Phase),
}

impl Settings {
    /// The settings of the board: `SETTLE_CYCLES` and `CAPTURE_TIMEOUT_US`.
    pub fn standard() -> (settings: Settings)
        ensures
            settings == (Settings {
                settle_cycles: SETTLE_CYCLES,
                capture_timeout_us: CAPTURE_TIMEOUT_US,
            }),
    {
        Settings { settle_cycles: SETTLE_CYCLES, capture_timeout_us: CAPTURE_TIMEOUT_US }
    }
}

impl Intervals {
    /// The intervals once `event` has arrived in `stage`: a sample taken in
    /// the first phase becomes `t1_ticks`, one taken in the second phase
    /// becomes `t2_ticks`, and nothing else changes either.
    pub open spec fn record(self, stage: Stage, event: Event) -> Intervals {
        match (stage, event) {
            (Stage::Sampling(Phase::First), Event::Ticks(t)) => Intervals { t1_ticks: t, ..self },
            (Stage::Sampling(Phase::Second), Event::Ticks(t)) => Intervals { t2_ticks: t, ..self },
            _ => self,
        }
    }
}

impl Action {
    /// The pin roles once the action is carried out, given the roles before.
    pub open spec fn roles_after(self, before: PinRoles) -> PinRoles {
        match self {
            Action::Configure(roles) => roles,
            _ => before,
        }
    }

    /// Whether `event` is the kind of answer that the action calls for.
    pub open spec fn answered_by(self, event: Event) -> bool {
        match self {
            Action::ReadSense => event is Sensed,
            Action::SampleCapture => event is Ticks,
            Action::Report(_) => event is Triggered,
            _ => event is Done,
        }
    }

    /// Whether the capture runs once the action is carried out.
    pub open spec fn capture_after(self, before: bool) -> bool {
        match self {
            Action::StartCapture(_) => true,
            Action::CancelCapture => false,
            _ => before,
        }
    }
}

impl Stage {
    /// The phase that the stage belongs to; `Idle` belongs to none.
    pub open spec fn phase(self) -> Option<Phase> {
        match self {
            Stage::Idle => None,
            Stage::Discharging(p) => Some(p),
            Stage::Settling(p) => Some(p),
            Stage::Charging(p) => Some(p),
            Stage::Starting(p) => Some(p),
            Stage::Polling(p) => Some(p),
            Stage::Sampling(p) => Some(p),
            Stage::Cancelling(p) => Some(p),
            Stage::Redischarging(p) => Some(p),
            Stage::Resettling(p) => Some(p),
        }
    }

    /// The stages in which the pins stand in the charge configuration.
    pub open spec fn charges(self) -> bool {
        self is Charging || self is Starting || self is Polling || self is Sampling
            || self is Cancelling
    }

    /// The stages in which the capture is counting.
    pub open spec fn captures(self) -> bool {
        self is Starting || self is Polling || self is Sampling
    }

    /// The stage that follows when `event` arrives, or why it is refused.
    pub open spec fn successor(self, event: Event) -> Result<Stage, Rejection> {
        match (self, event) {
            (Stage::Idle, Event::Triggered) => Ok(Stage::Discharging(Phase::First)),
            (Stage::Idle, _) => Err(Rejection::NotTriggered),
            (_, Event::Triggered) => Err(Rejection::Busy),
            (Stage::Discharging(p), Event::Done) => Ok(Stage::Settling(p)),
            (Stage::Settling(p), Event::Done) => Ok(Stage::Charging(p)),
            (Stage::Charging(p), Event::Done) => Ok(Stage::Starting(p)),
            (Stage::Starting(p), Event::Done) => Ok(Stage::Polling(p)),
            (Stage::Polling(p), Event::Sensed(Level::Low)) => Ok(Stage::Polling(p)),
            (Stage::Polling(p), Event::Sensed(Level::High)) => Ok(Stage::Sampling(p)),
            (Stage::Sampling(p), Event::Ticks(_)) => Ok(Stage::Cancelling(p)),
            (Stage::Cancelling(p), Event::Done) => Ok(Stage::Redischarging(p)),
            (Stage::Redischarging(p), Event::Done) => Ok(Stage::Resettling(p)),
            (Stage::Resettling(Phase::First), Event::Done) => Ok(Stage::Discharging(Phase::Second)),
            (Stage::Resettling(Phase::Second), Event::Done) => Ok(Stage::Idle),
            _ => Err(Rejection::Unexpected),
        }
    }

    /// The action issued on entering the stage.
    pub open spec fn entry_action(self, settings: Settings, intervals: Intervals) -> Action {
        match self {
            Stage::Idle => Action::Report(intervals),
            Stage::Discharging(_) => Action::Configure(PinRoles::spec_discharge()),
            Stage::Settling(_) => Action::Settle(settings.settle_cycles),
            Stage::Charging(p) => Action::Configure(PinRoles::spec_charge(p)),
            Stage::Starting(_) => Action::StartCapture(settings.capture_timeout_us),
            Stage::Polling(_) => Action::ReadSense,
            Stage::Sampling(_) => Action::SampleCapture,
            Stage::Cancelling(_) => Action::CancelCapture,
            Stage::Redischarging(_) => Action::Configure(PinRoles::spec_discharge()),
            Stage::Resettling(_) => Action::Settle(settings.settle_cycles),
        }
    }
}

/// Everything the machine remembers.
#[derive(Clone, Copy, Debug, PartialEq, Eq, Structural)]
pub struct State {
    pub settings: Settings,
    pub stage: Stage,
    /// The roles that the pins were last told to take.
    pub pins: PinRoles,
    /// Whether the capture was started and not yet cancelled.
    pub capturing: bool,
    /// The latest sample of each phase; zero before the first.
    pub intervals: Intervals,
}

impl State {
    /// The state before the first cycle: at rest, all pins floating, the
    /// capture stopped.
    pub open spec fn initial(settings: Settings) -> State {
        State {
            settings,
            stage: Stage::Idle,
            pins: PinRoles::spec_released(),
            capturing: false,
            intervals: Intervals { t1_ticks: 0, t2_ticks: 0 },
        }
    }

    /// The transition function: the state and the action that follow when
    /// `event` arrives, or why the event is refused.
    pub open spec fn next(self, event: Event) -> Result<(State, Action), Rejection> {
        match self.stage.successor(event) {
            Err(rejection) => Err(rejection),
            Ok(stage) => {
                let intervals = self.intervals.record(self.stage, event);
                let action = stage.entry_action(self.settings, intervals);
                Ok(
                    (
                        State {
                            settings: self.settings,
                            stage,
                            pins: action.roles_after(self.pins),
                            capturing: action.capture_after(self.capturing),
                            intervals,
                        },
                        action,
                    ),
                )
            },
        }
    }

    /// The state after `event`; a refused event leaves it as it was.
    pub open spec fn advance(self, event: Event) -> State {
        match self.next(event) {
            Ok((state, _)) => state,
            Err(_) => self,
        }
    }

    /// The state after a whole sequence of events, taken in order.
    pub open spec fn run(self, events: Seq<Event>) -> State
        decreases events.len(),
    {
        if events.len() == 0 {
            self
        } else {
            self.run(events.drop_last()).advance(events.last())
        }
    }

    /// The invariant of the machine: the pins obey the electrical rule of the
    /// front-end, they stand in the charge configuration of the current phase
    /// exactly in the stages that charge and in the discharge configuration
    /// otherwise (all floating is possible at rest), and the capture counts
    /// exactly in the stages between its start and its cancellation.
    pub open spec fn well_formed(self) -> bool {
        &&& self.pins.well_formed()
        &&& self.capturing == self.stage.captures()
        &&& self.stage.charges() ==> self.pins == PinRoles::spec_charge(self.stage.phase().unwrap())
        &&& !self.stage.charges() ==> {
            ||| self.pins == PinRoles::spec_discharge()
            ||| (self.stage is Idle && self.pins == PinRoles::spec_released())
        }
    }
}

/// The sequencer of one front-end.
#[derive(Clone, Copy, Debug)]
pub struct Sequencer {
    state: State,
}

impl View for Sequencer {
    type V = State;

    closed spec fn view(&self) -> State {
        self.state
    }
}

impl Sequencer {
    /// A sequencer at rest, before its first cycle.
    pub fn new(settings: Settings) -> (sequencer: Sequencer)
        ensures
            sequencer@ == State::initial(settings),
            sequencer@.well_formed(),
    {
        Sequencer {
            state: State {
                settings,
                stage: Stage::Idle,
                pins: PinRoles::released(),
                capturing: false,
                intervals: Intervals { t1_ticks: 0, t2_ticks: 0 },
            },
        }
    }

    /// Takes one event and answers with the next action.
    ///
    /// An event that the current stage expects moves the machine on as
    /// [`State::next`] says. Any other event is refused and changes nothing.
    /// A well-formed machine stays well-formed.
    pub fn step(&mut self, event: Event) -> (result: Result<Action, Rejection>)
        ensures
            match old(self)@.next(event) {
                Ok((state, action)) => result == Ok::<Action, Rejection>(action) && final(self)@ == state,
                Err(rejection) => result == Err::<Action, Rejection>(rejection) && final(self)@ == old(
                    self,
                )@,
            },
            old(self)@.well_formed() ==> final(self)@.well_formed(),
    {
        let settings = self.state.settings;
        let stage = match (self.state.stage, event) {
            (Stage::Idle, Event::Triggered) => Stage::Discharging(Phase::First),
            (Stage::Idle, _) => { return Err(Rejection::NotTriggered); },
            (_, Event::Triggered) => { return Err(Rejection::Busy); },
            (Stage::Discharging(p), Event::Done) => Stage::Settling(p),
            (Stage::Settling(p), Event::Done) => Stage::Charging(p),
            (Stage::Charging(p), Event::Done) => Stage::Starting(p),
            (Stage::Starting(p), Event::Done) => Stage::Polling(p),
            (Stage::Polling(p), Event::Sensed(Level::Low)) => Stage::Polling(p),
            (Stage::Polling(p), Event::Sensed(Level::High)) => Stage::Sampling(p),
            (Stage::Sampling(Phase::First), Event::Ticks(t)) => {
                self.state.intervals.t1_ticks = t;
                Stage::Cancelling(Phase::First)
            },
            (Stage::Sampling(Phase::Second), Event::Ticks(t)) => {
                self.state.intervals.t2_ticks = t;
                Stage::Cancelling(Phase::Second)
            },
            (Stage::Cancelling(p), Event::Done) => Stage::Redischarging(p),
            (Stage::Redischarging(p), Event::Done) => Stage::Resettling(p),
            (Stage::Resettling(Phase::First), Event::Done) => Stage::Discharging(Phase::Second),
            (Stage::Resettling(Phase::Second), Event::Done) => Stage::Idle,
            _ => { return Err(Rejection::Unexpected); },
        };
        let action = match stage {
            Stage::Idle => Action::Report(self.state.intervals),
            Stage::Discharging(_) | Stage::Redischarging(_) => {
                self.state.pins = PinRoles::discharge();
                Action::Configure(self.state.pins)
            },
            Stage::Settling(_) | Stage::Resettling(_) => Action::Settle(settings.settle_cycles),
            Stage::Charging(p) => {
                self.state.pins = PinRoles::charge(p);
                Action::Configure(self.state.pins)
            },
            Stage::Starting(_) => {
                self.state.capturing = true;
                Action::StartCapture(settings.capture_timeout_us)
            },
            Stage::Polling(_) => Action::ReadSense,
            Stage::Sampling(_) => Action::SampleCapture,
            Stage::Cancelling(_) => {
                self.state.capturing = false;
                Action::CancelCapture
            },
        };
        self.state.stage = stage;
        Ok(action)
    }

    /// The stage the machine stands in.
    pub fn stage(&self) -> (stage: Stage)
        ensures
            stage == self@.stage,
    {
        self.state.stage
    }

    /// The roles that the pins were last told to take.
    pub fn pins(&self) -> (pins: PinRoles)
        ensures
            pins == self@.pins,
    {
        self.state.pins
    }

    /// Whether the capture was started and not yet cancelled.
    pub fn is_capturing(&self) -> (capturing: bool)
        ensures
            capturing == self@.capturing,
    {
        self.state.capturing
    }

    /// The latest sample of each phase.
    pub fn intervals(&self) -> (intervals: Intervals)
        ensures
            intervals == self@.intervals,
    {
        self.state.intervals
    }

    /// The settings the sequencer was made with.
    pub fn settings(&self) -> (settings: Settings)
        ensures
            settings == self@.settings,
    {
        self.state.settings
    }

    /// Whether the sense pin may be read: only a floating pin may.
    pub fn sense_readable(&self) -> (readable: bool)
        ensures
            readable == (self@.pins.sense == PinRole::FloatingInput),
    {
        self.state.pins.sense == PinRole::FloatingInput
    }
}

} // verus!
