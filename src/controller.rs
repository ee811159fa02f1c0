//! The sync policy: one state machine step per event of a poll cycle.
use vstd::prelude::*;
use crate::protocol::{
    aux1_marker, contains, on_marker, reply_holds, standby_marker, Command, Field, Query,
};
use crate::status::{decimal_value, is_i32_text, parse_secs};

verus! {

/// Cycles of one run, at one cycle a second.
pub const DEFAULT_CYCLES: u32 = 300;

/// Idle cycles before the amplifier is checked for power-off.
pub const DEFAULT_COUNTDOWN: u32 = 30;

/// What the driver is to do next.
#[derive(Clone, Copy, Debug, PartialEq, Eq, Structural)]
pub enum Action {
    /// Read a field of the streamer's status; answer with `Event::Value`.
    Fetch(Field),
    /// Write a query to the amplifier, let it settle, read its reply;
    /// answer with `Event::Reply`.
    Ask(Query),
    /// Write a command to the amplifier; answer with `Event::Done`.
    Send(Command),
    /// Make the streamer refresh its playback state; answer with `Event::Done`.
    Refresh,
    /// Wait for the next cycle; answer with `Event::Tick`.
    Wait,
    /// The run is over.
    Finish,
}

/// What the driver hands back after performing an action.
#[derive(Clone, Debug)]
pub enum Event {
    /// A new cycle begins (also the first event of a run).
    Tick,
    /// The text of the status field that was fetched.
    Value(String),
    /// The bytes the amplifier replied with.
    Reply(Vec<u8>),
    /// A command or refresh was carried out.
    Done,
}

/// Where the controller stands in its cycle.
#[derive(Clone, Copy, Debug, PartialEq, Eq, Structural)]
pub enum Phase {
    /// Between cycles, waiting for a tick.
    Ready,
    /// Waiting for the streamer's state.
    Mode,
    /// Streaming: waiting for the reply to the power query.
    StreamPower,
    /// Streaming: waiting for the wake command to go out.
    StreamWake,
    /// Streaming: waiting for the active input.
    StreamInput,
    /// Streaming: waiting for the elapsed seconds.
    StreamSecs,
    /// Streaming: waiting for the refresh to go out.
    StreamRefresh,
    /// Idle check: waiting for the active input.
    IdleInput,
    /// Idle check: waiting for the reply to the power query.
    IdlePower,
    /// Idle check: waiting for the reply to the source query.
    IdleSource,
    /// Idle check: waiting for the power-off command to go out.
    IdleOff,
    /// The run is over.
    Finished,
}

/// Why a step failed.
#[derive(Clone, Copy, Debug, PartialEq, Eq, Structural)]
pub enum StepError {
    /// The elapsed-seconds field is not a number.
    BadSecs,
    /// The event does not answer the action last handed out.
    UnexpectedEvent,
}

/// The controller's configuration and state.
#[derive(Clone, Debug)]
pub struct Controller {
    /// The streamer input that is wired to the amplifier.
    pub streaming_input: String,
    /// Idle cycles before the power-off check.
    pub countdown_threshold: u32,
    /// The last elapsed-seconds reading taken as progress.
    pub last_secs: i32,
    /// Idle cycles left before the power-off check.
    pub countdown: u32,
    /// The power-off check has run in the current idle period.
    pub expired: bool,
    /// Cycles left in this run, the current one included.
    pub cycles_left: u32,
    pub phase: Phase,
    /// This cycle's streamer state is exactly `stream`.
    pub stream_mode: bool,
    /// This cycle's active input is the streaming input.
    pub input_match: bool,
    /// This cycle's power reply said the amplifier is on.
    pub power_on: bool,
}

/// A playback state of the streamer that counts as streaming.
pub open spec fn is_streaming_state(s: Seq<char>) -> bool {
    s == "stream"@ || s == "play"@
}

/// A fresh controller.
pub open spec fn initial(input: Seq<char>, countdown: u32, cycles: u32, c: Controller) -> bool {
    &&& c.streaming_input@ == input
    &&& c.countdown_threshold == countdown
    &&& c.last_secs == 0
    &&& c.countdown == countdown
    &&& !c.expired
    &&& c.cycles_left == cycles
    &&& c.phase == Phase::Ready
    &&& !c.stream_mode
    &&& !c.input_match
    &&& !c.power_on
}

/// The end of a cycle: wait for the next one, or finish the run after the
/// last (a run has at least one cycle).
pub open spec fn end_cycle(c: Controller) -> (Controller, Action) {
    if c.cycles_left <= 1 {
        (Controller { phase: Phase::Finished, cycles_left: 0, ..c }, Action::Finish)
    } else {
        (Controller { phase: Phase::Ready, cycles_left: (c.cycles_left - 1) as u32, ..c }, Action::Wait)
    }
}

/// The idle countdown after one more idle cycle.
pub open spec fn count_down(n: u32) -> u32 {
    if n > 0 { (n - 1) as u32 } else { 0 }
}

/// The controller's answer to event `e` in state `c`: its next state and
/// the action it hands out.
pub open spec fn next(c: Controller, e: Event) -> Result<(Controller, Action), StepError> {
    match (c.phase, e) {
        (Phase::Ready, Event::Tick) => Ok((Controller { phase: Phase::Mode, ..c }, Action::Fetch(Field::State))),
        (Phase::Mode, Event::Value(s)) => if is_streaming_state(s@) {
            Ok((Controller {
                phase: Phase::StreamPower,
                stream_mode: s@ == "stream"@,
                countdown: c.countdown_threshold,
                expired: false,
                ..c
            }, Action::Ask(Query::Power)))
        } else if count_down(c.countdown) == 0 && !c.expired {
            Ok((Controller { phase: Phase::IdleInput, countdown: 0, expired: true, ..c }, Action::Fetch(Field::InputId)))
        } else {
            Ok(end_cycle(Controller { countdown: count_down(c.countdown), ..c }))
        },
        (Phase::StreamPower, Event::Reply(b)) => if contains(b@, standby_marker()) {
            Ok((Controller { phase: Phase::StreamWake, ..c }, Action::Send(Command::Aux1)))
        } else {
            Ok((Controller { phase: Phase::StreamInput, ..c }, Action::Fetch(Field::InputId)))
        },
        (Phase::StreamWake, Event::Done) => Ok((Controller { phase: Phase::StreamInput, ..c }, Action::Fetch(Field::InputId))),
        (Phase::StreamInput, Event::Value(id)) => Ok((
            Controller { phase: Phase::StreamSecs, input_match: id@ == c.streaming_input@, ..c },
            Action::Fetch(Field::Secs),
        )),
        (Phase::StreamSecs, Event::Value(t)) => if !is_i32_text(t@) {
            Err(StepError::BadSecs)
        } else if c.stream_mode && c.input_match && decimal_value(t@)->0 < c.last_secs {
            Ok((Controller { phase: Phase::StreamRefresh, ..c }, Action::Refresh))
        } else {
            Ok(end_cycle(Controller { last_secs: decimal_value(t@)->0 as i32, ..c }))
        },
        (Phase::StreamRefresh, Event::Done) => Ok(end_cycle(c)),
        (Phase::IdleInput, Event::Value(id)) => Ok((
            Controller { phase: Phase::IdlePower, input_match: id@ == c.streaming_input@, ..c },
            Action::Ask(Query::Power),
        )),
        (Phase::IdlePower, Event::Reply(b)) => Ok((
            Controller { phase: Phase::IdleSource, power_on: contains(b@, on_marker()), ..c },
            Action::Ask(Query::Source),
        )),
        (Phase::IdleSource, Event::Reply(b)) => if c.power_on && contains(b@, aux1_marker()) && c.input_match {
            Ok((Controller { phase: Phase::IdleOff, ..c }, Action::Send(Command::PowerOff)))
        } else {
            Ok(end_cycle(c))
        },
        (Phase::IdleOff, Event::Done) => Ok(end_cycle(c)),
        _ => Err(StepError::UnexpectedEvent),
    }
}

impl Controller {
    /// A controller at the start of a run of `cycles` cycles (at least one),
    /// re-arming its idle countdown to `countdown` cycles.
    pub fn new(streaming_input: String, countdown: u32, cycles: u32) -> (r: Controller)
        ensures
            initial(streaming_input@, countdown, cycles, r),
    {
        Controller {
            streaming_input,
            countdown_threshold: countdown,
            last_secs: 0,
            countdown,
            expired: false,
            cycles_left: cycles,
            phase: Phase::Ready,
            stream_mode: false,
            input_match: false,
            power_on: false,
        }
    }

    /// A controller for a streamer whose `input2` feeds the amplifier, with
    /// the default countdown and run length.
    pub fn with_defaults() -> (r: Controller)
        ensures
            initial("input2"@, DEFAULT_COUNTDOWN, DEFAULT_CYCLES, r),
    {
        Controller::new("input2".to_owned(), DEFAULT_COUNTDOWN, DEFAULT_CYCLES)
    }

    fn end_cycle(&mut self) -> (r: Action)
        ensures
            end_cycle(*old(self)) == (*final(self), r),
    {
        if self.cycles_left <= 1 {
            self.phase = Phase::Finished;
            self.cycles_left = 0;
            Action::Finish
        } else {
            self.phase = Phase::Ready;
            self.cycles_left = self.cycles_left - 1;
            Action::Wait
        }
    }

    /// Takes the answer to the last action and hands out the next action.
    /// On an error the state is left as it was.
    pub fn step(&mut self, e: Event) -> (r: Result<Action, StepError>)
        ensures
            next(*old(self), e) == (match r {
                Ok(a) => Ok((*final(self), a)),
                Err(x) => Err::<(Controller, Action), StepError>(x),
            }),
            r is Err ==> *final(self) == *old(self),
    {
        match (self.phase, e) {
            (Phase::Ready, Event::Tick) => {
                self.phase = Phase::Mode;
                Ok(Action::Fetch(Field::State))
            },
            (Phase::Mode, Event::Value(s)) => {
                let stream = s == "stream".to_owned();
                if stream || s == "play".to_owned() {
                    self.phase = Phase::StreamPower;
                    self.stream_mode = stream;
                    self.countdown = self.countdown_threshold;
                    self.expired = false;
                    Ok(Action::Ask(Query::Power))
                } else {
                    if self.countdown > 0 {
                        self.countdown = self.countdown - 1;
                    }
                    if self.countdown == 0 && !self.expired {
                        self.phase = Phase::IdleInput;
                        self.expired = true;
                        Ok(Action::Fetch(Field::InputId))
                    } else {
                        Ok(self.end_cycle())
                    }
                }
            },
            (Phase::StreamPower, Event::Reply(b)) => {
                if reply_holds(b.as_slice(), "power=standby$") {
                    self.phase = Phase::StreamWake;
                    Ok(Action::Send(Command::Aux1))
                } else {
                    self.phase = Phase::StreamInput;
                    Ok(Action::Fetch(Field::InputId))
                }
            },
            (Phase::StreamWake, Event::Done) => {
                self.phase = Phase::StreamInput;
                Ok(Action::Fetch(Field::InputId))
            },
            (Phase::StreamInput, Event::Value(id)) => {
                self.input_match = id == self.streaming_input;
                self.phase = Phase::StreamSecs;
                Ok(Action::Fetch(Field::Secs))
            },
            (Phase::StreamSecs, Event::Value(t)) => {
                match parse_secs(t.as_str()) {
                    Err(_) => Err(StepError::BadSecs),
                    Ok(v) => {
                        if self.stream_mode && self.input_match && v < self.last_secs {
                            self.phase = Phase::StreamRefresh;
                            Ok(Action::Refresh)
                        } else {
                            self.last_secs = v;
                            Ok(self.end_cycle())
                        }
                    },
                }
            },
            (Phase::StreamRefresh, Event::Done) => Ok(self.end_cycle()),
            (Phase::IdleInput, Event::Value(id)) => {
                self.input_match = id == self.streaming_input;
                self.phase = Phase::IdlePower;
                Ok(Action::Ask(Query::Power))
            },
            (Phase::IdlePower, Event::Reply(b)) => {
                self.power_on = reply_holds(b.as_slice(), "power=on$");
                self.phase = Phase::IdleSource;
                Ok(Action::Ask(Query::Source))
            },
            (Phase::IdleSource, Event::Reply(b)) => {
                if self.power_on && reply_holds(b.as_slice(), "source=aux1$") && self.input_match {
                    self.phase = Phase::IdleOff;
                    Ok(Action::Send(Command::PowerOff))
                } else {
                    Ok(self.end_cycle())
                }
            },
            (Phase::IdleOff, Event::Done) => Ok(self.end_cycle()),
            _ => Err(StepError::UnexpectedEvent),
        }
    }
}

} // verus!
