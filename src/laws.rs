//! Properties of the sync policy, proved over `next`.
use vstd::prelude::*;
use crate::controller::{end_cycle, is_streaming_state, next, Action, Controller, Event, Phase};
use crate::protocol::{aux1_marker, contains, on_marker, standby_marker, Command, Field, Query};
use crate::status::{decimal_value, is_i32_text};

verus! {

/// The phases of a cycle in which the streamer was found streaming, and the
/// phases between cycles.
pub open spec fn on_stream_path(p: Phase) -> bool {
    p == Phase::StreamPower || p == Phase::StreamWake || p == Phase::StreamInput
        || p == Phase::StreamSecs || p == Phase::StreamRefresh || p == Phase::Ready
        || p == Phase::Finished
}

/// The phases of a cycle in which the streamer was found not streaming, and
/// the phases between cycles.
pub open spec fn on_idle_path(p: Phase) -> bool {
    p == Phase::IdleInput || p == Phase::IdlePower || p == Phase::IdleSource
        || p == Phase::IdleOff || p == Phase::Ready || p == Phase::Finished
}

/// The phases of the power-off check.
pub open spec fn in_idle_check(p: Phase) -> bool {
    p == Phase::IdleInput || p == Phase::IdlePower || p == Phase::IdleSource
        || p == Phase::IdleOff
}

/// The countdown has run out whenever the power-off check is under way.
pub open spec fn consistent(c: Controller) -> bool {
    in_idle_check(c.phase) ==> c.expired && c.countdown == 0
}

/// A state that the streamer reports as not streaming leads onto the idle
/// path: the next action is the power-off check's first query or the end of
/// the cycle, never an amplifier command.
pub proof fn not_streaming_goes_idle(c: Controller, s: String)
    requires
        c.phase == Phase::Mode,
        !is_streaming_state(s@),
    ensures
        next(c, Event::Value(s)) matches Ok((c2, a)) && on_idle_path(c2.phase) && (a
            == Action::Fetch(Field::InputId) || a == Action::Wait || a == Action::Finish),
{
}

/// On the idle path the wake command is never sent, and the path is never
/// left within the cycle.
pub proof fn idle_path_never_wakes(c: Controller, e: Event)
    requires
        in_idle_check(c.phase),
    ensures
        next(c, e) matches Ok((c2, a)) ==> on_idle_path(c2.phase) && a != Action::Send(
            Command::Aux1,
        ),
{
}

/// On the streaming path the power-off command is never sent, and the path
/// is never left within the cycle.
pub proof fn stream_path_never_powers_off(c: Controller, e: Event)
    requires
        on_stream_path(c.phase),
        c.phase != Phase::Ready,
    ensures
        next(c, e) matches Ok((c2, a)) ==> on_stream_path(c2.phase) && a != Action::Send(
            Command::PowerOff,
        ),
{
}

/// The power-off command goes out only from the check, on a reply naming
/// the aux1 source, with the amplifier on and the streaming input active.
pub proof fn power_off_only_when_left_on(c: Controller, e: Event)
    ensures
        next(c, e) matches Ok((c2, a)) ==> (a == Action::Send(Command::PowerOff) ==> {
            &&& c.phase == Phase::IdleSource
            &&& c.power_on
            &&& c.input_match
            &&& e matches Event::Reply(b) && contains(b@, aux1_marker())
        }),
{
}

/// A standby reply to the power query while streaming is answered with the
/// wake command, and the cycle then reads the active input: no second wake.
pub proof fn standby_reply_wakes_once(c: Controller, b: Vec<u8>)
    requires
        c.phase == Phase::StreamPower,
        contains(b@, standby_marker()),
    ensures
        next(c, Event::Reply(b)) == Ok::<(Controller, Action), crate::controller::StepError>(
            (Controller { phase: Phase::StreamWake, ..c }, Action::Send(Command::Aux1)),
        ),
        next(Controller { phase: Phase::StreamWake, ..c }, Event::Done) == Ok::<
            (Controller, Action),
            crate::controller::StepError,
        >((Controller { phase: Phase::StreamInput, ..c }, Action::Fetch(Field::InputId))),
{
}

/// After the wake command, the rest of a streaming cycle sends no amplifier
/// command.
pub proof fn no_command_after_wake(c: Controller, e: Event)
    requires
        c.phase == Phase::StreamWake || c.phase == Phase::StreamInput || c.phase
            == Phase::StreamSecs || c.phase == Phase::StreamRefresh,
    ensures
        next(c, e) matches Ok((c2, a)) ==> !(a is Send) && c2.phase != Phase::StreamPower,
{
}

/// A power query answered with "on" changes nothing: while streaming the
/// cycle goes on to read the input with its state as it was; in the idle
/// check it goes on to query the source.
pub proof fn power_on_reply_changes_nothing(c: Controller, b: Vec<u8>)
    requires
        contains(b@, on_marker()),
        !contains(b@, standby_marker()),
    ensures
        c.phase == Phase::StreamPower ==> next(c, Event::Reply(b)) == Ok::<
            (Controller, Action),
            crate::controller::StepError,
        >((Controller { phase: Phase::StreamInput, ..c }, Action::Fetch(Field::InputId))),
        c.phase == Phase::IdlePower ==> (next(c, Event::Reply(b)) matches Ok((c2, a)) && a
            == Action::Ask(Query::Source) && c2.power_on),
{
}

/// The stuck-stream rule: a reading of `secs` below the baseline, while the
/// streamer says `stream` on the streaming input, triggers a refresh and
/// keeps the baseline; any other reading becomes the new baseline.
pub proof fn stuck_stream_keeps_baseline(c: Controller, t: String)
    requires
        c.phase == Phase::StreamSecs,
        is_i32_text(t@),
    ensures
        c.stream_mode && c.input_match && decimal_value(t@)->0 < c.last_secs ==> next(
            c,
            Event::Value(t),
        ) == Ok::<(Controller, Action), crate::controller::StepError>(
            (Controller { phase: Phase::StreamRefresh, ..c }, Action::Refresh),
        ) && next(Controller { phase: Phase::StreamRefresh, ..c }, Event::Done) == Ok::<
            (Controller, Action),
            crate::controller::StepError,
        >(end_cycle(c)),
        !(c.stream_mode && c.input_match && decimal_value(t@)->0 < c.last_secs) ==> (next(
            c,
            Event::Value(t),
        ) matches Ok((c2, a)) && c2.last_secs == decimal_value(t@)->0 && a != Action::Refresh),
{
}

/// A refresh is only ever triggered by the stuck-stream rule.
pub proof fn refresh_only_when_stuck(c: Controller, e: Event)
    ensures
        next(c, e) matches Ok((c2, a)) ==> (a == Action::Refresh ==> {
            &&& c.phase == Phase::StreamSecs
            &&& c.stream_mode
            &&& c.input_match
            &&& c2.last_secs == c.last_secs
            &&& e matches Event::Value(t) && decimal_value(t@)->0 < c.last_secs
        }),
{
}

/// Every streaming cycle re-arms the countdown.
pub proof fn streaming_rearms_countdown(c: Controller, s: String)
    requires
        c.phase == Phase::Mode,
        is_streaming_state(s@),
    ensures
        next(c, Event::Value(s)) matches Ok((c2, a)) && a == Action::Ask(Query::Power)
            && c2.countdown == c.countdown_threshold && !c2.expired,
{
}

/// An idle cycle before the countdown runs out counts down by one and runs
/// no check.
pub proof fn no_check_before_countdown_ends(c: Controller, s: String)
    requires
        c.phase == Phase::Mode,
        !is_streaming_state(s@),
        c.countdown > 1,
    ensures
        next(c, Event::Value(s)) matches Ok((c2, a)) && c2.countdown == c.countdown - 1 && (a
            == Action::Wait || a == Action::Finish),
{
}

/// The idle cycle in which the countdown runs out starts the power-off check.
pub proof fn check_when_countdown_ends(c: Controller, s: String)
    requires
        c.phase == Phase::Mode,
        !is_streaming_state(s@),
        c.countdown <= 1,
        !c.expired,
    ensures
        next(c, Event::Value(s)) matches Ok((c2, a)) && a == Action::Fetch(Field::InputId)
            && c2.expired && c2.countdown == 0,
{
}

/// Once the check has run, later idle cycles run none.
pub proof fn no_check_after_expiry(c: Controller, s: String)
    requires
        c.phase == Phase::Mode,
        !is_streaming_state(s@),
        c.expired,
    ensures
        next(c, Event::Value(s)) matches Ok((c2, a)) && c2.expired && (a == Action::Wait || a
            == Action::Finish),
{
}

/// Only a streaming cycle re-arms a countdown that ran out, and the
/// countdown changes only when a cycle learns the streamer's state.
pub proof fn only_streaming_rearms(c: Controller, e: Event)
    ensures
        next(c, e) matches Ok((c2, a)) ==> (c.expired && !c2.expired ==> (e matches Event::Value(
            s,
        ) && c.phase == Phase::Mode && is_streaming_state(s@))),
        next(c, e) matches Ok((c2, a)) ==> (c2.countdown != c.countdown ==> c.phase
            == Phase::Mode),
{
}

/// Every step keeps the countdown run out during the power-off check.
pub proof fn step_keeps_consistent(c: Controller, e: Event)
    requires
        consistent(c),
    ensures
        next(c, e) matches Ok((c2, a)) ==> consistent(c2),
{
}

} // verus!
