//! The course of one interactive run, from the moment the interpreter has
//! been started to the moment its output is handed back.
//!
//! Two tasks race to end the run: one waits for the interpreter to exit by
//! itself, the other is the caller's and may ask for the end at any time.
//! Both send on one channel, and only the first message counts. A driver
//! reports what happened as an [`Event`]; [`advance`] answers with the next
//! [`Phase`] and the [`Action`] to perform.

use vstd::prelude::*;
use crate::output::{combined, decode_output_lenient, lenient_text};

verus! {

/// Where a run stands.
#[derive(Clone, Copy, Debug, PartialEq, Eq, Structural)]
pub enum Phase {
    /// The interpreter has been started; the two racing tasks are being
    /// launched.
    Spawned,
    /// Both tasks are running; the run waits for the first message.
    RaceWait,
    /// The first message has been taken and the interpreter is being ended.
    KillIssued,
    /// Both streams have been read; the result is known.
    Drained,
    /// The result has been handed back. Nothing follows.
    Done,
}

/// What a driver reports.
#[derive(Debug, PartialEq, Eq)]
pub enum Event {
    /// Both racing tasks have been launched.
    RacersStarted,
    /// A message arrived on the channel. The value it carries is not looked
    /// at: any message asks for the end.
    Signal(bool),
    /// The interpreter was asked to end, and both streams were then read to
    /// their end. `kill_succeeded` is false where the request failed, as it
    /// does on an interpreter that has already exited.
    Drained { kill_succeeded: bool, stdout: Vec<u8>, stderr: Vec<u8> },
    /// The result has been handed to the caller.
    Returned,
}

/// An [`Event`] as contracts see it.
pub ghost enum EventView {
    RacersStarted,
    Signal(bool),
    Drained { kill_succeeded: bool, stdout: Seq<u8>, stderr: Seq<u8> },
    Returned,
}

/// What a driver is to do.
#[derive(Debug, PartialEq, Eq)]
pub enum Action {
    /// Launch the two racing tasks, then report [`Event::RacersStarted`].
    StartRacers,
    /// Wait for the first message on the channel, then report it.
    AwaitSignal,
    /// Ask once for the interpreter to be ended, whether or not it still
    /// runs, then read both streams to their end and report
    /// [`Event::Drained`].
    KillThenDrain,
    /// Hand this text to the caller, then report [`Event::Returned`].
    Return(String),
    /// Nothing: the event changed nothing.
    Nothing,
}

/// An [`Action`] as contracts see it.
pub ghost enum ActionView {
    StartRacers,
    AwaitSignal,
    KillThenDrain,
    Return(Seq<char>),
    Nothing,
}

impl View for Event {
    type V = EventView;

    open spec fn view(&self) -> EventView {
        match *self {
            Event::RacersStarted => EventView::RacersStarted,
            Event::Signal(value) => EventView::Signal(value),
            Event::Drained { kill_succeeded, stdout, stderr } => EventView::Drained {
                kill_succeeded,
                stdout: stdout@,
                stderr: stderr@,
            },
            Event::Returned => EventView::Returned,
        }
    }
}

impl View for Action {
    type V = ActionView;

    open spec fn view(&self) -> ActionView {
        match *self {
            Action::StartRacers => ActionView::StartRacers,
            Action::AwaitSignal => ActionView::AwaitSignal,
            Action::KillThenDrain => ActionView::KillThenDrain,
            Action::Return(text) => ActionView::Return(text@),
            Action::Nothing => ActionView::Nothing,
        }
    }
}

/// The event that a phase waits for. Every other event leaves it as it is.
pub open spec fn moves(phase: Phase, event: EventView) -> bool {
    match phase {
        Phase::Spawned => event is RacersStarted,
        Phase::RaceWait => event is Signal,
        Phase::KillIssued => event is Drained,
        Phase::Drained => event is Returned,
        Phase::Done => false,
    }
}

/// The phase that follows `phase`.
pub open spec fn successor(phase: Phase) -> Phase {
    match phase {
        Phase::Spawned => Phase::RaceWait,
        Phase::RaceWait => Phase::KillIssued,
        Phase::KillIssued => Phase::Drained,
        Phase::Drained => Phase::Done,
        Phase::Done => Phase::Done,
    }
}

/// The phase of a run after `event` was reported in `phase`.
pub open spec fn next_phase(phase: Phase, event: EventView) -> Phase {
    if moves(phase, event) {
        successor(phase)
    } else {
        phase
    }
}

/// The action that answers `event` in `phase`.
pub open spec fn action_of(phase: Phase, event: EventView) -> ActionView {
    if !moves(phase, event) {
        ActionView::Nothing
    } else {
        match event {
            EventView::RacersStarted => ActionView::AwaitSignal,
            EventView::Signal(_) => ActionView::KillThenDrain,
            EventView::Drained { kill_succeeded, stdout, stderr } => ActionView::Return(
                combined(lenient_text(stdout), lenient_text(stderr)),
            ),
            EventView::Returned => ActionView::Nothing,
        }
    }
}

/// The phase of a run after the events of `events` were reported, in their
/// order, starting in `phase`.
pub open spec fn phase_after(phase: Phase, events: Seq<EventView>) -> Phase
    decreases events.len(),
{
    if events.len() == 0 {
        phase
    } else {
        phase_after(next_phase(phase, events[0]), events.drop_first())
    }
}

/// How often the interpreter is asked to end while the events of `events`
/// are reported, starting in `phase`.
pub open spec fn kills_during(phase: Phase, events: Seq<EventView>) -> nat
    decreases events.len(),
{
    if events.len() == 0 {
        0
    } else {
        let here: nat = if action_of(phase, events[0]) is KillThenDrain {
            1
        } else {
            0
        };
        here + kills_during(next_phase(phase, events[0]), events.drop_first())
    }
}

/// How many messages of the channel take effect while the events of
/// `events` are reported, starting in `phase`.
pub open spec fn signals_consumed(phase: Phase, events: Seq<EventView>) -> nat
    decreases events.len(),
{
    if events.len() == 0 {
        0
    } else {
        let here: nat = if events[0] is Signal && next_phase(phase, events[0]) != phase {
            1
        } else {
            0
        };
        here + signals_consumed(next_phase(phase, events[0]), events.drop_first())
    }
}

/// How far a run has come: the number of phases behind it.
pub open spec fn rank(phase: Phase) -> nat {
    match phase {
        Phase::Spawned => 0,
        Phase::RaceWait => 1,
        Phase::KillIssued => 2,
        Phase::Drained => 3,
        Phase::Done => 4,
    }
}

/// Opens a run on an interpreter that has just been started.
pub fn begin() -> (first: (Phase, Action))
    ensures
        first.0 == Phase::Spawned,
        first.1@ == ActionView::StartRacers,
{
    (Phase::Spawned, Action::StartRacers)
}

/// Takes one event: the phase in which the run goes on, and what the driver
/// is to do now.
///
/// An event that the phase does not wait for changes nothing and asks for
/// nothing. In particular a message that arrives after the first one is
/// dropped. The result that is handed back once the streams are read is the
/// lenient decoding of standard output followed by that of standard error,
/// whether or not the request to end the interpreter succeeded.
pub fn advance(phase: Phase, event: Event) -> (next: (Phase, Action))
    ensures
        next.0 == next_phase(phase, event@),
        next.1@ == action_of(phase, event@),
{
    match (phase, event) {
        (Phase::Spawned, Event::RacersStarted) => (Phase::RaceWait, Action::AwaitSignal),
        (Phase::RaceWait, Event::Signal(_)) => (Phase::KillIssued, Action::KillThenDrain),
        (Phase::KillIssued, Event::Drained { kill_succeeded: _, stdout, stderr }) => {
            let text = decode_output_lenient(stdout, stderr);
            (Phase::Drained, Action::Return(text))
        },
        (Phase::Drained, Event::Returned) => (Phase::Done, Action::Nothing),
        (phase, _) => (phase, Action::Nothing),
    }
}

/// Only the first message counts: once a message has been reported, in
/// whatever phase, a further message changes nothing and asks for nothing.
/// So the interpreter is never asked to end a second time.
pub proof fn later_signal_is_ignored(phase: Phase, first: bool, second: bool)
    ensures
        ({
            let reached = next_phase(phase, EventView::Signal(first));
            &&& next_phase(reached, EventView::Signal(second)) == reached
            &&& action_of(reached, EventView::Signal(second)) == ActionView::Nothing
        }),
{
}

/// A message is acted on in one phase only, while the run waits for it; it
/// is then answered by the request to end the interpreter, whatever value
/// it carries.
pub proof fn signal_counts_while_waiting(phase: Phase, value: bool)
    ensures
        action_of(phase, EventView::Signal(value)) == (if phase == Phase::RaceWait {
            ActionView::KillThenDrain
        } else {
            ActionView::Nothing
        }),
        next_phase(phase, EventView::Signal(value)) == (if phase == Phase::RaceWait {
            Phase::KillIssued
        } else {
            phase
        }),
{
}

/// A failed request to end the interpreter is no failure of the run: the
/// result is the same as after a request that succeeded.
pub proof fn kill_outcome_is_ignored(phase: Phase, stdout: Seq<u8>, stderr: Seq<u8>)
    ensures
        ({
            let failed = (EventView::Drained { kill_succeeded: false, stdout, stderr });
            let succeeded = (EventView::Drained { kill_succeeded: true, stdout, stderr });
            &&& action_of(phase, failed) == action_of(phase, succeeded)
            &&& next_phase(phase, failed) == next_phase(phase, succeeded)
            &&& phase == Phase::KillIssued ==> action_of(phase, failed) == ActionView::Return(
                combined(lenient_text(stdout), lenient_text(stderr)),
            )
        }),
{
}

/// A run moves forward only, and by one phase at most per event.
pub proof fn phases_move_forward(phase: Phase, event: EventView)
    ensures
        rank(phase) <= rank(next_phase(phase, event)) <= rank(phase) + 1,
{
}

/// No sequence of events takes a run back to an earlier phase.
pub proof fn run_never_goes_back(phase: Phase, events: Seq<EventView>)
    ensures
        rank(phase) <= rank(phase_after(phase, events)),
    decreases events.len(),
{
    if events.len() > 0 {
        run_never_goes_back(next_phase(phase, events[0]), events.drop_first());
    }
}

/// A run that is done stays done: no sequence of events leads out of it or
/// asks for the interpreter to be ended.
pub proof fn done_is_final(events: Seq<EventView>)
    ensures
        phase_after(Phase::Done, events) == Phase::Done,
        kills_during(Phase::Done, events) == 0,
    decreases events.len(),
{
    if events.len() > 0 {
        done_is_final(events.drop_first());
    }
}

/// Whatever is reported and in whatever order, the interpreter is asked to
/// end at most once in a run, and exactly as often as a message takes
/// effect: once where the run starts before or in the wait for the first
/// message and a message arrives there, never where it starts later.
pub proof fn at_most_one_kill(phase: Phase, events: Seq<EventView>)
    ensures
        kills_during(phase, events) == signals_consumed(phase, events),
        kills_during(phase, events) <= 1,
        rank(phase) >= 2 ==> kills_during(phase, events) == 0,
        kills_during(phase, events) == 1 ==> rank(phase_after(phase, events)) >= 2,
    decreases events.len(),
{
    if events.len() > 0 {
        at_most_one_kill(next_phase(phase, events[0]), events.drop_first());
        run_never_goes_back(next_phase(phase, events[0]), events.drop_first());
    }
}

} // verus!
