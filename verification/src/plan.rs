//! The steps that bring a script to disk and start the interpreter on it,
//! and the failure that each of them reports.
//!
//! A driver performs one step at a time and tells [`after`] whether it
//! succeeded; the answer is the next step, the end, or the failure to hand
//! to the caller. No step is retried and none is skipped: the first failure
//! ends the run.

use vstd::prelude::*;
use crate::constants::DEFAULT_INTERPRETER;

verus! {

/// One step of a run, in the order in which the steps are taken.
#[derive(Clone, Copy, Debug, PartialEq, Eq, Structural)]
pub enum Step {
    /// Create the directory of the script and every missing ancestor.
    CreateDirectory,
    /// Create the script's file, emptying one that is already there.
    CreateFile,
    /// Write the whole text of the script.
    WriteFile,
    /// Flush the file to storage.
    SyncFile,
    /// Start the interpreter with the script's path as its only argument.
    RunInterpreter,
}

/// Why a run ended without a result.
#[derive(Clone, Copy, Debug, PartialEq, Eq, Structural)]
pub enum ScriptError {
    CannotCreateDirectory,
    CannotCreateFile,
    CannotWriteFile,
    CannotSyncFile,
    CannotRunPython,
}

/// What follows a step.
#[derive(Clone, Copy, Debug, PartialEq, Eq, Structural)]
pub enum Progress {
    /// Take this step next.
    Continue(Step),
    /// The interpreter was started: no step is left.
    Started,
    /// Stop, and report this failure.
    Abort(ScriptError),
}

/// The step with which a run begins: the directory is created first where
/// the path names one, otherwise the file directly.
pub open spec fn first_step_of(has_parent: bool) -> Step {
    if has_parent {
        Step::CreateDirectory
    } else {
        Step::CreateFile
    }
}

/// The failure that a step reports.
pub open spec fn failure_of(step: Step) -> ScriptError {
    match step {
        Step::CreateDirectory => ScriptError::CannotCreateDirectory,
        Step::CreateFile => ScriptError::CannotCreateFile,
        Step::WriteFile => ScriptError::CannotWriteFile,
        Step::SyncFile => ScriptError::CannotSyncFile,
        Step::RunInterpreter => ScriptError::CannotRunPython,
    }
}

/// What follows a step that succeeded.
pub open spec fn successor_of(step: Step) -> Progress {
    match step {
        Step::CreateDirectory => Progress::Continue(Step::CreateFile),
        Step::CreateFile => Progress::Continue(Step::WriteFile),
        Step::WriteFile => Progress::Continue(Step::SyncFile),
        Step::SyncFile => Progress::Continue(Step::RunInterpreter),
        Step::RunInterpreter => Progress::Started,
    }
}

/// What follows a step, given how it went.
pub open spec fn progress_of(step: Step, succeeded: bool) -> Progress {
    if succeeded {
        successor_of(step)
    } else {
        Progress::Abort(failure_of(step))
    }
}

/// How many steps are taken from `step` on, `step` included, when none of
/// them fails.
pub open spec fn steps_from(step: Step) -> nat {
    match step {
        Step::CreateDirectory => 5,
        Step::CreateFile => 4,
        Step::WriteFile => 3,
        Step::SyncFile => 2,
        Step::RunInterpreter => 1,
    }
}

/// Where a run stands once the steps from `step` on have gone as `outcomes`
/// says, one outcome for each step taken, in order. Outcomes past the end
/// of the run belong to no step and are not looked at.
pub open spec fn progress_after(step: Step, outcomes: Seq<bool>) -> Progress
    decreases outcomes.len(),
{
    if outcomes.len() == 0 {
        Progress::Continue(step)
    } else {
        match progress_of(step, outcomes[0]) {
            Progress::Continue(next) => progress_after(next, outcomes.drop_first()),
            ended => ended,
        }
    }
}

/// The step that is taken `count` steps after `step` when none fails, as
/// long as the run has that many steps.
pub open spec fn step_at(step: Step, count: nat) -> Step
    decreases count,
{
    if count == 0 {
        step
    } else {
        match successor_of(step) {
            Progress::Continue(next) => step_at(next, (count - 1) as nat),
            _ => step,
        }
    }
}

/// The words in which a failure is reported.
pub open spec fn message_of(error: ScriptError) -> Seq<char> {
    match error {
        ScriptError::CannotCreateDirectory => "cannot create directory"@,
        ScriptError::CannotCreateFile => "cannot create file"@,
        ScriptError::CannotWriteFile => "cannot write file"@,
        ScriptError::CannotSyncFile => "cannot sync file"@,
        ScriptError::CannotRunPython => "cannot run python3"@,
    }
}

/// The name of the interpreter to start: the configured one where there is
/// one, whatever it holds, otherwise the default.
pub open spec fn interpreter_of(configured: Option<Seq<char>>) -> Seq<char> {
    match configured {
        Some(name) => name,
        None => DEFAULT_INTERPRETER@,
    }
}

impl ScriptError {
    /// The words in which this failure is reported.
    pub fn message(&self) -> (text: &'static str)
        ensures
            text@ == message_of(*self),
    {
        match self {
            ScriptError::CannotCreateDirectory => "cannot create directory",
            ScriptError::CannotCreateFile => "cannot create file",
            ScriptError::CannotWriteFile => "cannot write file",
            ScriptError::CannotSyncFile => "cannot sync file",
            ScriptError::CannotRunPython => "cannot run python3",
        }
    }
}

/// The step with which a run begins. `has_parent` says whether the script's
/// path names a directory for it.
pub fn first_step(has_parent: bool) -> (step: Step)
    ensures
        step == first_step_of(has_parent),
{
    if has_parent {
        Step::CreateDirectory
    } else {
        Step::CreateFile
    }
}

/// What follows `step`, given whether it succeeded.
pub fn after(step: Step, succeeded: bool) -> (progress: Progress)
    ensures
        progress == progress_of(step, succeeded),
{
    if !succeeded {
        let error = match step {
            Step::CreateDirectory => ScriptError::CannotCreateDirectory,
            Step::CreateFile => ScriptError::CannotCreateFile,
            Step::WriteFile => ScriptError::CannotWriteFile,
            Step::SyncFile => ScriptError::CannotSyncFile,
            Step::RunInterpreter => ScriptError::CannotRunPython,
        };
        return Progress::Abort(error);
    }
    match step {
        Step::CreateDirectory => Progress::Continue(Step::CreateFile),
        Step::CreateFile => Progress::Continue(Step::WriteFile),
        Step::WriteFile => Progress::Continue(Step::SyncFile),
        Step::SyncFile => Progress::Continue(Step::RunInterpreter),
        Step::RunInterpreter => Progress::Started,
    }
}

/// The name of the interpreter to start. `configured` is the value of the
/// override, if one is set.
pub fn resolve_interpreter(configured: Option<String>) -> (name: String)
    ensures
        name@ == interpreter_of(
            match configured {
                Some(c) => Some(c@),
                None => None,
            },
        ),
{
    match configured {
        Some(name) => name,
        None => DEFAULT_INTERPRETER.to_owned(),
    }
}

/// Each step has a failure of its own: two steps that report the same
/// failure are the same step.
pub proof fn failures_are_distinct(a: Step, b: Step)
    requires
        failure_of(a) == failure_of(b),
    ensures
        a == b,
{
}

/// No two failures are reported in the same words.
pub proof fn messages_are_distinct(a: ScriptError, b: ScriptError)
    requires
        message_of(a) == message_of(b),
    ensures
        a == b,
{
    reveal_strlit("cannot create directory");
    reveal_strlit("cannot create file");
    reveal_strlit("cannot write file");
    reveal_strlit("cannot sync file");
    reveal_strlit("cannot run python3");
    assert("cannot create directory"@.len() == 23);
    assert("cannot create file"@.len() == 18);
    assert("cannot write file"@.len() == 17);
    assert("cannot sync file"@.len() == 16);
    assert("cannot run python3"@.len() == 18);
    assert("cannot create file"@[7] == 'c');
    assert("cannot run python3"@[7] == 'r');
}

/// A failure ends the run at once: after a step that failed, no step
/// follows, whichever step it was.
pub proof fn failure_aborts(step: Step)
    ensures
        progress_of(step, false) == Progress::Abort(failure_of(step)),
        !(progress_of(step, false) is Continue),
        !(progress_of(step, false) is Started),
{
}

/// The interpreter is started on a file that is complete and flushed: the
/// only way to that step is a successful sync.
pub proof fn interpreter_runs_after_sync(step: Step, succeeded: bool)
    ensures
        progress_of(step, succeeded) == Progress::Continue(Step::RunInterpreter)
            <==> step == Step::SyncFile && succeeded,
        first_step_of(true) != Step::RunInterpreter,
        first_step_of(false) != Step::RunInterpreter,
{
}

/// Nothing is left half done: the interpreter has been started exactly
/// when every step from `step` on was taken and succeeded. One failure
/// among them, or one step not yet taken, and it has not.
pub proof fn started_after_every_step(step: Step, outcomes: Seq<bool>)
    ensures
        progress_after(step, outcomes) == Progress::Started <==> ({
            &&& outcomes.len() >= steps_from(step)
            &&& forall|i: int| 0 <= i < steps_from(step) ==> outcomes[i]
        }),
    decreases outcomes.len(),
{
    if outcomes.len() > 0 && outcomes[0] {
        if let Progress::Continue(next) = progress_of(step, true) {
            let rest = outcomes.drop_first();
            started_after_every_step(next, rest);
            if progress_after(step, outcomes) == Progress::Started {
                assert forall|i: int| 0 <= i < steps_from(step) implies outcomes[i] by {
                    if i > 0 {
                        assert(rest[i - 1] == outcomes[i]);
                    }
                }
            }
            if outcomes.len() >= steps_from(step) && (forall|i: int|
                0 <= i < steps_from(step) ==> outcomes[i]) {
                assert forall|i: int| 0 <= i < steps_from(next) implies rest[i] by {
                    assert(outcomes[i + 1]);
                }
            }
        }
    }
}

/// The first failure is the one that is reported: where the steps from
/// `step` on succeed up to the one at position `at` and that one fails, the
/// run ends with the failure of that step, whatever the outcomes after it
/// say.
pub proof fn first_failure_is_reported(step: Step, outcomes: Seq<bool>, at: nat)
    requires
        at < outcomes.len(),
        at < steps_from(step),
        !outcomes[at as int],
        forall|i: int| 0 <= i < at ==> outcomes[i],
    ensures
        progress_after(step, outcomes) == Progress::Abort(failure_of(step_at(step, at))),
    decreases at,
{
    if at > 0 {
        assert(outcomes[0]);
        if let Progress::Continue(next) = progress_of(step, true) {
            let rest = outcomes.drop_first();
            assert forall|i: int| 0 <= i < at - 1 implies rest[i] by {
                assert(outcomes[i + 1]);
            }
            first_failure_is_reported(next, rest, (at - 1) as nat);
        }
    }
}

} // verus!
