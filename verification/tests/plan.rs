use plotpy::plan::{after, first_step, resolve_interpreter, Progress, ScriptError, Step};

const STEPS: [Step; 5] = [
    Step::CreateDirectory,
    Step::CreateFile,
    Step::WriteFile,
    Step::SyncFile,
    Step::RunInterpreter,
];

#[test]
fn run_begins_with_the_directory_where_there_is_one() {
    assert_eq!(first_step(true), Step::CreateDirectory);
    assert_eq!(first_step(false), Step::CreateFile);
}

#[test]
fn steps_follow_in_order() {
    assert_eq!(after(Step::CreateDirectory, true), Progress::Continue(Step::CreateFile));
    assert_eq!(after(Step::CreateFile, true), Progress::Continue(Step::WriteFile));
    assert_eq!(after(Step::WriteFile, true), Progress::Continue(Step::SyncFile));
    assert_eq!(after(Step::SyncFile, true), Progress::Continue(Step::RunInterpreter));
    assert_eq!(after(Step::RunInterpreter, true), Progress::Started);
}

#[test]
fn each_step_reports_its_own_failure() {
    assert_eq!(
        after(Step::CreateDirectory, false),
        Progress::Abort(ScriptError::CannotCreateDirectory)
    );
    assert_eq!(after(Step::CreateFile, false), Progress::Abort(ScriptError::CannotCreateFile));
    assert_eq!(after(Step::WriteFile, false), Progress::Abort(ScriptError::CannotWriteFile));
    assert_eq!(after(Step::SyncFile, false), Progress::Abort(ScriptError::CannotSyncFile));
    assert_eq!(after(Step::RunInterpreter, false), Progress::Abort(ScriptError::CannotRunPython));
}

#[test]
fn failures_have_their_words() {
    assert_eq!(ScriptError::CannotCreateDirectory.message(), "cannot create directory");
    assert_eq!(ScriptError::CannotCreateFile.message(), "cannot create file");
    assert_eq!(ScriptError::CannotWriteFile.message(), "cannot write file");
    assert_eq!(ScriptError::CannotSyncFile.message(), "cannot sync file");
    assert_eq!(ScriptError::CannotRunPython.message(), "cannot run python3");
}

#[test]
fn full_run_takes_five_steps() {
    let mut step = first_step(true);
    let mut taken = vec![step];
    loop {
        match after(step, true) {
            Progress::Continue(next) => {
                taken.push(next);
                step = next;
            }
            Progress::Started => break,
            Progress::Abort(error) => panic!("{}", error.message()),
        }
    }
    assert_eq!(taken, STEPS.to_vec());
}

#[test]
fn failure_stops_the_run_before_the_interpreter() {
    for failing in 0..4 {
        let mut step = first_step(true);
        let mut taken = 0;
        let error = loop {
            match after(step, taken != failing) {
                Progress::Continue(next) => {
                    taken += 1;
                    step = next;
                }
                Progress::Started => panic!("started after a failure"),
                Progress::Abort(error) => break error,
            }
        };
        assert_eq!(taken, failing);
        assert_ne!(step, Step::RunInterpreter);
        assert_eq!(Progress::Abort(error), after(STEPS[failing], false));
    }
}

#[test]
fn existing_file_in_place_of_a_directory_is_a_directory_failure() {
    assert_eq!(
        after(first_step(true), false),
        Progress::Abort(ScriptError::CannotCreateDirectory)
    );
    assert_eq!(
        ScriptError::CannotCreateDirectory.message(),
        "cannot create directory"
    );
}

#[test]
fn configured_interpreter_takes_precedence() {
    assert_eq!(resolve_interpreter(None), "python3");
    assert_eq!(resolve_interpreter(Some("python3.9".to_string())), "python3.9");
    assert_eq!(
        resolve_interpreter(Some("/opt/py/bin/python".to_string())),
        "/opt/py/bin/python"
    );
    assert_eq!(resolve_interpreter(Some(String::new())), "");
}
