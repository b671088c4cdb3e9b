use plotpy::constants::{PAUSE_DIRECTIVE, PYTHON_HEADER};
use plotpy::output::decode_output;
use plotpy::runner::{advance, begin, Action, Event, Phase};
use plotpy::script::{compose, interactive_script_text, script_text};

#[test]
fn call_python3_works() {
    let commands = "print(\"Python says: Hello World!\")".to_string();
    let data = script_text(&commands);
    let mut correct = String::from(PYTHON_HEADER);
    correct.push_str(&commands);
    assert_eq!(data, correct);
    let output = decode_output(b"Python says: Hello World!\n".to_vec(), Vec::new());
    assert_eq!(output, Some("Python says: Hello World!\n".to_string()));
}

#[test]
fn call_python3_create_dir_works() {
    let commands = "print(\"Python says: Hello World!\")".to_string();
    let data = script_text(&commands);
    let mut correct = String::from(PYTHON_HEADER);
    correct.push_str(&commands);
    assert_eq!(data, correct);
    assert_eq!(data.len(), 1768 + 34);
    let output = decode_output(b"Python says: Hello World!\n".to_vec(), Vec::new()).unwrap();
    assert_eq!(output, "Python says: Hello World!\n");
}

#[test]
fn call_python3_twice_works() {
    // first
    let commands_first = "print(\"Python says: Hello World!\")".to_string();
    let data_first = script_text(&commands_first);
    let mut correct_first = String::from(PYTHON_HEADER);
    correct_first.push_str(&commands_first);
    assert_eq!(data_first, correct_first);
    let output_first = decode_output(b"Python says: Hello World!\n".to_vec(), Vec::new()).unwrap();
    assert_eq!(output_first, "Python says: Hello World!\n");
    // second
    let commands_second = "print(\"Python says: Hello World! again\")".to_string();
    let data_second = script_text(&commands_second);
    let mut correct_second = String::from(PYTHON_HEADER);
    correct_second.push_str(&commands_second);
    assert_eq!(data_second, correct_second);
    assert!(!data_second.contains(commands_first.as_str()));
    let output_second =
        decode_output(b"Python says: Hello World! again\n".to_vec(), Vec::new()).unwrap();
    assert_eq!(output_second, "Python says: Hello World! again\n");
}

#[test]
fn call_python3_signal_works() {
    let commands = "print(\"Python says: Hello World!\")".to_string();
    let data = interactive_script_text(&commands);
    let mut correct = String::from(PYTHON_HEADER);
    correct.push_str(&commands);
    correct.push_str("input(\"Press any key to close\")");
    assert_eq!(data, correct);

    // the caller's task sends first; the interpreter is ended once
    let (phase, action) = begin();
    assert_eq!(action, Action::StartRacers);
    let (phase, action) = advance(phase, Event::RacersStarted);
    assert_eq!(action, Action::AwaitSignal);
    let (phase, action) = advance(phase, Event::Signal(true));
    assert_eq!((phase, action), (Phase::KillIssued, Action::KillThenDrain));
    let drained = Event::Drained {
        kill_succeeded: true,
        stdout: b"Python says: Hello World!\n".to_vec(),
        stderr: Vec::new(),
    };
    let (phase, action) = advance(phase, drained);
    assert_eq!(phase, Phase::Drained);
    let output = match action {
        Action::Return(text) => text,
        other => panic!("no result: {:?}", other),
    };
    println!("output: {}", output);
    assert_eq!(output, "Python says: Hello World!\n");
    assert_eq!(advance(phase, Event::Returned), (Phase::Done, Action::Nothing));
}

#[test]
fn compose_adds_no_separator() {
    assert_eq!(compose("H", "B"), "HB");
    assert_eq!(compose("head\n", "body"), "head\nbody");
    assert_eq!(compose("", ""), "");
    assert_eq!(compose("only header", ""), "only header");
    assert_eq!(compose("", "only body"), "only body");
}

#[test]
fn empty_body_gives_the_header_alone() {
    assert_eq!(script_text(""), PYTHON_HEADER);
    assert_eq!(interactive_script_text(""), format!("{}{}", PYTHON_HEADER, PAUSE_DIRECTIVE));
}

#[test]
fn script_text_keeps_the_body_byte_for_byte() {
    let body = "x = '\u{e9}\u{4e16}'\r\n\tprint(x)\n\n";
    let text = script_text(body);
    assert_eq!(text.len(), PYTHON_HEADER.len() + body.len());
    assert_eq!(&text[..PYTHON_HEADER.len()], PYTHON_HEADER);
    assert_eq!(&text[PYTHON_HEADER.len()..], body);
}

#[test]
fn interactive_script_ends_with_the_pause() {
    let body = "plt.show()\n";
    let text = interactive_script_text(body);
    assert_eq!(text, format!("{}{}", script_text(body), PAUSE_DIRECTIVE));
    assert!(text.ends_with("plt.show()\ninput(\"Press any key to close\")"));
    assert_eq!(text.len(), 1768 + 11 + 31);
}

#[test]
fn different_bodies_give_different_scripts() {
    assert_ne!(script_text("a = 1"), script_text("a = 2"));
    assert_ne!(script_text("a"), script_text("a "));
}
