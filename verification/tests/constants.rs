use plotpy::constants::{DEFAULT_INTERPRETER, INTERPRETER_VARIABLE, PAUSE_DIRECTIVE, PYTHON_HEADER};

#[test]
fn constants_are_correct() {
    assert_eq!(PYTHON_HEADER.len(), 1768);
}

#[test]
fn header_is_plain_ascii_and_ends_with_a_newline() {
    assert!(PYTHON_HEADER.is_ascii());
    assert!(PYTHON_HEADER.starts_with("### file generated by plotpy\nimport numpy as np\n"));
    assert!(PYTHON_HEADER.ends_with("in this version of Matplotlib')\n"));
}

#[test]
fn header_defines_the_helpers() {
    assert!(PYTHON_HEADER.contains("\ndef add_to_ea(obj):\n"));
    assert!(PYTHON_HEADER.contains("\ndef get_colormap(idx):"));
    assert!(PYTHON_HEADER.contains("\ndef maybe_create_ax3d():\n"));
    assert!(PYTHON_HEADER.contains("\ndef data_to_axis(coords):\n"));
    assert!(PYTHON_HEADER.contains("\ndef axis_to_data(coords):\n"));
    assert!(PYTHON_HEADER.contains("\ndef set_equal_axes():\n"));
}

#[test]
fn other_constants_have_their_values() {
    assert_eq!(PAUSE_DIRECTIVE, "input(\"Press any key to close\")");
    assert_eq!(DEFAULT_INTERPRETER, "python3");
    assert_eq!(INTERPRETER_VARIABLE, "PLOTPY_PYTHON");
}
