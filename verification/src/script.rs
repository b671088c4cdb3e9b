//! The text of a script: the fixed header, then the caller's body, then, for
//! an interactive script, the pause directive.

use vstd::prelude::*;
use vstd::string::StringExecFns;
use crate::constants::{PAUSE_DIRECTIVE, PYTHON_HEADER};

verus! {

/// The characters of a script with the given header and body: the header,
/// immediately followed by the body.
pub open spec fn composed(header: Seq<char>, body: Seq<char>) -> Seq<char> {
    header + body
}

/// The characters of the script that runs `body` and ends by itself.
pub open spec fn script_of(body: Seq<char>) -> Seq<char> {
    composed(PYTHON_HEADER@, body)
}

/// The characters of the script that runs `body` and then waits for input.
pub open spec fn interactive_script_of(body: Seq<char>) -> Seq<char> {
    script_of(body) + PAUSE_DIRECTIVE@
}

/// Joins a header and a body into the text of a script, with nothing put
/// between them.
pub fn compose(header: &str, body: &str) -> (text: String)
    ensures
        text@ == composed(header@, body@),
{
    let mut text = String::new();
    text.append(header);
    text.append(body);
    text
}

/// The complete content of the file for a script that ends by itself.
pub fn script_text(body: &str) -> (text: String)
    ensures
        text@ == script_of(body@),
{
    compose(PYTHON_HEADER, body)
}

/// The complete content of the file for an interactive script: as
/// [`script_text`], followed by the pause directive.
pub fn interactive_script_text(body: &str) -> (text: String)
    ensures
        text@ == interactive_script_of(body@),
{
    let mut text = compose(PYTHON_HEADER, body);
    text.append(PAUSE_DIRECTIVE);
    text
}

/// The header stands first and unchanged, the body follows it directly and
/// unchanged, and the text holds nothing else.
pub proof fn header_comes_first(header: Seq<char>, body: Seq<char>)
    ensures
        composed(header, body).len() == header.len() + body.len(),
        composed(header, body).subrange(0, header.len() as int) == header,
        composed(header, body).subrange(
            header.len() as int,
            composed(header, body).len() as int,
        ) == body,
{
    let text = composed(header, body);
    assert(text.subrange(0, header.len() as int) =~= header);
    assert(text.subrange(header.len() as int, text.len() as int) =~= body);
}

/// A script holds its own body and nothing of any other: two bodies that
/// give the same text under one header are the same body. So writing the
/// text of a second body over that of a first leaves no trace of the first.
pub proof fn text_determines_body(header: Seq<char>, first: Seq<char>, second: Seq<char>)
    requires
        composed(header, first) == composed(header, second),
    ensures
        first == second,
{
    header_comes_first(header, first);
    header_comes_first(header, second);
}

/// An interactive script is the plain script of the same body with the
/// pause directive as its last statement.
pub proof fn pause_comes_last(body: Seq<char>)
    ensures
        interactive_script_of(body).len() == script_of(body).len() + PAUSE_DIRECTIVE@.len(),
        interactive_script_of(body).subrange(0, script_of(body).len() as int) == script_of(
            body,
        ),
        interactive_script_of(body).subrange(
            script_of(body).len() as int,
            interactive_script_of(body).len() as int,
        ) == PAUSE_DIRECTIVE@,
{
    header_comes_first(script_of(body), PAUSE_DIRECTIVE@);
}

} // verus!
