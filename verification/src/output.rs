//! What a run hands back: the interpreter's standard output followed by its
//! standard error, as one text.

use vstd::prelude::*;
use vstd::string::StringExecFns;
use vstd::utf8::{decode_utf8, valid_utf8};

verus! {

/// The text of a captured stream when it is read strictly: its decoding.
/// Meaningful only for bytes that are valid UTF-8.
pub open spec fn strict_text(bytes: Seq<u8>) -> Seq<char> {
    decode_utf8(bytes)
}

/// The text of a captured stream when it is read leniently: its decoding,
/// or nothing at all where the bytes are not valid UTF-8.
pub open spec fn lenient_text(bytes: Seq<u8>) -> Seq<char> {
    if valid_utf8(bytes) {
        decode_utf8(bytes)
    } else {
        Seq::empty()
    }
}

/// The result of a run whose two streams hold the given texts: standard
/// output first, standard error directly after it.
pub open spec fn combined(stdout: Seq<char>, stderr: Seq<char>) -> Seq<char> {
    stdout + stderr
}

/// `String::from_utf8` of the standard library, with its error reduced to
/// `None`. Believed of it, not proved: it accepts exactly the byte strings
/// that are valid UTF-8, and the accepted string holds the characters that
/// those bytes encode.
#[verifier::external_body]
fn text_from_utf8(bytes: Vec<u8>) -> (text: Option<String>)
    ensures
        text is Some <==> valid_utf8(bytes@),
        text matches Some(t) ==> t@ == decode_utf8(bytes@),
{
    match String::from_utf8(bytes) {
        Ok(t) => Some(t),
        Err(_) => None,
    }
}

/// Joins the two captured texts into the result of a run.
pub fn combine_output(stdout: &str, stderr: &str) -> (result: String)
    ensures
        result@ == combined(stdout@, stderr@),
{
    let mut result = String::new();
    result.append(stdout);
    result.append(stderr);
    result
}

/// Decodes one captured stream strictly: `None` exactly where the bytes are
/// not valid UTF-8.
pub fn decode_stream(bytes: Vec<u8>) -> (text: Option<String>)
    ensures
        text is Some <==> valid_utf8(bytes@),
        text matches Some(t) ==> t@ == strict_text(bytes@),
{
    text_from_utf8(bytes)
}

/// Decodes one captured stream leniently: bytes that are not valid UTF-8
/// count as an empty stream.
pub fn decode_stream_lenient(bytes: Vec<u8>) -> (text: String)
    ensures
        text@ == lenient_text(bytes@),
{
    match text_from_utf8(bytes) {
        Some(t) => t,
        None => String::new(),
    }
}

/// The result of a run that ended by itself, from the bytes captured on its
/// two streams. There is a result exactly when both streams are valid
/// UTF-8; it is then the decoded standard output followed by the decoded
/// standard error.
pub fn decode_output(stdout: Vec<u8>, stderr: Vec<u8>) -> (result: Option<String>)
    ensures
        result is Some <==> valid_utf8(stdout@) && valid_utf8(stderr@),
        result matches Some(r) ==> r@ == combined(strict_text(stdout@), strict_text(stderr@)),
{
    match text_from_utf8(stdout) {
        Some(out) => match text_from_utf8(stderr) {
            Some(err) => Some(combine_output(out.as_str(), err.as_str())),
            None => None,
        },
        None => None,
    }
}

/// The result of a run that was ended from outside, from whatever bytes its
/// two streams gave up: each stream is decoded leniently, so that a stream
/// cut off in the middle of a character does not fail the run.
pub fn decode_output_lenient(stdout: Vec<u8>, stderr: Vec<u8>) -> (result: String)
    ensures
        result@ == combined(lenient_text(stdout@), lenient_text(stderr@)),
{
    let out = decode_stream_lenient(stdout);
    let err = decode_stream_lenient(stderr);
    combine_output(out.as_str(), err.as_str())
}

/// On streams that are both valid UTF-8 the lenient reading and the strict
/// one give the same result.
pub proof fn readings_agree_on_valid_streams(stdout: Seq<u8>, stderr: Seq<u8>)
    requires
        valid_utf8(stdout),
        valid_utf8(stderr),
    ensures
        combined(lenient_text(stdout), lenient_text(stderr)) == combined(
            strict_text(stdout),
            strict_text(stderr),
        ),
{
}

/// An empty standard error leaves the standard output as the whole result,
/// and an empty standard output leaves the standard error.
pub proof fn empty_stream_adds_nothing(text: Seq<char>)
    ensures
        combined(text, Seq::empty()) == text,
        combined(Seq::empty(), text) == text,
{
    assert(text + Seq::<char>::empty() =~= text);
    assert(Seq::<char>::empty() + text =~= text);
}

/// Standard output always comes first: the result starts with it, and what
/// follows is exactly the standard error.
pub proof fn stdout_precedes_stderr(stdout: Seq<char>, stderr: Seq<char>)
    ensures
        combined(stdout, stderr).len() == stdout.len() + stderr.len(),
        combined(stdout, stderr).subrange(0, stdout.len() as int) == stdout,
        combined(stdout, stderr).subrange(
            stdout.len() as int,
            combined(stdout, stderr).len() as int,
        ) == stderr,
{
    let all = combined(stdout, stderr);
    assert(all.subrange(0, stdout.len() as int) =~= stdout);
    assert(all.subrange(stdout.len() as int, all.len() as int) =~= stderr);
}

} // verus!
