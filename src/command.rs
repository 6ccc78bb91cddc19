//! The external command that a handler asks for, and what came of running it.
use vstd::prelude::*;

verus! {

/// The text that stands for command output that is not valid UTF-8.
pub const UNPARSABLE_OUTPUT: &'static str = "unable to parse output";

/// A program to run, with its arguments in order.
#[derive(Clone, Debug)]
pub struct CommandSpec {
    pub program: String,
    pub args: Vec<String>,
}

impl CommandSpec {
    /// The program and its arguments as character sequences.
    pub open spec fn view_parts(&self) -> (Seq<char>, Seq<Seq<char>>) {
        (self.program@, self.args@.map_values(|a: String| a@))
    }
}

/// The result of one run of an external command.
///
/// A run either started and exited, with a success flag and the captured
/// output, or could not be started at all, in which case there is no exit
/// status and only the reason for the failure.
#[derive(Clone, Debug)]
pub enum CommandOutcome {
    Exited { success: bool, stdout: Vec<u8>, stderr: Vec<u8> },
    SpawnFailed { reason: String },
}

/// The characters that `bytes` decode to as UTF-8, or `None` where they are
/// not valid UTF-8.
pub uninterp spec fn utf8_of(bytes: Seq<u8>) -> Option<Seq<char>>;

/// Captured output as text: its UTF-8 decoding, or the fixed fallback text
/// where it does not decode.
pub open spec fn output_text(bytes: Seq<u8>) -> Seq<char> {
    match utf8_of(bytes) {
        Some(s) => s,
        None => UNPARSABLE_OUTPUT@,
    }
}

/// Relies on `String::from_utf8`: it succeeds exactly on valid UTF-8 and
/// then holds the decoded characters.
#[verifier::external_body]
fn decode_utf8(bytes: Vec<u8>) -> (r: Option<String>)
    ensures
        r is Some <==> utf8_of(bytes@) is Some,
        r matches Some(s) ==> utf8_of(bytes@) == Some(s@),
{
    String::from_utf8(bytes).ok()
}

/// Decodes captured output for transport. A decoding failure is not an
/// error: the fallback text takes the output's place.
pub fn decode_output(bytes: Vec<u8>) -> (r: String)
    ensures
        r@ == output_text(bytes@),
{
    match decode_utf8(bytes) {
        Some(s) => s,
        None => UNPARSABLE_OUTPUT.to_owned(),
    }
}

} // verus!
