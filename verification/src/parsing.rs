//! Reading what the tool printed.
//!
//! The tool answers with one line on standard output when it succeeds and
//! with a message on standard error when it fails. This module turns either
//! stream into text and a finished run into a typed result.

use vstd::prelude::*;
use vstd::string::*;
use vstd::utf8::*;
use crate::buildah_error::BuildahError;
use crate::buildah_error::ErrorView;
use crate::executor::Outcome;
use crate::executor::ProcessOutput;
use crate::executor::ProcessOutputView;

verus! {

/// How a teardown ended. This is a record for the log and never an error of
/// the caller: by the time it is made the handle is gone either way.
#[derive(Debug)]
pub enum Teardown {
    /// The tool released the resource.
    Released,
    /// The tool did not confirm the release; the resource may be left behind.
    Leaked(BuildahError),
}

/// A [`Teardown`] as contracts read it.
pub enum TeardownView {
    Released,
    Leaked(ErrorView),
}

impl View for Teardown {
    type V = TeardownView;

    open spec fn view(&self) -> TeardownView {
        match *self {
            Teardown::Released => TeardownView::Released,
            Teardown::Leaked(error) => TeardownView::Leaked(error@),
        }
    }
}

/// Whether `c` has the Unicode property `White_Space`.
pub open spec fn is_whitespace(c: char) -> bool {
    let n = c as u32;
    ||| 0x0009 <= n <= 0x000D
    ||| n == 0x0020
    ||| n == 0x0085
    ||| n == 0x00A0
    ||| n == 0x1680
    ||| 0x2000 <= n <= 0x200A
    ||| n == 0x2028
    ||| n == 0x2029
    ||| n == 0x202F
    ||| n == 0x205F
    ||| n == 0x3000
}

/// `text` without the whitespace at its end.
pub open spec fn trim_end(text: Seq<char>) -> Seq<char>
    decreases text.len(),
{
    if text.len() > 0 && is_whitespace(text.last()) {
        trim_end(text.drop_last())
    } else {
        text
    }
}

/// The line that `bytes` stand for: their text without trailing whitespace,
/// or nothing where they are not UTF-8.
pub open spec fn output_line(bytes: Seq<u8>) -> Option<Seq<char>> {
    if valid_utf8(bytes) {
        Some(trim_end(decode_utf8(bytes)))
    } else {
        None
    }
}

/// What a finished run of the tool means: its line on success, its message
/// as a tool error on failure, a decoding error where the stream that
/// counts is not UTF-8.
pub open spec fn interpreted(output: ProcessOutputView) -> Result<Seq<char>, ErrorView> {
    if output.success {
        match output_line(output.stdout) {
            Some(line) => Ok(line),
            None => Err(ErrorView::InvalidUTF8Output),
        }
    } else {
        match output_line(output.stderr) {
            Some(message) => Err(ErrorView::Buildah(message)),
            None => Err(ErrorView::InvalidUTF8Output),
        }
    }
}

/// What an attempt to run the tool means: as [`interpreted`] where it ran,
/// the launch failure itself where it could not be started.
pub open spec fn interpreted_outcome(outcome: Outcome) -> Result<Seq<char>, ErrorView> {
    match outcome {
        Ok(output) => interpreted(output@),
        Err(error) => Err(ErrorView::IoError(error)),
    }
}

/// The record that a teardown leaves for `outcome`: released where the tool
/// confirmed it, leaked with the error in every other case.
pub open spec fn teardown_of(outcome: Outcome) -> TeardownView {
    match interpreted_outcome(outcome) {
        Ok(_) => TeardownView::Released,
        Err(error) => TeardownView::Leaked(error),
    }
}

/// A result as contracts read it: the text of the line, or the view of the error.
pub open spec fn line_view(r: Result<String, BuildahError>) -> Result<Seq<char>, ErrorView> {
    match r {
        Ok(line) => Ok(line@),
        Err(error) => Err(error@),
    }
}

/// `trim_end` keeps a prefix, and that prefix is the whole text up to its
/// last character that is no whitespace: nothing more is cut, nothing less.
pub proof fn lemma_trim_end_is_longest_clean_prefix(text: Seq<char>)
    ensures
        trim_end(text).len() <= text.len(),
        trim_end(text) == text.subrange(0, trim_end(text).len() as int),
        trim_end(text).len() > 0 ==> !is_whitespace(trim_end(text).last()),
        forall|i: int| trim_end(text).len() <= i < text.len() ==> is_whitespace(#[trigger] text[i]),
    decreases text.len(),
{
    if text.len() > 0 && is_whitespace(text.last()) {
        let shorter = text.drop_last();
        lemma_trim_end_is_longest_clean_prefix(shorter);
        let kept = trim_end(shorter).len() as int;
        assert(shorter.subrange(0, kept) =~= text.subrange(0, kept));
        assert forall|i: int| kept <= i < text.len() implies is_whitespace(#[trigger] text[i]) by {
            if i < shorter.len() {
                assert(text[i] == shorter[i]);
            }
        }
    } else {
        assert(text.subrange(0, text.len() as int) =~= text);
    }
}

/// What is left of a text after trimming is empty exactly if the text holds
/// nothing but whitespace.
pub proof fn lemma_line_is_empty_iff_blank(text: Seq<char>)
    ensures
        trim_end(text).len() == 0 <==> forall|i: int|
            0 <= i < text.len() ==> is_whitespace(#[trigger] text[i]),
    decreases text.len(),
{
    if text.len() > 0 && is_whitespace(text.last()) {
        let shorter = text.drop_last();
        lemma_line_is_empty_iff_blank(shorter);
        if trim_end(text).len() == 0 {
            assert forall|i: int| 0 <= i < text.len() implies is_whitespace(
                #[trigger] text[i],
            ) by {
                if i < shorter.len() {
                    assert(shorter[i] == text[i]);
                }
            }
        } else {
            let i = choose|i: int| 0 <= i < shorter.len() && !is_whitespace(#[trigger] shorter[i]);
            assert(text[i] == shorter[i]);
        }
    } else if text.len() > 0 {
        assert(!is_whitespace(text[text.len() - 1]));
    }
}

/// A line that ends in `\n` or in `\r\n` loses that terminator, and a line
/// that does not end in whitespace loses nothing.
pub proof fn lemma_line_terminator_is_cut(line: Seq<char>)
    requires
        line.len() == 0 || !is_whitespace(line.last()),
    ensures
        trim_end(line) == line,
        trim_end(line.push('\n')) == line,
        trim_end(line.push('\r').push('\n')) == line,
{
    assert(trim_end(line) == line);
    assert(line.push('\n').drop_last() =~= line);
    assert(line.push('\r').drop_last() =~= line);
    assert(line.push('\r').push('\n').drop_last() =~= line.push('\r'));
    assert(trim_end(line.push('\n')) == line);
    assert(trim_end(line.push('\r')) == line);
}

/// Whatever came of the tool's run, a teardown ends in a record for the
/// log. A tool that failed, as it does for a mount whose container is
/// gone, is recorded with its message; a tool that could not be started
/// is recorded with the launch failure.
pub proof fn lemma_failed_teardown_is_recorded(outcome: Outcome)
    ensures
        match outcome {
            Ok(output) => !output.success ==> match output_line(output.stderr@) {
                Some(message) => teardown_of(outcome) == TeardownView::Leaked(
                    ErrorView::Buildah(message),
                ),
                None => teardown_of(outcome) == TeardownView::Leaked(ErrorView::InvalidUTF8Output),
            },
            Err(error) => teardown_of(outcome) == TeardownView::Leaked(ErrorView::IoError(error)),
        },
{
}

/// `String::from_utf8` of std. It accepts exactly the byte strings that are
/// UTF-8, and the string it gives holds the characters that they encode.
/// Nothing is claimed of the error that it gives otherwise.
#[verifier::external_body]
fn string_from_utf8(bytes: Vec<u8>) -> (r: Result<String, std::string::FromUtf8Error>)
    ensures
        r is Ok <==> valid_utf8(bytes@),
        r matches Ok(text) ==> text@ == decode_utf8(bytes@),
{
    String::from_utf8(bytes)
}

fn is_whitespace_char(c: char) -> (r: bool)
    ensures
        r == is_whitespace(c),
{
    let n: u32 = c as u32;
    (0x0009 <= n && n <= 0x000D) || n == 0x0020 || n == 0x0085 || n == 0x00A0 || n == 0x1680 || (
    0x2000 <= n && n <= 0x200A) || n == 0x2028 || n == 0x2029 || n == 0x202F || n == 0x205F || n
        == 0x3000
}

/// `text` without its trailing whitespace, found in one pass from the front:
/// `end` is where the text would end if the pass stopped now.
fn trim_line(text: &str) -> (r: String)
    ensures
        r@ == trim_end(text@),
{
    let len: usize = text.unicode_len();
    let mut seen: usize = 0;
    let mut end: usize = 0;
    assert(text@.subrange(0, 0) =~= Seq::<char>::empty());
    for c in chars: text.chars()
        invariant
            len == text@.len(),
            chars.seq() == text@,
            seen == chars.index(),
            end <= seen <= len,
            text@.subrange(0, end as int) == trim_end(text@.subrange(0, seen as int)),
    {
        let ghost before = text@.subrange(0, seen as int);
        assert(before.push(c) =~= text@.subrange(0, seen + 1));
        assert(before.push(c).drop_last() =~= before);
        seen = seen + 1;
        if !is_whitespace_char(c) {
            end = seen;
        }
    }
    assert(text@.subrange(0, seen as int) =~= text@);
    text.substring_char(0, end).to_owned()
}

/// Converts a newline-terminated line of output into a `String`: the bytes
/// are decoded as UTF-8 and the line terminator, with any other whitespace
/// at the end, is cut off. Bytes that are not UTF-8 give
/// [`BuildahError::InvalidUTF8Output`].
///
/// Example: `b"abc\n"` gives `"abc"`.
pub fn parse_output_line(bytes: Vec<u8>) -> (r: Result<String, BuildahError>)
    ensures
        match output_line(bytes@) {
            Some(line) => r matches Ok(text) && text@ == line,
            None => r matches Err(BuildahError::InvalidUTF8Output(_)),
        },
{
    match string_from_utf8(bytes) {
        Ok(text) => Ok(trim_line(text.as_str())),
        Err(error) => Err(BuildahError::from(error)),
    }
}

/// Turns a finished run of the tool into its result. A run that failed gives
/// [`BuildahError::Buildah`] with the line on standard error; a run that
/// succeeded gives the line on standard output. Every operation reads the
/// tool's answer through this function, so that failures of the tool look
/// the same wherever they come from.
pub fn interpret(output: ProcessOutput) -> (r: Result<String, BuildahError>)
    ensures
        line_view(r) == interpreted(output@),
{
    if !output.success {
        match parse_output_line(output.stderr) {
            Ok(message) => Err(BuildahError::Buildah(message)),
            Err(error) => Err(error),
        }
    } else {
        parse_output_line(output.stdout)
    }
}

/// As [`interpret`], for an attempt that may not have started the tool at
/// all: a launch failure is handed on unchanged as
/// [`BuildahError::IoError`].
pub fn interpret_outcome(outcome: Outcome) -> (r: Result<String, BuildahError>)
    ensures
        line_view(r) == interpreted_outcome(outcome),
{
    match outcome {
        Ok(output) => interpret(output),
        Err(error) => Err(BuildahError::from(error)),
    }
}

/// The result of an operation that answers with nothing but success: the
/// line that the tool printed is read and dropped, every error is kept.
pub fn acknowledge(outcome: Outcome) -> (r: Result<(), BuildahError>)
    ensures
        match interpreted_outcome(outcome) {
            Ok(_) => r is Ok,
            Err(error) => r matches Err(e) && e@ == error,
        },
{
    match interpret_outcome(outcome) {
        Ok(_) => Ok(()),
        Err(error) => Err(error),
    }
}

/// The result of an operation whose whole output matters to the caller: a
/// finished run is handed back as it is, whatever its exit status, and only
/// a launch failure is an error.
pub fn whole_output(outcome: Outcome) -> (r: Result<ProcessOutput, BuildahError>)
    ensures
        match outcome {
            Ok(output) => r == Ok::<ProcessOutput, BuildahError>(output),
            Err(error) => r matches Err(e) && e@ == ErrorView::IoError(error),
        },
{
    match outcome {
        Ok(output) => Ok(output),
        Err(error) => Err(BuildahError::from(error)),
    }
}

/// What there is to log after a teardown. No outcome is an error here: a
/// launch failure, a failure of the tool and output that cannot be read
/// all end up in [`Teardown::Leaked`], and nothing is handed to the caller
/// to react to.
pub fn teardown_report(outcome: Outcome) -> (r: Teardown)
    ensures
        r@ == teardown_of(outcome),
{
    match interpret_outcome(outcome) {
        Ok(_) => Teardown::Released,
        Err(error) => Teardown::Leaked(error),
    }
}

} // verus!
