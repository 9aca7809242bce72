//! Why a launch failed.

use crate::text::{
    decimal, lemma_decimal_is_one_line, lemma_one_line_has_no_break,
    lemma_one_line_keeps_a_line, one_line, push_decimal, to_one_line,
};
use vstd::prelude::*;

verus! {

/// `std::io::Error`, held as an opaque value.
#[verifier::external_type_specification]
#[verifier::external_body]
pub struct ExIoError(std::io::Error);

/// Renders an I/O failure as text, by `std::io::Error`'s `Display`
/// implementation. Nothing is claimed of the text: it comes from the
/// operating system.
#[verifier::external_body]
pub(crate) fn io_error_text(cause: &std::io::Error) -> (text: String) {
    format!("{}", cause)
}

/// Why a launch failed.
#[derive(Debug)]
pub enum JavaError {
    /// The process could not be started, or its status could not be had.
    IoError(std::io::Error),
    /// The process ran and ended with a status other than zero.
    ExitCode(i32),
}

impl From<std::io::Error> for JavaError {
    fn from(err: std::io::Error) -> (r: JavaError) {
        JavaError::IoError(err)
    }
}

impl vstd::std_specs::convert::FromSpecImpl<std::io::Error> for JavaError {
    open spec fn obeys_from_spec() -> bool {
        true
    }

    open spec fn from_spec(err: std::io::Error) -> JavaError {
        JavaError::IoError(err)
    }
}

/// What a launch returns for the status that the process ended with: `None`
/// stands for a process that ended without an exit code, and counts as the
/// exit code 1.
pub open spec fn exit_result(code: Option<i32>) -> Result<(), JavaError> {
    match code {
        Some(c) => if c == 0 {
            Ok(())
        } else {
            Err(JavaError::ExitCode(c))
        },
        None => Err(JavaError::ExitCode(1)),
    }
}

/// What a launch returns for the outcome of starting the process and waiting
/// for it.
pub open spec fn launch_result(status: Result<Option<i32>, std::io::Error>) -> Result<
    (),
    JavaError,
> {
    match status {
        Ok(code) => exit_result(code),
        Err(cause) => Err(JavaError::IoError(cause)),
    }
}

/// The message for an exit code other than zero: it ends in the code, in
/// decimal.
pub open spec fn exit_code_message(code: i32) -> Seq<char> {
    JavaError::exit_code_prefix() + decimal(code as int)
}

/// The message for an I/O failure whose own text is `detail`: the text
/// follows the prefix, folded into one line.
pub open spec fn io_error_message_text(detail: Seq<char>) -> Seq<char> {
    JavaError::io_error_prefix() + one_line(detail)
}

/// The message for an I/O failure, from the failure's own text.
pub fn io_error_message(detail: &str) -> (text: String)
    ensures
        text@ == io_error_message_text(detail@),
{
    let mut text = "IO error: ".to_owned();
    let line = to_one_line(detail);
    text.append(line.as_str());
    text
}

impl JavaError {
    /// The text that a message for a status other than zero begins with.
    pub open spec fn exit_code_prefix() -> Seq<char> {
        "Launcher exited with non-zero status code "@
    }

    /// The text that a message for an I/O failure begins with.
    pub open spec fn io_error_prefix() -> Seq<char> {
        "IO error: "@
    }

    /// A message for this error, on a single line. For an exit code it ends
    /// in the code, in decimal; for an I/O failure it is what
    /// [`io_error_message`] makes of the failure's own text.
    pub fn message(&self) -> (text: String)
        ensures
            !text@.contains('\n'),
            !text@.contains('\r'),
            match self {
                JavaError::ExitCode(code) => text@ == exit_code_message(*code),
                JavaError::IoError(_) => {
                    &&& Self::io_error_prefix().is_prefix_of(text@)
                    &&& exists|detail: Seq<char>|
                        text@ == #[trigger] io_error_message_text(detail)
                },
            },
    {
        match self {
            JavaError::ExitCode(code) => {
                let mut text = "Launcher exited with non-zero status code ".to_owned();
                push_decimal(&mut text, *code);
                proof {
                    lemma_exit_code_message_is_one_line(*code);
                }
                text
            },
            JavaError::IoError(cause) => {
                let detail = io_error_text(cause);
                let text = io_error_message(detail.as_str());
                proof {
                    lemma_io_error_message_is_one_line(detail@);
                }
                text
            },
        }
    }
}

/// A launch succeeds on the exit code zero and on nothing else: every other
/// exit code, a process that ended without one, and a failure to start the
/// process or to wait for it are errors.
pub proof fn lemma_only_zero_succeeds(status: Result<Option<i32>, std::io::Error>)
    ensures
        launch_result(status) is Ok <==> status == Ok::<Option<i32>, std::io::Error>(Some(0)),
{
}

/// An exit code other than zero comes back unchanged, and a process that
/// ended without an exit code counts as the exit code 1, never as 0.
pub proof fn lemma_exit_code_is_kept(code: Option<i32>)
    requires
        code != Some(0i32),
    ensures
        launch_result(Ok(code)) == Err::<(), JavaError>(
            JavaError::ExitCode(
                match code {
                    Some(c) => c,
                    None => 1,
                },
            ),
        ),
{
}

/// The message for an exit code is a single line.
pub proof fn lemma_exit_code_message_is_one_line(code: i32)
    ensures
        !exit_code_message(code).contains('\n'),
        !exit_code_message(code).contains('\r'),
{
    reveal_strlit("Launcher exited with non-zero status code ");
    lemma_decimal_is_one_line(code as int);
}

/// The message for an I/O failure is a single line, whatever the failure's
/// own text holds.
pub proof fn lemma_io_error_message_is_one_line(detail: Seq<char>)
    ensures
        !io_error_message_text(detail).contains('\n'),
        !io_error_message_text(detail).contains('\r'),
{
    reveal_strlit("IO error: ");
    lemma_one_line_has_no_break(detail);
}

/// Where the failure's own text is a single line, the message for an I/O
/// failure is the prefix and then that text, unchanged.
pub proof fn lemma_io_error_message_keeps_a_line(detail: Seq<char>)
    requires
        !detail.contains('\n'),
        !detail.contains('\r'),
    ensures
        io_error_message_text(detail) == JavaError::io_error_prefix() + detail,
{
    lemma_one_line_keeps_a_line(detail);
}

} // verus!
