//! The error taxonomy: every way a command can fail, as data, paired with the
//! display string of the command that failed.

use vstd::prelude::*;
use vstd::utf8::{decode_utf8, valid_utf8};

use crate::output::{ExitStatus, Output, Utf8Error};

verus! {

/// What `String::from_utf8_lossy` makes of `bytes`: the bytes decoded as
/// UTF-8, with each invalid sequence replaced.
pub uninterp spec fn lossy_decode(bytes: Seq<u8>) -> Seq<char>;

/// Relies on `String::from_utf8_lossy`: the result depends on the bytes alone,
/// and valid UTF-8 decodes to exactly its characters.
#[verifier::external_body]
fn lossy_to_string(bytes: &Vec<u8>) -> (r: String)
    ensures
        r@ == lossy_decode(bytes@),
        valid_utf8(bytes@) ==> r@ == decode_utf8(bytes@),
{
    String::from_utf8_lossy(bytes.as_slice()).into_owned()
}

/// The single decimal digit `d` as text.
pub open spec fn digit_str(d: nat) -> Seq<char> {
    if d == 0 {
        "0"@
    } else if d == 1 {
        "1"@
    } else if d == 2 {
        "2"@
    } else if d == 3 {
        "3"@
    } else if d == 4 {
        "4"@
    } else if d == 5 {
        "5"@
    } else if d == 6 {
        "6"@
    } else if d == 7 {
        "7"@
    } else if d == 8 {
        "8"@
    } else {
        "9"@
    }
}

/// The decimal rendering of `n`, without sign and without leading zeros.
pub open spec fn dec_digits(n: nat) -> Seq<char>
    decreases n,
{
    if n < 10 {
        digit_str(n)
    } else {
        dec_digits(n / 10) + digit_str(n % 10)
    }
}

/// The decimal rendering of `v`, with a leading minus sign where negative.
pub open spec fn int_str(v: int) -> Seq<char> {
    if v < 0 {
        "-"@ + dec_digits((-v) as nat)
    } else {
        dec_digits(v as nat)
    }
}

fn append_digit(s: &mut String, d: u64)
    requires
        d < 10,
    ensures
        final(s)@ == old(s)@ + digit_str(d as nat),
{
    if d == 0 {
        s.append("0");
    } else if d == 1 {
        s.append("1");
    } else if d == 2 {
        s.append("2");
    } else if d == 3 {
        s.append("3");
    } else if d == 4 {
        s.append("4");
    } else if d == 5 {
        s.append("5");
    } else if d == 6 {
        s.append("6");
    } else if d == 7 {
        s.append("7");
    } else if d == 8 {
        s.append("8");
    } else {
        s.append("9");
    }
}

fn append_dec(s: &mut String, n: u64)
    ensures
        final(s)@ == old(s)@ + dec_digits(n as nat),
    decreases n,
{
    if n >= 10 {
        append_dec(s, n / 10);
        append_digit(s, n % 10);
        proof {
            assert((n / 10) as nat == n as nat / 10);
            assert((n % 10) as nat == n as nat % 10);
            assert(old(s)@ + dec_digits(n as nat / 10) + digit_str(n as nat % 10) =~= old(s)@ + (
            dec_digits(n as nat / 10) + digit_str(n as nat % 10)));
        }
    } else {
        append_digit(s, n);
    }
}

fn append_exit_code(s: &mut String, code: i32)
    ensures
        final(s)@ == old(s)@ + int_str(code as int),
{
    let wide: i64 = code as i64;
    if wide < 0 {
        s.append("-");
        let magnitude: u64 = (-wide) as u64;
        append_dec(s, magnitude);
        proof {
            assert(magnitude as nat == (-(code as int)) as nat);
            assert(old(s)@ + "-"@ + dec_digits(magnitude as nat) =~= old(s)@ + ("-"@ + dec_digits(
                magnitude as nat,
            )));
        }
    } else {
        append_dec(s, wide as u64);
    }
}

/// An error reported by the operating system, reduced to its rendered text.
#[derive(Debug)]
pub struct OsError {
    /// The operating system's rendering of what went wrong.
    pub message: String,
}

impl OsError {
    /// Wrap an operating-system error's rendered text.
    pub fn new(message: String) -> (r: OsError)
        ensures
            r.message == message,
    {
        OsError { message }
    }

    /// The operating system's rendering of what went wrong.
    pub fn message(&self) -> (r: &str)
        ensures
            r@ == self.message@,
    {
        self.message.as_str()
    }
}

/// The specific cause of an [`Error`]: a closed set of failure reasons.
#[derive(Debug)]
pub enum Cause {
    /// The operating system failed to create the process.
    SpawnFailed(OsError),
    /// The operating system failed while waiting for the process to exit.
    WaitFailed(OsError),
    /// The process terminated unsuccessfully.
    CommandFailed(ExitStatus),
    /// The process terminated unsuccessfully, and its output was captured.
    CommandFailedWithOutput(Output),
}

impl Cause {
    /// The exit status, for the two causes that carry one.
    pub open spec fn spec_status(&self) -> Option<ExitStatus> {
        match *self {
            Cause::CommandFailed(status) => Some(status),
            Cause::CommandFailedWithOutput(output) => Some(output.status),
            _ => None,
        }
    }

    /// The captured output, for the one cause that carries it.
    pub open spec fn spec_output(&self) -> Option<Output> {
        match *self {
            Cause::CommandFailedWithOutput(output) => Some(output),
            _ => None,
        }
    }

    fn from_status(status: ExitStatus) -> (r: Result<ExitStatus, Cause>)
        ensures
            status.spec_success() ==> r == Ok::<ExitStatus, Cause>(status),
            !status.spec_success() ==> r == Err::<ExitStatus, Cause>(Cause::CommandFailed(status)),
    {
        if status.success() {
            Ok(status)
        } else {
            Err(Cause::CommandFailed(status))
        }
    }

    fn from_output(output: Output) -> (r: Result<Output, Cause>)
        ensures
            output.status.spec_success() ==> r == Ok::<Output, Cause>(output),
            !output.status.spec_success() ==> r == Err::<Output, Cause>(
                Cause::CommandFailedWithOutput(output),
            ),
    {
        if output.success() {
            Ok(output)
        } else {
            Err(Cause::CommandFailedWithOutput(output))
        }
    }

    fn status(&self) -> (r: Option<ExitStatus>)
        ensures
            r == self.spec_status(),
    {
        match self {
            Cause::CommandFailed(status) => Some(*status),
            Cause::CommandFailedWithOutput(output) => Some(output.status),
            _ => None,
        }
    }

    fn output(&self) -> (r: Option<&Output>)
        ensures
            r is Some <==> self.spec_output() is Some,
            r matches Some(output) ==> self.spec_output() == Some(*output),
    {
        match self {
            Cause::CommandFailedWithOutput(output) => Some(output),
            _ => None,
        }
    }
}

/// Law: an error whose cause is a failure to spawn or to wait carries neither
/// an exit status nor captured output; only a process that actually terminated
/// unsuccessfully carries them.
pub proof fn lemma_os_failure_carries_nothing(e: Error)
    requires
        e.cause is SpawnFailed || e.cause is WaitFailed,
    ensures
        e.cause.spec_status() is None,
        e.cause.spec_output() is None,
{
}

/// `text` wrapped in double quotes.
pub open spec fn quoted(text: Seq<char>) -> Seq<char> {
    "\""@ + text + "\""@
}

/// The rendering of an unsuccessful termination: the exit code where the
/// process exited on its own, a note where it did not.
pub open spec fn status_phrase(status: ExitStatus) -> Seq<char> {
    match status.code {
        Some(code) => "exiting with code "@ + int_str(code as int) + "."@,
        None => "but returned no exit code."@,
    }
}

/// The rendering of an unsuccessful command: the quoted display string, then
/// how it terminated.
pub open spec fn failure_phrase(command: Seq<char>, status: ExitStatus) -> Seq<char> {
    "Command "@ + quoted(command) + " didn't complete successfully, "@ + status_phrase(status)
}

/// The rendering of captured standard error: its text, or an explicit note
/// that there was none.
pub open spec fn stderr_phrase(stderr: Seq<u8>) -> Seq<char> {
    if stderr.len() == 0 {
        "stderr was empty."@
    } else {
        "stderr contents: "@ + lossy_decode(stderr)
    }
}

/// The rendered message of an [`Error`]: it always names the offending
/// command, quoted, and states what failed; then the exit code where one is
/// known, and the captured standard error where there is any.
pub open spec fn message_of(command: Seq<char>, cause: Cause) -> Seq<char> {
    match cause {
        Cause::SpawnFailed(err) => "Failed to spawn child process for command "@ + quoted(command)
            + ": "@ + err.message@,
        Cause::WaitFailed(err) => "Failed to wait for child process for command "@ + quoted(command)
            + " to exit: "@ + err.message@,
        Cause::CommandFailed(status) => failure_phrase(command, status),
        Cause::CommandFailedWithOutput(output) => failure_phrase(command, output.status)
            + stderr_phrase(output.stderr@),
    }
}

fn append_quoted(s: &mut String, text: &String)
    ensures
        final(s)@ == old(s)@ + quoted(text@),
{
    s.append("\"");
    s.append(text.as_str());
    s.append("\"");
    proof {
        assert(s@ =~= old(s)@ + quoted(text@));
    }
}

fn append_failure(s: &mut String, command: &String, status: ExitStatus)
    ensures
        final(s)@ == old(s)@ + failure_phrase(command@, status),
{
    s.append("Command ");
    append_quoted(s, command);
    s.append(" didn't complete successfully, ");
    match status.code {
        Some(code) => {
            s.append("exiting with code ");
            append_exit_code(s, code);
            s.append(".");
        },
        None => {
            s.append("but returned no exit code.");
        },
    }
    proof {
        assert(s@ =~= old(s)@ + failure_phrase(command@, status));
    }
}

/// The bearer of bad news: a [`Cause`] paired with the display string of the
/// command that produced it.
#[derive(Debug)]
pub struct Error {
    /// The display string of the command that failed.
    pub command: String,
    /// What went wrong.
    pub cause: Cause,
}

impl Error {
    /// Judge the outcome of waiting for a process: an unsuccessful status
    /// becomes a [`Cause::CommandFailed`] error, a failed wait a
    /// [`Cause::WaitFailed`] one.
    pub fn from_status_result(command: String, result: Result<ExitStatus, OsError>) -> (r: Result<
        ExitStatus,
        Error,
    >)
        ensures
            r == (match result {
                Ok(status) => if status.spec_success() {
                    Ok::<ExitStatus, Error>(status)
                } else {
                    Err::<ExitStatus, Error>(
                        (Error { command, cause: Cause::CommandFailed(status) }),
                    )
                },
                Err(err) => Err::<ExitStatus, Error>(
                    (Error { command, cause: Cause::WaitFailed(err) }),
                ),
            }),
    {
        match result {
            Ok(status) => match Cause::from_status(status) {
                Ok(status) => Ok(status),
                Err(cause) => Err(Error { command, cause }),
            },
            Err(err) => Err(Error { command, cause: Cause::WaitFailed(err) }),
        }
    }

    /// Judge the outcome of waiting for a process's output: output of an
    /// unsuccessful process becomes a [`Cause::CommandFailedWithOutput`] error
    /// carrying the whole output, a failed wait a [`Cause::WaitFailed`] one.
    pub fn from_output_result(command: String, result: Result<Output, OsError>) -> (r: Result<
        Output,
        Error,
    >)
        ensures
            r == (match result {
                Ok(output) => if output.status.spec_success() {
                    Ok::<Output, Error>(output)
                } else {
                    Err::<Output, Error>(
                        (Error { command, cause: Cause::CommandFailedWithOutput(output) }),
                    )
                },
                Err(err) => Err::<Output, Error>((Error { command, cause: Cause::WaitFailed(err) })),
            }),
    {
        match result {
            Ok(output) => match Cause::from_output(output) {
                Ok(output) => Ok(output),
                Err(cause) => Err(Error { command, cause }),
            },
            Err(err) => Err(Error { command, cause: Cause::WaitFailed(err) }),
        }
    }

    /// Wrap a failure to create the process at all as a
    /// [`Cause::SpawnFailed`] error.
    pub fn from_spawn_error(command: String, err: OsError) -> (r: Error)
        ensures
            r == (Error { command, cause: Cause::SpawnFailed(err) }),
    {
        Error { command, cause: Cause::SpawnFailed(err) }
    }

    /// The display string of the command that failed.
    pub fn command(&self) -> (r: &str)
        ensures
            r@ == self.command@,
    {
        self.command.as_str()
    }

    /// The exit status, where the cause carries one: present exactly for a
    /// process that terminated unsuccessfully.
    pub fn status(&self) -> (r: Option<ExitStatus>)
        ensures
            r == self.cause.spec_status(),
    {
        self.cause.status()
    }

    /// The captured output, where the cause carries it.
    pub fn output(&self) -> (r: Option<&Output>)
        ensures
            r is Some <==> self.cause.spec_output() is Some,
            r matches Some(output) ==> self.cause.spec_output() == Some(*output),
    {
        self.cause.output()
    }

    /// The captured standard-output bytes, where the cause carries output.
    pub fn stdout(&self) -> (r: Option<&[u8]>)
        ensures
            r is Some <==> self.cause.spec_output() is Some,
            r matches Some(bytes) ==> (self.cause.spec_output() matches Some(output) && bytes@
                == output.stdout@),
    {
        match self.cause.output() {
            Some(output) => Some(output.stdout()),
            None => None,
        }
    }

    /// The captured standard-output bytes as text, where the cause carries
    /// output and the bytes are valid UTF-8.
    pub fn stdout_str(&self) -> (r: Option<Result<String, Utf8Error>>)
        ensures
            r is Some <==> self.cause.spec_output() is Some,
            r matches Some(text) ==> (self.cause.spec_output() matches Some(output) && (text is Ok
                <==> valid_utf8(output.stdout@)) && (text matches Ok(s) ==> s@ == decode_utf8(
                output.stdout@,
            ))),
    {
        match self.cause.output() {
            Some(output) => Some(output.stdout_str()),
            None => None,
        }
    }

    /// The captured standard-error bytes, where the cause carries output.
    pub fn stderr(&self) -> (r: Option<&[u8]>)
        ensures
            r is Some <==> self.cause.spec_output() is Some,
            r matches Some(bytes) ==> (self.cause.spec_output() matches Some(output) && bytes@
                == output.stderr@),
    {
        match self.cause.output() {
            Some(output) => Some(output.stderr()),
            None => None,
        }
    }

    /// The captured standard-error bytes as text, where the cause carries
    /// output and the bytes are valid UTF-8.
    pub fn stderr_str(&self) -> (r: Option<Result<String, Utf8Error>>)
        ensures
            r is Some <==> self.cause.spec_output() is Some,
            r matches Some(text) ==> (self.cause.spec_output() matches Some(output) && (text is Ok
                <==> valid_utf8(output.stderr@)) && (text matches Ok(s) ==> s@ == decode_utf8(
                output.stderr@,
            ))),
    {
        match self.cause.output() {
            Some(output) => Some(output.stderr_str()),
            None => None,
        }
    }

    /// Render the error: the quoted command and what failed, then the exit
    /// code where one is known, and the captured standard error (or an
    /// explicit note that it was empty) where output was captured.
    pub fn message(&self) -> (r: String)
        ensures
            r@ == message_of(self.command@, self.cause),
    {
        let mut s = String::new();
        match &self.cause {
            Cause::SpawnFailed(err) => {
                s.append("Failed to spawn child process for command ");
                append_quoted(&mut s, &self.command);
                s.append(": ");
                s.append(err.message.as_str());
                proof {
                    assert(s@ =~= message_of(self.command@, self.cause));
                }
            },
            Cause::WaitFailed(err) => {
                s.append("Failed to wait for child process for command ");
                append_quoted(&mut s, &self.command);
                s.append(" to exit: ");
                s.append(err.message.as_str());
                proof {
                    assert(s@ =~= message_of(self.command@, self.cause));
                }
            },
            Cause::CommandFailed(status) => {
                append_failure(&mut s, &self.command, *status);
            },
            Cause::CommandFailedWithOutput(output) => {
                append_failure(&mut s, &self.command, output.status);
                if output.stderr.is_empty() {
                    s.append("stderr was empty.");
                } else {
                    let text = lossy_to_string(&output.stderr);
                    s.append("stderr contents: ");
                    s.append(text.as_str());
                    proof {
                        assert(s@ =~= message_of(self.command@, self.cause));
                    }
                }
            },
        }
        s
    }
}

} // verus!
