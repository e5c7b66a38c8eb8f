//! The immutable snapshot of a finished process: its exit status and the bytes
//! drained from its piped standard output and standard error.

use vstd::prelude::*;
use vstd::utf8::{decode_utf8, valid_utf8};

verus! {

/// How a process exited: with the code the operating system reported, or with
/// none, which means the process was terminated abnormally (on Unix, by a
/// signal) before it could exit.
#[derive(Clone, Copy, Debug, PartialEq, Eq)]
pub struct ExitStatus {
    /// The exit code, or `None` where the process did not exit on its own.
    pub code: Option<i32>,
}

impl ExitStatus {
    /// Termination counts as successful exactly when the process exited on its
    /// own with code zero.
    pub open spec fn spec_success(&self) -> bool {
        self.code == Some(0i32)
    }

    /// A status for a process that exited with `code`.
    pub fn exited(code: i32) -> (r: ExitStatus)
        ensures
            r.code == Some(code),
    {
        ExitStatus { code: Some(code) }
    }

    /// A status for a process that was terminated without exiting on its own.
    pub fn terminated() -> (r: ExitStatus)
        ensures
            r.code is None,
    {
        ExitStatus { code: None }
    }

    /// The exit code, or `None` where the process did not exit on its own.
    pub fn code(&self) -> (r: Option<i32>)
        ensures
            r == self.code,
    {
        self.code
    }

    /// Whether termination was successful: an exit with code zero.
    pub fn success(&self) -> (r: bool)
        ensures
            r == self.spec_success(),
    {
        match self.code {
            Some(code) => code == 0,
            None => false,
        }
    }
}

/// Captured bytes that are not valid UTF-8 and so have no text form; the raw
/// bytes remain accessible regardless.
#[derive(Clone, Copy, Debug, PartialEq, Eq, Structural)]
pub struct Utf8Error;

/// Relies on `std::str::from_utf8`: it succeeds exactly on valid UTF-8, and
/// the resulting text holds the decoded characters, as `vstd::utf8` defines
/// both.
#[verifier::external_body]
fn utf8_to_string(bytes: &Vec<u8>) -> (r: Option<String>)
    ensures
        r is Some <==> valid_utf8(bytes@),
        r matches Some(s) ==> s@ == decode_utf8(bytes@),
{
    match std::str::from_utf8(bytes.as_slice()) {
        Ok(text) => Some(text.to_owned()),
        Err(_) => None,
    }
}

/// All of a finished process's output, in one place: built only after the
/// process has fully terminated and every requested pipe has been drained.
#[derive(Debug)]
pub struct Output {
    /// How the process terminated.
    pub status: ExitStatus,
    /// The bytes drained from the process's standard output.
    pub stdout: Vec<u8>,
    /// The bytes drained from the process's standard error.
    pub stderr: Vec<u8>,
}

impl Output {
    /// Bundle a finished process's status and drained stream bytes.
    pub fn new(status: ExitStatus, stdout: Vec<u8>, stderr: Vec<u8>) -> (r: Output)
        ensures
            r.status == status,
            r.stdout@ == stdout@,
            r.stderr@ == stderr@,
    {
        Output { status, stdout, stderr }
    }

    /// How the process terminated.
    pub fn status(&self) -> (r: ExitStatus)
        ensures
            r == self.status,
    {
        self.status
    }

    /// Whether the process exited on its own with code zero.
    pub fn success(&self) -> (r: bool)
        ensures
            r == self.status.spec_success(),
    {
        self.status.success()
    }

    /// The captured standard-output bytes.
    pub fn stdout(&self) -> (r: &[u8])
        ensures
            r@ == self.stdout@,
    {
        self.stdout.as_slice()
    }

    /// The captured standard-output bytes as text, where they are valid UTF-8.
    pub fn stdout_str(&self) -> (r: Result<String, Utf8Error>)
        ensures
            r is Ok <==> valid_utf8(self.stdout@),
            r matches Ok(s) ==> s@ == decode_utf8(self.stdout@),
    {
        match utf8_to_string(&self.stdout) {
            Some(text) => Ok(text),
            None => Err(Utf8Error),
        }
    }

    /// The captured standard-error bytes.
    pub fn stderr(&self) -> (r: &[u8])
        ensures
            r@ == self.stderr@,
    {
        self.stderr.as_slice()
    }

    /// The captured standard-error bytes as text, where they are valid UTF-8.
    pub fn stderr_str(&self) -> (r: Result<String, Utf8Error>)
        ensures
            r is Ok <==> valid_utf8(self.stderr@),
            r matches Ok(s) ==> s@ == decode_utf8(self.stderr@),
    {
        match utf8_to_string(&self.stderr) {
            Some(text) => Ok(text),
            None => Err(Utf8Error),
        }
    }
}

} // verus!
