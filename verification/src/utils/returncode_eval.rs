//! What a result of the host means for the run.

use crate::script::{verdict_of, Outcome, Policy};
use vstd::prelude::*;
use vstd::string::*;

verus! {

/// An error of the host: its error number, where it gave one, and what it
/// says of itself.
#[derive(Debug, Clone, PartialEq, Eq)]
pub struct HostError {
    pub code: Option<i32>,
    pub message: String,
}

/// The end of a run: what to tell the operator, and the exit code.
#[derive(Debug, Clone, PartialEq, Eq)]
pub struct Crash {
    pub message: String,
    pub code: i32,
}

/// The exit code for an error of the host: its error number, or -1.
pub open spec fn exit_code(code: Option<i32>) -> i32 {
    match code {
        Some(c) => c,
        None => -1i32,
    }
}

/// What the operator is told when `logmsg` could not be done.
pub open spec fn crash_message(logmsg: Seq<char>, error: Seq<char>) -> Seq<char> {
    logmsg + " ERROR: "@ + error
}

/// The outcome that a program's result stands for.
pub open spec fn outcome_of_status(return_code: Result<bool, HostError>) -> Outcome {
    match return_code {
        Ok(true) => Outcome::Success,
        Ok(false) => Outcome::Failure(None),
        Err(e) => Outcome::Error(e.code),
    }
}

/// The outcome that a file operation's result stands for.
pub open spec fn outcome_of_operation(return_code: Result<(), HostError>) -> Outcome {
    match return_code {
        Ok(_) => Outcome::Success,
        Err(e) => Outcome::Error(e.code),
    }
}

/// Shared rule of the two evaluations.
fn crash_for(error: &HostError, logmsg: &str) -> (r: Crash)
    ensures
        r.message@ == crash_message(logmsg@, error.message@),
        r.code == exit_code(error.code),
{
    let code = match error.code {
        Some(c) => c,
        None => -1,
    };
    Crash {
        message: String::from_str(logmsg).concat(" ERROR: ").concat(error.message.as_str()),
        code,
    }
}

/// Judges the result of a program that had to be started.
///
/// A program that ran is good enough, whatever its exit status (`Ok` holds
/// whether it was a success). A program that could not be started ends the
/// run, with the host's error number as exit code.
pub fn exec_eval(return_code: &Result<bool, HostError>, logmsg: &str) -> (r: Result<(), Crash>)
    ensures
        r is Ok <==> return_code is Ok,
        r is Err ==> r->Err_0.message@ == crash_message(logmsg@, return_code->Err_0.message@)
            && r->Err_0.code == exit_code(return_code->Err_0.code),
        r is Err <==> verdict_of(Policy::Started, outcome_of_status(*return_code)) is Abort,
        r is Err ==> verdict_of(Policy::Started, outcome_of_status(*return_code)) == crate::script::Verdict::Abort(
            r->Err_0.code,
        ),
{
    match return_code {
        Ok(_) => Ok(()),
        Err(e) => Err(crash_for(e, logmsg)),
    }
}

/// Judges the result of a file operation that had to go through.
pub fn files_eval(return_code: &Result<(), HostError>, logmsg: &str) -> (r: Result<(), Crash>)
    ensures
        r is Ok <==> return_code is Ok,
        r is Err ==> r->Err_0.message@ == crash_message(logmsg@, return_code->Err_0.message@)
            && r->Err_0.code == exit_code(return_code->Err_0.code),
        r is Err <==> verdict_of(Policy::Started, outcome_of_operation(*return_code)) is Abort,
        r is Err ==> verdict_of(Policy::Started, outcome_of_operation(*return_code)) == crate::script::Verdict::Abort(
            r->Err_0.code,
        ),
{
    match return_code {
        Ok(_) => Ok(()),
        Err(e) => Err(crash_for(e, logmsg)),
    }
}

} // verus!
