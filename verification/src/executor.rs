//! The command executor's input/output contract: building the shell command
//! strings, and classifying a finished command's captured output.
//!
//! Spawning the shell and waiting for it is I/O and stays with the caller;
//! the caller hands the exit code and the captured streams to
//! [`classify_output`], which decides success or failure for every possible
//! outcome.

use vstd::prelude::*;
use vstd::string::StringExecFns;

verus! {

/// Why a query failed. Every failure carries the captured error text that the
/// diagnostic channel receives.
#[derive(Debug, PartialEq, Eq, Clone)]
pub enum ExecError {
    /// The shell could not be started at all; the payload is the caller's
    /// description of what went wrong. [`classify_output`] never returns this:
    /// it classifies commands that did run.
    SpawnFailure(String),
    /// The command exited with a nonzero code; the payload is its standard
    /// error text.
    NonZeroExit(String),
    /// The command exited with code zero but wrote to standard error; the
    /// payload is that text.
    StderrNonEmpty(String),
    /// No exit code could be obtained (the command was killed by a signal).
    NoExitStatus,
}

impl ExecError {
    /// The diagnostic text of this failure.
    pub open spec fn text_model(self) -> Seq<char> {
        match self {
            ExecError::SpawnFailure(t) => t@,
            ExecError::NonZeroExit(t) => t@,
            ExecError::StderrNonEmpty(t) => t@,
            ExecError::NoExitStatus => "no exit status"@,
        }
    }

    /// Hands out the diagnostic text of this failure.
    pub fn text(&self) -> (r: String)
        ensures
            r@ == self.text_model(),
    {
        match self {
            ExecError::SpawnFailure(t) => t.clone(),
            ExecError::NonZeroExit(t) => t.clone(),
            ExecError::StderrNonEmpty(t) => t.clone(),
            ExecError::NoExitStatus => "no exit status".to_owned(),
        }
    }
}

/// Classifies a finished command: success exactly when an exit code was
/// obtained, it was zero, and standard error stayed empty; the success value
/// is the captured standard output.
pub fn classify_output(code: Option<i32>, out_text: String, err_text: String) -> (r: Result<
    String,
    ExecError,
>)
    ensures
        r is Ok <==> (code == Some(0i32) && err_text@.len() == 0),
        code == Some(0i32) && err_text@.len() == 0 ==> r == Result::<String, ExecError>::Ok(
            out_text,
        ),
        code is None ==> r == Result::<String, ExecError>::Err(ExecError::NoExitStatus),
        (code is Some && code->0 != 0) ==> r == Result::<String, ExecError>::Err(
            ExecError::NonZeroExit(err_text),
        ),
        (code == Some(0i32) && err_text@.len() != 0) ==> r == Result::<String, ExecError>::Err(
            ExecError::StderrNonEmpty(err_text),
        ),
{
    match code {
        None => Err(ExecError::NoExitStatus),
        Some(c) => {
            if c != 0 {
                Err(ExecError::NonZeroExit(err_text))
            } else if !err_text.as_str().is_empty() {
                Err(ExecError::StderrNonEmpty(err_text))
            } else {
                Ok(out_text)
            }
        },
    }
}

/// The live query command: the input echoed into the query template.
pub open spec fn query_command_model(input: Seq<char>, template: Seq<char>) -> Seq<char> {
    "echo "@ + input + " | "@ + template
}

/// The finishing command: the chosen value, quoted, echoed into the finishing
/// template.
pub open spec fn finish_command_model(input: Seq<char>, template: Seq<char>) -> Seq<char> {
    "echo \""@ + input + "\" | "@ + template
}

/// Builds the live query command for the given input.
pub fn build_query_command(input: &str, template: &str) -> (r: String)
    ensures
        r@ == query_command_model(input@, template@),
{
    let mut r = "echo ".to_owned();
    r.append(input);
    r.append(" | ");
    r.append(template);
    proof {
        assert(r@ =~= query_command_model(input@, template@));
    }
    r
}

/// Builds the finishing command for the chosen value.
pub fn build_finish_command(input: &str, template: &str) -> (r: String)
    ensures
        r@ == finish_command_model(input@, template@),
{
    let mut r = "echo \"".to_owned();
    r.append(input);
    r.append("\" | ");
    r.append(template);
    proof {
        assert(r@ =~= finish_command_model(input@, template@));
    }
    r
}

} // verus!
