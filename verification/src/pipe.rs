//! The pipeline builder: a two-state machine threaded through successive
//! chaining calls.
//!
//! A [`Pipe`] is either `Spawned`, holding what the library keeps of the most
//! recently started stage, or `Failed`, holding the chain's first error. The
//! builder itself spawns nothing: each chaining call returns a [`Step`], which
//! either carries a [`SpawnRequest`] for the host environment to perform, or
//! the already-failed builder carried forward unchanged. The host reports the
//! outcome of a spawn back through [`Pipe::spawned`] or [`Pipe::spawn_failed`],
//! so every decision the chain makes is verified here, for every outcome the
//! host can report.

use vstd::prelude::*;
use vstd::string::*;
use crate::tokens::{tokens_of, token_views, tokenize};

verus! {

/// What went wrong at some stage of a pipeline.
#[derive(Clone, Copy, PartialEq, Eq, Debug)]
pub enum PipeErrorKind {
    /// A supplied command string tokenized to nothing.
    EmptyCommand,
    /// The host's process-spawning facility rejected a spawn request.
    SpawnFailure,
    /// The upstream stage has no readable output stream to chain or peek at.
    NoOutputStream,
}

/// A terminal error value: the kind of failure and a descriptive message.
#[derive(Debug)]
pub struct PipeError {
    pub kind: PipeErrorKind,
    pub message: String,
}

/// What the library keeps of a started child process: whether its output and
/// input streams are available for reading or wiring.
#[derive(Clone, Copy, PartialEq, Eq, Debug)]
pub struct ProcessHandle {
    pub stdout_available: bool,
    pub stdin_available: bool,
}

/// A pipeline builder: either the most recently spawned stage or the chain's
/// first failure, which absorbs every later chaining step.
pub enum Pipe {
    Spawned(ProcessHandle),
    Failed(PipeError),
}

/// A request to the host environment: spawn `program` with `args`, capture its
/// standard output, and, when `wire_stdin` is set, feed the upstream stage's
/// captured output into the new process's standard input.
pub struct SpawnRequest {
    pub program: String,
    pub args: Vec<String>,
    pub wire_stdin: bool,
}

/// The decision a chaining step hands back: either a spawn for the host to
/// perform, or a failed builder that carries the chain's error forward, with
/// no process spawned.
pub enum Step {
    Spawn(SpawnRequest),
    Fail(Pipe),
}

/// The message reported when a command string holds no token.
pub open spec fn empty_command_message() -> Seq<char> {
    "No command as input"@
}

/// The message reported when the upstream stage has no captured output.
pub open spec fn no_stdout_message() -> Seq<char> {
    "No stdout for a command"@
}

/// Holds when `r` plans no spawn and carries a failed builder whose error has
/// kind `kind` and message `msg`.
pub open spec fn is_failed_step(r: Step, kind: PipeErrorKind, msg: Seq<char>) -> bool {
    r matches Step::Fail(p) && p matches Pipe::Failed(e) && e.kind == kind && e.message@ == msg
}

/// Holds when `r` plans a spawn of the tokens of `cmd`: the program is the
/// first token, the arguments are the remaining tokens in order, and the new
/// process's input is wired to the upstream output exactly when `wire` is set.
pub open spec fn is_spawn_step(r: Step, cmd: Seq<char>, wire: bool) -> bool {
    r matches Step::Spawn(req) && req.program@ == tokens_of(cmd)[0] && token_views(req.args@)
        == tokens_of(cmd).drop_first() && req.wire_stdin == wire
}

/// Everything constructing a pipeline from `cmd` decides: a command with no
/// token fails with `EmptyCommand`; any other command is planned as a spawn of
/// its tokens, with the new process's input left unwired.
pub open spec fn new_post(cmd: Seq<char>, r: Step) -> bool {
    if tokens_of(cmd).len() == 0 {
        is_failed_step(r, PipeErrorKind::EmptyCommand, empty_command_message())
    } else {
        is_spawn_step(r, cmd, false)
    }
}

/// Everything chaining `cmd` onto the builder `p` decides: a failed builder is
/// carried forward with the very same error; a spawned stage without captured
/// output fails with `NoOutputStream`; a command with no token fails with
/// `EmptyCommand`; any other command is planned as a spawn of its tokens, with
/// the new process's input wired to the upstream output.
pub open spec fn then_post(p: Pipe, cmd: Seq<char>, r: Step) -> bool {
    match p {
        Pipe::Failed(e) => r == Step::Fail(Pipe::Failed(e)),
        Pipe::Spawned(h) => if !h.stdout_available {
            is_failed_step(r, PipeErrorKind::NoOutputStream, no_stdout_message())
        } else if tokens_of(cmd).len() == 0 {
            is_failed_step(r, PipeErrorKind::EmptyCommand, empty_command_message())
        } else {
            is_spawn_step(r, cmd, true)
        },
    }
}

/// Everything peeking at the builder `p` decides: a spawned stage with
/// captured output hands out exactly its handle; otherwise the peek fails with
/// `NoOutputStream` and the builder is left as it was.
pub open spec fn peek_post(p: Pipe, r: Result<ProcessHandle, PipeError>) -> bool {
    match p {
        Pipe::Spawned(h) => if h.stdout_available {
            r == Ok::<ProcessHandle, PipeError>(h)
        } else {
            r matches Err(e) && e.kind == PipeErrorKind::NoOutputStream && e.message@
                == no_stdout_message()
        },
        Pipe::Failed(_) => r matches Err(e) && e.kind == PipeErrorKind::NoOutputStream
            && e.message@ == no_stdout_message(),
    }
}

/// Everything finalizing the builder `p` decides: the spawned handle is
/// returned exactly as held, and a failed builder surfaces exactly its error.
pub open spec fn finally_post(p: Pipe, r: Result<ProcessHandle, PipeError>) -> bool {
    match p {
        Pipe::Spawned(h) => r == Ok::<ProcessHandle, PipeError>(h),
        Pipe::Failed(e) => r == Err::<ProcessHandle, PipeError>(e),
    }
}

/// The `EmptyCommand` error, as first built where a command string holds no
/// token.
fn empty_command_error() -> (e: PipeError)
    ensures
        e.kind == PipeErrorKind::EmptyCommand,
        e.message@ == empty_command_message(),
{
    PipeError { kind: PipeErrorKind::EmptyCommand, message: String::from_str("No command as input") }
}

/// The `NoOutputStream` error, as first built where an upstream stage has no
/// captured output.
fn no_stdout_error() -> (e: PipeError)
    ensures
        e.kind == PipeErrorKind::NoOutputStream,
        e.message@ == no_stdout_message(),
{
    PipeError {
        kind: PipeErrorKind::NoOutputStream,
        message: String::from_str("No stdout for a command"),
    }
}

/// Parses `command` into a spawn request, or reports `EmptyCommand` when it
/// holds no token.
fn plan_spawn(command: &str, wire_stdin: bool) -> (r: Result<SpawnRequest, PipeError>)
    ensures
        tokens_of(command@).len() == 0 ==> (r matches Err(e) && e.kind
            == PipeErrorKind::EmptyCommand && e.message@ == empty_command_message()),
        tokens_of(command@).len() > 0 ==> (r matches Ok(req) && req.program@ == tokens_of(
            command@,
        )[0] && token_views(req.args@) == tokens_of(command@).drop_first() && req.wire_stdin
            == wire_stdin),
{
    let mut toks = tokenize(command);
    if toks.len() == 0 {
        proof {
            assert(token_views(toks@) =~= Seq::<Seq<char>>::empty());
        }
        Err(empty_command_error())
    } else {
        let ghost all = toks@;
        let program = toks.remove(0);
        proof {
            assert(program@ == token_views(all)[0]);
            assert(token_views(toks@) =~= token_views(all).drop_first());
        }
        Ok(SpawnRequest { program, args: toks, wire_stdin })
    }
}

impl Pipe {
    /// Plans the first stage of a pipeline from a white-space-separated
    /// command string. No process is started here: the returned step either
    /// carries the spawn request for the host to perform, or a builder already
    /// failed with `EmptyCommand`.
    pub fn new(command: &str) -> (r: Step)
        ensures
            new_post(command@, r),
    {
        match plan_spawn(command, false) {
            Ok(req) => Step::Spawn(req),
            Err(e) => Step::Fail(Pipe::Failed(e)),
        }
    }

    /// The builder after the host performed a spawn request successfully,
    /// holding what the library keeps of the new child process.
    pub fn spawned(handle: ProcessHandle) -> (p: Pipe)
        ensures
            p == Pipe::Spawned(handle),
    {
        Pipe::Spawned(handle)
    }

    /// The builder after the host rejected a spawn request, carrying the
    /// host's own description of the failure as a `SpawnFailure`.
    pub fn spawn_failed(message: String) -> (p: Pipe)
        ensures
            p matches Pipe::Failed(e) && e.kind == PipeErrorKind::SpawnFailure && e.message@
                == message@,
    {
        Pipe::Failed(PipeError { kind: PipeErrorKind::SpawnFailure, message })
    }

    /// Chains another command onto the pipeline, consuming the builder. A
    /// failed builder short-circuits: the command string is not even parsed,
    /// and the same error is carried forward. Otherwise the step asks the host
    /// to spawn the new command with its input wired to this stage's output.
    pub fn then(self, command: &str) -> (r: Step)
        ensures
            then_post(self, command@, r),
    {
        match self {
            Pipe::Failed(e) => Step::Fail(Pipe::Failed(e)),
            Pipe::Spawned(h) => {
                if !h.stdout_available {
                    Step::Fail(Pipe::Failed(no_stdout_error()))
                } else {
                    match plan_spawn(command, true) {
                        Ok(req) => Step::Spawn(req),
                        Err(e) => Step::Fail(Pipe::Failed(e)),
                    }
                }
            },
        }
    }

    /// Looks at the current stage without consuming the builder or its output
    /// stream: borrows the handle whose captured output the host may read.
    /// Fails with `NoOutputStream` when the builder is failed or the stage has
    /// no captured output.
    pub fn peek(&self) -> (r: Result<&ProcessHandle, PipeError>)
        ensures
            match r {
                Ok(h) => peek_post(*self, Ok(*h)),
                Err(e) => peek_post(*self, Err(e)),
            },
    {
        match self {
            Pipe::Spawned(h) => {
                if h.stdout_available {
                    Ok(h)
                } else {
                    Err(no_stdout_error())
                }
            },
            Pipe::Failed(_) => Err(no_stdout_error()),
        }
    }

    /// Consumes the builder: the terminal stage's handle on success, the
    /// chain's first error on failure. This is the only way to obtain what the
    /// caller will wait on or read final output from.
    pub fn finally(self) -> (r: Result<ProcessHandle, PipeError>)
        ensures
            finally_post(self, r),
    {
        match self {
            Pipe::Spawned(h) => Ok(h),
            Pipe::Failed(e) => Err(e),
        }
    }
}

} // verus!
