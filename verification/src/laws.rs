//! The laws of the pipeline builder, each proved from the public contracts
//! alone: what every chaining decision and every reported spawn outcome must
//! satisfy, stated once over all builders and all command strings.

use vstd::prelude::*;
use crate::tokens::{tokens_of, is_command_space, lemma_no_tokens_iff_all_space};
use crate::pipe::{
    Pipe, PipeError, PipeErrorKind, ProcessHandle, Step, empty_command_message, is_failed_step,
    new_post, then_post, peek_post, finally_post,
};

verus! {

/// A command string with at least one non-white-space character is always
/// planned as a spawn — never rejected by the builder itself — and a builder
/// made from the successfully spawned process finalizes to exactly that
/// process's handle. Success is decided only by the host's spawn, never by
/// the chain's own bookkeeping.
pub proof fn lemma_new_success_finalizes(
    cmd: Seq<char>,
    r: Step,
    h: ProcessHandle,
    fr: Result<ProcessHandle, PipeError>,
)
    requires
        exists|i: int| 0 <= i < cmd.len() && !is_command_space(cmd[i]),
        new_post(cmd, r),
        finally_post(Pipe::Spawned(h), fr),
    ensures
        r is Spawn,
        fr == Ok::<ProcessHandle, PipeError>(h),
{
    lemma_no_tokens_iff_all_space(cmd);
}

/// A command string that is empty or all white space yields a failed builder
/// carrying `EmptyCommand`, and no spawn is ever requested for it.
pub proof fn lemma_blank_command_fails(cmd: Seq<char>, r: Step)
    requires
        forall|i: int| 0 <= i < cmd.len() ==> is_command_space(cmd[i]),
        new_post(cmd, r),
    ensures
        is_failed_step(r, PipeErrorKind::EmptyCommand, empty_command_message()),
{
    lemma_no_tokens_iff_all_space(cmd);
}

/// Finalizing a failed builder surfaces exactly the error the builder holds:
/// the first failure of the chain is what the caller discovers, unchanged.
pub proof fn lemma_finally_surfaces_error(e: PipeError, fr: Result<ProcessHandle, PipeError>)
    requires
        finally_post(Pipe::Failed(e), fr),
    ensures
        fr == Err::<ProcessHandle, PipeError>(e),
{
}

/// Absorption: chaining any command string — a valid one included — onto a
/// failed builder yields a failed builder carrying the very same error, and
/// no spawn is requested. Failure never heals.
pub proof fn lemma_failed_absorbs(e: PipeError, cmd: Seq<char>, r: Step)
    requires
        then_post(Pipe::Failed(e), cmd, r),
    ensures
        r == Step::Fail(Pipe::Failed(e)),
{
}

/// Constructing a pipeline never claims a running stage on its own: whenever
/// the first step carries a builder rather than a spawn request, that builder
/// is failed. A pipeline becomes `Spawned` only through the host reporting a
/// successful spawn.
pub proof fn lemma_new_never_claims_spawned(cmd: Seq<char>, r: Step)
    requires
        new_post(cmd, r),
    ensures
        r matches Step::Fail(next) ==> next is Failed,
{
}

/// Chaining never claims a running stage on its own either: a step that asks
/// for no spawn carries a failed builder. Together with absorption this gives
/// the transition diagram its missing edge — `Failed` never turns back into
/// `Spawned`.
pub proof fn lemma_then_never_claims_spawned(p: Pipe, cmd: Seq<char>, r: Step)
    requires
        then_post(p, cmd, r),
    ensures
        r matches Step::Fail(next) ==> next is Failed,
{
}

/// Peeking is idempotent: any two results that peeking the same builder may
/// hand back agree — the same handle on success, the same failure kind and
/// message otherwise. Peeking borrows the builder, so it also leaves the
/// builder, and hence every later chaining or finalizing decision, untouched.
pub proof fn lemma_peek_idempotent(
    p: Pipe,
    r1: Result<ProcessHandle, PipeError>,
    r2: Result<ProcessHandle, PipeError>,
)
    requires
        peek_post(p, r1),
        peek_post(p, r2),
    ensures
        r1 is Ok <==> r2 is Ok,
        r1 matches Ok(h1) ==> r2 == Ok::<ProcessHandle, PipeError>(h1),
        r1 matches Err(e1) ==> (r2 matches Err(e2) && e1.kind == e2.kind && e1.message@
            == e2.message@),
{
}

} // verus!
