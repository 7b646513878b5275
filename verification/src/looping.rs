//! The loop that uploads again and again: what follows from each finished upload.
//!
//! The caller carries out one upload after the other and asks [`update_loop`] after each
//! what to do before the next: whether to repair the local history, which event to tell
//! the waiter, whether the next upload has to pull first, or whether to stop for good.

use crate::git_interaction::{
    local_outcome, server_outcome, GitCommandError, GitInteractionError,
};
use crate::new_push::{NewRunError, RunScript, RunStep};
use crate::waiting::{Notice, WaitingGaveUp};
use vstd::prelude::*;

verus! {

/// Why the loop has stopped for good.
#[derive(Clone, Debug, PartialEq, Eq)]
pub enum Error {
    /// Too many uploads in a row have failed.
    Waiting(WaitingGaveUp),
    /// The working directory could not be reset, so that nothing is known of its state.
    FileReset(GitCommandError),
}

/// What an upload has come to, as far as the loop cares.
#[derive(Clone, Debug, PartialEq, Eq)]
pub enum IterationOutcome {
    /// A change was pushed.
    Success,
    /// There was nothing to change.
    Skipped,
    /// The server's rate limit was hit.
    RateLimited,
    /// The push failed, which leaves a commit behind that the server does not have and
    /// that is to be dropped. Holds whether the histories may have diverged: whether the
    /// failure was another one than the rate limit.
    PushFailedWithRecovery(bool),
    /// The working directory could not be reset at the beginning of the upload.
    ResetFailed(GitCommandError),
    /// The upload failed in any other way.
    OtherError,
}

/// What to do between one upload and the next.
#[derive(Clone, Copy, Debug, PartialEq, Eq, Structural)]
pub struct Reaction {
    /// Whether to drop the last local commit first. That this fails is no reason to
    /// stop.
    pub recover: bool,
    /// Whether the next upload has to pull before it changes anything.
    pub maybe_diverged: bool,
    /// The event to tell the waiter, which then says how long to wait. Where it is
    /// [`Notice::Error`] the waiter may give up, and the loop stops with that.
    pub notice: Notice,
}

/// What the result of an upload comes to.
pub open spec fn outcome_of_run(run: Result<bool, NewRunError>) -> IterationOutcome {
    match run {
        Ok(true) => IterationOutcome::Success,
        Ok(false) => IterationOutcome::Skipped,
        Err(NewRunError::LimitReached(_)) => IterationOutcome::RateLimited,
        Err(NewRunError::Push(failure)) => IterationOutcome::PushFailedWithRecovery(
            failure is Exec,
        ),
        Err(NewRunError::ResetFiles(failure)) => IterationOutcome::ResetFailed(failure),
        Err(_) => IterationOutcome::OtherError,
    }
}

/// What the loop does about the outcome of an upload, given whether that upload had to
/// pull first.
///
/// A success and a skipped upload are told to the waiter as such, a rate limit as a rate
/// limit, and any other error as an error. A failed push is told as a rate limit too,
/// after the commit it has left behind is dropped; where the histories may have diverged
/// the uploads pull first from then on. That the working directory could not be reset
/// stops the loop.
pub open spec fn reaction_to(maybe_diverged: bool, outcome: IterationOutcome) -> Result<
    Reaction,
    Error,
> {
    match outcome {
        IterationOutcome::Success => Ok(
            Reaction { recover: false, maybe_diverged, notice: Notice::Success },
        ),
        IterationOutcome::Skipped => Ok(
            Reaction { recover: false, maybe_diverged, notice: Notice::Skipped },
        ),
        IterationOutcome::RateLimited => Ok(
            Reaction { recover: false, maybe_diverged, notice: Notice::LimitReached },
        ),
        IterationOutcome::PushFailedWithRecovery(diverged) => Ok(
            Reaction {
                recover: true,
                maybe_diverged: maybe_diverged || diverged,
                notice: Notice::LimitReached,
            },
        ),
        IterationOutcome::ResetFailed(failure) => Err(Error::FileReset(failure)),
        IterationOutcome::OtherError => Ok(
            Reaction { recover: false, maybe_diverged, notice: Notice::Error },
        ),
    }
}

impl From<WaitingGaveUp> for Error {
    fn from(gave_up: WaitingGaveUp) -> (error: Error) {
        Error::Waiting(gave_up)
    }
}

impl vstd::std_specs::convert::FromSpecImpl<WaitingGaveUp> for Error {
    open spec fn obeys_from_spec() -> bool {
        true
    }

    open spec fn from_spec(gave_up: WaitingGaveUp) -> Error {
        Error::Waiting(gave_up)
    }
}

/// Sorts the result of an upload into the outcomes that the loop tells apart.
pub fn classify_run(run: Result<bool, NewRunError>) -> (outcome: IterationOutcome)
    ensures
        outcome == outcome_of_run(run),
{
    match run {
        Ok(true) => IterationOutcome::Success,
        Ok(false) => IterationOutcome::Skipped,
        Err(NewRunError::LimitReached(_)) => IterationOutcome::RateLimited,
        Err(NewRunError::Push(failure)) => {
            match failure {
                GitInteractionError::Exec(_) => IterationOutcome::PushFailedWithRecovery(true),
                GitInteractionError::LimitReached(_) => IterationOutcome::PushFailedWithRecovery(
                    false,
                ),
            }
        },
        Err(NewRunError::ResetFiles(failure)) => IterationOutcome::ResetFailed(failure),
        Err(_) => IterationOutcome::OtherError,
    }
}

/// Decides what follows from an upload that has ended with `run`, where `maybe_diverged`
/// says whether that upload had to pull first: what to do before the next upload, or the
/// error to stop with.
pub fn update_loop(maybe_diverged: bool, run: Result<bool, NewRunError>) -> (reaction: Result<
    Reaction,
    Error,
>)
    ensures
        reaction == reaction_to(maybe_diverged, outcome_of_run(run)),
{
    match classify_run(run) {
        IterationOutcome::Success => Ok(
            Reaction { recover: false, maybe_diverged, notice: Notice::Success },
        ),
        IterationOutcome::Skipped => Ok(
            Reaction { recover: false, maybe_diverged, notice: Notice::Skipped },
        ),
        IterationOutcome::RateLimited => Ok(
            Reaction { recover: false, maybe_diverged, notice: Notice::LimitReached },
        ),
        IterationOutcome::PushFailedWithRecovery(diverged) => Ok(
            Reaction {
                recover: true,
                maybe_diverged: maybe_diverged || diverged,
                notice: Notice::LimitReached,
            },
        ),
        IterationOutcome::ResetFailed(failure) => Err(Error::FileReset(failure)),
        IterationOutcome::OtherError => Ok(
            Reaction { recover: false, maybe_diverged, notice: Notice::Error },
        ),
    }
}

/// An upload whose reset at the beginning fails carries out no other step, and the loop
/// stops with the failure of the reset, whatever came before.
pub proof fn lemma_failed_reset_stops_loop(
    script: RunScript,
    prepend_pull: bool,
    maybe_diverged: bool,
)
    requires
        local_outcome(script.reset_files) is Err,
    ensures
        script.course(prepend_pull).steps == seq![RunStep::ResetFiles],
        reaction_to(maybe_diverged, outcome_of_run(script.result(prepend_pull))) == Err::<
            Reaction,
            Error,
        >(Error::FileReset(local_outcome(script.reset_files)->Err_0)),
{
    reveal_with_fuel(RunScript::course_from, 2);
    assert(script.course(prepend_pull).steps =~= seq![RunStep::ResetFiles]);
    assert(script.last_step(prepend_pull) == RunStep::ResetFiles);
}

/// An upload whose push fails for another reason than the rate limit has the loop drop
/// the commit that was not pushed, tell the waiter of a rate limit, and make the next
/// upload pull first: that upload, whatever its steps report, pulls right after its
/// reset.
pub proof fn lemma_failed_push_brings_pull(
    script: RunScript,
    prepend_pull: bool,
    maybe_diverged: bool,
    next: RunScript,
)
    requires
        script.last_step(prepend_pull) == RunStep::Push,
        server_outcome(script.push) matches Err(failure) && failure is Exec,
    ensures
        reaction_to(maybe_diverged, outcome_of_run(script.result(prepend_pull))) == Ok::<
            Reaction,
            Error,
        >(Reaction { recover: true, maybe_diverged: true, notice: Notice::LimitReached }),
        next.course(true).steps.len() >= 2 ==> next.course(true).steps[1] == RunStep::Pull,
        next.course(true).steps.contains(RunStep::Push) ==> next.course(true).steps.len() == 7,
{
    crate::new_push::lemma_course_of_upload(next, true);
    let steps = next.course(true).steps;
    let all = RunScript::all_steps(true);
    assert(steps =~= all.subrange(0, steps.len() as int));
    if steps.len() >= 2 {
        assert(steps[1] == all[1]);
    }
    if steps.contains(RunStep::Push) {
        let at = choose|at: int| 0 <= at < steps.len() && steps[at] == RunStep::Push;
        assert(steps[at] == all[at]);
    }
}

/// Once the uploads have to pull first they keep doing so: no outcome of an upload takes
/// that back.
pub proof fn lemma_divergence_stays(outcome: IterationOutcome)
    ensures
        reaction_to(true, outcome) matches Ok(reaction) ==> reaction.maybe_diverged,
        !(outcome is PushFailedWithRecovery) ==> (reaction_to(false, outcome) matches Ok(
            reaction,
        ) ==> !reaction.maybe_diverged),
{
}

} // verus!
