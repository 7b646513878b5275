//! Git commands and the reading of their outcome.

use vstd::prelude::*;
use vstd::string::*;

verus! {

/// How a process ended: with an exit code, or without one where something else ended it.
#[derive(Clone, Copy, Debug, PartialEq, Eq, Structural)]
pub struct ExitStatus {
    pub code: Option<i32>,
}

impl ExitStatus {
    /// A process has succeeded where it ended with exit code zero.
    pub open spec fn succeeded(self) -> bool {
        self.code == Some(0i32)
    }

    /// Whether the process has succeeded.
    pub fn success(&self) -> (ok: bool)
        ensures
            ok == self.succeeded(),
    {
        match self.code {
            Some(code) => code == 0,
            None => false,
        }
    }
}

/// What a process that ran to its end has left: how it ended and what it wrote to
/// standard error.
#[derive(Clone, Debug, PartialEq, Eq)]
pub struct CommandOutput {
    pub status: ExitStatus,
    pub stderr: String,
}

/// Why a git command counts as failed, rate limits aside.
#[derive(Clone, Debug, PartialEq, Eq)]
pub enum GitCommandError {
    /// The command could not be started or its output not be captured; holds the reason.
    Exec(String),
    /// The command ran and did not succeed; holds how it ended and its standard error.
    Other(ExitStatus, String),
}

/// Why a git command that talks to the server counts as failed.
#[derive(Clone, Debug, PartialEq, Eq)]
pub enum GitInteractionError {
    /// The command failed and nothing points to the rate limit.
    Exec(GitCommandError),
    /// The command failed and its standard error, held here, points to the rate limit.
    LimitReached(String),
}

/// The three ways in which a command that talks to the server can end.
#[derive(Clone, Copy, Debug, PartialEq, Eq, Structural)]
pub enum OutcomeKind {
    Success,
    RateLimited,
    Failed,
}

/// `pattern` occurs in `text` as a run of consecutive characters.
pub open spec fn has_substring(text: Seq<char>, pattern: Seq<char>) -> bool {
    exists|start: int|
        0 <= start && start + pattern.len() <= text.len() && #[trigger] text.subrange(
            start,
            start + pattern.len(),
        ) == pattern
}

/// The standard error of a refused connection over ssh, which is how the server's rate
/// limit shows: both marks occur in it, anywhere.
pub open spec fn is_rate_limit_text(stderr: Seq<char>) -> bool {
    has_substring(stderr, "Connection refused"@) && has_substring(stderr, "ssh:"@)
}

/// The kind of outcome that an exit status and a standard error make for a command that
/// talks to the server. Success goes by the status alone; among the failures the rate
/// limit goes by the text alone.
pub open spec fn outcome_kind_of(status: ExitStatus, stderr: Seq<char>) -> OutcomeKind {
    if status.succeeded() {
        OutcomeKind::Success
    } else if is_rate_limit_text(stderr) {
        OutcomeKind::RateLimited
    } else {
        OutcomeKind::Failed
    }
}

/// The outcome of a command that acts on the working directory only.
pub open spec fn local_outcome(launched: Result<CommandOutput, String>) -> Result<
    (),
    GitCommandError,
> {
    match launched {
        Err(reason) => Err(GitCommandError::Exec(reason)),
        Ok(output) => if output.status.succeeded() {
            Ok(())
        } else {
            Err(GitCommandError::Other(output.status, output.stderr))
        },
    }
}

/// The outcome of a command that talks to the server.
pub open spec fn server_outcome(launched: Result<CommandOutput, String>) -> Result<
    (),
    GitInteractionError,
> {
    match launched {
        Err(reason) => Err(GitInteractionError::Exec(GitCommandError::Exec(reason))),
        Ok(output) => match outcome_kind_of(output.status, output.stderr@) {
            OutcomeKind::Success => Ok(()),
            OutcomeKind::RateLimited => Err(GitInteractionError::LimitReached(output.stderr)),
            OutcomeKind::Failed => Err(
                GitInteractionError::Exec(GitCommandError::Other(output.status, output.stderr)),
            ),
        },
    }
}

/// Calls `str::contains` with a string as the pattern, which tells whether the pattern
/// matches a part of the text. Trusted: the result is stated as the occurrence of the
/// pattern's characters, in order and without a gap, somewhere in the text.
#[verifier::external_body]
fn str_contains(text: &str, pattern: &str) -> (found: bool)
    ensures
        found == has_substring(text@, pattern@),
{
    text.contains(pattern)
}

/// Classifies how a command that talks to the server has ended.
pub fn outcome_kind(status: ExitStatus, stderr: &str) -> (kind: OutcomeKind)
    ensures
        kind == outcome_kind_of(status, stderr@),
{
    if status.success() {
        OutcomeKind::Success
    } else if str_contains(stderr, "Connection refused") && str_contains(stderr, "ssh:") {
        OutcomeKind::RateLimited
    } else {
        OutcomeKind::Failed
    }
}

/// Reads the outcome of a git command that acts on the working directory only, from what
/// became of its launch: the captured output, or the reason why there is none.
pub fn run_git_local_command(launched: Result<CommandOutput, String>) -> (outcome: Result<
    (),
    GitCommandError,
>)
    ensures
        outcome == local_outcome(launched),
{
    match launched {
        Err(reason) => Err(GitCommandError::Exec(reason)),
        Ok(output) => {
            if output.status.success() {
                Ok(())
            } else {
                Err(GitCommandError::Other(output.status, output.stderr))
            }
        },
    }
}

/// Reads the outcome of a git command that talks to the server, from what became of its
/// launch. A failure whose standard error shows the rate limit is told apart from the
/// others.
pub fn run_git_server_command(launched: Result<CommandOutput, String>) -> (outcome: Result<
    (),
    GitInteractionError,
>)
    ensures
        outcome == server_outcome(launched),
{
    match launched {
        Err(reason) => Err(GitInteractionError::Exec(GitCommandError::Exec(reason))),
        Ok(output) => {
            match outcome_kind(output.status, output.stderr.as_str()) {
                OutcomeKind::Success => Ok(()),
                OutcomeKind::RateLimited => Err(GitInteractionError::LimitReached(output.stderr)),
                OutcomeKind::Failed => Err(
                    GitInteractionError::Exec(
                        GitCommandError::Other(output.status, output.stderr),
                    ),
                ),
            }
        },
    }
}

/// The git commands that one upload and its repair are made of.
#[derive(Clone, Debug, PartialEq, Eq)]
pub enum GitCommand {
    /// `git reset --hard`: drops the changes that are not committed.
    ResetFiles,
    /// `git reset HEAD~`: drops the last local commit, so that the history of the server
    /// can take the place of the local one.
    ResetCommit,
    /// `git add --all`
    AddAll,
    /// `git commit -m` with a message that names the sheet held here.
    Commit(String),
    /// `git pull origin main`
    Pull,
    /// `git push origin main`
    Push,
}

/// The message of the commit that is pushed for the sheet of the given name.
pub open spec fn commit_message(sheet_name: Seq<char>) -> Seq<char> {
    "[automatic] push for rerun of "@ + sheet_name
}

impl GitCommand {
    /// The arguments that `git` is started with for this command.
    pub open spec fn argument_list(self) -> Seq<Seq<char>> {
        match self {
            GitCommand::ResetFiles => seq!["reset"@, "--hard"@],
            GitCommand::ResetCommit => seq!["reset"@, "HEAD~"@],
            GitCommand::AddAll => seq!["add"@, "--all"@],
            GitCommand::Commit(sheet_name) => seq!["commit"@, "-m"@, commit_message(sheet_name@)],
            GitCommand::Pull => seq!["pull"@, "origin"@, "main"@],
            GitCommand::Push => seq!["push"@, "origin"@, "main"@],
        }
    }

    /// The arguments to start `git` with.
    pub fn arguments(&self) -> (args: Vec<String>)
        ensures
            args.deep_view() == self.argument_list(),
    {
        let mut args: Vec<String> = Vec::new();
        match self {
            GitCommand::ResetFiles => {
                args.push("reset".to_owned());
                args.push("--hard".to_owned());
            },
            GitCommand::ResetCommit => {
                args.push("reset".to_owned());
                args.push("HEAD~".to_owned());
            },
            GitCommand::AddAll => {
                args.push("add".to_owned());
                args.push("--all".to_owned());
            },
            GitCommand::Commit(sheet_name) => {
                args.push("commit".to_owned());
                args.push("-m".to_owned());
                args.push("[automatic] push for rerun of ".to_owned().concat(sheet_name.as_str()));
            },
            GitCommand::Pull => {
                args.push("pull".to_owned());
                args.push("origin".to_owned());
                args.push("main".to_owned());
            },
            GitCommand::Push => {
                args.push("push".to_owned());
                args.push("origin".to_owned());
                args.push("main".to_owned());
            },
        }
        assert(args.deep_view() =~= self.argument_list());
        args
    }
}

/// A command that ends with exit code zero has succeeded, whatever it wrote to standard
/// error, be it the marks of the rate limit.
pub proof fn lemma_zero_exit_is_success(output: CommandOutput)
    requires
        output.status.code == Some(0i32),
    ensures
        local_outcome(Ok(output)) == Ok::<(), GitCommandError>(()),
        server_outcome(Ok(output)) == Ok::<(), GitInteractionError>(()),
        outcome_kind_of(output.status, output.stderr@) == OutcomeKind::Success,
{
}

/// A failed command that talks to the server and whose standard error holds both marks
/// of the rate limit is rate limited, whatever its exit status, and never a failure of
/// the other kind.
pub proof fn lemma_rate_limit_takes_precedence(output: CommandOutput)
    requires
        !output.status.succeeded(),
        has_substring(output.stderr@, "Connection refused"@),
        has_substring(output.stderr@, "ssh:"@),
    ensures
        server_outcome(Ok(output)) == Err::<(), GitInteractionError>(
            GitInteractionError::LimitReached(output.stderr),
        ),
        outcome_kind_of(output.status, output.stderr@) == OutcomeKind::RateLimited,
{
}

/// A command that could not be started has failed and is never rate limited.
pub proof fn lemma_launch_failure_is_no_rate_limit(reason: String)
    ensures
        server_outcome(Err(reason)) == Err::<(), GitInteractionError>(
            GitInteractionError::Exec(GitCommandError::Exec(reason)),
        ),
        local_outcome(Err(reason)) == Err::<(), GitCommandError>(GitCommandError::Exec(reason)),
{
}

} // verus!
