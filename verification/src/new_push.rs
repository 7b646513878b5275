//! One upload, step by step: reset, pull if need be, edit, add, commit, push.
//!
//! The steps themselves are carried out by the caller. [`cause_new_run`] is asked after
//! each of them, with what the step has brought, and says which step comes next or how the
//! upload has ended.

use crate::git_interaction::{
    local_outcome, run_git_local_command, run_git_server_command, server_outcome, CommandOutput,
    GitCommand, GitCommandError, GitInteractionError,
};
use crate::waiting::Interval;
use vstd::prelude::*;
use vstd::string::*;

verus! {

/// The seconds to let pass between the commit and the push of an upload that began with
/// a pull.
pub const TILL_PUSH_SECS: u64 = 10;

/// Why an upload has failed.
#[derive(Clone, Debug, PartialEq, Eq)]
pub enum NewRunError {
    /// The server's rate limit was hit, by the pull or by the push; holds the standard
    /// error of the command.
    LimitReached(String),
    /// The changes that were not committed could not be dropped.
    ResetFiles(GitCommandError),
    /// The pull failed.
    Pull(GitCommandError),
    /// The files of the sheet could not be changed; holds the reason.
    MakeChanges(String),
    /// The changes could not be staged.
    AddAll(GitCommandError),
    /// The changes could not be committed.
    Commit(GitCommandError),
    /// The push failed.
    Push(GitInteractionError),
}

/// A step of an upload, for the caller to carry out.
#[derive(Clone, Copy, Debug, PartialEq, Eq)]
pub enum RunStep {
    /// Drop the changes that are not committed.
    ResetFiles,
    /// Pull from the server.
    Pull,
    /// Change the files of the sheet.
    MakeChanges,
    /// Stage all changes.
    AddAll,
    /// Commit what is staged.
    Commit,
    /// Let the given time pass.
    Sleep(Interval),
    /// Push to the server.
    Push,
}

/// What a step has brought, told by the caller who carried it out. For a git command
/// that is what became of its launch: the captured output, or the reason why there is
/// none. For the change of the files it is whether anything was changed, or the reason
/// why that failed.
#[derive(Debug, PartialEq, Eq)]
pub enum StepReport {
    ResetFiles(Result<CommandOutput, String>),
    Pull(Result<CommandOutput, String>),
    MakeChanges(Result<bool, String>),
    AddAll(Result<CommandOutput, String>),
    Commit(Result<CommandOutput, String>),
    Slept,
    Push(Result<CommandOutput, String>),
}

/// Where an upload stands: at a step to carry out next, or at its end, which is whether
/// anything was pushed, or the failure.
#[derive(Debug, PartialEq, Eq)]
pub enum RunProgress {
    Next(RunStep),
    Finished(Result<bool, NewRunError>),
}

impl RunStep {
    /// The git command to run for the step, where it is one; the commit is made for the
    /// sheet of the given name.
    pub fn command(&self, sheet_name: &str) -> (command: Option<GitCommand>)
        ensures
            match self {
                RunStep::ResetFiles => command == Some(GitCommand::ResetFiles),
                RunStep::Pull => command == Some(GitCommand::Pull),
                RunStep::AddAll => command == Some(GitCommand::AddAll),
                RunStep::Commit => command matches Some(GitCommand::Commit(name)) && name@
                    == sheet_name@,
                RunStep::Push => command == Some(GitCommand::Push),
                RunStep::MakeChanges => command is None,
                RunStep::Sleep(_) => command is None,
            },
    {
        match self {
            RunStep::ResetFiles => Some(GitCommand::ResetFiles),
            RunStep::Pull => Some(GitCommand::Pull),
            RunStep::MakeChanges => None,
            RunStep::AddAll => Some(GitCommand::AddAll),
            RunStep::Commit => Some(GitCommand::Commit(sheet_name.to_owned())),
            RunStep::Sleep(_) => None,
            RunStep::Push => Some(GitCommand::Push),
        }
    }
}

/// How the failure of a step that talks to the server counts for the upload: a rate limit
/// as itself, whichever step has hit it, and any other failure as the pull's or the
/// push's own.
pub open spec fn server_failure(pull: bool, interaction: GitInteractionError) -> NewRunError {
    match interaction {
        GitInteractionError::LimitReached(stderr) => NewRunError::LimitReached(stderr),
        GitInteractionError::Exec(failure) => if pull {
            NewRunError::Pull(failure)
        } else {
            NewRunError::Push(GitInteractionError::Exec(failure))
        },
    }
}

/// Where an upload stands after the step whose report is `last`, or at its beginning
/// where no step has been carried out yet.
///
/// The upload begins with the reset. After it comes the pull, where one was asked for,
/// and then the change of the files. Where nothing was changed the upload ends there as
/// skipped. Else the changes are staged, committed and pushed, with a pause before the
/// push where the upload began with a pull. A step that fails ends the upload with that
/// step's error.
pub open spec fn next_progress(prepend_pull: bool, last: Option<StepReport>) -> RunProgress {
    match last {
        None => RunProgress::Next(RunStep::ResetFiles),
        Some(StepReport::ResetFiles(launched)) => match local_outcome(launched) {
            Err(failure) => RunProgress::Finished(Err(NewRunError::ResetFiles(failure))),
            Ok(_) => if prepend_pull {
                RunProgress::Next(RunStep::Pull)
            } else {
                RunProgress::Next(RunStep::MakeChanges)
            },
        },
        Some(StepReport::Pull(launched)) => match server_outcome(launched) {
            Err(failure) => RunProgress::Finished(Err(server_failure(true, failure))),
            Ok(_) => RunProgress::Next(RunStep::MakeChanges),
        },
        Some(StepReport::MakeChanges(changed)) => match changed {
            Err(reason) => RunProgress::Finished(Err(NewRunError::MakeChanges(reason))),
            Ok(false) => RunProgress::Finished(Ok(false)),
            Ok(true) => RunProgress::Next(RunStep::AddAll),
        },
        Some(StepReport::AddAll(launched)) => match local_outcome(launched) {
            Err(failure) => RunProgress::Finished(Err(NewRunError::AddAll(failure))),
            Ok(_) => RunProgress::Next(RunStep::Commit),
        },
        Some(StepReport::Commit(launched)) => match local_outcome(launched) {
            Err(failure) => RunProgress::Finished(Err(NewRunError::Commit(failure))),
            Ok(_) => if prepend_pull {
                RunProgress::Next(RunStep::Sleep(Interval::from_secs(TILL_PUSH_SECS)))
            } else {
                RunProgress::Next(RunStep::Push)
            },
        },
        Some(StepReport::Slept) => RunProgress::Next(RunStep::Push),
        Some(StepReport::Push(launched)) => match server_outcome(launched) {
            Err(failure) => RunProgress::Finished(Err(server_failure(false, failure))),
            Ok(_) => RunProgress::Finished(Ok(true)),
        },
    }
}

/// `name` ends with the characters of `suffix`.
pub open spec fn has_suffix(name: Seq<char>, suffix: Seq<char>) -> bool {
    suffix.len() <= name.len() && name.subrange(name.len() - suffix.len(), name.len() as int)
        == suffix
}

/// What the listing of a folder tells of one of its entries.
#[derive(Clone, Debug, PartialEq, Eq)]
pub struct FolderEntry {
    /// Whether the entry is a regular file; `None` where that could not be found out.
    pub is_file: Option<bool>,
    /// The name of the entry; `None` where it is no valid text.
    pub name: Option<String>,
}

/// A file to write: its name within the folder of the sheet and its new content.
#[derive(Clone, Debug, PartialEq, Eq)]
pub struct FileWrite {
    pub name: String,
    pub content: String,
}

impl FolderEntry {
    /// The entry is known to be a regular file and has a name that is valid text.
    pub open spec fn is_named_file(self) -> bool {
        self.is_file == Some(true) && self.name is Some
    }

    /// The entry is a regular file whose name ends with `suffix`.
    pub open spec fn is_file_with_suffix(self, suffix: Seq<char>) -> bool {
        self.is_named_file() && has_suffix(self.name->Some_0@, suffix)
    }

    /// Whether the entry is known to be a regular file and has a name that is valid text.
    fn named_file(&self) -> (named: bool)
        ensures
            named == self.is_named_file(),
    {
        match (&self.is_file, &self.name) {
            (Some(true), Some(_)) => true,
            _ => false,
        }
    }

    /// Whether the entry is a regular file whose name ends with `suffix`.
    fn file_with_suffix(&self, suffix: &str) -> (fits: bool)
        ensures
            fits == self.is_file_with_suffix(suffix@),
    {
        match (&self.is_file, &self.name) {
            (Some(true), Some(name)) => str_ends_with(name.as_str(), suffix),
            _ => false,
        }
    }
}

/// The number of regular files with a name that is valid text among `entries`.
pub open spec fn named_files(entries: Seq<FolderEntry>) -> nat
    decreases entries.len(),
{
    if entries.len() == 0 {
        0
    } else if entries.last().is_named_file() {
        named_files(entries.drop_last()) + 1
    } else {
        named_files(entries.drop_last())
    }
}

/// `index` is the place of the first regular file among `entries` whose name ends with
/// `suffix`.
pub open spec fn is_first_with_suffix(
    entries: Seq<FolderEntry>,
    suffix: Seq<char>,
    index: int,
) -> bool {
    &&& 0 <= index < entries.len()
    &&& entries[index].is_file_with_suffix(suffix)
    &&& forall|earlier: int|
        0 <= earlier < index ==> !(#[trigger] entries[earlier]).is_file_with_suffix(suffix)
}

/// No regular file among `entries` has a name that ends with `suffix`.
pub open spec fn none_with_suffix(entries: Seq<FolderEntry>, suffix: Seq<char>) -> bool {
    forall|index: int|
        0 <= index < entries.len() ==> !(#[trigger] entries[index]).is_file_with_suffix(suffix)
}

/// Calls `str::ends_with` with a string as the pattern, which tells whether the pattern
/// matches a suffix of the text. Trusted: the result is stated as the text's last
/// characters being those of the pattern.
#[verifier::external_body]
fn str_ends_with(text: &str, suffix: &str) -> (ends: bool)
    ensures
        ends == has_suffix(text@, suffix@),
{
    text.ends_with(suffix)
}

/// Counts the regular files with a name that is valid text.
fn count_named_files(entries: &Vec<FolderEntry>) -> (count: usize)
    ensures
        count == named_files(entries@),
{
    let mut count: usize = 0;
    let mut index: usize = 0;
    while index < entries.len()
        invariant
            index <= entries.len(),
            count <= index,
            count == named_files(entries@.take(index as int)),
        decreases entries.len() - index,
    {
        assert(entries@.take(index + 1).drop_last() =~= entries@.take(index as int));
        if entries[index].named_file() {
            count = count + 1;
        }
        index = index + 1;
    }
    assert(entries@.take(index as int) =~= entries@);
    count
}

/// The place of the first regular file whose name ends with `suffix`.
fn find_with_suffix(entries: &Vec<FolderEntry>, suffix: &str) -> (found: Option<usize>)
    ensures
        match found {
            Some(index) => is_first_with_suffix(entries@, suffix@, index as int),
            None => none_with_suffix(entries@, suffix@),
        },
{
    let mut index: usize = 0;
    while index < entries.len()
        invariant
            index <= entries.len(),
            forall|earlier: int|
                0 <= earlier < index ==> !(#[trigger] entries@[earlier]).is_file_with_suffix(
                    suffix@,
                ),
        decreases entries.len() - index,
    {
        if entries[index].file_with_suffix(suffix) {
            return Some(index);
        }
        index = index + 1;
    }
    None
}

/// Picks the two files of a sheet whose contents are to be swapped, from the listing of
/// the sheet's folder, which holds its entries in the order in which the folder lists
/// them, or is `None` where there is no such folder: the first regular file whose name
/// ends with `.cpp` and the first whose name ends with `.other`, by their places in the
/// listing. Nothing is picked, and so nothing to be changed, where the folder is not
/// there, holds fewer than two regular files or lacks a file of either kind. Entries
/// that are not known to be regular files, or whose names are no valid text, count for
/// nothing.
pub fn make_changes(listing: Option<&Vec<FolderEntry>>) -> (swap: Option<(usize, usize)>)
    ensures
        match swap {
            Some((cpp, other)) => {
                &&& listing matches Some(entries)
                &&& named_files(entries@) >= 2
                &&& is_first_with_suffix(entries@, ".cpp"@, cpp as int)
                &&& is_first_with_suffix(entries@, ".other"@, other as int)
            },
            None => listing matches Some(entries) ==> {
                ||| named_files(entries@) < 2
                ||| none_with_suffix(entries@, ".cpp"@)
                ||| none_with_suffix(entries@, ".other"@)
            },
        },
{
    let entries = match listing {
        Some(entries) => entries,
        None => {
            return None;
        },
    };
    if count_named_files(entries) < 2 {
        return None;
    }
    let cpp_file = find_with_suffix(entries, ".cpp");
    let other_file = find_with_suffix(entries, ".other");
    match (cpp_file, other_file) {
        (Some(cpp), Some(other)) => Some((cpp, other)),
        _ => None,
    }
}

/// Swaps the contents of the two files picked: says what to write, in this order. The
/// file that ends with `.cpp` gets what the other one held, and then the other one what
/// the file that ends with `.cpp` held.
pub fn swap_contents(cpp: String, cpp_content: String, other: String, other_content: String) -> (writes: (
    FileWrite,
    FileWrite,
))
    ensures
        writes.0 == (FileWrite { name: cpp, content: other_content }),
        writes.1 == (FileWrite { name: other, content: cpp_content }),
{
    (FileWrite { name: cpp, content: other_content }, FileWrite { name: other, content: cpp_content })
}

/// Turns the failure of a step that talks to the server into the failure of the upload:
/// a rate limit into [`NewRunError::LimitReached`], and any other failure into what
/// `specific` makes of it.
fn new_run_err<F: FnOnce(GitCommandError) -> NewRunError>(
    specific: F,
    interaction: GitInteractionError,
) -> (error: NewRunError)
    requires
        forall|failure: GitCommandError| call_requires(specific, (failure,)),
    ensures
        match interaction {
            GitInteractionError::LimitReached(stderr) => error == NewRunError::LimitReached(
                stderr,
            ),
            GitInteractionError::Exec(failure) => call_ensures(specific, (failure,), error),
        },
{
    match interaction {
        GitInteractionError::Exec(failure) => specific(failure),
        GitInteractionError::LimitReached(stderr) => NewRunError::LimitReached(stderr),
    }
}

/// Says how an upload goes on: which step to carry out after the one whose report is
/// `last`, or first where `last` is `None`, or how the upload has ended. With
/// `prepend_pull` the upload pulls before it changes anything and pauses before it
/// pushes.
pub fn cause_new_run(prepend_pull: bool, last: Option<StepReport>) -> (progress: RunProgress)
    ensures
        progress == next_progress(prepend_pull, last),
{
    match last {
        None => RunProgress::Next(RunStep::ResetFiles),
        Some(StepReport::ResetFiles(launched)) => {
            match run_git_local_command(launched) {
                Err(failure) => RunProgress::Finished(Err(NewRunError::ResetFiles(failure))),
                Ok(_) => {
                    if prepend_pull {
                        RunProgress::Next(RunStep::Pull)
                    } else {
                        RunProgress::Next(RunStep::MakeChanges)
                    }
                },
            }
        },
        Some(StepReport::Pull(launched)) => {
            match run_git_server_command(launched) {
                Err(failure) => {
                    let pull_failed = |cause: GitCommandError| -> (error: NewRunError)
                        ensures
                            error == NewRunError::Pull(cause),
                        { NewRunError::Pull(cause) };
                    RunProgress::Finished(Err(new_run_err(pull_failed, failure)))
                },
                Ok(_) => RunProgress::Next(RunStep::MakeChanges),
            }
        },
        Some(StepReport::MakeChanges(changed)) => {
            match changed {
                Err(reason) => RunProgress::Finished(Err(NewRunError::MakeChanges(reason))),
                Ok(false) => RunProgress::Finished(Ok(false)),
                Ok(true) => RunProgress::Next(RunStep::AddAll),
            }
        },
        Some(StepReport::AddAll(launched)) => {
            match run_git_local_command(launched) {
                Err(failure) => RunProgress::Finished(Err(NewRunError::AddAll(failure))),
                Ok(_) => RunProgress::Next(RunStep::Commit),
            }
        },
        Some(StepReport::Commit(launched)) => {
            match run_git_local_command(launched) {
                Err(failure) => RunProgress::Finished(Err(NewRunError::Commit(failure))),
                Ok(_) => {
                    if prepend_pull {
                        RunProgress::Next(RunStep::Sleep(Interval::from_secs(TILL_PUSH_SECS)))
                    } else {
                        RunProgress::Next(RunStep::Push)
                    }
                },
            }
        },
        Some(StepReport::Slept) => RunProgress::Next(RunStep::Push),
        Some(StepReport::Push(launched)) => {
            match run_git_server_command(launched) {
                Err(failure) => {
                    let push_failed = |cause: GitCommandError| -> (error: NewRunError)
                        ensures
                            error == NewRunError::Push(GitInteractionError::Exec(cause)),
                        { NewRunError::Push(GitInteractionError::Exec(cause)) };
                    RunProgress::Finished(Err(new_run_err(push_failed, failure)))
                },
                Ok(_) => RunProgress::Finished(Ok(true)),
            }
        },
    }
}

/// What each step of an upload would report if it were carried out.
pub struct RunScript {
    pub reset_files: Result<CommandOutput, String>,
    pub pull: Result<CommandOutput, String>,
    pub make_changes: Result<bool, String>,
    pub add_all: Result<CommandOutput, String>,
    pub commit: Result<CommandOutput, String>,
    pub push: Result<CommandOutput, String>,
}

/// The course of an upload: the steps carried out, in their order, and how it ended.
pub struct RunCourse {
    pub steps: Seq<RunStep>,
    pub result: Option<Result<bool, NewRunError>>,
}

impl RunScript {
    /// The report of a step.
    pub open spec fn report(self, step: RunStep) -> StepReport {
        match step {
            RunStep::ResetFiles => StepReport::ResetFiles(self.reset_files),
            RunStep::Pull => StepReport::Pull(self.pull),
            RunStep::MakeChanges => StepReport::MakeChanges(self.make_changes),
            RunStep::AddAll => StepReport::AddAll(self.add_all),
            RunStep::Commit => StepReport::Commit(self.commit),
            RunStep::Sleep(_) => StepReport::Slept,
            RunStep::Push => StepReport::Push(self.push),
        }
    }

    /// The course that an upload takes from the point after the report `last`, where each
    /// step asked for is carried out and reports what the script holds for it. No more
    /// than `limit` steps are followed; the result is `None` where the upload has not
    /// ended by then.
    pub open spec fn course_from(
        self,
        prepend_pull: bool,
        last: Option<StepReport>,
        limit: nat,
    ) -> RunCourse
        decreases limit,
    {
        match next_progress(prepend_pull, last) {
            RunProgress::Finished(result) => RunCourse { steps: seq![], result: Some(result) },
            RunProgress::Next(step) => if limit == 0 {
                RunCourse { steps: seq![], result: None }
            } else {
                let rest = self.course_from(
                    prepend_pull,
                    Some(self.report(step)),
                    (limit - 1) as nat,
                );
                RunCourse { steps: seq![step] + rest.steps, result: rest.result }
            },
        }
    }

    /// The course of a whole upload. It has seven steps at most.
    pub open spec fn course(self, prepend_pull: bool) -> RunCourse {
        self.course_from(prepend_pull, None, 7)
    }

    /// The steps of an upload in which no step fails and something is changed.
    pub open spec fn all_steps(prepend_pull: bool) -> Seq<RunStep> {
        if prepend_pull {
            seq![
                RunStep::ResetFiles,
                RunStep::Pull,
                RunStep::MakeChanges,
                RunStep::AddAll,
                RunStep::Commit,
                RunStep::Sleep(Interval::from_secs(TILL_PUSH_SECS)),
                RunStep::Push,
            ]
        } else {
            seq![
                RunStep::ResetFiles,
                RunStep::MakeChanges,
                RunStep::AddAll,
                RunStep::Commit,
                RunStep::Push,
            ]
        }
    }

    /// The step at which the upload ends, counted within [`RunScript::all_steps`]: the
    /// first one that fails or, where nothing is changed, the change of the files; the
    /// push where neither happens.
    pub open spec fn last_step(self, prepend_pull: bool) -> RunStep {
        if local_outcome(self.reset_files) is Err {
            RunStep::ResetFiles
        } else if prepend_pull && server_outcome(self.pull) is Err {
            RunStep::Pull
        } else if self.make_changes != Ok::<bool, String>(true) {
            RunStep::MakeChanges
        } else if local_outcome(self.add_all) is Err {
            RunStep::AddAll
        } else if local_outcome(self.commit) is Err {
            RunStep::Commit
        } else {
            RunStep::Push
        }
    }

    /// How the upload ends: with the error of the first step that fails; as skipped
    /// (`false`) where no step fails up to the change of the files and nothing is
    /// changed; as pushed (`true`) where no step fails at all.
    pub open spec fn result(self, prepend_pull: bool) -> Result<bool, NewRunError> {
        match self.last_step(prepend_pull) {
            RunStep::ResetFiles => Err(NewRunError::ResetFiles(local_outcome(self.reset_files)->Err_0)),
            RunStep::Pull => Err(server_failure(true, server_outcome(self.pull)->Err_0)),
            RunStep::MakeChanges => match self.make_changes {
                Err(reason) => Err(NewRunError::MakeChanges(reason)),
                Ok(_) => Ok(false),
            },
            RunStep::AddAll => Err(NewRunError::AddAll(local_outcome(self.add_all)->Err_0)),
            RunStep::Commit => Err(NewRunError::Commit(local_outcome(self.commit)->Err_0)),
            _ => match server_outcome(self.push) {
                Err(failure) => Err(server_failure(false, failure)),
                Ok(_) => Ok(true),
            },
        }
    }
}

/// An upload that is driven by [`cause_new_run`] carries out the steps of
/// [`RunScript::all_steps`] in their order, up to and including its last step, and ends
/// with the result that the script makes for.
pub proof fn lemma_course_of_upload(script: RunScript, prepend_pull: bool)
    ensures
        script.course(prepend_pull).result == Some(script.result(prepend_pull)),
        script.course(prepend_pull).steps.len() >= 1,
        script.course(prepend_pull).steps.last() == script.last_step(prepend_pull),
        script.course(prepend_pull).steps.is_prefix_of(RunScript::all_steps(prepend_pull)),
{
    reveal_with_fuel(RunScript::course_from, 8);
    let steps = script.course(prepend_pull).steps;
    let all = RunScript::all_steps(prepend_pull);
    assert(steps.len() <= all.len());
    assert(steps =~= all.subrange(0, steps.len() as int));
}

/// An upload whose change of the files reports that nothing was changed carries out no
/// add, no commit and no push, and where it gets as far as that change it ends as
/// skipped.
pub proof fn lemma_no_change_ends_upload(script: RunScript, prepend_pull: bool)
    requires
        script.make_changes == Ok::<bool, String>(false),
    ensures
        !script.course(prepend_pull).steps.contains(RunStep::AddAll),
        !script.course(prepend_pull).steps.contains(RunStep::Commit),
        !script.course(prepend_pull).steps.contains(RunStep::Push),
        script.course(prepend_pull).steps.contains(RunStep::MakeChanges) ==> script.course(
            prepend_pull,
        ).result == Some(Ok::<bool, NewRunError>(false)),
{
    reveal_with_fuel(RunScript::course_from, 8);
    let steps = script.course(prepend_pull).steps;
    assert(steps.len() <= 3);
    assert forall|i: int| 0 <= i < steps.len() implies steps[i] != RunStep::AddAll && steps[i]
        != RunStep::Commit && steps[i] != RunStep::Push by {}
    if steps.contains(RunStep::MakeChanges) {
        let i = choose|i: int| 0 <= i < steps.len() && steps[i] == RunStep::MakeChanges;
    }
}

} // verus!
