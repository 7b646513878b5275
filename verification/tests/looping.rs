use pk_auto_push::git_interaction::{
    CommandOutput, ExitStatus, GitCommandError, GitInteractionError,
};
use pk_auto_push::looping::{classify_run, update_loop, Error, IterationOutcome, Reaction};
use pk_auto_push::new_push::{cause_new_run, NewRunError, RunProgress, RunStep, StepReport};
use pk_auto_push::waiting::{
    notify, DefaultWaiter, IntelligentWait, Interval, Notice, WaitingGaveUp,
};

const REFUSED: &str = "ssh: connect to host example.org port 22: Connection refused";

fn fine() -> Result<CommandOutput, String> {
    Ok(CommandOutput { status: ExitStatus { code: Some(0) }, stderr: String::new() })
}

fn failed(code: i32, stderr: &str) -> Result<CommandOutput, String> {
    Ok(CommandOutput { status: ExitStatus { code: Some(code) }, stderr: stderr.to_string() })
}

fn other(code: i32, stderr: &str) -> GitCommandError {
    GitCommandError::Other(ExitStatus { code: Some(code) }, stderr.to_string())
}

fn go_on(recover: bool, maybe_diverged: bool, notice: Notice) -> Result<Reaction, Error> {
    Ok(Reaction { recover, maybe_diverged, notice })
}

/// Carries out an upload in which every step is fine but the push, which reports `push`.
fn upload_with_push(
    prepend_pull: bool,
    push: Result<CommandOutput, String>,
) -> (Vec<RunStep>, Result<bool, NewRunError>) {
    let mut steps = Vec::new();
    let mut last = None;
    loop {
        match cause_new_run(prepend_pull, last) {
            RunProgress::Finished(result) => return (steps, result),
            RunProgress::Next(step) => {
                assert!(steps.len() < 7);
                steps.push(step);
                last = Some(match step {
                    RunStep::ResetFiles => StepReport::ResetFiles(fine()),
                    RunStep::Pull => StepReport::Pull(fine()),
                    RunStep::MakeChanges => StepReport::MakeChanges(Ok(true)),
                    RunStep::AddAll => StepReport::AddAll(fine()),
                    RunStep::Commit => StepReport::Commit(fine()),
                    RunStep::Sleep(_) => StepReport::Slept,
                    RunStep::Push => StepReport::Push(push.clone()),
                });
            }
        }
    }
}

#[test]
fn success_is_told_as_success() {
    assert_eq!(classify_run(Ok(true)), IterationOutcome::Success);
    assert_eq!(update_loop(false, Ok(true)), go_on(false, false, Notice::Success));
    assert_eq!(update_loop(true, Ok(true)), go_on(false, true, Notice::Success));
}

#[test]
fn skipped_is_told_as_skipped() {
    assert_eq!(classify_run(Ok(false)), IterationOutcome::Skipped);
    assert_eq!(update_loop(false, Ok(false)), go_on(false, false, Notice::Skipped));
    assert_eq!(update_loop(true, Ok(false)), go_on(false, true, Notice::Skipped));
}

#[test]
fn rate_limit_leaves_the_flag_as_it_is() {
    let limit = || Err(NewRunError::LimitReached(REFUSED.to_string()));
    assert_eq!(classify_run(limit()), IterationOutcome::RateLimited);
    assert_eq!(update_loop(false, limit()), go_on(false, false, Notice::LimitReached));
    assert_eq!(update_loop(true, limit()), go_on(false, true, Notice::LimitReached));
}

#[test]
fn failed_push_sets_the_flag_and_repairs() {
    let push = || Err(NewRunError::Push(GitInteractionError::Exec(other(1, "rejected"))));
    assert_eq!(classify_run(push()), IterationOutcome::PushFailedWithRecovery(true));
    assert_eq!(update_loop(false, push()), go_on(true, true, Notice::LimitReached));
    assert_eq!(update_loop(true, push()), go_on(true, true, Notice::LimitReached));
}

#[test]
fn push_that_could_not_start_sets_the_flag_too() {
    let push = || {
        Err(NewRunError::Push(GitInteractionError::Exec(GitCommandError::Exec(
            "git not found".to_string(),
        ))))
    };
    assert_eq!(update_loop(false, push()), go_on(true, true, Notice::LimitReached));
}

#[test]
fn push_error_that_holds_a_rate_limit_repairs_and_keeps_the_flag() {
    let push = || Err(NewRunError::Push(GitInteractionError::LimitReached(REFUSED.to_string())));
    assert_eq!(classify_run(push()), IterationOutcome::PushFailedWithRecovery(false));
    assert_eq!(update_loop(false, push()), go_on(true, false, Notice::LimitReached));
    assert_eq!(update_loop(true, push()), go_on(true, true, Notice::LimitReached));
}

#[test]
fn failed_reset_stops_the_loop() {
    let reset = || Err(NewRunError::ResetFiles(other(128, "fatal: not a git repository")));
    assert_eq!(
        classify_run(reset()),
        IterationOutcome::ResetFailed(other(128, "fatal: not a git repository"))
    );
    for flag in [false, true] {
        assert_eq!(
            update_loop(flag, reset()),
            Err(Error::FileReset(other(128, "fatal: not a git repository")))
        );
    }
}

#[test]
fn other_errors_are_told_as_errors() {
    let runs = || {
        vec![
            Err(NewRunError::Pull(other(1, "pull"))),
            Err(NewRunError::MakeChanges("edit".to_string())),
            Err(NewRunError::AddAll(other(1, "add"))),
            Err(NewRunError::Commit(other(1, "commit"))),
        ]
    };
    for run in runs() {
        assert_eq!(classify_run(run), IterationOutcome::OtherError);
    }
    for flag in [false, true] {
        for run in runs() {
            assert_eq!(update_loop(flag, run), go_on(false, flag, Notice::Error));
        }
    }
}

#[test]
fn giving_up_becomes_the_error_of_the_loop() {
    assert_eq!(Error::from(WaitingGaveUp::Errors(11)), Error::Waiting(WaitingGaveUp::Errors(11)));
}

#[test]
fn push_failure_makes_the_next_upload_pull_first() {
    let (steps, run) = upload_with_push(false, failed(1, "! [rejected] main -> main (fetch first)"));
    assert!(!steps.contains(&RunStep::Pull));
    assert_eq!(
        run,
        Err(NewRunError::Push(GitInteractionError::Exec(other(
            1,
            "! [rejected] main -> main (fetch first)"
        ))))
    );
    let reaction = update_loop(false, run).expect("the loop goes on");
    assert!(reaction.recover);
    assert!(reaction.maybe_diverged);
    assert_eq!(reaction.notice, Notice::LimitReached);

    let (steps, run) = upload_with_push(reaction.maybe_diverged, fine());
    let pull = steps.iter().position(|step| *step == RunStep::Pull).expect("a pull");
    let push = steps.iter().position(|step| *step == RunStep::Push).expect("a push");
    assert_eq!(pull, 1);
    assert!(pull < push);
    assert_eq!(run, Ok(true));
    let reaction = update_loop(reaction.maybe_diverged, run).expect("the loop goes on");
    assert_eq!(reaction, Reaction { recover: false, maybe_diverged: true, notice: Notice::Success });
}

#[test]
fn rate_limited_push_does_not_make_the_next_upload_pull() {
    let (_, run) = upload_with_push(false, failed(128, REFUSED));
    assert_eq!(run, Err(NewRunError::LimitReached(REFUSED.to_string())));
    let reaction = update_loop(false, run).expect("the loop goes on");
    assert_eq!(
        reaction,
        Reaction { recover: false, maybe_diverged: false, notice: Notice::LimitReached }
    );
    let (steps, _) = upload_with_push(reaction.maybe_diverged, fine());
    assert!(!steps.contains(&RunStep::Pull));
}

#[test]
fn failed_first_reset_ends_the_loop_in_its_first_round() {
    let mut rounds = 0;
    let mut flag = false;
    let mut waiter = DefaultWaiter::new(
        Interval::from_secs(7),
        Interval::from_secs(300),
        Interval::from_secs(1800),
        10,
    );
    let stopped = loop {
        rounds += 1;
        assert!(rounds <= 1, "no further round after the failed reset");
        let first = cause_new_run(flag, None);
        assert_eq!(first, RunProgress::Next(RunStep::ResetFiles));
        let run = match cause_new_run(
            flag,
            Some(StepReport::ResetFiles(failed(128, "fatal: not a git repository"))),
        ) {
            RunProgress::Finished(run) => run,
            RunProgress::Next(step) => panic!("no step after the failed reset, got {:?}", step),
        };
        match update_loop(flag, run) {
            Err(error) => break error,
            Ok(reaction) => {
                flag = reaction.maybe_diverged;
                waiter.success();
            }
        }
    };
    assert_eq!(stopped, Error::FileReset(other(128, "fatal: not a git repository")));
    assert_eq!(rounds, 1);
}

#[test]
fn errors_in_a_row_end_the_loop_when_the_waiter_gives_up() {
    let mut waiter =
        DefaultWaiter::new(Interval::from_secs(7), Interval::from_secs(300), Interval::from_secs(7), 2);
    let mut rounds = 0;
    let stopped = loop {
        rounds += 1;
        let reaction = update_loop(false, Err(NewRunError::AddAll(other(1, "index locked"))))
            .expect("no fatal error");
        assert_eq!(reaction.notice, Notice::Error);
        assert!(waiter.can_take(reaction.notice));
        match notify(&mut waiter, reaction.notice) {
            Ok(wait) => assert_eq!(wait, Interval::from_secs(300 * (rounds + 1))),
            Err(gave_up) => break Error::from(gave_up),
        }
    };
    assert_eq!(rounds, 3);
    assert_eq!(stopped, Error::Waiting(WaitingGaveUp::Errors(3)));
}
