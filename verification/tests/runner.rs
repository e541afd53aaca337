use linux_toolbox::runner::{
    check_script, ExecutionOutcome, FileStatus, RunPhase, RunStep, ScriptError, ScriptRun,
    StepResult,
};

fn executable() -> FileStatus {
    FileStatus { exists: true, is_file: true, mode: 0o755 }
}

fn drive(run: &mut ScriptRun, results: Vec<StepResult>) -> Vec<RunStep> {
    let mut steps = Vec::new();
    for result in results {
        steps.push(run.next_step());
        run.advance(result);
    }
    steps.push(run.next_step());
    steps
}

#[test]
fn checks_are_made_in_order() {
    let missing = FileStatus { exists: false, is_file: false, mode: 0 };
    assert_eq!(check_script(&missing), Err(ScriptError::NotFound));
    let missing_but_odd = FileStatus { exists: false, is_file: true, mode: 0o777 };
    assert_eq!(check_script(&missing_but_odd), Err(ScriptError::NotFound));
    let directory = FileStatus { exists: true, is_file: false, mode: 0o755 };
    assert_eq!(check_script(&directory), Err(ScriptError::NotAFile));
    let plain = FileStatus { exists: true, is_file: true, mode: 0o644 };
    assert_eq!(check_script(&plain), Err(ScriptError::NotExecutable));
    assert_eq!(check_script(&executable()), Ok(()));
}

#[test]
fn any_single_execute_bit_is_enough() {
    for mode in [0o100, 0o010, 0o001, 0o711, 0o100644 | 0o100] {
        let status = FileStatus { exists: true, is_file: true, mode };
        assert_eq!(check_script(&status), Ok(()));
    }
    for mode in [0, 0o666, 0o100644, 0o4000, 0o222] {
        let status = FileStatus { exists: true, is_file: true, mode };
        assert_eq!(check_script(&status), Err(ScriptError::NotExecutable));
    }
}

#[test]
fn refusals_name_the_check_and_quote_the_path() {
    assert_eq!(
        ScriptError::NotFound.message("scripts/ping.sh"),
        "Script not found: \"scripts/ping.sh\""
    );
    assert_eq!(ScriptError::NotAFile.message("scripts"), "Not a file: \"scripts\"");
    assert_eq!(
        ScriptError::NotExecutable.message("a \"b\".sh"),
        "Script is not executable: \"a \\\"b\\\".sh\""
    );
}

#[test]
fn refusal_is_put_before_the_shown_path() {
    assert_eq!(ScriptError::NotFound.describe("<x>"), "Script not found: <x>");
    assert_eq!(ScriptError::NotAFile.describe(""), "Not a file: ");
    assert_eq!(ScriptError::NotExecutable.describe("'y'"), "Script is not executable: 'y'");
}

#[test]
fn not_executable_script_never_releases_display() {
    let status = FileStatus { exists: true, is_file: true, mode: 0o644 };
    let mut run = ScriptRun::start("cleanup.sh".to_string(), &status);
    assert_eq!(run.refusal, Some(ScriptError::NotExecutable));
    let steps = drive(&mut run, vec![StepResult::Done, StepResult::Done]);
    let outcome = ExecutionOutcome {
        succeeded: false,
        message: "Script is not executable: \"cleanup.sh\"".to_string(),
    };
    assert_eq!(
        steps,
        vec![RunStep::StartIndicator, RunStep::JoinIndicator, RunStep::Finish(outcome.clone())]
    );
    assert!(run.is_over());
    assert!(!run.display_released);
    assert!(!run.indicator_running);
    assert_eq!(run.outcome(), outcome);
    assert!(outcome.message.contains("not executable"));
    assert_eq!(
        outcome.status_text(),
        "Error running script: Script is not executable: \"cleanup.sh\""
    );
}

#[test]
fn missing_script_is_refused_whatever_is_reported() {
    let status = FileStatus { exists: false, is_file: false, mode: 0 };
    let mut run = ScriptRun::start("gone.sh".to_string(), &status);
    let steps = drive(
        &mut run,
        vec![
            StepResult::Failed("a".to_string()),
            StepResult::Exited(true),
            StepResult::Done,
            StepResult::Failed("b".to_string()),
        ],
    );
    for step in &steps {
        assert!(matches!(
            step,
            RunStep::StartIndicator | RunStep::JoinIndicator | RunStep::Finish(_)
        ));
    }
    assert_eq!(run.phase, RunPhase::Finished);
    assert!(!run.display_released);
    assert_eq!(run.outcome().message, "Script not found: \"gone.sh\"");
    assert!(!run.outcome().succeeded);
}

#[test]
fn unbroken_run_hands_display_over_and_back() {
    let mut run = ScriptRun::start("ping.sh".to_string(), &executable());
    let mut phases = vec![(run.phase, run.display_released, run.indicator_running)];
    let results = vec![
        StepResult::Done,
        StepResult::Done,
        StepResult::Done,
        StepResult::Exited(true),
        StepResult::Done,
        StepResult::Done,
        StepResult::Done,
        StepResult::Done,
        StepResult::Done,
    ];
    let mut steps = Vec::new();
    for result in results {
        steps.push(run.next_step());
        run.advance(result);
        phases.push((run.phase, run.display_released, run.indicator_running));
    }
    assert_eq!(
        steps,
        vec![
            RunStep::StartIndicator,
            RunStep::ReleaseDisplay,
            RunStep::ClearScreen,
            RunStep::Launch("ping.sh".to_string()),
            RunStep::Prompt(false),
            RunStep::AwaitKey,
            RunStep::JoinIndicator,
            RunStep::AcquireDisplay,
            RunStep::Redraw,
        ]
    );
    assert_eq!(
        phases,
        vec![
            (RunPhase::Start, false, false),
            (RunPhase::Release, false, true),
            (RunPhase::Clear, true, true),
            (RunPhase::Launch, true, true),
            (RunPhase::Prompt, true, true),
            (RunPhase::AwaitKey, true, true),
            (RunPhase::Join, true, true),
            (RunPhase::Acquire, true, false),
            (RunPhase::Redraw, false, false),
            (RunPhase::Finished, false, false),
        ]
    );
    assert!(run.is_over());
    let outcome = run.outcome();
    assert!(outcome.succeeded);
    assert_eq!(outcome.message, "Script executed successfully");
    assert_eq!(outcome.status_text(), "Script executed successfully");
    assert_eq!(run.next_step(), RunStep::Finish(outcome));
}

#[test]
fn failing_exit_status_is_noted_but_no_failure() {
    let mut run = ScriptRun::start("ping.sh".to_string(), &executable());
    for _ in 0..3 {
        run.advance(StepResult::Done);
    }
    run.advance(StepResult::Exited(false));
    assert!(run.exit_failed);
    assert_eq!(run.next_step(), RunStep::Prompt(true));
    for _ in 0..5 {
        run.advance(StepResult::Done);
    }
    assert_eq!(run.phase, RunPhase::Finished);
    assert!(run.outcome().succeeded);
}

#[test]
fn failed_launch_restores_display_before_finishing() {
    let mut run = ScriptRun::start("ping.sh".to_string(), &executable());
    for _ in 0..3 {
        run.advance(StepResult::Done);
    }
    assert_eq!(run.phase, RunPhase::Launch);
    run.advance(StepResult::Failed("No such file or directory".to_string()));
    let steps = drive(&mut run, vec![StepResult::Done, StepResult::Done, StepResult::Done]);
    let outcome = ExecutionOutcome {
        succeeded: false,
        message: "No such file or directory".to_string(),
    };
    assert_eq!(
        steps,
        vec![
            RunStep::JoinIndicator,
            RunStep::AcquireDisplay,
            RunStep::Redraw,
            RunStep::Finish(outcome.clone()),
        ]
    );
    assert!(!run.display_released);
    assert_eq!(outcome.status_text(), "Error running script: No such file or directory");
}

#[test]
fn every_failing_step_leads_back_to_the_display() {
    for failing in 1..6 {
        let mut run = ScriptRun::start("ping.sh".to_string(), &executable());
        for _ in 0..failing {
            run.advance(StepResult::Done);
        }
        run.advance(StepResult::Failed("broken".to_string()));
        assert_eq!(run.phase, RunPhase::Join);
        assert!(run.display_released);
        let mut count = 0;
        while !run.is_over() {
            assert!(!matches!(run.next_step(), RunStep::Launch(_)));
            run.advance(StepResult::Done);
            count += 1;
        }
        assert_eq!(count, 3);
        assert_eq!(run.phase, RunPhase::Finished);
        assert!(!run.display_released);
        assert!(!run.indicator_running);
        assert_eq!(run.outcome().message, "broken");
    }
}

#[test]
fn display_that_cannot_be_taken_back_aborts() {
    let mut run = ScriptRun::start("ping.sh".to_string(), &executable());
    for _ in 0..7 {
        run.advance(StepResult::Done);
    }
    assert_eq!(run.phase, RunPhase::Acquire);
    run.advance(StepResult::Failed("no terminal".to_string()));
    assert_eq!(run.phase, RunPhase::Aborted);
    assert!(run.is_over());
    assert_eq!(run.next_step(), RunStep::Abort("no terminal".to_string()));
    run.advance(StepResult::Done);
    assert_eq!(run.phase, RunPhase::Aborted);

    let mut run = ScriptRun::start("ping.sh".to_string(), &executable());
    for _ in 0..8 {
        run.advance(StepResult::Done);
    }
    assert_eq!(run.phase, RunPhase::Redraw);
    run.advance(StepResult::Failed("draw".to_string()));
    assert_eq!(run.next_step(), RunStep::Abort("draw".to_string()));
}

#[test]
fn finished_run_stays_finished() {
    let mut run = ScriptRun::start("ping.sh".to_string(), &executable());
    for _ in 0..9 {
        run.advance(StepResult::Done);
    }
    let done = run.clone();
    run.advance(StepResult::Failed("late".to_string()));
    run.advance(StepResult::Exited(false));
    assert_eq!(run, done);
}
