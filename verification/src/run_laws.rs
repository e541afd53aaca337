//! What holds of every run of a script, however its steps go.

use crate::runner::{
    checked, failure_text, refusal_text, FileStatus, RunPhase, RunStepView, RunView, ScriptError,
    StepResultView,
};
use crate::text::{is_substring, occurs_at};
use vstd::prelude::*;

verus! {

impl RunView {
    /// The run after a sequence of steps, the first of them first.
    pub open spec fn after(self, results: Seq<StepResultView>) -> RunView
        decreases results.len(),
    {
        if results.len() == 0 {
            self
        } else {
            self.after(results.drop_last()).advanced(results.last())
        }
    }

    /// How the phase of a run and its flags belong together.
    ///
    /// The display is given up from the moment its release was tried until
    /// it is taken back, and at no other time; the indicator runs from its
    /// start until it is ended; and a run whose check failed is only ever
    /// starting or ending the indicator, or over.
    pub open spec fn consistent(self) -> bool {
        &&& match self.phase {
            RunPhase::Start | RunPhase::Release => !self.display_released,
            RunPhase::Clear | RunPhase::Launch | RunPhase::Prompt | RunPhase::AwaitKey
            | RunPhase::Acquire => self.display_released,
            RunPhase::Join => self.display_released == self.refusal.is_none(),
            RunPhase::Redraw | RunPhase::Finished => !self.display_released,
            RunPhase::Aborted => true,
        }
        &&& match self.phase {
            RunPhase::Start => !self.indicator_running,
            RunPhase::Release | RunPhase::Clear | RunPhase::Launch | RunPhase::Prompt
            | RunPhase::AwaitKey | RunPhase::Join => self.indicator_running,
            RunPhase::Acquire | RunPhase::Redraw | RunPhase::Finished
            | RunPhase::Aborted => !self.indicator_running,
        }
        &&& self.refusal.is_some() ==> self.error.is_none() && (self.phase == RunPhase::Start
            || self.phase == RunPhase::Join || self.phase == RunPhase::Finished)
        &&& self.phase == RunPhase::Aborted ==> self.error.is_some()
    }

    /// The number of steps that a run in this phase needs at most until it
    /// is over.
    pub open spec fn steps_left(self) -> nat {
        match self.phase {
            RunPhase::Start => 9,
            RunPhase::Release => 8,
            RunPhase::Clear => 7,
            RunPhase::Launch => 6,
            RunPhase::Prompt => 5,
            RunPhase::AwaitKey => 4,
            RunPhase::Join => 3,
            RunPhase::Acquire => 2,
            RunPhase::Redraw => 1,
            RunPhase::Finished | RunPhase::Aborted => 0,
        }
    }
}

/// Whether no step of the sequence failed.
pub open spec fn none_failed(results: Seq<StepResultView>) -> bool {
    forall|i: int| 0 <= i < results.len() ==> !((#[trigger] results[i]) is Failed)
}

/// A run begins in a consistent state.
pub proof fn lemma_started_consistent(script: Seq<char>, status: FileStatus)
    ensures
        RunView::started(script, status).consistent(),
        RunView::started(script, status).refusal.is_some() <==> checked(status).is_err(),
{
}

/// Every step leaves the run consistent, and never changes the script or
/// the finding of the checks.
pub proof fn lemma_step_keeps_consistent(run: RunView, result: StepResultView)
    requires
        run.consistent(),
    ensures
        run.advanced(result).consistent(),
        run.advanced(result).script == run.script,
        run.advanced(result).refusal == run.refusal,
{
}

/// However the steps of a run go, it stays consistent. So the script is
/// launched, and the key press awaited, only while the display is given up;
/// and a run is finished only with the display taken back and the
/// indicator ended.
pub proof fn lemma_display_is_handed_over_and_back(
    script: Seq<char>,
    status: FileStatus,
    results: Seq<StepResultView>,
)
    ensures
        ({
            let run = RunView::started(script, status).after(results);
            &&& run.consistent()
            &&& run.script == script
            &&& run.next_step() is Launch || run.next_step() is Prompt || run.next_step()
                is AwaitKey ==> run.display_released
            &&& run.next_step() is Finish ==> !run.display_released && !run.indicator_running
            &&& run.next_step() is Redraw ==> !run.display_released
        }),
    decreases results.len(),
{
    lemma_started_consistent(script, status);
    if results.len() > 0 {
        lemma_display_is_handed_over_and_back(script, status, results.drop_last());
        lemma_step_keeps_consistent(
            RunView::started(script, status).after(results.drop_last()),
            results.last(),
        );
    }
}

/// A script that fails a check is never launched and the display is never
/// given up for it, whatever the caller reports: the only steps asked for
/// are to start and to end the indicator, and then the run is finished with
/// a failure whose message names the check.
pub proof fn lemma_refused_script_leaves_display_alone(
    script: Seq<char>,
    status: FileStatus,
    results: Seq<StepResultView>,
)
    requires
        checked(status) is Err,
    ensures
        ({
            let run = RunView::started(script, status).after(results);
            let error = checked(status)->Err_0;
            &&& !run.display_released
            &&& run.next_step() == RunStepView::StartIndicator || run.next_step()
                == RunStepView::JoinIndicator || run.next_step() == RunStepView::Finish(
                run.outcome(),
            )
            &&& !run.outcome().succeeded
            &&& run.outcome().message == refusal_text(error, script)
            &&& run.outcome().status_text() == failure_text(refusal_text(error, script))
            &&& results.len() >= 2 ==> run.phase == RunPhase::Finished
        }),
    decreases results.len(),
{
    if results.len() > 0 {
        let head = results.drop_last();
        lemma_refused_script_leaves_display_alone(script, status, head);
        lemma_display_is_handed_over_and_back(script, status, head);
        if head.len() > 0 {
            lemma_refused_script_leaves_display_alone(script, status, head.drop_last());
            lemma_display_is_handed_over_and_back(script, status, head.drop_last());
        }
    }
}

/// A file without any execute bit is refused, and the message says that it
/// is not executable.
pub proof fn lemma_not_executable_is_named(script: Seq<char>, status: FileStatus)
    requires
        status.exists,
        status.is_file,
        status.mode & 0o111 == 0,
    ensures
        checked(status) == Err::<(), ScriptError>(ScriptError::NotExecutable),
        is_substring("not executable"@, refusal_text(ScriptError::NotExecutable, script)),
        is_substring("not executable"@, RunView::started(script, status).outcome().message),
        is_substring(
            "not executable"@,
            RunView::started(script, status).outcome().status_text(),
        ),
{
    reveal_strlit("not executable");
    reveal_strlit("Script is not executable: ");
    reveal_strlit("Error running script: ");
    let needle = "not executable"@;
    let head = "Script is not executable: "@;
    let reason = refusal_text(ScriptError::NotExecutable, script);
    assert(head.subrange(10, 24) =~= needle);
    assert(reason.subrange(10, 24) =~= needle);
    assert(occurs_at(needle, reason, 10));
    let message = failure_text(reason);
    assert(message.subrange(32, 46) =~= needle);
    assert(occurs_at(needle, message, 32));
}

/// Every step brings a run that is not over nearer to its end.
pub proof fn lemma_step_makes_progress(run: RunView, result: StepResultView)
    ensures
        !run.is_over() ==> run.advanced(result).steps_left() < run.steps_left(),
        run.is_over() ==> run.advanced(result) == run,
        run.is_over() <==> run.steps_left() == 0,
{
}

/// After as many steps as a run needs at most, it is over: nine from the
/// start.
pub proof fn lemma_run_ends(run: RunView, results: Seq<StepResultView>)
    ensures
        run.after(results).steps_left() + results.len() <= run.steps_left()
            || run.after(results).is_over(),
        results.len() >= run.steps_left() ==> run.after(results).is_over(),
    decreases results.len(),
{
    lemma_step_makes_progress(run, StepResultView::Done);
    if results.len() > 0 {
        lemma_run_ends(run, results.drop_last());
        lemma_step_makes_progress(run.after(results.drop_last()), results.last());
    }
}

/// A script that passes the checks and whose steps all go through comes to
/// a success after nine steps, whatever its exit status was.
pub proof fn lemma_unbroken_run_succeeds(
    script: Seq<char>,
    status: FileStatus,
    results: Seq<StepResultView>,
)
    requires
        checked(status) is Ok,
        none_failed(results),
    ensures
        ({
            let run = RunView::started(script, status).after(results);
            &&& run.error.is_none()
            &&& run.refusal.is_none()
            &&& run.steps_left() == if results.len() <= 9 {
                9 - results.len()
            } else {
                0
            }
            &&& results.len() >= 9 ==> run.phase == RunPhase::Finished && run.outcome().succeeded
        }),
    decreases results.len(),
{
    if results.len() > 0 {
        let head = results.drop_last();
        assert(none_failed(head)) by {
            assert forall|i: int| 0 <= i < head.len() implies !((#[trigger] head[i]) is Failed) by {
                assert(head[i] == results[i]);
            }
        }
        lemma_unbroken_run_succeeds(script, status, head);
        lemma_display_is_handed_over_and_back(script, status, head);
        assert(!(results[results.len() - 1] is Failed));
    }
}

} // verus!
