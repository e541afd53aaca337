//! Running a script: the checks before it, and the order in which the
//! display is given up, the script is launched, and the display is taken
//! back. The caller performs each step and reports how it went; the run
//! decides what comes next.

use crate::run_laws::lemma_step_keeps_consistent;
use crate::text::{debug_form, quoted};
use vstd::prelude::*;

verus! {

/// What the file system says about a script.
#[derive(Clone, Copy, Debug, PartialEq, Eq, Structural)]
pub struct FileStatus {
    pub exists: bool,
    pub is_file: bool,
    /// The permission bits.
    pub mode: u32,
}

/// Why a script is not run.
#[derive(Clone, Copy, Debug, PartialEq, Eq, Structural)]
pub enum ScriptError {
    NotFound,
    NotAFile,
    NotExecutable,
}

/// The permission bits that allow somebody to execute a file.
pub const EXECUTE_BITS: u32 = 0o111;

/// The outcome of the checks, which are made in this order: the path
/// exists; it is a regular file; at least one execute bit is set.
pub open spec fn checked(status: FileStatus) -> Result<(), ScriptError> {
    if !status.exists {
        Err(ScriptError::NotFound)
    } else if !status.is_file {
        Err(ScriptError::NotAFile)
    } else if status.mode & EXECUTE_BITS == 0 {
        Err(ScriptError::NotExecutable)
    } else {
        Ok(())
    }
}

/// The words that name the check that failed.
pub open spec fn refusal_words(error: ScriptError) -> Seq<char> {
    match error {
        ScriptError::NotFound => "Script not found: "@,
        ScriptError::NotAFile => "Not a file: "@,
        ScriptError::NotExecutable => "Script is not executable: "@,
    }
}

/// The text that tells the user why the script at `script` is not run: what
/// failed, then the path in quotes.
pub open spec fn refusal_text(error: ScriptError, script: Seq<char>) -> Seq<char> {
    refusal_words(error) + debug_form(script)
}

/// The message of a run that went through.
pub open spec fn success_text() -> Seq<char> {
    "Script executed successfully"@
}

/// The status line for a run that failed for the reason `reason`.
pub open spec fn failure_text(reason: Seq<char>) -> Seq<char> {
    "Error running script: "@ + reason
}

/// Decides from what the file system says whether a script may be run.
pub fn check_script(status: &FileStatus) -> (r: Result<(), ScriptError>)
    ensures
        r == checked(*status),
{
    if !status.exists {
        Err(ScriptError::NotFound)
    } else if !status.is_file {
        Err(ScriptError::NotAFile)
    } else if status.mode & EXECUTE_BITS == 0 {
        Err(ScriptError::NotExecutable)
    } else {
        Ok(())
    }
}

impl ScriptError {
    /// The text that tells the user why a script is not run, given the
    /// script's path as it is to be shown.
    pub fn describe(&self, shown_path: &str) -> (r: String)
        ensures
            r@ == refusal_words(*self) + shown_path@,
    {
        let mut text = match self {
            ScriptError::NotFound => String::from_str("Script not found: "),
            ScriptError::NotAFile => String::from_str("Not a file: "),
            ScriptError::NotExecutable => String::from_str("Script is not executable: "),
        };
        text.append(shown_path);
        text
    }

    /// The text that tells the user why the script at `script` is not run.
    pub fn message(&self, script: &str) -> (r: String)
        ensures
            r@ == refusal_text(*self, script@),
    {
        let path = quoted(script);
        self.describe(path.as_str())
    }
}

/// What one run of a script came to.
#[derive(Clone, Debug, PartialEq, Eq)]
pub struct ExecutionOutcome {
    pub succeeded: bool,
    /// That the script was executed, or why it could not be.
    pub message: String,
}

/// An `ExecutionOutcome` as plain values.
pub struct OutcomeView {
    pub succeeded: bool,
    pub message: Seq<char>,
}

impl View for ExecutionOutcome {
    type V = OutcomeView;

    open spec fn view(&self) -> OutcomeView {
        OutcomeView { succeeded: self.succeeded, message: self.message@ }
    }
}

impl OutcomeView {
    /// The status line that tells the user of the outcome.
    pub open spec fn status_text(self) -> Seq<char> {
        if self.succeeded {
            self.message
        } else {
            failure_text(self.message)
        }
    }
}

impl ExecutionOutcome {
    /// The status line that tells the user of the outcome.
    pub fn status_text(&self) -> (r: String)
        ensures
            r@ == self@.status_text(),
    {
        if self.succeeded {
            self.message.clone()
        } else {
            let mut r = String::from_str("Error running script: ");
            r.append(self.message.as_str());
            r
        }
    }
}

/// Where a run stands. Each phase but the last two names the step that the
/// caller has to perform next.
#[derive(Clone, Copy, Debug, PartialEq, Eq, Structural)]
pub enum RunPhase {
    /// Start the progress indicator.
    Start,
    /// Give the display up: leave the full-screen raw mode.
    Release,
    /// Clear the screen and move the cursor home.
    Clear,
    /// Launch the script through the shell and wait for it.
    Launch,
    /// Tell the user that a key press is awaited.
    Prompt,
    /// Wait for one key press.
    AwaitKey,
    /// Wait for the progress indicator to end.
    Join,
    /// Take the display back: enter the full-screen raw mode.
    Acquire,
    /// Draw the whole screen anew.
    Redraw,
    /// The run is over and its outcome can be shown.
    Finished,
    /// The display could not be taken back; the session cannot go on.
    Aborted,
}

/// How a step went.
#[derive(Clone, Debug, PartialEq, Eq)]
pub enum StepResult {
    /// The step was performed.
    Done,
    /// The script ran and ended; the flag says whether its exit status
    /// reported success.
    Exited(bool),
    /// The step failed, for the reason given.
    Failed(String),
}

/// A `StepResult` as plain values.
pub enum StepResultView {
    Done,
    Exited(bool),
    Failed(Seq<char>),
}

impl View for StepResult {
    type V = StepResultView;

    open spec fn view(&self) -> StepResultView {
        match self {
            StepResult::Done => StepResultView::Done,
            StepResult::Exited(ok) => StepResultView::Exited(*ok),
            StepResult::Failed(reason) => StepResultView::Failed(reason@),
        }
    }
}

/// What the caller has to do next.
#[derive(Clone, Debug, PartialEq, Eq)]
pub enum RunStep {
    StartIndicator,
    ReleaseDisplay,
    ClearScreen,
    /// Launch the script at this path.
    Launch(String),
    /// Ask for a key press; the flag says that the script's exit status
    /// reported a failure, which the user is told first.
    Prompt(bool),
    AwaitKey,
    JoinIndicator,
    AcquireDisplay,
    Redraw,
    /// Show this outcome and go back to handling input.
    Finish(ExecutionOutcome),
    /// Give up the session, for this reason.
    Abort(String),
}

/// A `RunStep` as plain values.
pub enum RunStepView {
    StartIndicator,
    ReleaseDisplay,
    ClearScreen,
    Launch(Seq<char>),
    Prompt(bool),
    AwaitKey,
    JoinIndicator,
    AcquireDisplay,
    Redraw,
    Finish(OutcomeView),
    Abort(Seq<char>),
}

impl View for RunStep {
    type V = RunStepView;

    open spec fn view(&self) -> RunStepView {
        match self {
            RunStep::StartIndicator => RunStepView::StartIndicator,
            RunStep::ReleaseDisplay => RunStepView::ReleaseDisplay,
            RunStep::ClearScreen => RunStepView::ClearScreen,
            RunStep::Launch(script) => RunStepView::Launch(script@),
            RunStep::Prompt(exit_failed) => RunStepView::Prompt(*exit_failed),
            RunStep::AwaitKey => RunStepView::AwaitKey,
            RunStep::JoinIndicator => RunStepView::JoinIndicator,
            RunStep::AcquireDisplay => RunStepView::AcquireDisplay,
            RunStep::Redraw => RunStepView::Redraw,
            RunStep::Finish(outcome) => RunStepView::Finish(outcome@),
            RunStep::Abort(reason) => RunStepView::Abort(reason@),
        }
    }
}

/// One run of a script.
#[derive(Clone, Debug, PartialEq, Eq)]
pub struct ScriptRun {
    pub phase: RunPhase,
    pub script: String,
    /// Why the script is not launched, if a check failed.
    pub refusal: Option<ScriptError>,
    /// Whether the display is given up.
    pub display_released: bool,
    /// Whether the progress indicator runs.
    pub indicator_running: bool,
    /// Whether the script's exit status reported a failure.
    pub exit_failed: bool,
    /// The reason of the first step that failed.
    pub error: Option<String>,
}

/// A `ScriptRun` as plain values.
pub struct RunView {
    pub phase: RunPhase,
    pub script: Seq<char>,
    pub refusal: Option<ScriptError>,
    pub display_released: bool,
    pub indicator_running: bool,
    pub exit_failed: bool,
    pub error: Option<Seq<char>>,
}

impl View for ScriptRun {
    type V = RunView;

    open spec fn view(&self) -> RunView {
        RunView {
            phase: self.phase,
            script: self.script@,
            refusal: self.refusal,
            display_released: self.display_released,
            indicator_running: self.indicator_running,
            exit_failed: self.exit_failed,
            error: match self.error {
                Some(reason) => Some(reason@),
                None => None,
            },
        }
    }
}

impl RunView {
    /// The run of `script` before its first step, given what the checks
    /// found.
    pub open spec fn started(script: Seq<char>, status: FileStatus) -> RunView {
        RunView {
            phase: RunPhase::Start,
            script: script,
            refusal: match checked(status) {
                Ok(_) => None,
                Err(error) => Some(error),
            },
            display_released: false,
            indicator_running: false,
            exit_failed: false,
            error: None,
        }
    }

    /// What the run comes to, once it is over. A script that ran and ended
    /// with a failing exit status still counts as run.
    pub open spec fn outcome(self) -> OutcomeView {
        match self.refusal {
            Some(error) => OutcomeView {
                succeeded: false,
                message: refusal_text(error, self.script),
            },
            None => match self.error {
                Some(reason) => OutcomeView { succeeded: false, message: reason },
                None => OutcomeView { succeeded: true, message: success_text() },
            },
        }
    }

    /// The step that the caller has to perform next.
    pub open spec fn next_step(self) -> RunStepView {
        match self.phase {
            RunPhase::Start => RunStepView::StartIndicator,
            RunPhase::Release => RunStepView::ReleaseDisplay,
            RunPhase::Clear => RunStepView::ClearScreen,
            RunPhase::Launch => RunStepView::Launch(self.script),
            RunPhase::Prompt => RunStepView::Prompt(self.exit_failed),
            RunPhase::AwaitKey => RunStepView::AwaitKey,
            RunPhase::Join => RunStepView::JoinIndicator,
            RunPhase::Acquire => RunStepView::AcquireDisplay,
            RunPhase::Redraw => RunStepView::Redraw,
            RunPhase::Finished => RunStepView::Finish(self.outcome()),
            RunPhase::Aborted => RunStepView::Abort(
                match self.error {
                    Some(reason) => reason,
                    None => Seq::empty(),
                },
            ),
        }
    }

    /// The run after a step between giving the display up and taking it
    /// back has failed: the reason is kept, and the run turns to ending the
    /// indicator and taking the display back.
    pub open spec fn broken_off(self, reason: Seq<char>) -> RunView {
        RunView { phase: RunPhase::Join, error: Some(reason), ..self }
    }

    /// The run after the caller has performed the step of the current
    /// phase, with `result` saying how it went.
    ///
    /// With a failed check the display is never touched: the indicator is
    /// started and ended, and the run is over. Otherwise the display is
    /// given up, the screen cleared, the script launched, a key press asked
    /// for and awaited, the indicator ended, the display taken back and the
    /// screen drawn anew. A step that fails on the way leads straight to
    /// ending the indicator and taking the display back. Only where the
    /// display cannot be taken back, or the screen not be drawn, is the
    /// run aborted.
    pub open spec fn advanced(self, result: StepResultView) -> RunView {
        match self.phase {
            RunPhase::Start => RunView {
                phase: if self.refusal.is_some() {
                    RunPhase::Join
                } else {
                    RunPhase::Release
                },
                indicator_running: true,
                ..self
            },
            RunPhase::Release => match result {
                StepResultView::Failed(reason) => RunView {
                    display_released: true,
                    ..self.broken_off(reason)
                },
                _ => RunView { phase: RunPhase::Clear, display_released: true, ..self },
            },
            RunPhase::Clear => match result {
                StepResultView::Failed(reason) => self.broken_off(reason),
                _ => RunView { phase: RunPhase::Launch, ..self },
            },
            RunPhase::Launch => match result {
                StepResultView::Failed(reason) => self.broken_off(reason),
                StepResultView::Exited(ok) => RunView {
                    phase: RunPhase::Prompt,
                    exit_failed: !ok,
                    ..self
                },
                StepResultView::Done => RunView { phase: RunPhase::Prompt, ..self },
            },
            RunPhase::Prompt => match result {
                StepResultView::Failed(reason) => self.broken_off(reason),
                _ => RunView { phase: RunPhase::AwaitKey, ..self },
            },
            RunPhase::AwaitKey => match result {
                StepResultView::Failed(reason) => self.broken_off(reason),
                _ => RunView { phase: RunPhase::Join, ..self },
            },
            RunPhase::Join => RunView {
                phase: if self.display_released {
                    RunPhase::Acquire
                } else {
                    RunPhase::Finished
                },
                indicator_running: false,
                ..self
            },
            RunPhase::Acquire => match result {
                StepResultView::Failed(reason) => RunView {
                    phase: RunPhase::Aborted,
                    error: Some(reason),
                    ..self
                },
                _ => RunView { phase: RunPhase::Redraw, display_released: false, ..self },
            },
            RunPhase::Redraw => match result {
                StepResultView::Failed(reason) => RunView {
                    phase: RunPhase::Aborted,
                    error: Some(reason),
                    ..self
                },
                _ => RunView { phase: RunPhase::Finished, ..self },
            },
            RunPhase::Finished | RunPhase::Aborted => self,
        }
    }

    /// Whether the run is over, one way or the other.
    pub open spec fn is_over(self) -> bool {
        self.phase == RunPhase::Finished || self.phase == RunPhase::Aborted
    }
}

impl ScriptRun {
    /// Begins the run of `script`, given what the file system says about
    /// it. Nothing has been done yet.
    pub fn start(script: String, status: &FileStatus) -> (r: ScriptRun)
        ensures
            r@ == RunView::started(script@, *status),
            r@.consistent(),
    {
        let refusal = match check_script(status) {
            Ok(_) => None,
            Err(error) => Some(error),
        };
        ScriptRun {
            phase: RunPhase::Start,
            script,
            refusal,
            display_released: false,
            indicator_running: false,
            exit_failed: false,
            error: None,
        }
    }

    /// What the run comes to, once it is over.
    pub fn outcome(&self) -> (r: ExecutionOutcome)
        ensures
            r@ == self@.outcome(),
    {
        match self.refusal {
            Some(error) => ExecutionOutcome {
                succeeded: false,
                message: error.message(self.script.as_str()),
            },
            None => match &self.error {
                Some(reason) => ExecutionOutcome { succeeded: false, message: reason.clone() },
                None => ExecutionOutcome {
                    succeeded: true,
                    message: String::from_str("Script executed successfully"),
                },
            },
        }
    }

    /// The step that the caller has to perform next.
    pub fn next_step(&self) -> (r: RunStep)
        ensures
            r@ == self@.next_step(),
    {
        match self.phase {
            RunPhase::Start => RunStep::StartIndicator,
            RunPhase::Release => RunStep::ReleaseDisplay,
            RunPhase::Clear => RunStep::ClearScreen,
            RunPhase::Launch => RunStep::Launch(self.script.clone()),
            RunPhase::Prompt => RunStep::Prompt(self.exit_failed),
            RunPhase::AwaitKey => RunStep::AwaitKey,
            RunPhase::Join => RunStep::JoinIndicator,
            RunPhase::Acquire => RunStep::AcquireDisplay,
            RunPhase::Redraw => RunStep::Redraw,
            RunPhase::Finished => RunStep::Finish(self.outcome()),
            RunPhase::Aborted => RunStep::Abort(
                match &self.error {
                    Some(reason) => reason.clone(),
                    None => String::new(),
                },
            ),
        }
    }

    fn break_off(&mut self, reason: String)
        ensures
            final(self)@ == old(self)@.broken_off(reason@),
    {
        self.phase = RunPhase::Join;
        self.error = Some(reason);
    }

    fn abort(&mut self, reason: String)
        ensures
            final(self)@ == (RunView {
                phase: RunPhase::Aborted,
                error: Some(reason@),
                ..old(self)@
            }),
    {
        self.phase = RunPhase::Aborted;
        self.error = Some(reason);
    }

    /// Takes note of how the step of the current phase went, and moves on
    /// to the next phase. A run whose flags fit its phase stays so.
    pub fn advance(&mut self, result: StepResult)
        ensures
            final(self)@ == old(self)@.advanced(result@),
            old(self)@.consistent() ==> final(self)@.consistent(),
    {
        proof {
            if old(self)@.consistent() {
                lemma_step_keeps_consistent(old(self)@, result@);
            }
        }
        match self.phase {
            RunPhase::Start => {
                self.indicator_running = true;
                if self.refusal.is_some() {
                    self.phase = RunPhase::Join;
                } else {
                    self.phase = RunPhase::Release;
                }
            },
            RunPhase::Release => {
                self.display_released = true;
                match result {
                    StepResult::Failed(reason) => self.break_off(reason),
                    _ => {
                        self.phase = RunPhase::Clear;
                    },
                }
            },
            RunPhase::Clear => match result {
                StepResult::Failed(reason) => self.break_off(reason),
                _ => {
                    self.phase = RunPhase::Launch;
                },
            },
            RunPhase::Launch => match result {
                StepResult::Failed(reason) => self.break_off(reason),
                StepResult::Exited(ok) => {
                    self.exit_failed = !ok;
                    self.phase = RunPhase::Prompt;
                },
                StepResult::Done => {
                    self.phase = RunPhase::Prompt;
                },
            },
            RunPhase::Prompt => match result {
                StepResult::Failed(reason) => self.break_off(reason),
                _ => {
                    self.phase = RunPhase::AwaitKey;
                },
            },
            RunPhase::AwaitKey => match result {
                StepResult::Failed(reason) => self.break_off(reason),
                _ => {
                    self.phase = RunPhase::Join;
                },
            },
            RunPhase::Join => {
                self.indicator_running = false;
                if self.display_released {
                    self.phase = RunPhase::Acquire;
                } else {
                    self.phase = RunPhase::Finished;
                }
            },
            RunPhase::Acquire => match result {
                StepResult::Failed(reason) => self.abort(reason),
                _ => {
                    self.display_released = false;
                    self.phase = RunPhase::Redraw;
                },
            },
            RunPhase::Redraw => match result {
                StepResult::Failed(reason) => self.abort(reason),
                _ => {
                    self.phase = RunPhase::Finished;
                },
            },
            RunPhase::Finished | RunPhase::Aborted => {},
        }
    }

    /// Whether the run is over.
    pub fn is_over(&self) -> (r: bool)
        ensures
            r == self@.is_over(),
    {
        self.phase == RunPhase::Finished || self.phase == RunPhase::Aborted
    }
}

} // verus!
