//! The progress indicator: a counter that advances in a few steps while the
//! user waits, and the text that shows it.

use vstd::prelude::*;

verus! {

/// The number of steps of the animation.
pub const PROGRESS_STEPS: u8 = 4;

/// The state of the indicator.
#[derive(Clone, Copy, Debug, PartialEq, Eq, Structural)]
pub struct ProgressIndicator {
    /// Whether something is waited for.
    pub loading: bool,
    /// How many steps of the animation have passed.
    pub ticks: u8,
}

impl ProgressIndicator {
    /// The step that is shown: none before the second tick, then one more
    /// with each tick, up to the last step.
    pub open spec fn shown_step(self) -> nat {
        if self.ticks == 0 {
            0
        } else if self.ticks <= PROGRESS_STEPS {
            (self.ticks - 1) as nat
        } else {
            (PROGRESS_STEPS - 1) as nat
        }
    }

    /// The text of the indicator: the word and one dot for each step shown.
    pub open spec fn shown_text(self) -> Seq<char> {
        "Loading "@ + Seq::new(self.shown_step(), |i: int| '.')
    }

    /// An indicator at rest.
    pub fn new() -> (r: ProgressIndicator)
        ensures
            r == (ProgressIndicator { loading: false, ticks: 0 }),
    {
        ProgressIndicator { loading: false, ticks: 0 }
    }

    /// Begins the animation anew.
    pub fn start(&mut self)
        ensures
            *final(self) == (ProgressIndicator { loading: true, ticks: 0 }),
    {
        self.loading = true;
        self.ticks = 0;
    }

    /// Lets one step of the animation pass and says whether more are to
    /// come. The count stops at the number of steps.
    pub fn tick(&mut self) -> (more: bool)
        ensures
            final(self).loading == old(self).loading,
            final(self).ticks == if old(self).ticks < PROGRESS_STEPS {
                (old(self).ticks + 1) as u8
            } else {
                old(self).ticks
            },
            more == (final(self).ticks < PROGRESS_STEPS),
    {
        if self.ticks < PROGRESS_STEPS {
            self.ticks += 1;
        }
        self.ticks < PROGRESS_STEPS
    }

    /// Ends the waiting; the step that was reached stays.
    pub fn stop(&mut self)
        ensures
            *final(self) == (ProgressIndicator { loading: false, ticks: old(self).ticks }),
    {
        self.loading = false;
    }

    /// The step that is shown, always below the number of steps.
    pub fn progress(&self) -> (r: u8)
        ensures
            r == self.shown_step(),
            r < PROGRESS_STEPS,
    {
        if self.ticks == 0 {
            0
        } else if self.ticks <= PROGRESS_STEPS {
            self.ticks - 1
        } else {
            PROGRESS_STEPS - 1
        }
    }

    /// The text of the indicator.
    pub fn loading_text(&self) -> (r: String)
        ensures
            r@ == self.shown_text(),
    {
        let steps = self.progress();
        let mut text = String::from_str("Loading ");
        let mut i: u8 = 0;
        while i < steps
            invariant
                i <= steps,
                steps == self.shown_step(),
                text@ == "Loading "@ + Seq::new(i as nat, |k: int| '.'),
            decreases steps - i,
        {
            text.push('.');
            assert(Seq::new(i as nat, |k: int| '.').push('.') =~= Seq::new(
                (i + 1) as nat,
                |k: int| '.',
            ));
            assert(("Loading "@ + Seq::new(i as nat, |k: int| '.')).push('.') =~= "Loading "@
                + Seq::new((i + 1) as nat, |k: int| '.'));
            i += 1;
        }
        text
    }
}

} // verus!
