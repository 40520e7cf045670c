//! The text injection sequence.
//!
//! The refined text reaches the focused application through the clipboard:
//! the current clipboard text is saved, the refined text is placed on the
//! clipboard, a paste chord is simulated, and the saved text is put back.
//! The caller performs each step on the system; this module decides which
//! step comes next and what the injection reports in the end.

use vstd::prelude::*;

use crate::errors::{ErrorKind, VoiceFlowError};

verus! {

/// The wait after the text was placed on the clipboard, in milliseconds.
pub const SETTLE_MS: u64 = 50;

/// The wait after the paste chord, before the clipboard is put back, in
/// milliseconds.
pub const PASTE_MS: u64 = 150;

/// The character that is clicked while the modifier is held.
pub const PASTE_KEY: char = 'v';

/// The steps of an injection, in the order in which they can occur.
#[derive(Debug, Clone, Copy, PartialEq, Eq, Structural)]
pub enum InjectStep {
    /// Open the system clipboard.
    OpenClipboard,
    /// Read the clipboard's current text, to put it back later.
    ReadClipboard,
    /// Place the text to inject on the clipboard.
    WriteClipboard,
    /// Wait `SETTLE_MS` for the clipboard to propagate.
    Settle,
    /// Open the input simulator.
    OpenKeyboard,
    /// Press the control key.
    PressModifier,
    /// Click `PASTE_KEY`.
    ClickKey,
    /// Release the control key.
    ReleaseModifier,
    /// Wait `PASTE_MS` for the focused application to paste.
    AwaitPaste,
    /// Put the saved text back on the clipboard.
    RestoreClipboard,
    /// Nothing is left to do.
    Done,
}

/// A key of the paste chord.
#[derive(Debug, Clone, Copy, PartialEq, Eq, Structural)]
pub enum ChordKey {
    /// The control key.
    Control,
    /// The key that types this character.
    Character(char),
}

/// What is done to a key.
#[derive(Debug, Clone, Copy, PartialEq, Eq, Structural)]
pub enum KeyMotion {
    /// The key goes down and stays down.
    Press,
    /// The key goes down and up.
    Click,
    /// The key goes up.
    Release,
}

/// What a step gave.
#[derive(Debug)]
pub enum StepOutcome {
    /// The step succeeded.
    Completed,
    /// The clipboard was read: its text, if it held any.
    Clipboard(Option<String>),
    /// The step failed; the system's words.
    Failed(String),
}

/// The mathematical state of an injection.
pub struct InjectionView {
    /// The step to perform next.
    pub step: InjectStep,
    /// The text to inject.
    pub text: Seq<char>,
    /// The clipboard text saved to be put back.
    pub previous: Option<Seq<char>>,
    /// The first failure that the injection will report.
    pub failure: Option<Seq<char>>,
}

/// The place of a step in the order of an injection.
pub open spec fn step_rank(step: InjectStep) -> int {
    match step {
        InjectStep::OpenClipboard => 0,
        InjectStep::ReadClipboard => 1,
        InjectStep::WriteClipboard => 2,
        InjectStep::Settle => 3,
        InjectStep::OpenKeyboard => 4,
        InjectStep::PressModifier => 5,
        InjectStep::ClickKey => 6,
        InjectStep::ReleaseModifier => 7,
        InjectStep::AwaitPaste => 8,
        InjectStep::RestoreClipboard => 9,
        InjectStep::Done => 10,
    }
}

/// The step that follows `step`, given whether it failed and whether a
/// clipboard text is saved. Without a clipboard, or with the text not
/// placed on it, the injection ends at once. A failure anywhere in the paste
/// chord skips the rest of the chord, not the wait and the putting back.
pub open spec fn step_after(step: InjectStep, failed: bool, saved: bool) -> InjectStep {
    match step {
        InjectStep::OpenClipboard => if failed {
            InjectStep::Done
        } else {
            InjectStep::ReadClipboard
        },
        InjectStep::ReadClipboard => InjectStep::WriteClipboard,
        InjectStep::WriteClipboard => if failed {
            InjectStep::Done
        } else {
            InjectStep::Settle
        },
        InjectStep::Settle => InjectStep::OpenKeyboard,
        InjectStep::OpenKeyboard => if failed {
            InjectStep::AwaitPaste
        } else {
            InjectStep::PressModifier
        },
        InjectStep::PressModifier => if failed {
            InjectStep::AwaitPaste
        } else {
            InjectStep::ClickKey
        },
        InjectStep::ClickKey => if failed {
            InjectStep::AwaitPaste
        } else {
            InjectStep::ReleaseModifier
        },
        InjectStep::ReleaseModifier => InjectStep::AwaitPaste,
        InjectStep::AwaitPaste => if saved {
            InjectStep::RestoreClipboard
        } else {
            InjectStep::Done
        },
        InjectStep::RestoreClipboard => InjectStep::Done,
        InjectStep::Done => InjectStep::Done,
    }
}

/// Whether a failure of `step` is reported. Reading the clipboard and
/// putting it back are best effort, and the waits cannot fail.
pub open spec fn reports_failure(step: InjectStep) -> bool {
    match step {
        InjectStep::OpenClipboard => true,
        InjectStep::WriteClipboard => true,
        InjectStep::OpenKeyboard => true,
        InjectStep::PressModifier => true,
        InjectStep::ClickKey => true,
        InjectStep::ReleaseModifier => true,
        _ => false,
    }
}

/// How long a step waits, in milliseconds, if it is a wait.
pub open spec fn pause_of(step: InjectStep) -> Option<u64> {
    match step {
        InjectStep::Settle => Some(SETTLE_MS),
        InjectStep::AwaitPaste => Some(PASTE_MS),
        _ => None,
    }
}

/// The keystroke that a step simulates, if it is one of the paste chord:
/// control down, the paste key clicked, control up.
pub open spec fn keystroke_of(step: InjectStep) -> Option<(ChordKey, KeyMotion)> {
    match step {
        InjectStep::PressModifier => Some((ChordKey::Control, KeyMotion::Press)),
        InjectStep::ClickKey => Some((ChordKey::Character(PASTE_KEY), KeyMotion::Click)),
        InjectStep::ReleaseModifier => Some((ChordKey::Control, KeyMotion::Release)),
        _ => None,
    }
}

/// Whether `outcome` is a failure.
pub open spec fn is_failure(outcome: StepOutcome) -> bool {
    outcome is Failed
}

impl InjectionView {
    /// The state before the first step.
    pub open spec fn begin(text: Seq<char>) -> InjectionView {
        InjectionView {
            step: InjectStep::OpenClipboard,
            text,
            previous: None,
            failure: None,
        }
    }

    /// The clipboard text that is saved once `outcome` of the current step
    /// is known.
    pub open spec fn saved_after(self, outcome: StepOutcome) -> Option<Seq<char>> {
        if self.step == InjectStep::ReadClipboard {
            match outcome {
                StepOutcome::Clipboard(Some(text)) => Some(text@),
                _ => None,
            }
        } else {
            self.previous
        }
    }

    /// The failure that is on record once `outcome` of the current step is
    /// known: the first one of a step whose failure is reported.
    pub open spec fn failure_after(self, outcome: StepOutcome) -> Option<Seq<char>> {
        match outcome {
            StepOutcome::Failed(reason) if self.failure is None && reports_failure(self.step) => Some(
                reason@,
            ),
            _ => self.failure,
        }
    }

    /// The state after the current step gave `outcome`.
    pub open spec fn advance(self, outcome: StepOutcome) -> InjectionView {
        InjectionView {
            step: step_after(
                self.step,
                is_failure(outcome),
                self.saved_after(outcome) is Some,
            ),
            text: self.text,
            previous: self.saved_after(outcome),
            failure: self.failure_after(outcome),
        }
    }
}

/// One injection in progress.
#[derive(Debug)]
pub struct Injection {
    step: InjectStep,
    text: String,
    previous: Option<String>,
    failure: Option<String>,
}

impl View for Injection {
    type V = InjectionView;

    closed spec fn view(&self) -> InjectionView {
        InjectionView {
            step: self.step,
            text: self.text@,
            previous: match self.previous {
                Some(text) => Some(text@),
                None => None,
            },
            failure: match self.failure {
                Some(reason) => Some(reason@),
                None => None,
            },
        }
    }
}

impl Injection {
    /// An injection of `text`, before its first step.
    pub fn new(text: String) -> (injection: Injection)
        ensures
            injection@ == InjectionView::begin(text@),
    {
        Injection { step: InjectStep::OpenClipboard, text, previous: None, failure: None }
    }

    /// The step to perform next.
    pub fn step(&self) -> (step: InjectStep)
        ensures
            step == self@.step,
    {
        self.step
    }

    /// The text to place on the clipboard.
    pub fn text(&self) -> (text: &String)
        ensures
            text@ == self@.text,
    {
        &self.text
    }

    /// The saved clipboard text to put back, if any.
    pub fn previous(&self) -> (previous: &Option<String>)
        ensures
            match *previous {
                Some(text) => self@.previous == Some(text@),
                None => self@.previous is None,
            },
    {
        &self.previous
    }

    /// Records what the current step gave and moves to the step that
    /// follows.
    pub fn advance(&mut self, outcome: StepOutcome)
        ensures
            final(self)@ == old(self)@.advance(outcome),
    {
        let step = self.step;
        let reading = step == InjectStep::ReadClipboard;
        let failed: bool = match outcome {
            StepOutcome::Completed => {
                if reading {
                    self.previous = None;
                }
                false
            },
            StepOutcome::Clipboard(found) => {
                if reading {
                    self.previous = found;
                }
                false
            },
            StepOutcome::Failed(reason) => {
                if reading {
                    self.previous = None;
                }
                if self.failure.is_none() && reports(step) {
                    self.failure = Some(reason);
                }
                true
            },
        };
        self.step = following(step, failed, self.previous.is_some());
    }

    /// What the injection reports: success, or the first failure on record
    /// as an injection error. It is final once no step is left.
    pub fn result(&self) -> (r: Result<(), VoiceFlowError>)
        ensures
            match self@.failure {
                Some(reason) => r matches Err(e) && e.spec_kind() == ErrorKind::Injection
                    && e.detail() == reason,
                None => r is Ok,
            },
    {
        match &self.failure {
            Some(reason) => Err(VoiceFlowError::Injection(reason.clone())),
            None => Ok(()),
        }
    }
}

/// How long a step waits, in milliseconds, if it is a wait.
pub fn pause(step: InjectStep) -> (ms: Option<u64>)
    ensures
        ms == pause_of(step),
{
    match step {
        InjectStep::Settle => Some(SETTLE_MS),
        InjectStep::AwaitPaste => Some(PASTE_MS),
        _ => None,
    }
}

/// The keystroke that a step simulates, if it is one of the paste chord.
pub fn keystroke(step: InjectStep) -> (stroke: Option<(ChordKey, KeyMotion)>)
    ensures
        stroke == keystroke_of(step),
{
    match step {
        InjectStep::PressModifier => Some((ChordKey::Control, KeyMotion::Press)),
        InjectStep::ClickKey => Some((ChordKey::Character(PASTE_KEY), KeyMotion::Click)),
        InjectStep::ReleaseModifier => Some((ChordKey::Control, KeyMotion::Release)),
        _ => None,
    }
}

/// Whether a failure of `step` is reported.
fn reports(step: InjectStep) -> (b: bool)
    ensures
        b == reports_failure(step),
{
    match step {
        InjectStep::OpenClipboard => true,
        InjectStep::WriteClipboard => true,
        InjectStep::OpenKeyboard => true,
        InjectStep::PressModifier => true,
        InjectStep::ClickKey => true,
        InjectStep::ReleaseModifier => true,
        _ => false,
    }
}

/// The step that follows `step`.
fn following(step: InjectStep, failed: bool, saved: bool) -> (next: InjectStep)
    ensures
        next == step_after(step, failed, saved),
{
    match step {
        InjectStep::OpenClipboard => if failed {
            InjectStep::Done
        } else {
            InjectStep::ReadClipboard
        },
        InjectStep::ReadClipboard => InjectStep::WriteClipboard,
        InjectStep::WriteClipboard => if failed {
            InjectStep::Done
        } else {
            InjectStep::Settle
        },
        InjectStep::Settle => InjectStep::OpenKeyboard,
        InjectStep::OpenKeyboard => if failed {
            InjectStep::AwaitPaste
        } else {
            InjectStep::PressModifier
        },
        InjectStep::PressModifier => if failed {
            InjectStep::AwaitPaste
        } else {
            InjectStep::ClickKey
        },
        InjectStep::ClickKey => if failed {
            InjectStep::AwaitPaste
        } else {
            InjectStep::ReleaseModifier
        },
        InjectStep::ReleaseModifier => InjectStep::AwaitPaste,
        InjectStep::AwaitPaste => if saved {
            InjectStep::RestoreClipboard
        } else {
            InjectStep::Done
        },
        InjectStep::RestoreClipboard => InjectStep::Done,
        InjectStep::Done => InjectStep::Done,
    }
}

/// Every step but the last is followed by a later step: an injection ends
/// after at most ten steps and never goes back.
pub proof fn lemma_steps_move_forward(v: InjectionView, outcome: StepOutcome)
    requires
        v.step != InjectStep::Done,
    ensures
        step_rank(v.advance(outcome).step) > step_rank(v.step),
{
}

/// Once the text is on the clipboard, the wait for the paste is never
/// skipped, whatever fails in the chord; and after that wait a saved
/// clipboard text is put back before the injection ends.
pub proof fn lemma_clipboard_is_restored(v: InjectionView, outcome: StepOutcome)
    requires
        step_rank(InjectStep::Settle) <= step_rank(v.step) <= step_rank(InjectStep::AwaitPaste),
    ensures
        v.advance(outcome).previous == v.previous,
        v.step != InjectStep::AwaitPaste ==> step_rank(v.advance(outcome).step) <= step_rank(
            InjectStep::AwaitPaste,
        ),
        v.step == InjectStep::AwaitPaste && v.previous is Some ==> v.advance(outcome).step
            == InjectStep::RestoreClipboard,
        v.step == InjectStep::AwaitPaste && v.previous is None ==> v.advance(outcome).step
            == InjectStep::Done,
{
}

/// A failure on record is never replaced or dropped: the injection reports
/// the first failure, also after the clipboard was put back.
pub proof fn lemma_first_failure_is_kept(v: InjectionView, outcome: StepOutcome)
    requires
        v.failure is Some,
    ensures
        v.advance(outcome).failure == v.failure,
{
}

/// A failed step of the paste chord is on record as soon as it fails,
/// unless an earlier failure is.
pub proof fn lemma_chord_failure_is_recorded(v: InjectionView, reason: String)
    requires
        step_rank(InjectStep::OpenKeyboard) <= step_rank(v.step) <= step_rank(
            InjectStep::ReleaseModifier,
        ),
        v.failure is None,
    ensures
        v.advance(StepOutcome::Failed(reason)).failure == Some(reason@),
        v.advance(StepOutcome::Failed(reason)).step == InjectStep::AwaitPaste,
{
}

} // verus!
