//! The clipboard-safe copy protocol.
//!
//! The protocol snapshots the clipboard, simulates the copy gesture, waits,
//! checks whether the clipboard changed, reads the new text and writes the
//! snapshot back. `SafeCopy` holds the decisions: each call of `step` takes
//! what the caller observed and returns the next action to perform. Once the
//! copy gesture has been asked for, every path to `Finish` passes through
//! `Restore` with the snapshot's content.
use vstd::prelude::*;
use crate::clipboard::{ClipboardSnapshot, RestoreAction, SnapshotView, ClipContent, restored_content};
use crate::error::SelectionError;
use crate::text::{opt_chars, trimmed, trim_white_space};

verus! {

/// Milliseconds to wait after the copy gesture for the application to fill
/// the clipboard.
pub const SETTLE_DELAY_MS: u64 = 150;

/// Where the protocol stands.
#[derive(Debug, Clone, Copy, PartialEq, Eq, Structural)]
pub enum CopyPhase {
    /// Not started.
    Start,
    /// Waiting for the snapshot.
    Snapshotting,
    /// Waiting for the copy gesture to be issued.
    Copying,
    /// Waiting for the clipboard to settle.
    Settling,
    /// Waiting for the new clipboard text.
    Reading,
    /// Waiting for the snapshot to be written back.
    Restoring,
    /// Over.
    Finished,
}

/// What the caller observed after performing an action.
#[derive(Debug)]
pub enum CopyEvent {
    /// The snapshot, or why the clipboard could not be read.
    Snapshot(Result<ClipboardSnapshot, String>),
    /// The change counter read before the gesture (where the system keeps
    /// one), and whether the gesture could be issued.
    CopyIssued { counter_before: Option<u64>, result: Result<(), String> },
    /// The change counter read after the wait (where the system keeps one).
    Settled { counter_after: Option<u64> },
    /// The clipboard's text after the copy (none where the clipboard holds
    /// no text), or why it could not be read.
    NewContent(Result<Option<String>, String>),
    /// Whether the snapshot could be written back.
    Restored(Result<(), String>),
}

/// The next thing the caller performs.
#[derive(Debug)]
pub enum CopyAction {
    /// Read the clipboard's text and image.
    TakeSnapshot,
    /// Read the change counter, release the modifier keys and issue the copy
    /// gesture.
    SimulateCopy,
    /// Wait this many milliseconds, then read the change counter.
    Settle(u64),
    /// Read the clipboard's text.
    ReadNew,
    /// Write the snapshot back.
    Restore(RestoreAction),
    /// The protocol is over, with the selected text or an error.
    Finish(Result<String, SelectionError>),
}

/// The events in terms of views.
pub enum CopyEventView {
    Snapshot(Result<SnapshotView, String>),
    CopyIssued { counter_before: Option<u64>, result: Result<(), String> },
    Settled { counter_after: Option<u64> },
    NewContent(Result<Option<Seq<char>>, String>),
    Restored(Result<(), String>),
}

/// The actions in terms of views.
pub enum CopyActionView {
    TakeSnapshot,
    SimulateCopy,
    Settle(u64),
    ReadNew,
    Restore(ClipContent),
    Finish(Result<Seq<char>, SelectionError>),
}

/// The state of the protocol in terms of views.
pub struct CopyState {
    pub phase: CopyPhase,
    pub snapshot: Option<SnapshotView>,
    pub counter_before: Option<u64>,
    pub counted: bool,
    pub pending: Option<Result<Seq<char>, SelectionError>>,
}

/// A text outcome in terms of views.
pub open spec fn text_result_view(r: Result<String, SelectionError>) -> Result<Seq<char>, SelectionError> {
    match r {
        Ok(t) => Ok(t@),
        Err(e) => Err(e),
    }
}

impl View for CopyEvent {
    type V = CopyEventView;

    open spec fn view(&self) -> CopyEventView {
        match self {
            CopyEvent::Snapshot(r) => CopyEventView::Snapshot(
                match r {
                    Ok(s) => Ok(s@),
                    Err(m) => Err(*m),
                },
            ),
            CopyEvent::CopyIssued { counter_before, result } => CopyEventView::CopyIssued {
                counter_before: *counter_before,
                result: *result,
            },
            CopyEvent::Settled { counter_after } => CopyEventView::Settled {
                counter_after: *counter_after,
            },
            CopyEvent::NewContent(r) => CopyEventView::NewContent(
                match r {
                    Ok(t) => Ok(opt_chars(*t)),
                    Err(m) => Err(*m),
                },
            ),
            CopyEvent::Restored(r) => CopyEventView::Restored(*r),
        }
    }
}

impl View for CopyAction {
    type V = CopyActionView;

    open spec fn view(&self) -> CopyActionView {
        match self {
            CopyAction::TakeSnapshot => CopyActionView::TakeSnapshot,
            CopyAction::SimulateCopy => CopyActionView::SimulateCopy,
            CopyAction::Settle(ms) => CopyActionView::Settle(*ms),
            CopyAction::ReadNew => CopyActionView::ReadNew,
            CopyAction::Restore(r) => CopyActionView::Restore(r@),
            CopyAction::Finish(r) => CopyActionView::Finish(text_result_view(*r)),
        }
    }
}

/// True when `e` is the event that answers the action asked for in phase `p`.
pub open spec fn answers(p: CopyPhase, e: CopyEventView) -> bool {
    match e {
        CopyEventView::Snapshot(_) => p == CopyPhase::Snapshotting,
        CopyEventView::CopyIssued { .. } => p == CopyPhase::Copying,
        CopyEventView::Settled { .. } => p == CopyPhase::Settling,
        CopyEventView::NewContent(_) => p == CopyPhase::Reading,
        CopyEventView::Restored(_) => p == CopyPhase::Restoring,
    }
}

/// The outcome decided from what the clipboard holds after the copy: no
/// selection where it holds no text, an empty text, or (when no counter was
/// available) the same text as the snapshot, which then counts as no
/// change; else the text, trimmed. A text of white space alone gives an
/// empty text; whether that counts as a selection is the caller's rule.
pub open spec fn outcome_of_text(
    t: Option<Seq<char>>,
    counted: bool,
    snapshot: SnapshotView,
) -> Result<Seq<char>, SelectionError> {
    match t {
        None => Err(SelectionError::NoSelectedContent),
        Some(t) => if (!counted && snapshot.text == Some(t)) || t.len() == 0 {
            Err(SelectionError::NoSelectedContent)
        } else {
            Ok(trimmed(t))
        },
    }
}

/// The final outcome once the snapshot was written back: a failed restore
/// turns a success into a clipboard error and leaves an error as it was.
pub open spec fn outcome_after_restore(
    pending: Result<Seq<char>, SelectionError>,
    restored: Result<(), String>,
) -> Result<Seq<char>, SelectionError> {
    match restored {
        Ok(_) => pending,
        Err(m) => match pending {
            Ok(_) => Err(SelectionError::ClipboardError(m)),
            Err(e) => Err(e),
        },
    }
}

impl CopyState {
    /// The state in which the snapshot is written back, with this outcome
    /// waiting for the restore to be done.
    pub open spec fn to_restore(self, pending: Result<Seq<char>, SelectionError>) -> (CopyState, CopyActionView) {
        (
            CopyState {
                phase: CopyPhase::Restoring,
                snapshot: None,
                counter_before: self.counter_before,
                counted: self.counted,
                pending: Some(pending),
            },
            CopyActionView::Restore(restored_content(self.snapshot.unwrap())),
        )
    }

    /// One step of the protocol: the next state and action after event `e`.
    pub open spec fn next(self, e: CopyEventView) -> (CopyState, CopyActionView) {
        match e {
            CopyEventView::Snapshot(Err(m)) => (
                CopyState { phase: CopyPhase::Finished, ..self },
                CopyActionView::Finish(Err(SelectionError::ClipboardError(m))),
            ),
            CopyEventView::Snapshot(Ok(s)) => (
                CopyState { phase: CopyPhase::Copying, snapshot: Some(s), ..self },
                CopyActionView::SimulateCopy,
            ),
            CopyEventView::CopyIssued { counter_before, result } => match result {
                Err(m) => self.to_restore(Err(SelectionError::ClipboardError(m))),
                Ok(_) => (
                    CopyState { phase: CopyPhase::Settling, counter_before, ..self },
                    CopyActionView::Settle(SETTLE_DELAY_MS),
                ),
            },
            CopyEventView::Settled { counter_after } => {
                if self.counter_before is Some && counter_after is Some
                    && self.counter_before == counter_after {
                    self.to_restore(Err(SelectionError::NoSelectedContent))
                } else {
                    (
                        CopyState {
                            phase: CopyPhase::Reading,
                            counted: self.counter_before is Some && counter_after is Some,
                            ..self
                        },
                        CopyActionView::ReadNew,
                    )
                }
            },
            CopyEventView::NewContent(Err(m)) => self.to_restore(
                Err(SelectionError::ClipboardError(m)),
            ),
            CopyEventView::NewContent(Ok(t)) => self.to_restore(
                outcome_of_text(t, self.counted, self.snapshot.unwrap()),
            ),
            CopyEventView::Restored(r) => (
                CopyState { phase: CopyPhase::Finished, pending: None, ..self },
                CopyActionView::Finish(outcome_after_restore(self.pending.unwrap(), r)),
            ),
        }
    }

    /// The state holds what its phase needs: the snapshot while the
    /// clipboard may differ from it, and the outcome while restoring.
    pub open spec fn wf(self) -> bool {
        &&& (self.snapshot is Some <==> (self.phase == CopyPhase::Copying || self.phase
            == CopyPhase::Settling || self.phase == CopyPhase::Reading))
        &&& (self.pending is Some <==> self.phase == CopyPhase::Restoring)
    }
}

/// The state that `SafeCopy::new` makes.
pub open spec fn initial_state() -> CopyState {
    CopyState {
        phase: CopyPhase::Start,
        snapshot: None,
        counter_before: None,
        counted: false,
        pending: None,
    }
}

/// The state after `start`.
pub open spec fn started_state() -> CopyState {
    CopyState { phase: CopyPhase::Snapshotting, ..initial_state() }
}

/// One run of the clipboard-safe copy protocol.
pub struct SafeCopy {
    phase: CopyPhase,
    snapshot: Option<ClipboardSnapshot>,
    counter_before: Option<u64>,
    counted: bool,
    pending: Option<Result<String, SelectionError>>,
}

impl View for SafeCopy {
    type V = CopyState;

    closed spec fn view(&self) -> CopyState {
        CopyState {
            phase: self.phase,
            snapshot: match self.snapshot {
                Some(s) => Some(s@),
                None => None,
            },
            counter_before: self.counter_before,
            counted: self.counted,
            pending: match self.pending {
                Some(r) => Some(text_result_view(r)),
                None => None,
            },
        }
    }
}

impl SafeCopy {
    /// A run that has not started.
    pub fn new() -> (r: Self)
        ensures
            r@ == initial_state(),
    {
        SafeCopy {
            phase: CopyPhase::Start,
            snapshot: None,
            counter_before: None,
            counted: false,
            pending: None,
        }
    }

    /// The phase of the run.
    pub fn phase(&self) -> (r: CopyPhase)
        ensures
            r == self@.phase,
    {
        self.phase
    }

    /// True when `e` answers the action that the run waits on.
    pub fn accepts(&self, e: &CopyEvent) -> (r: bool)
        ensures
            r == answers(self@.phase, e@),
    {
        match e {
            CopyEvent::Snapshot(_) => self.phase == CopyPhase::Snapshotting,
            CopyEvent::CopyIssued { .. } => self.phase == CopyPhase::Copying,
            CopyEvent::Settled { .. } => self.phase == CopyPhase::Settling,
            CopyEvent::NewContent(_) => self.phase == CopyPhase::Reading,
            CopyEvent::Restored(_) => self.phase == CopyPhase::Restoring,
        }
    }

    /// Begins the run: the first action is the snapshot.
    pub fn start(&mut self) -> (a: CopyAction)
        requires
            old(self)@ == initial_state(),
        ensures
            final(self)@ == started_state(),
            a@ == CopyActionView::TakeSnapshot,
    {
        self.phase = CopyPhase::Snapshotting;
        CopyAction::TakeSnapshot
    }

    fn restore_with(&mut self, pending: Result<String, SelectionError>) -> (a: CopyAction)
        requires
            old(self)@.snapshot is Some,
        ensures
            (final(self)@, a@) == old(self)@.to_restore(text_result_view(pending)),
    {
        let snapshot = self.snapshot.take().unwrap();
        self.phase = CopyPhase::Restoring;
        self.pending = Some(pending);
        CopyAction::Restore(snapshot.into_restore())
    }

    /// Takes what the caller observed and returns the next action.
    pub fn step(&mut self, e: CopyEvent) -> (a: CopyAction)
        requires
            old(self)@.wf(),
            answers(old(self)@.phase, e@),
        ensures
            (final(self)@, a@) == old(self)@.next(e@),
            final(self)@.wf(),
    {
        match e {
            CopyEvent::Snapshot(Err(m)) => {
                self.phase = CopyPhase::Finished;
                CopyAction::Finish(Err(SelectionError::ClipboardError(m)))
            },
            CopyEvent::Snapshot(Ok(s)) => {
                self.phase = CopyPhase::Copying;
                self.snapshot = Some(s);
                CopyAction::SimulateCopy
            },
            CopyEvent::CopyIssued { counter_before, result } => match result {
                Err(m) => self.restore_with(Err(SelectionError::ClipboardError(m))),
                Ok(_) => {
                    self.phase = CopyPhase::Settling;
                    self.counter_before = counter_before;
                    CopyAction::Settle(SETTLE_DELAY_MS)
                },
            },
            CopyEvent::Settled { counter_after } => {
                let known = self.counter_before.is_some() && counter_after.is_some();
                if known && self.counter_before == counter_after {
                    self.restore_with(Err(SelectionError::NoSelectedContent))
                } else {
                    self.phase = CopyPhase::Reading;
                    self.counted = known;
                    CopyAction::ReadNew
                }
            },
            CopyEvent::NewContent(Err(m)) => self.restore_with(
                Err(SelectionError::ClipboardError(m)),
            ),
            CopyEvent::NewContent(Ok(t)) => {
                let outcome = self.outcome_of_text(t);
                self.restore_with(outcome)
            },
            CopyEvent::Restored(r) => {
                let pending = self.pending.take().unwrap();
                self.phase = CopyPhase::Finished;
                let outcome = match r {
                    Ok(_) => pending,
                    Err(m) => match pending {
                        Ok(_) => Err(SelectionError::ClipboardError(m)),
                        Err(e) => Err(e),
                    },
                };
                CopyAction::Finish(outcome)
            },
        }
    }

    fn outcome_of_text(&self, t: Option<String>) -> (r: Result<String, SelectionError>)
        requires
            self@.snapshot is Some,
        ensures
            text_result_view(r) == outcome_of_text(opt_chars(t), self@.counted, self@.snapshot.unwrap()),
    {
        let t = match t {
            Some(t) => t,
            None => return Err(SelectionError::NoSelectedContent),
        };
        let unchanged = match &self.snapshot {
            Some(s) => !self.counted && match &s.text {
                Some(old_text) => *old_text == t,
                None => false,
            },
            None => false,
        };
        if unchanged || t.as_str().unicode_len() == 0 {
            Err(SelectionError::NoSelectedContent)
        } else {
            Ok(trim_white_space(t.as_str()))
        }
    }
}

} // verus!
