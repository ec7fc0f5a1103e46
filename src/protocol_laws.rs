//! Laws of the clipboard-safe copy protocol, stated over a model desktop
//! that answers each action the way a well-behaved system would.
use vstd::prelude::*;
use crate::clipboard::{ClipContent, snapshot_of, restored_content, lemma_restore_snapshot};
use crate::error::SelectionError;
use crate::safe_copy::{
    CopyActionView, CopyEventView, CopyPhase, CopyState, answers, started_state,
};
use crate::text::trimmed;

verus! {

/// A model desktop: a clipboard with one content, its change counter
/// (which the system may or may not expose), and what the focused
/// application does on a copy gesture.
pub struct DesktopModel {
    /// What the clipboard holds.
    pub clipboard: ClipContent,
    /// The clipboard's change counter.
    pub counter: u64,
    /// Whether the system lets the counter be read.
    pub counter_known: bool,
    /// The text that the application puts on the clipboard on a copy
    /// gesture; none when it ignores the gesture.
    pub copies: Option<Seq<char>>,
    /// Where reading the new clipboard text fails, the message it fails with.
    pub read_error: Option<String>,
}

/// The counter after one more write.
pub open spec fn bumped(n: u64) -> u64 {
    if n == u64::MAX {
        0
    } else {
        (n + 1) as u64
    }
}

/// The counter as the model desktop reports it.
pub open spec fn reported_counter(d: DesktopModel) -> Option<u64> {
    if d.counter_known {
        Some(d.counter)
    } else {
        None
    }
}

/// How the model desktop performs an action, and what it reports.
pub open spec fn perform(d: DesktopModel, a: CopyActionView) -> (DesktopModel, CopyEventView) {
    match a {
        CopyActionView::TakeSnapshot => (d, CopyEventView::Snapshot(Ok(snapshot_of(d.clipboard)))),
        CopyActionView::SimulateCopy => {
            let after = match d.copies {
                Some(t) => DesktopModel {
                    clipboard: ClipContent::Text(t),
                    counter: bumped(d.counter),
                    ..d
                },
                None => d,
            };
            (after, CopyEventView::CopyIssued { counter_before: reported_counter(d), result: Ok(()) })
        },
        CopyActionView::Settle(_) => (d, CopyEventView::Settled { counter_after: reported_counter(d) }),
        CopyActionView::ReadNew => (
            d,
            CopyEventView::NewContent(
                match d.read_error {
                    Some(m) => Err(m),
                    None => match d.clipboard {
                        ClipContent::Text(t) => Ok(Some(t)),
                        _ => Ok(None),
                    },
                },
            ),
        ),
        CopyActionView::Restore(c) => (
            DesktopModel { clipboard: c, counter: bumped(d.counter), ..d },
            CopyEventView::Restored(Ok(())),
        ),
        CopyActionView::Finish(_) => (d, CopyEventView::Restored(Ok(()))),
    }
}

/// Runs the protocol against the model desktop for at most `fuel` steps from
/// state `s` with pending action `a`; gives the last action and the desktop.
pub open spec fn drive(s: CopyState, d: DesktopModel, a: CopyActionView, fuel: nat) -> (
    CopyActionView,
    DesktopModel,
)
    decreases fuel,
{
    if fuel == 0 || a is Finish {
        (a, d)
    } else {
        let (d2, e) = perform(d, a);
        let (s2, a2) = s.next(e);
        drive(s2, d2, a2, (fuel - 1) as nat)
    }
}

/// A whole run of the protocol against the model desktop: its outcome and
/// the clipboard it leaves.
pub open spec fn run(d: DesktopModel) -> (CopyActionView, ClipContent) {
    let (a, end) = drive(started_state(), d, CopyActionView::TakeSnapshot, 6);
    (a, end.clipboard)
}

/// Where the copy gesture leaves the clipboard unchanged, the run reports no
/// selection and leaves the clipboard as it found it. Without a counter the
/// change is judged by reading the clipboard, so that read must succeed.
pub proof fn lemma_unchanged_copy_restores(d: DesktopModel)
    requires
        d.copies is None,
        d.counter_known || d.read_error is None,
    ensures
        run(d).0 == CopyActionView::Finish(Err(SelectionError::NoSelectedContent)),
        run(d).1 == d.clipboard,
{
    lemma_restore_snapshot(d.clipboard);
    reveal_with_fuel(drive, 7);
}

/// Where reading the new text fails after a copy that changed the clipboard,
/// the run reports that failure as a clipboard error and the clipboard again
/// holds what it held before the run.
pub proof fn lemma_failed_read_restores(d: DesktopModel)
    requires
        d.copies is Some,
        d.read_error is Some,
    ensures
        run(d).0 == CopyActionView::Finish(
            Err(SelectionError::ClipboardError(d.read_error.unwrap())),
        ),
        run(d).1 == d.clipboard,
{
    lemma_restore_snapshot(d.clipboard);
    reveal_with_fuel(drive, 7);
}

/// Where the copy gesture puts a non-empty text on the clipboard, and the
/// change can be seen (by the counter, or because the clipboard held
/// something else), the run returns that text trimmed and the clipboard
/// again holds what it held before the run.
pub proof fn lemma_copy_returns_text_and_restores(d: DesktopModel, t: Seq<char>)
    requires
        d.copies == Some(t),
        d.read_error is None,
        t.len() > 0,
        d.counter_known || d.clipboard != ClipContent::Text(t),
    ensures
        run(d).0 == CopyActionView::Finish(Ok(trimmed(t))),
        run(d).1 == d.clipboard,
{
    lemma_restore_snapshot(d.clipboard);
    reveal_with_fuel(drive, 7);
}

/// From any well-formed state and any event that answers it, the protocol
/// finishes only before the snapshot was taken or once it has been written
/// back; every write it asks for puts the snapshot's content back.
pub proof fn lemma_finish_only_after_restore(s: CopyState, e: CopyEventView)
    requires
        s.wf(),
        answers(s.phase, e),
    ensures
        s.next(e).1 is Finish ==> (s.phase == CopyPhase::Snapshotting || s.phase
            == CopyPhase::Restoring),
        s.next(e).1 is Restore ==> s.next(e).1 == CopyActionView::Restore(
            restored_content(s.snapshot.unwrap()),
        ),
        s.next(e).0.wf(),
{
}

} // verus!
