//! The fallback orchestrator: acquisition methods are tried in a fixed
//! order; an error and an empty selection both mean "try the next one"; the
//! first non-empty selection is returned at once, and the last method's
//! outcome is returned as it came.
use vstd::prelude::*;
use crate::error::SelectionError;
use crate::selection::Selection;

verus! {

/// A way of acquiring the selection.
#[derive(Debug, Clone, Copy, PartialEq, Eq, Structural)]
pub enum Method {
    /// Ask the accessibility or UI-automation tree; leaves the clipboard alone.
    Accessibility,
    /// Go through the clipboard, possibly simulating a copy.
    Clipboard,
}

/// What the caller does next.
#[derive(Debug)]
pub enum FallbackStep {
    /// Run this method and report its outcome.
    Attempt(Method),
    /// Stop with this outcome.
    Finish(Result<Selection, SelectionError>),
}

/// True when an outcome ends the search: a non-empty selection.
pub open spec fn usable(r: Result<Selection, SelectionError>) -> bool {
    r is Ok && !r->Ok_0.spec_is_empty()
}

/// The orchestrator's state: the plan, how many methods were attempted, and
/// whether it has finished.
pub struct FallbackState {
    pub plan: Seq<Method>,
    pub attempted: nat,
    pub done: bool,
}

impl FallbackState {
    /// The state and step after `start`.
    pub open spec fn started(self) -> (FallbackState, FallbackStep) {
        if self.plan.len() == 0 {
            (
                FallbackState { done: true, ..self },
                FallbackStep::Finish(Err(SelectionError::UnsupportedPlatform)),
            )
        } else {
            (FallbackState { attempted: 1, ..self }, FallbackStep::Attempt(self.plan[0]))
        }
    }

    /// The state and step after the last attempted method gave `r`.
    pub open spec fn after(self, r: Result<Selection, SelectionError>) -> (FallbackState, FallbackStep) {
        if usable(r) || self.attempted >= self.plan.len() {
            (FallbackState { done: true, ..self }, FallbackStep::Finish(r))
        } else {
            (
                FallbackState { attempted: self.attempted + 1, ..self },
                FallbackStep::Attempt(self.plan[self.attempted as int]),
            )
        }
    }

    /// A method has been attempted and its outcome is awaited.
    pub open spec fn awaiting(self) -> bool {
        !self.done && 1 <= self.attempted <= self.plan.len()
    }
}

/// One search for the selection along a plan of methods.
pub struct Fallback {
    plan: Vec<Method>,
    attempted: usize,
    done: bool,
}

impl View for Fallback {
    type V = FallbackState;

    closed spec fn view(&self) -> FallbackState {
        FallbackState { plan: self.plan@, attempted: self.attempted as nat, done: self.done }
    }
}

impl Fallback {
    /// A search along `plan`, not yet started.
    pub fn new(plan: Vec<Method>) -> (r: Self)
        ensures
            r@ == (FallbackState { plan: plan@, attempted: 0, done: false }),
    {
        Fallback { plan, attempted: 0, done: false }
    }

    /// Begins the search: attempts the first method, or fails with
    /// `UnsupportedPlatform` where the plan holds none.
    pub fn start(&mut self) -> (step: FallbackStep)
        requires
            old(self)@.attempted == 0,
            !old(self)@.done,
        ensures
            (final(self)@, step) == old(self)@.started(),
    {
        if self.plan.len() == 0 {
            self.done = true;
            FallbackStep::Finish(Err(SelectionError::UnsupportedPlatform))
        } else {
            self.attempted = 1;
            FallbackStep::Attempt(self.plan[0])
        }
    }

    /// Takes the outcome of the method last attempted.
    pub fn on_result(&mut self, r: Result<Selection, SelectionError>) -> (step: FallbackStep)
        requires
            old(self)@.awaiting(),
        ensures
            (final(self)@, step) == old(self)@.after(r),
            final(self)@.done || final(self)@.awaiting(),
    {
        let found = match &r {
            Ok(s) => !s.is_empty(),
            Err(_) => false,
        };
        if found || self.attempted >= self.plan.len() {
            self.done = true;
            FallbackStep::Finish(r)
        } else {
            let m = self.plan[self.attempted];
            self.attempted = self.attempted + 1;
            FallbackStep::Attempt(m)
        }
    }

    /// True when a method's outcome is awaited.
    pub fn is_awaiting(&self) -> (r: bool)
        ensures
            r == self@.awaiting(),
    {
        !self.done && 1 <= self.attempted && self.attempted <= self.plan.len()
    }
}

/// The usual plan: the accessibility tree first, then the clipboard.
pub open spec fn accessibility_then_clipboard() -> Seq<Method> {
    seq![Method::Accessibility, Method::Clipboard]
}

/// With the accessibility tree tried first and the clipboard second: a
/// non-empty accessibility selection is returned at once and the clipboard
/// is never attempted; an accessibility error or empty selection leads to
/// the clipboard, whose outcome is returned as it came.
pub proof fn lemma_fallback_order(
    accessibility: Result<Selection, SelectionError>,
    clipboard: Result<Selection, SelectionError>,
)
    ensures
        ({
            let s0 = FallbackState { plan: accessibility_then_clipboard(), attempted: 0, done: false };
            let (s1, first) = s0.started();
            let (s2, second) = s1.after(accessibility);
            &&& first == FallbackStep::Attempt(Method::Accessibility)
            &&& usable(accessibility) ==> second == FallbackStep::Finish(accessibility) && s2.done
            &&& !usable(accessibility) ==> {
                &&& second == FallbackStep::Attempt(Method::Clipboard)
                &&& s2.after(clipboard).1 == FallbackStep::Finish(clipboard)
                &&& s2.after(clipboard).0.done
            }
        }),
{
}

} // verus!
