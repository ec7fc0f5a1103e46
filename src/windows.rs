//! Windows rules: UI automation first, unless the automation runtime failed
//! to start, then the clipboard-safe copy; an empty final selection counts as
//! no selection.
use vstd::prelude::*;
use crate::error::SelectionError;
use crate::fallback::{Fallback, FallbackState, Method, accessibility_then_clipboard};
use crate::selection::{ContentType, Selection};
use vstd::utf8::encode_utf8;
use crate::text::{trimmed, trim_white_space};

verus! {

/// What is known of a runtime that must be started once per process.
#[derive(Debug, Clone, Copy, PartialEq, Eq, Structural)]
pub enum InitState {
    /// No start was attempted yet.
    NotTried,
    /// The runtime started.
    Ready,
    /// The start failed; it is not attempted again.
    Failed,
}

/// A gate that starts a runtime once and remembers how that went.
#[derive(Debug, Clone, Copy)]
pub struct InitGate {
    pub state: InitState,
}

impl InitGate {
    /// A gate before any attempt.
    pub fn new() -> (r: Self)
        ensures
            r.state == InitState::NotTried,
    {
        InitGate { state: InitState::NotTried }
    }

    /// True when the start still has to be attempted.
    pub fn needs_attempt(&self) -> (r: bool)
        ensures
            r == (self.state == InitState::NotTried),
    {
        self.state == InitState::NotTried
    }

    /// Records how the first attempt went; later reports change nothing.
    pub fn record(&mut self, started: bool)
        ensures
            old(self).state == InitState::NotTried ==> final(self).state == (if started {
                InitState::Ready
            } else {
                InitState::Failed
            }),
            old(self).state != InitState::NotTried ==> final(self).state == old(self).state,
    {
        if self.state == InitState::NotTried {
            self.state = if started {
                InitState::Ready
            } else {
                InitState::Failed
            };
        }
    }
}

/// What a UI-Automation query reported.
#[derive(Debug, Clone)]
pub enum AutomationReport {
    /// The automation object could not be created, with the system's message.
    Unavailable(String),
    /// No element has the focus.
    NoFocus,
    /// The focused element offers no text pattern.
    NoTextPattern,
    /// A query on the text pattern failed, with the system's message.
    Failed(String),
    /// The texts of the selected ranges, in order.
    Ranges(Vec<String>),
}

/// The selector for Windows.
pub struct WindowsSelector {
    /// Whether UI automation may be tried.
    pub automation: bool,
}

/// The texts of `ranges` one after another.
pub open spec fn joined(ranges: Seq<String>) -> Seq<char>
    decreases ranges.len(),
{
    if ranges.len() == 0 {
        Seq::empty()
    } else {
        joined(ranges.drop_last()) + ranges.last()@
    }
}

impl WindowsSelector {
    /// A selector that tries UI automation unless the runtime's start failed.
    pub fn new(runtime: &InitGate) -> (r: Self)
        ensures
            r.automation == (runtime.state != InitState::Failed),
    {
        WindowsSelector { automation: runtime.state != InitState::Failed }
    }

    /// The plan: UI automation (where it may be tried), then the clipboard.
    pub fn plan(&self) -> (r: Fallback)
        ensures
            self.automation ==> r@ == (FallbackState {
                plan: accessibility_then_clipboard(),
                attempted: 0,
                done: false,
            }),
            !self.automation ==> r@ == (FallbackState {
                plan: seq![Method::Clipboard],
                attempted: 0,
                done: false,
            }),
    {
        let mut p: Vec<Method> = Vec::new();
        if self.automation {
            p.push(Method::Accessibility);
        }
        p.push(Method::Clipboard);
        assert(self.automation ==> p@ =~= accessibility_then_clipboard());
        assert(!self.automation ==> p@ =~= seq![Method::Clipboard]);
        Fallback::new(p)
    }

    /// The text of the selected ranges that UI automation reports: their
    /// texts joined, then trimmed.
    pub fn automation_text(ranges: &Vec<String>) -> (r: String)
        ensures
            r@ == trimmed(joined(ranges@)),
    {
        let mut all = String::new();
        let mut i: usize = 0;
        while i < ranges.len()
            invariant
                i <= ranges@.len(),
                all@ == joined(ranges@.subrange(0, i as int)),
            decreases ranges@.len() - i,
        {
            all.append(ranges[i].as_str());
            assert(ranges@.subrange(0, i + 1).drop_last() =~= ranges@.subrange(0, i as int));
            i = i + 1;
        }
        assert(ranges@.subrange(0, ranges@.len() as int) =~= ranges@);
        trim_white_space(all.as_str())
    }
}

impl WindowsSelector {
    /// The selection that a UI-Automation report gives: no focused element
    /// where none has the focus; an accessibility error where automation
    /// failed; an empty text selection where the element offers no text
    /// pattern; else a text selection of the ranges joined and trimmed
    /// (empty where no range is selected).
    pub fn automation_selection(report: AutomationReport) -> (r: Result<Selection, SelectionError>)
        ensures
            report is NoFocus ==> r == Err::<Selection, SelectionError>(
                SelectionError::NoFocusedElement,
            ),
            report is Unavailable ==> r == Err::<Selection, SelectionError>(
                SelectionError::AccessibilityError(report->Unavailable_0),
            ),
            report is Failed ==> r == Err::<Selection, SelectionError>(
                SelectionError::AccessibilityError(report->Failed_0),
            ),
            report is NoTextPattern ==> r is Ok && r->Ok_0.content_type == ContentType::Text
                && r->Ok_0.data@.len() == 0,
            report is Ranges ==> r is Ok && r->Ok_0.content_type == ContentType::Text
                && r->Ok_0.data@ == encode_utf8(trimmed(joined(report->Ranges_0@))),
    {
        match report {
            AutomationReport::Unavailable(m) => Err(SelectionError::AccessibilityError(m)),
            AutomationReport::NoFocus => Err(SelectionError::NoFocusedElement),
            AutomationReport::Failed(m) => Err(SelectionError::AccessibilityError(m)),
            AutomationReport::NoTextPattern => {
                let s = Selection::new_text(String::new());
                proof {
                    assert(encode_utf8(Seq::<char>::empty()) =~= Seq::<u8>::empty());
                }
                Ok(s)
            },
            AutomationReport::Ranges(ranges) => Ok(
                Selection::new_text(WindowsSelector::automation_text(&ranges)),
            ),
        }
    }
}

/// The final Windows outcome: an empty selection counts as no selection;
/// everything else is returned as it came.
pub fn get_windows_selection(r: Result<Selection, SelectionError>) -> (out: Result<
    Selection,
    SelectionError,
>)
    ensures
        r is Ok && r->Ok_0.spec_is_empty() ==> out == Err::<Selection, SelectionError>(
            SelectionError::NoSelectedContent,
        ),
        !(r is Ok && r->Ok_0.spec_is_empty()) ==> out == r,
{
    match r {
        Ok(s) => {
            if s.is_empty() {
                Err(SelectionError::NoSelectedContent)
            } else {
                Ok(s)
            }
        },
        Err(e) => Err(e),
    }
}

} // verus!
