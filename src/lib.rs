//! Retrieval of the user's current selection (text, file path or image data)
//! across desktop systems.
//!
//! The library holds the decisions: the selection model, the fallback
//! between acquisition methods, the clipboard-safe copy protocol and the
//! per-platform rules. Each native facility (accessibility tree, clipboard,
//! keystrokes, scripts, session probe) is driven by the caller, which performs
//! the action that a state machine asks for and hands back what happened.
use vstd::prelude::*;

pub mod clipboard;
pub mod error;
pub mod fallback;
pub mod keys;
pub mod linux;
pub mod macos;
pub mod protocol_laws;
pub mod safe_copy;
pub mod selection;
pub mod text;
pub mod windows;

pub use error::SelectionError;
pub use selection::{ContentType, Selection};

verus! {

/// A source of the user's selection. Each platform has one; its methods
/// talk to the system, so their outcomes are whatever the system reports.
pub trait Selector {
    /// The selection, by the best method available.
    fn get_selection(&self) -> Result<Selection, SelectionError>;

    /// The selection, from the accessibility or UI-automation tree only.
    fn get_selection_by_accessibility(&self) -> Result<Selection, SelectionError>;

    /// The selection, through the clipboard only.
    fn get_selection_by_clipboard(&self) -> Result<Selection, SelectionError>;
}

/// The text of a selection outcome: an error is passed on; a text selection
/// gives its text; any other selection is an `InvalidContentType` error that
/// expected "text" and names the kind received.
pub fn get_text(selection: Result<Selection, SelectionError>) -> (r: Result<String, SelectionError>)
    ensures
        selection is Err ==> r == Err::<String, SelectionError>(selection->Err_0),
        selection is Ok && selection->Ok_0.text_view() is Some ==> r is Ok && r->Ok_0@
            == selection->Ok_0.text_view()->0,
        selection is Ok && selection->Ok_0.text_view() is None ==> r is Err
            && r->Err_0.is_invalid_content_type("text"@, selection->Ok_0.content_type.label()),
{
    match selection {
        Ok(s) => match s.as_text() {
            Some(t) => Ok(t),
            None => {
                proof {
                    reveal_strlit("text");
                }
                Err(
                    SelectionError::InvalidContentType {
                        expected: String::from_str("text"),
                        received: s.content_type.to_string(),
                    },
                )
            },
        },
        Err(e) => Err(e),
    }
}

} // verus!
