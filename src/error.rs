use vstd::prelude::*;

verus! {

/// The ways in which retrieving a selection can fail.
#[derive(Debug, Clone, PartialEq, Eq)]
pub enum SelectionError {
    /// No user-interface element has the focus.
    NoFocusedElement,
    /// The focused element, or the clipboard, reports no selection.
    NoSelectedContent,
    /// The platform or the session type is not supported.
    UnsupportedPlatform,
    /// The selection is not of the kind that was asked for.
    InvalidContentType { expected: String, received: String },
    /// The selection script failed; holds what it wrote to its error stream.
    AppleScriptError(String),
    /// The accessibility facility failed.
    AccessibilityError(String),
    /// The clipboard could not be read, written or driven.
    ClipboardError(String),
    /// An input or output operation failed.
    IoError(String),
    /// Bytes that were meant to be text were not valid UTF-8.
    Utf8Error(String),
    /// Any other failure.
    Other(String),
}

impl SelectionError {
    /// True when `self` is `InvalidContentType` with these two texts.
    pub open spec fn is_invalid_content_type(self, expected: Seq<char>, received: Seq<char>) -> bool {
        &&& self is InvalidContentType
        &&& self->expected@ == expected
        &&& self->received@ == received
    }

    /// True when `self` is `ClipboardError` holding this message.
    pub open spec fn is_clipboard_error(self, message: Seq<char>) -> bool {
        self is ClipboardError && self->ClipboardError_0@ == message
    }
}

impl From<String> for SelectionError {
    fn from(error: String) -> (r: Self)
        ensures
            r == SelectionError::Other(error),
    {
        SelectionError::Other(error)
    }
}

impl vstd::std_specs::convert::FromSpecImpl<String> for SelectionError {
    open spec fn obeys_from_spec() -> bool {
        true
    }

    open spec fn from_spec(v: String) -> Self {
        SelectionError::Other(v)
    }
}

impl<'a> From<&'a str> for SelectionError {
    fn from(error: &'a str) -> (r: Self)
        ensures
            r is Other && r->Other_0@ == error@,
    {
        SelectionError::Other(String::from_str(error))
    }
}

// The text cannot be turned into a `String` in a spec function, so the
// conversion is described by the `ensures` of `from` alone.
impl<'a> vstd::std_specs::convert::FromSpecImpl<&'a str> for SelectionError {
    open spec fn obeys_from_spec() -> bool {
        false
    }

    open spec fn from_spec(v: &'a str) -> Self {
        SelectionError::NoSelectedContent
    }
}

} // verus!
