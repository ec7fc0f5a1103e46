//! macOS rules: the accessibility tree first, then a copy performed by a
//! script whose output marks file paths with a fixed prefix.
use vstd::prelude::*;
use crate::error::SelectionError;
use crate::fallback::{Fallback, FallbackState, Method, accessibility_then_clipboard};
use crate::selection::{ContentType, Selection};
use crate::text::{decoded, lossy_text, lossy_utf8_text, utf8_text};

verus! {

/// The outcome of asking an accessibility element for one attribute.
#[derive(Debug, Clone, PartialEq, Eq)]
pub enum Lookup<T> {
    /// The attribute holds a value of the expected type.
    Found(T),
    /// The attribute holds a value of another type.
    WrongType,
    /// The attribute could not be read.
    Absent,
}

/// The selector for macOS.
pub struct MacOSSelector {}

/// The bytes of the prefix that marks a file path in the script's output:
/// `[FILE]`.
pub open spec fn file_marker() -> Seq<u8> {
    seq![0x5bu8, 0x46u8, 0x49u8, 0x4cu8, 0x45u8, 0x5du8]
}

/// True when `b` holds the file marker at position `i`.
pub open spec fn marker_at(b: Seq<u8>, i: int) -> bool {
    0 <= i && i + 6 <= b.len() && b.subrange(i, i + 6) == file_marker()
}

/// `b` without the file markers that stand one after another at its start.
pub open spec fn strip_markers(b: Seq<u8>) -> Seq<u8>
    decreases b.len(),
{
    if marker_at(b, 0) {
        strip_markers(b.subrange(6, b.len() as int))
    } else {
        b
    }
}

/// What the script's run gives: its error stream where it failed; a UTF-8
/// error where its output is not UTF-8; a file selection where the output
/// starts with the marker; else a text selection of the output.
pub open spec fn script_outcome_ok(
    success: bool,
    stdout: Seq<u8>,
    stderr: Seq<u8>,
    r: Result<Selection, SelectionError>,
) -> bool {
    if !success {
        r is Err && r->Err_0 is AppleScriptError && r->Err_0->AppleScriptError_0@ == lossy_text(
            stderr,
        )
    } else if decoded(stdout) is None {
        r is Err && r->Err_0 is Utf8Error
    } else if marker_at(stdout, 0) {
        r is Ok && r->Ok_0.content_type == ContentType::File && r->Ok_0.data@ == strip_markers(
            stdout,
        )
    } else {
        r is Ok && r->Ok_0.content_type == ContentType::Text && r->Ok_0.data@ == stdout
    }
}

fn has_marker_at(b: &Vec<u8>, i: usize) -> (r: bool)
    ensures
        r == marker_at(b@, i as int),
{
    if i > b.len() || b.len() - i < 6 {
        return false;
    }
    let ok = b[i] == 0x5b && b[i + 1] == 0x46 && b[i + 2] == 0x49 && b[i + 3] == 0x4c && b[i
        + 4] == 0x45 && b[i + 5] == 0x5d;
    assert(ok == (b@.subrange(i as int, i + 6) =~= file_marker()));
    ok
}

impl MacOSSelector {
    /// A selector for macOS.
    pub fn new() -> (r: Self) {
        MacOSSelector {  }
    }

    /// The plan: the accessibility tree first, then the clipboard.
    pub fn plan(&self) -> (r: Fallback)
        ensures
            r@ == (FallbackState { plan: accessibility_then_clipboard(), attempted: 0, done: false }),
    {
        let mut p: Vec<Method> = Vec::new();
        p.push(Method::Accessibility);
        p.push(Method::Clipboard);
        assert(p@ =~= accessibility_then_clipboard());
        Fallback::new(p)
    }

    /// The accessibility outcome: no focused element unless the focused
    /// element was found; no selected content unless its selected text was
    /// found; else a text selection of that text. `selected_text` is only
    /// consulted when the focused element was found.
    pub fn accessibility_selection(focused: Lookup<()>, selected_text: Lookup<String>) -> (r:
        Result<Selection, SelectionError>)
        ensures
            !(focused is Found) ==> r == Err::<Selection, SelectionError>(
                SelectionError::NoFocusedElement,
            ),
            focused is Found && !(selected_text is Found) ==> r == Err::<
                Selection,
                SelectionError,
            >(SelectionError::NoSelectedContent),
            focused is Found && selected_text is Found ==> r is Ok && r->Ok_0.text_view()
                == Some(selected_text->Found_0@),
    {
        match focused {
            Lookup::Found(_) => match selected_text {
                Lookup::Found(t) => {
                    proof {
                        vstd::utf8::encode_utf8_valid_utf8(t@);
                        vstd::utf8::encode_utf8_decode_utf8(t@);
                    }
                    Ok(Selection::new_text(t))
                },
                _ => Err(SelectionError::NoSelectedContent),
            },
            _ => Err(SelectionError::NoFocusedElement),
        }
    }

    /// The outcome of the selection script, from its exit status and its two
    /// output streams, as `script_outcome_ok` states it.
    pub fn selection_from_script(success: bool, stdout: Vec<u8>, stderr: &[u8]) -> (r: Result<
        Selection,
        SelectionError,
    >)
        ensures
            script_outcome_ok(success, stdout@, stderr@, r),
    {
        if !success {
            return Err(SelectionError::AppleScriptError(lossy_utf8_text(stderr)));
        }
        if utf8_text(stdout.as_slice()).is_none() {
            return Err(SelectionError::Utf8Error(String::from_str("script output is not UTF-8")));
        }
        if !has_marker_at(&stdout, 0) {
            return Ok(Selection { content_type: ContentType::Text, data: stdout });
        }
        let mut i: usize = 0;
        let mut more = true;
        let n = stdout.len();
        assert(stdout@.subrange(0, stdout@.len() as int) =~= stdout@);
        while more
            invariant
                i <= stdout@.len(),
                more == marker_at(stdout@, i as int),
                n == stdout@.len(),
                strip_markers(stdout@) == strip_markers(stdout@.subrange(i as int, stdout@.len() as int)),
            decreases stdout@.len() - i,
        {
            proof {
                let rest = stdout@.subrange(i as int, stdout@.len() as int);
                assert(marker_at(rest, 0)) by {
                    assert(rest.subrange(0, 6) =~= stdout@.subrange(i as int, i + 6));
                }
                assert(rest.subrange(6, rest.len() as int) =~= stdout@.subrange(i + 6, stdout@.len() as int));
            }
            i = i + 6;
            more = has_marker_at(&stdout, i);
        }
        proof {
            let rest = stdout@.subrange(i as int, stdout@.len() as int);
            if marker_at(rest, 0) {
                assert(rest.subrange(0, 6) =~= stdout@.subrange(i as int, i + 6));
            }
        }
        let mut data: Vec<u8> = Vec::new();
        let mut j: usize = i;
        while j < stdout.len()
            invariant
                i <= j <= stdout@.len(),
                data@ =~= stdout@.subrange(i as int, j as int),
            decreases stdout@.len() - j,
        {
            data.push(stdout[j]);
            j = j + 1;
        }
        Ok(Selection { content_type: ContentType::File, data })
    }
}

} // verus!

verus! {

/// The text of a macOS selection outcome, as `get_text` gives it.
pub fn get_macos_text(selection: Result<Selection, SelectionError>) -> (r: Result<
    String,
    SelectionError,
>)
    ensures
        selection is Err ==> r == Err::<String, SelectionError>(selection->Err_0),
        selection is Ok && selection->Ok_0.text_view() is Some ==> r is Ok && r->Ok_0@
            == selection->Ok_0.text_view()->0,
        selection is Ok && selection->Ok_0.text_view() is None ==> r is Err
            && r->Err_0.is_invalid_content_type("text"@, selection->Ok_0.content_type.label()),
{
    crate::get_text(selection)
}

} // verus!
