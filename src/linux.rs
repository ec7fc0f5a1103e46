//! Linux rules: the session type picks the protocol family, and the primary
//! selection is read as text.
use vstd::prelude::*;
use vstd::utf8::encode_utf8;
use crate::error::SelectionError;
use crate::selection::{ContentType, Selection};
use crate::text::{lossy_text, lossy_utf8_text, trim_nuls, trim_white_space, trimmed, without_nuls};

verus! {

/// The protocol family through which the primary selection is read.
#[derive(Debug, Clone, Copy, PartialEq, Eq, Structural)]
pub enum LinuxBackend {
    /// The X11 primary selection.
    X11,
    /// The Wayland primary selection.
    Wayland,
}

/// The selector for Linux.
pub struct LinuxSelector {}

/// The text of the primary selection read as `bytes`: decoded with
/// replacement characters, stripped of NULs at either end, then trimmed.
pub open spec fn primary_text(bytes: Seq<u8>) -> Seq<char> {
    trimmed(without_nuls(lossy_text(bytes)))
}

impl LinuxSelector {
    /// A selector for Linux.
    pub fn new() -> (r: Self) {
        LinuxSelector {  }
    }

    /// The family named by the session type: "x11" or "wayland"; any other
    /// value, or none, is an unsupported platform. Nothing is read or run.
    pub fn session_backend(&self, session_type: Option<String>) -> (r: Result<
        LinuxBackend,
        SelectionError,
    >)
        ensures
            session_type is Some && session_type->0@ == "x11"@ ==> r == Ok::<
                LinuxBackend,
                SelectionError,
            >(LinuxBackend::X11),
            session_type is Some && session_type->0@ == "wayland"@ ==> r == Ok::<
                LinuxBackend,
                SelectionError,
            >(LinuxBackend::Wayland),
            !(session_type is Some && (session_type->0@ == "x11"@ || session_type->0@
                == "wayland"@)) ==> r == Err::<LinuxBackend, SelectionError>(
                SelectionError::UnsupportedPlatform,
            ),
    {
        proof {
            reveal_strlit("x11");
            reveal_strlit("wayland");
            assert("x11"@[0] != "wayland"@[0]);
        }
        match session_type {
            Some(s) => {
                if s == String::from_str("x11") {
                    Ok(LinuxBackend::X11)
                } else if s == String::from_str("wayland") {
                    Ok(LinuxBackend::Wayland)
                } else {
                    Err(SelectionError::UnsupportedPlatform)
                }
            },
            None => Err(SelectionError::UnsupportedPlatform),
        }
    }

    /// Under Wayland the Wayland primary selection is used where the
    /// compositor supports it; where it does not, or where that could not be
    /// found out, the X11 one is used.
    pub fn wayland_backend(&self, primary_supported: Option<bool>) -> (r: LinuxBackend)
        ensures
            r == (if primary_supported == Some(true) {
                LinuxBackend::Wayland
            } else {
                LinuxBackend::X11
            }),
    {
        match primary_supported {
            Some(true) => LinuxBackend::Wayland,
            _ => LinuxBackend::X11,
        }
    }

    /// The text selection made of the primary selection's bytes.
    pub fn selection_from_primary(&self, bytes: &[u8]) -> (r: Selection)
        ensures
            r.content_type == ContentType::Text,
            r.data@ == encode_utf8(primary_text(bytes@)),
    {
        let decoded = lossy_utf8_text(bytes);
        let no_nuls = trim_nuls(decoded.as_str());
        Selection::new_text(trim_white_space(no_nuls.as_str()))
    }
}

} // verus!
