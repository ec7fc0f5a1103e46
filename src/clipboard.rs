//! Clipboard content as the copy protocol sees it: what a snapshot holds and
//! how a snapshot is written back.
use vstd::prelude::*;
use crate::text::opt_chars;

verus! {

/// Raw image data read from the clipboard: RGBA pixels, row by row.
#[derive(Debug, Clone, PartialEq, Eq)]
pub struct RawImage {
    pub width: usize,
    pub height: usize,
    pub bytes: Vec<u8>,
}

impl View for RawImage {
    type V = (usize, usize, Seq<u8>);

    open spec fn view(&self) -> (usize, usize, Seq<u8>) {
        (self.width, self.height, self.bytes@)
    }
}

/// What the clipboard held just before a simulated copy.
#[derive(Debug, Clone)]
pub struct ClipboardSnapshot {
    /// The clipboard's text, where it had one.
    pub text: Option<String>,
    /// The clipboard's image, where it had one.
    pub image: Option<RawImage>,
}

/// The content of a snapshot, in terms of views.
pub struct SnapshotView {
    pub text: Option<Seq<char>>,
    pub image: Option<(usize, usize, Seq<u8>)>,
}

impl View for ClipboardSnapshot {
    type V = SnapshotView;

    open spec fn view(&self) -> SnapshotView {
        SnapshotView {
            text: opt_chars(self.text),
            image: match self.image {
                Some(i) => Some(i@),
                None => None,
            },
        }
    }
}

/// One content of the clipboard.
pub enum ClipContent {
    Text(Seq<char>),
    Image((usize, usize, Seq<u8>)),
    Empty,
}

/// What writing a snapshot back leaves on the clipboard: its text where it
/// had one, else its image where it had one, else nothing.
pub open spec fn restored_content(s: SnapshotView) -> ClipContent {
    match s.text {
        Some(t) => ClipContent::Text(t),
        None => match s.image {
            Some(i) => ClipContent::Image(i),
            None => ClipContent::Empty,
        },
    }
}

/// What a snapshot of a clipboard holding `c` sees.
pub open spec fn snapshot_of(c: ClipContent) -> SnapshotView {
    match c {
        ClipContent::Text(t) => SnapshotView { text: Some(t), image: None },
        ClipContent::Image(i) => SnapshotView { text: None, image: Some(i) },
        ClipContent::Empty => SnapshotView { text: None, image: None },
    }
}

/// The write that puts a snapshot back on the clipboard.
#[derive(Debug, Clone)]
pub enum RestoreAction {
    /// Write this text.
    SetText(String),
    /// Write this image.
    SetImage(RawImage),
    /// Clear the clipboard.
    Clear,
}

impl View for RestoreAction {
    type V = ClipContent;

    open spec fn view(&self) -> ClipContent {
        match self {
            RestoreAction::SetText(t) => ClipContent::Text(t@),
            RestoreAction::SetImage(i) => ClipContent::Image(i@),
            RestoreAction::Clear => ClipContent::Empty,
        }
    }
}

impl ClipboardSnapshot {
    /// The write that restores this snapshot; it consumes the snapshot.
    pub fn into_restore(self) -> (r: RestoreAction)
        ensures
            r@ == restored_content(self@),
    {
        match self.text {
            Some(t) => RestoreAction::SetText(t),
            None => match self.image {
                Some(i) => RestoreAction::SetImage(i),
                None => RestoreAction::Clear,
            },
        }
    }
}

/// Writing back a snapshot of a clipboard that held one content gives that
/// content back.
pub proof fn lemma_restore_snapshot(c: ClipContent)
    ensures
        restored_content(snapshot_of(c)) == c,
{
}

} // verus!
