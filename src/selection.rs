//! The selection model: what was selected, and its payload.
use vstd::prelude::*;
use vstd::utf8::encode_utf8;
use crate::text::{decoded, opt_chars, utf8_text};

verus! {

/// The kind of content that was selected.
#[derive(Debug, Clone, PartialEq, Eq)]
pub enum ContentType {
    /// Plain text.
    Text,
    /// Image data in the named format, such as "png".
    Image(String),
    /// A file path.
    File,
    /// Other content in the named format.
    Other(String),
}

impl ContentType {
    /// The label of a kind: "text", "image/<format>", "file" or "other/<format>".
    pub open spec fn label(&self) -> Seq<char> {
        match self {
            ContentType::Text => "text"@,
            ContentType::Image(format) => "image/"@ + format@,
            ContentType::File => "file"@,
            ContentType::Other(format) => "other/"@ + format@,
        }
    }

    /// The label of this kind, as `label` states it.
    pub fn to_string(&self) -> (r: String)
        ensures
            r@ == self.label(),
    {
        proof {
            reveal_strlit("text");
            reveal_strlit("image/");
            reveal_strlit("file");
            reveal_strlit("other/");
        }
        match self {
            ContentType::Text => String::from_str("text"),
            ContentType::Image(format) => String::from_str("image/").concat(format.as_str()),
            ContentType::File => String::from_str("file"),
            ContentType::Other(format) => String::from_str("other/").concat(format.as_str()),
        }
    }
}

/// Selected content: its kind and its raw payload.
///
/// For text and file selections the payload is meant to be UTF-8; where it
/// is not, the typed views below give no value.
#[derive(Debug, Clone)]
pub struct Selection {
    /// The kind of content.
    pub content_type: ContentType,
    /// The payload.
    pub data: Vec<u8>,
}

impl Selection {
    /// The text of a text selection whose payload is valid UTF-8.
    pub open spec fn text_view(&self) -> Option<Seq<char>> {
        if self.content_type is Text {
            decoded(self.data@)
        } else {
            None
        }
    }

    /// The path of a file selection whose payload is valid UTF-8.
    pub open spec fn file_view(&self) -> Option<Seq<char>> {
        if self.content_type is File {
            decoded(self.data@)
        } else {
            None
        }
    }

    /// True when the payload holds no byte, whatever the kind.
    pub open spec fn spec_is_empty(&self) -> bool {
        self.data@.len() == 0
    }

    /// A text selection holding `text` encoded as UTF-8.
    pub fn new_text(text: String) -> (r: Self)
        ensures
            r.content_type == ContentType::Text,
            r.data@ == encode_utf8(text@),
    {
        Selection { content_type: ContentType::Text, data: text.as_str().as_bytes_vec() }
    }

    /// An image selection in `format`, holding `data` as given.
    pub fn new_image(format: &str, data: Vec<u8>) -> (r: Self)
        ensures
            r.content_type is Image,
            r.content_type->Image_0@ == format@,
            r.data@ == data@,
    {
        Selection { content_type: ContentType::Image(String::from_str(format)), data }
    }

    /// A file selection holding `path` encoded as UTF-8.
    pub fn new_file(path: String) -> (r: Self)
        ensures
            r.content_type == ContentType::File,
            r.data@ == encode_utf8(path@),
    {
        Selection { content_type: ContentType::File, data: path.as_str().as_bytes_vec() }
    }

    /// A selection of another kind, in `format`, holding `data` as given.
    pub fn new_other(format: &str, data: Vec<u8>) -> (r: Self)
        ensures
            r.content_type is Other,
            r.content_type->Other_0@ == format@,
            r.data@ == data@,
    {
        Selection { content_type: ContentType::Other(String::from_str(format)), data }
    }

    /// The text of a text selection; none for another kind or for a payload
    /// that is not valid UTF-8.
    pub fn as_text(&self) -> (r: Option<String>)
        ensures
            opt_chars(r) == self.text_view(),
    {
        match self.content_type {
            ContentType::Text => utf8_text(self.data.as_slice()),
            _ => None,
        }
    }

    /// The path of a file selection; none for another kind or for a payload
    /// that is not valid UTF-8.
    pub fn as_file_path(&self) -> (r: Option<String>)
        ensures
            opt_chars(r) == self.file_view(),
    {
        match self.content_type {
            ContentType::File => utf8_text(self.data.as_slice()),
            _ => None,
        }
    }

    /// True when the payload is empty, whatever the kind.
    pub fn is_empty(&self) -> (r: bool)
        ensures
            r == self.spec_is_empty(),
    {
        self.data.len() == 0
    }
}

} // verus!

verus! {

/// Reading back the text of a text selection made from `s` gives `s`
/// exactly, the empty string included.
pub proof fn lemma_text_round_trip(s: Seq<char>, sel: Selection)
    requires
        sel.content_type == ContentType::Text,
        sel.data@ == encode_utf8(s),
    ensures
        sel.text_view() == Some(s),
        sel.file_view() is None,
        sel.spec_is_empty() <==> s.len() == 0,
{
    vstd::utf8::encode_utf8_valid_utf8(s);
    vstd::utf8::encode_utf8_decode_utf8(s);
    if s.len() > 0 {
        vstd::utf8::encode_utf8_first_scalar(s);
    }
}

/// Reading back the path of a file selection made from `p` gives `p`
/// exactly.
pub proof fn lemma_file_round_trip(p: Seq<char>, sel: Selection)
    requires
        sel.content_type == ContentType::File,
        sel.data@ == encode_utf8(p),
    ensures
        sel.file_view() == Some(p),
        sel.text_view() is None,
{
    vstd::utf8::encode_utf8_valid_utf8(p);
    vstd::utf8::encode_utf8_decode_utf8(p);
}

} // verus!
