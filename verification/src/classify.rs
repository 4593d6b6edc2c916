//! The content classifier: from what one look at the clipboard offered,
//! shape the fields of a history entry.
//!
//! The shell around the engine performs the clipboard reads and the image
//! persistence and hands the outcomes over as plain values; classification
//! itself is a total function and always yields an entry shape, degrading
//! to a fixed placeholder wherever a read failed.

use vstd::prelude::*;

use crate::entry::ClipboardContentType;
use crate::entry::wf_entry;
use crate::fingerprint::opt_view;

verus! {

/// The outcome of reading the clipboard image and persisting it, where an
/// image format was present.
pub enum ImageCapture {
    /// The image was read and persisted under this handle.
    Saved(String),
    /// The image was read, but persisting it was not attempted.
    Skipped,
    /// The image was read, but persisting it failed.
    SaveFailed,
    /// Reading the image failed.
    ReadFailed,
}

/// What one look at the clipboard offered: which formats were present, and
/// the payloads the reads produced. A `None` payload is a failed read.
pub struct ClipboardReading {
    pub has_image: bool,
    pub image: ImageCapture,
    pub has_rich_text: bool,
    pub rich_text: Option<String>,
    pub has_html: bool,
    pub html: Option<String>,
    pub text: Option<String>,
}

/// The entry-shaping result of classification: every field of a history
/// entry except its identity and capture time.
pub struct Classified {
    pub content: String,
    pub content_type: ClipboardContentType,
    pub html_content: Option<String>,
    pub rtf_content: Option<String>,
    pub image_path: Option<String>,
}

/// The classified fields as mathematical values.
pub ghost struct EntryFields {
    pub content: Seq<char>,
    pub kind: ClipboardContentType,
    pub html: Option<Seq<char>>,
    pub rtf: Option<Seq<char>>,
    pub image: Option<Seq<char>>,
}

impl Classified {
    pub open spec fn fields(self) -> EntryFields {
        EntryFields {
            content: self.content@,
            kind: self.content_type,
            html: opt_view(self.html_content),
            rtf: opt_view(self.rtf_content),
            image: opt_view(self.image_path),
        }
    }
}

/// Format precedence, first match wins: image, then rich text, then HTML,
/// then plain text; anything else is unclassified. Each branch fixes the
/// display content, falling back to a placeholder where a read failed, and
/// attaches at most the one secondary representation that matches the kind.
pub open spec fn spec_classify(r: ClipboardReading) -> EntryFields {
    if r.has_image {
        EntryFields {
            content: match r.image {
                ImageCapture::Saved(_) => "[image content]"@,
                ImageCapture::Skipped => "[image content]"@,
                ImageCapture::SaveFailed => "[image content: save failed]"@,
                ImageCapture::ReadFailed => "[image content: read failed]"@,
            },
            kind: ClipboardContentType::Image,
            html: None,
            rtf: None,
            image: match r.image {
                ImageCapture::Saved(name) => Some(name@),
                _ => None,
            },
        }
    } else if r.has_rich_text {
        EntryFields {
            content: match r.text {
                Some(t) => t@,
                None => "[rich text content]"@,
            },
            kind: ClipboardContentType::RichText,
            html: None,
            rtf: opt_view(r.rich_text),
            image: None,
        }
    } else if r.has_html {
        EntryFields {
            content: match r.text {
                Some(t) => t@,
                None => "[html content]"@,
            },
            kind: ClipboardContentType::Html,
            html: opt_view(r.html),
            rtf: None,
            image: None,
        }
    } else {
        match r.text {
            Some(t) => EntryFields {
                content: t@,
                kind: ClipboardContentType::Text,
                html: None,
                rtf: None,
                image: None,
            },
            None => EntryFields {
                content: "[read failure]"@,
                kind: ClipboardContentType::Unknown,
                html: None,
                rtf: None,
                image: None,
            },
        }
    }
}

/// A secondary representation is only attached under its matching kind.
pub open spec fn wf_fields(f: EntryFields) -> bool {
    &&& f.html is Some ==> f.kind == ClipboardContentType::Html
    &&& f.rtf is Some ==> f.kind == ClipboardContentType::RichText
    &&& f.image is Some ==> f.kind == ClipboardContentType::Image
}

/// Classification is total and exact: the result carries precisely the
/// fields that [`spec_classify`] assigns to the reading, and it is always
/// well formed.
pub fn classify(reading: ClipboardReading) -> (r: Classified)
    ensures
        r.fields() == spec_classify(reading),
        wf_fields(r.fields()),
{
    if reading.has_image {
        match reading.image {
            ImageCapture::Saved(name) => Classified {
                content: "[image content]".to_owned(),
                content_type: ClipboardContentType::Image,
                html_content: None,
                rtf_content: None,
                image_path: Some(name),
            },
            ImageCapture::Skipped => Classified {
                content: "[image content]".to_owned(),
                content_type: ClipboardContentType::Image,
                html_content: None,
                rtf_content: None,
                image_path: None,
            },
            ImageCapture::SaveFailed => Classified {
                content: "[image content: save failed]".to_owned(),
                content_type: ClipboardContentType::Image,
                html_content: None,
                rtf_content: None,
                image_path: None,
            },
            ImageCapture::ReadFailed => Classified {
                content: "[image content: read failed]".to_owned(),
                content_type: ClipboardContentType::Image,
                html_content: None,
                rtf_content: None,
                image_path: None,
            },
        }
    } else if reading.has_rich_text {
        Classified {
            content: match reading.text {
                Some(t) => t,
                None => "[rich text content]".to_owned(),
            },
            content_type: ClipboardContentType::RichText,
            html_content: None,
            rtf_content: reading.rich_text,
            image_path: None,
        }
    } else if reading.has_html {
        Classified {
            content: match reading.text {
                Some(t) => t,
                None => "[html content]".to_owned(),
            },
            content_type: ClipboardContentType::Html,
            html_content: reading.html,
            rtf_content: None,
            image_path: None,
        }
    } else {
        match reading.text {
            Some(t) => Classified {
                content: t,
                content_type: ClipboardContentType::Text,
                html_content: None,
                rtf_content: None,
                image_path: None,
            },
            None => Classified {
                content: "[read failure]".to_owned(),
                content_type: ClipboardContentType::Unknown,
                html_content: None,
                rtf_content: None,
                image_path: None,
            },
        }
    }
}

/// An entry built from well-formed classified fields is well formed.
pub proof fn lemma_classified_entry_wf(e: crate::entry::ClipboardItem, f: EntryFields)
    requires
        wf_fields(f),
        e.content_type == f.kind,
        opt_view(e.html_content) == f.html,
        opt_view(e.rtf_content) == f.rtf,
        opt_view(e.image_path) == f.image,
    ensures
        wf_entry(e),
{
}

} // verus!
