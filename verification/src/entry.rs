//! The record types of the history engine: one captured clipboard state,
//! its classification, and the engine's error taxonomy.

use vstd::prelude::*;

verus! {

/// Classification of the dominant clipboard format found in one capture.
#[derive(Clone, Copy, Debug, PartialEq, Eq, Structural)]
pub enum ClipboardContentType {
    Text,
    RichText,
    Html,
    Image,
    File,
    Unknown,
}

/// One captured clipboard state.
///
/// `content` is always a human-readable representation: the text itself, or
/// a placeholder when the dominant payload is non-textual or unreadable.
/// At most one of the secondary fields is populated, and only the one that
/// matches `content_type` (see [`wf_entry`]).
#[derive(Debug)]
pub struct ClipboardItem {
    pub id: usize,
    pub content: String,
    pub content_type: ClipboardContentType,
    pub html_content: Option<String>,
    pub rtf_content: Option<String>,
    pub image_path: Option<String>,
    pub timestamp: u64,
}

/// A secondary representation is only ever attached to the matching
/// classification; plain text and unclassified captures attach none.
pub open spec fn wf_entry(e: ClipboardItem) -> bool {
    &&& e.html_content is Some ==> e.content_type == ClipboardContentType::Html
    &&& e.rtf_content is Some ==> e.content_type == ClipboardContentType::RichText
    &&& e.image_path is Some ==> e.content_type == ClipboardContentType::Image
}

fn clone_opt_string(o: &Option<String>) -> (r: Option<String>)
    ensures
        r == *o,
{
    match o {
        Some(s) => Some(s.clone()),
        None => None,
    }
}

impl Clone for ClipboardItem {
    fn clone(&self) -> (r: Self)
        ensures
            r == *self,
    {
        ClipboardItem {
            id: self.id,
            content: self.content.clone(),
            content_type: self.content_type,
            html_content: clone_opt_string(&self.html_content),
            rtf_content: clone_opt_string(&self.rtf_content),
            image_path: clone_opt_string(&self.image_path),
            timestamp: self.timestamp,
        }
    }
}

/// The failure taxonomy of the engine and of the capabilities around it.
/// The verified operations never produce these themselves; the shell around
/// the engine reports its clipboard, state and notification failures in
/// these terms.
#[derive(Debug)]
pub enum ClipboardError {
    InitError(String),
    ReadError(String),
    WriteError(String),
    StateError(String),
    EventError(String),
}

} // verus!
