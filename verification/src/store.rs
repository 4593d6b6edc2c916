//! The bounded history store: insertion-ordered entries, id assignment,
//! eviction from the front when the capacity bound is exceeded, and the
//! duplicate gate over the most recently inserted fingerprint.

use std::time::SystemTime;
use std::time::UNIX_EPOCH;

use vstd::prelude::*;

use crate::classify::Classified;
use crate::classify::ClipboardReading;
use crate::classify::EntryFields;
use crate::classify::classify;
use crate::classify::spec_classify;
use crate::entry::ClipboardContentType;
use crate::entry::ClipboardItem;
use crate::fingerprint::entry_fingerprint;
use crate::fingerprint::fingerprint_entry;
use crate::fingerprint::opt_view;
use crate::fingerprint::spec_fingerprint;

verus! {

/// The default capacity bound of a freshly created store.
pub const DEFAULT_MAX_HISTORY: usize = 100;

/// The in-memory clipboard history: entries in insertion order, oldest
/// first, together with the id generator, the capacity bound, and the
/// fingerprint of the most recently inserted entry.
pub struct ClipboardState {
    pub history: Vec<ClipboardItem>,
    pub last_content_hash: Option<u64>,
    pub next_id: usize,
    pub max_history_size: usize,
}

/// One insertion step on the ordered history: append at the tail, then
/// drop the oldest entry if the capacity bound is exceeded.
pub open spec fn push_evict(h: Seq<ClipboardItem>, item: ClipboardItem, cap: nat) -> Seq<ClipboardItem> {
    if h.len() + 1 > cap {
        h.push(item).drop_first()
    } else {
        h.push(item)
    }
}

/// The fingerprint of classified fields, before an entry is built of them.
pub open spec fn fields_fingerprint(f: EntryFields) -> u64 {
    spec_fingerprint(f.content, f.html, f.rtf, f.image)
}

/// The entry `e` carries exactly the classified fields `f` and the id `id`.
pub open spec fn entry_matches(e: ClipboardItem, f: EntryFields, id: usize) -> bool {
    &&& e.content@ == f.content
    &&& e.content_type == f.kind
    &&& opt_view(e.html_content) == f.html
    &&& opt_view(e.rtf_content) == f.rtf
    &&& opt_view(e.image_path) == f.image
    &&& e.id == id
}

/// How one watcher cycle relates the store before and after it, given the
/// classified fields `f` of the capture and the reported outcome `r`.
///
/// A capture whose fingerprint equals the most recently inserted one is
/// discarded: the store is untouched and no entry is reported. A novel
/// capture is committed: it receives the next id, lands at the tail with
/// the oldest entry evicted if the capacity bound would be exceeded, and
/// its fingerprint becomes the new gate.
pub open spec fn update_step(
    pre: ClipboardState,
    post: ClipboardState,
    f: EntryFields,
    r: Option<ClipboardItem>,
) -> bool {
    match r {
        None => {
            &&& post == pre
            &&& pre.last_content_hash == Some(fields_fingerprint(f))
        },
        Some(e) => {
            &&& pre.last_content_hash != Some(fields_fingerprint(f))
            &&& entry_matches(e, f, pre.next_id)
            &&& entry_fingerprint(e) == fields_fingerprint(f)
            &&& post.history@ == push_evict(pre.history@, e, pre.max_history_size as nat)
            &&& post.last_content_hash == Some(entry_fingerprint(e))
            &&& post.next_id == pre.next_id + 1
            &&& post.max_history_size == pre.max_history_size
        },
    }
}

/// Relies on std::time::SystemTime::now for the capture timestamp: the
/// seconds of the current system time past the Unix epoch, or zero where
/// the clock reads earlier than the epoch. Nothing is promised of the
/// value.
#[verifier::external_body]
fn now_unix_seconds() -> u64 {
    SystemTime::now().duration_since(UNIX_EPOCH).unwrap_or_default().as_secs()
}

impl Default for ClipboardState {
    /// A fresh store: empty history, id generator at zero, no fingerprint
    /// gate, and the default capacity bound.
    fn default() -> (r: Self)
        ensures
            r.history@ == Seq::<ClipboardItem>::empty(),
            r.last_content_hash is None,
            r.next_id == 0,
            r.max_history_size == DEFAULT_MAX_HISTORY,
    {
        ClipboardState {
            history: Vec::new(),
            last_content_hash: None,
            next_id: 0,
            max_history_size: DEFAULT_MAX_HISTORY,
        }
    }
}

impl ClipboardState {
    /// Append `item` at the tail, evict the oldest entry if the capacity
    /// bound is exceeded, advance the id generator, and record the item's
    /// fingerprint as the new duplicate gate. Returns the stored entry.
    pub fn add_item(&mut self, item: ClipboardItem) -> (r: ClipboardItem)
        requires
            old(self).next_id < usize::MAX,
        ensures
            final(self).history@ == push_evict(old(self).history@, item, old(self).max_history_size as nat),
            final(self).last_content_hash == Some(entry_fingerprint(item)),
            final(self).next_id == old(self).next_id + 1,
            final(self).max_history_size == old(self).max_history_size,
            r == item,
    {
        self.history.push(item.clone());

        if self.history.len() > self.max_history_size {
            self.history.remove(0);
        }

        self.last_content_hash = Some(self.calculate_hash(&item));
        self.next_id = self.next_id + 1;

        item
    }

    /// The fingerprint of `item`: a pure function of its content and its
    /// secondary variants; the store itself takes no part in it.
    pub fn calculate_hash(&self, item: &ClipboardItem) -> (r: u64)
        ensures
            r == entry_fingerprint(*item),
    {
        fingerprint_entry(item)
    }

    /// Shape a candidate entry from classified fields: it receives the id
    /// the generator currently holds and the present time as its capture
    /// timestamp. The store itself is left untouched; ids advance only
    /// when an entry is actually inserted.
    pub fn create_item(
        &mut self,
        content: String,
        content_type: ClipboardContentType,
        html_content: Option<String>,
        rtf_content: Option<String>,
        image_path: Option<String>,
    ) -> (r: ClipboardItem)
        ensures
            *final(self) == *old(self),
            r.id == old(self).next_id,
            r.content == content,
            r.content_type == content_type,
            r.html_content == html_content,
            r.rtf_content == rtf_content,
            r.image_path == image_path,
    {
        let now: u64 = now_unix_seconds();

        ClipboardItem {
            id: self.next_id,
            content,
            content_type,
            html_content,
            rtf_content,
            image_path,
            timestamp: now,
        }
    }

    /// A copy of the current history, oldest first; the store is not
    /// changed.
    pub fn snapshot(&self) -> (r: Vec<ClipboardItem>)
        ensures
            r@ == self.history@,
    {
        let mut r: Vec<ClipboardItem> = Vec::new();
        let mut i: usize = 0;
        while i < self.history.len()
            invariant
                i <= self.history@.len(),
                r@ == self.history@.subrange(0, i as int),
            decreases self.history@.len() - i,
        {
            r.push(self.history[i].clone());
            proof {
                assert(r@ =~= self.history@.subrange(0, i + 1));
            }
            i = i + 1;
        }
        proof {
            assert(r@ =~= self.history@);
        }
        r
    }

    /// Empty the history, reset the id generator to zero and drop the
    /// duplicate gate, so the next capture is unconditionally accepted.
    pub fn clear(&mut self)
        ensures
            final(self).history@ == Seq::<ClipboardItem>::empty(),
            final(self).last_content_hash is None,
            final(self).next_id == 0,
            final(self).max_history_size == old(self).max_history_size,
    {
        self.history.clear();
        self.next_id = 0;
        self.last_content_hash = None;
    }

    /// Set the capacity bound to `size`. Where the history is longer than
    /// the new bound, the oldest entries are dropped until exactly the
    /// most recent `size` remain; otherwise the contents are untouched.
    /// The id generator and the duplicate gate are never affected.
    pub fn set_max_history_size(&mut self, size: usize)
        ensures
            final(self).max_history_size == size,
            old(self).history@.len() > size ==> final(self).history@ == old(self).history@.subrange(
                old(self).history@.len() - size,
                old(self).history@.len() as int,
            ),
            old(self).history@.len() <= size ==> final(self).history@ == old(self).history@,
            final(self).last_content_hash == old(self).last_content_hash,
            final(self).next_id == old(self).next_id,
    {
        self.max_history_size = size;

        let current_len: usize = self.history.len();
        if current_len > size {
            let new_start: usize = current_len - size;
            let new_history: Vec<ClipboardItem> = self.history.split_off(new_start);
            self.history = new_history;
        }
    }

    /// One full watcher cycle past the clipboard reads: classify the
    /// reading, shape the candidate entry, and commit it unless its
    /// fingerprint equals the most recently inserted one. Returns the
    /// stored entry where one was committed, and `None` where the capture
    /// was a duplicate; [`update_step`] ties the outcome to the store.
    pub fn handle_clipboard_update(&mut self, reading: ClipboardReading) -> (r: Option<ClipboardItem>)
        requires
            old(self).next_id < usize::MAX,
        ensures
            update_step(*old(self), *final(self), spec_classify(reading), r),
            r matches Some(e) ==> crate::entry::wf_entry(e),
    {
        let c: Classified = classify(reading);
        let ghost f = spec_classify(reading);

        let item: ClipboardItem = self.create_item(
            c.content,
            c.content_type,
            c.html_content,
            c.rtf_content,
            c.image_path,
        );
        proof {
            crate::classify::lemma_classified_entry_wf(item, f);
        }

        let hash: u64 = self.calculate_hash(&item);
        let duplicate: bool = match self.last_content_hash {
            Some(h) => h == hash,
            None => false,
        };
        if duplicate {
            return None;
        }

        let stored: ClipboardItem = self.add_item(item);
        Some(stored)
    }
}

} // verus!
