//! The engine's laws: what holds of every sequence of operations, proved
//! from the contracts of the store and of the fingerprint.

use vstd::prelude::*;

use crate::classify::EntryFields;
use crate::entry::ClipboardItem;
use crate::fingerprint::entry_fingerprint;
use crate::fingerprint::opt_view;
use crate::store::ClipboardState;
use crate::store::entry_matches;
use crate::store::fields_fingerprint;
use crate::store::push_evict;
use crate::store::update_step;

verus! {

/// The history after inserting `items` in order into an empty store with
/// capacity bound `cap`, one [`push_evict`] step per item — the shape that
/// `add_item` gives each insertion.
pub open spec fn history_after(items: Seq<ClipboardItem>, cap: nat) -> Seq<ClipboardItem>
    decreases items.len(),
{
    if items.len() == 0 {
        Seq::empty()
    } else {
        push_evict(history_after(items.drop_last(), cap), items.last(), cap)
    }
}

/// Law: after any sequence of `N` inserts into an empty store with
/// capacity bound `C`, the history holds exactly `min(N, C)` entries, and
/// they are exactly the last `min(N, C)` inserted, oldest first.
pub proof fn lemma_bounded_history(items: Seq<ClipboardItem>, cap: nat)
    ensures
        history_after(items, cap).len() == vstd::math::min(items.len() as int, cap as int),
        history_after(items, cap) =~= items.subrange(
            items.len() - vstd::math::min(items.len() as int, cap as int),
            items.len() as int,
        ),
    decreases items.len(),
{
    if items.len() == 0 {
    } else {
        let prev = items.drop_last();
        lemma_bounded_history(prev, cap);
        let h = history_after(prev, cap);
        let m = vstd::math::min(prev.len() as int, cap as int);
        assert(h =~= prev.subrange(prev.len() - m, prev.len() as int));
        if h.len() + 1 > cap {
            assert(h.len() == cap);
            let r = h.push(items.last()).drop_first();
            assert forall|i: int| 0 <= i < r.len() implies r[i] == items[items.len() - cap + i] by {
                if i < r.len() - 1 {
                    assert(r[i] == h[i + 1]);
                    assert(h[i + 1] == prev[prev.len() - m + i + 1]);
                } else {
                    assert(r[i] == items.last());
                }
            }
            assert(history_after(items, cap) =~= items.subrange(
                items.len() - cap,
                items.len() as int,
            ));
        } else {
            let r = h.push(items.last());
            assert forall|i: int| 0 <= i < r.len() implies r[i] == items[items.len() - r.len() + i] by {
                if i < r.len() - 1 {
                    assert(r[i] == h[i]);
                    assert(h[i] == prev[prev.len() - m + i]);
                } else {
                    assert(r[i] == items.last());
                }
            }
            assert(history_after(items, cap) =~= items.subrange(
                items.len() - (m + 1),
                items.len() as int,
            ));
        }
    }
}

/// Law: the fingerprint is a pure function of the display content and the
/// three secondary variants alone. Two entries that agree on those four
/// fields fingerprint equal, whatever their `id`, `content_type` and
/// `timestamp`.
pub proof fn lemma_fingerprint_ignores_metadata(a: ClipboardItem, b: ClipboardItem)
    requires
        a.content@ == b.content@,
        opt_view(a.html_content) == opt_view(b.html_content),
        opt_view(a.rtf_content) == opt_view(b.rtf_content),
        opt_view(a.image_path) == opt_view(b.image_path),
    ensures
        entry_fingerprint(a) == entry_fingerprint(b),
{
}

/// Law: a capture of content identical to the one just committed is
/// discarded. Where one cycle commits an entry for the classified fields
/// `f1`, the immediately following cycle, handed fields `f2` that agree
/// with `f1` on the content and the secondary variants, reports no change
/// and leaves the store exactly as the first cycle left it.
pub proof fn lemma_consecutive_duplicate_discarded(
    pre: ClipboardState,
    mid: ClipboardState,
    post: ClipboardState,
    f1: EntryFields,
    f2: EntryFields,
    r1: Option<ClipboardItem>,
    r2: Option<ClipboardItem>,
)
    requires
        update_step(pre, mid, f1, r1),
        r1 is Some,
        f2.content == f1.content,
        f2.html == f1.html,
        f2.rtf == f1.rtf,
        f2.image == f1.image,
        update_step(mid, post, f2, r2),
    ensures
        r2 is None,
        post == mid,
{
    assert(fields_fingerprint(f2) == fields_fingerprint(f1));
    assert(mid.last_content_hash == Some(fields_fingerprint(f2)));
}

/// Law: a cleared store accepts the next capture unconditionally and hands
/// it id zero, whatever ids earlier entries carried. The premises on the
/// store are exactly what `clear` ensures.
pub proof fn lemma_insert_after_clear_gets_id_zero(
    cleared: ClipboardState,
    post: ClipboardState,
    f: EntryFields,
    r: Option<ClipboardItem>,
)
    requires
        cleared.next_id == 0,
        cleared.last_content_hash is None,
        update_step(cleared, post, f, r),
    ensures
        r is Some,
        r matches Some(e) ==> e.id == 0,
{
    if r is Some {
        let e = choose|e: ClipboardItem| r == Some(e);
        assert(entry_matches(e, f, cleared.next_id));
    }
}

} // verus!
