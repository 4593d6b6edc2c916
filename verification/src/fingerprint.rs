//! Content fingerprinting for the duplicate gate.
//!
//! The fingerprint is a pure function of an entry's content and its
//! secondary variants; `id`, `content_type` and `timestamp` are excluded,
//! so a re-capture of literally identical content hashes equal no matter
//! when it was taken. The hash is a 64-bit FNV-1a fold over the characters
//! of each field, with markers outside the character range framing the
//! optional fields.

use vstd::prelude::*;
use vstd::string::StrSliceExecFns;

use crate::entry::ClipboardItem;

verus! {

pub const FNV_OFFSET_BASIS: u64 = 0xcbf29ce484222325;

pub const FNV_PRIME: u64 = 0x100000001b3;

/// Folded in before the characters of a populated optional field; above
/// the largest code point, so it cannot collide with any character.
pub const PRESENT_MARK: u64 = 0x110000;

/// Folded in for an absent optional field.
pub const ABSENT_MARK: u64 = 0x110001;

pub open spec fn spec_fnv_step(h: u64, x: u64) -> u64 {
    vstd::wrapping::u64_specs::wrapping_mul(h ^ x, FNV_PRIME)
}

fn fnv_step(h: u64, x: u64) -> (r: u64)
    ensures
        r == spec_fnv_step(h, x),
{
    (h ^ x).wrapping_mul(FNV_PRIME)
}

/// The hash state after folding the first `n` characters of `s` into `h0`.
pub open spec fn spec_fnv_prefix(h0: u64, s: Seq<char>, n: int) -> u64
    decreases n,
{
    if n <= 0 {
        h0
    } else {
        spec_fnv_step(spec_fnv_prefix(h0, s, n - 1), (s[n - 1] as u32) as u64)
    }
}

/// The hash state after folding every character of `s` into `h0`.
pub open spec fn spec_fnv_chars(h0: u64, s: Seq<char>) -> u64 {
    spec_fnv_prefix(h0, s, s.len() as int)
}

fn fnv_str(h0: u64, s: &str) -> (r: u64)
    ensures
        r == spec_fnv_chars(h0, s@),
{
    let n: usize = s.unicode_len();
    let mut h: u64 = h0;
    let mut i: usize = 0;
    while i < n
        invariant
            i <= n,
            n == s@.len(),
            h == spec_fnv_prefix(h0, s@, i as int),
        decreases n - i,
    {
        let c: char = s.get_char(i);
        h = fnv_step(h, (c as u32) as u64);
        i = i + 1;
    }
    h
}

/// The character sequences of an optional string field.
pub open spec fn opt_view(o: Option<String>) -> Option<Seq<char>> {
    match o {
        Some(s) => Some(s@),
        None => None,
    }
}

pub open spec fn spec_fnv_opt(h: u64, o: Option<Seq<char>>) -> u64 {
    match o {
        Some(s) => spec_fnv_chars(spec_fnv_step(h, PRESENT_MARK), s),
        None => spec_fnv_step(h, ABSENT_MARK),
    }
}

fn fnv_opt(h: u64, o: &Option<String>) -> (r: u64)
    ensures
        r == spec_fnv_opt(h, opt_view(*o)),
{
    match o {
        Some(s) => fnv_str(fnv_step(h, PRESENT_MARK), s.as_str()),
        None => fnv_step(h, ABSENT_MARK),
    }
}

/// The fingerprint of one capture, as a function of its display content
/// and its three optional secondary representations alone.
pub open spec fn spec_fingerprint(
    content: Seq<char>,
    html: Option<Seq<char>>,
    rtf: Option<Seq<char>>,
    image: Option<Seq<char>>,
) -> u64 {
    spec_fnv_opt(spec_fnv_opt(spec_fnv_opt(spec_fnv_chars(FNV_OFFSET_BASIS, content), html), rtf), image)
}

/// The fingerprint of an entry: `id`, `content_type` and `timestamp` do not
/// take part.
pub open spec fn entry_fingerprint(e: ClipboardItem) -> u64 {
    spec_fingerprint(e.content@, opt_view(e.html_content), opt_view(e.rtf_content), opt_view(e.image_path))
}

pub fn fingerprint_entry(e: &ClipboardItem) -> (r: u64)
    ensures
        r == entry_fingerprint(*e),
{
    let mut h: u64 = fnv_str(FNV_OFFSET_BASIS, e.content.as_str());
    h = fnv_opt(h, &e.html_content);
    h = fnv_opt(h, &e.rtf_content);
    h = fnv_opt(h, &e.image_path);
    h
}

} // verus!
