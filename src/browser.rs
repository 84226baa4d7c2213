//! The file browser's cursor and the rule for which files it lists.

use vstd::prelude::*;
use crate::transport::EntryKind;

verus! {

/// Cursor position after moving down a listing of `len` entries: one entry
/// further, wrapping round from the last entry to the first.
pub fn cursor_down(selected: Option<usize>, len: usize) -> (r: usize)
    ensures
        r == match selected {
            Some(i) => if i + 1 >= len {
                0
            } else {
                i + 1
            },
            None => 0,
        },
{
    match selected {
        Some(i) => {
            if len == 0 || i >= len - 1 {
                0
            } else {
                i + 1
            }
        },
        None => 0,
    }
}

/// Cursor position after moving up a listing of `len` entries: one entry
/// back, wrapping round from the first entry to the last.
pub fn cursor_up(selected: Option<usize>, len: usize) -> (r: usize)
    ensures
        r == match selected {
            Some(i) => if i == 0 {
                if len == 0 {
                    0
                } else {
                    (len - 1) as usize
                }
            } else {
                (i - 1) as usize
            },
            None => 0,
        },
{
    match selected {
        Some(i) => {
            if i == 0 {
                if len == 0 {
                    0
                } else {
                    len - 1
                }
            } else {
                i - 1
            }
        },
        None => 0,
    }
}

/// `c` is the letter `l`, in either case (`l` given in lower case).
pub open spec fn same_letter(c: char, l: char) -> bool {
    c == l || ('a' <= l <= 'z' && c as u32 + 32 == l as u32)
}

/// `s` spells `word` (given in lower case), ignoring the case of ASCII letters.
pub open spec fn spells(s: Seq<char>, word: Seq<char>) -> bool {
    s.len() == word.len() && forall|i: int| 0 <= i < s.len() ==> same_letter(#[trigger] s[i], word[i])
}

/// `ext` is the extension of a file the player lists and plays.
pub open spec fn is_audio_ext(ext: Seq<char>) -> bool {
    spells(ext, "mp3"@) || spells(ext, "flac"@) || spells(ext, "wav"@) || spells(ext, "ogg"@)
        || spells(ext, "m4a"@) || spells(ext, "opus"@)
}

fn spells_word(s: &str, word: &str) -> (r: bool)
    ensures
        r == spells(s@, word@),
{
    let n = s.unicode_len();
    if n != word.unicode_len() {
        return false;
    }
    let mut i: usize = 0;
    while i < n
        invariant
            n == s@.len(),
            n == word@.len(),
            i <= n,
            forall|j: int| 0 <= j < i ==> same_letter(#[trigger] s@[j], word@[j]),
        decreases n - i,
    {
        let c = s.get_char(i);
        let l = word.get_char(i);
        let same = c == l || ('a' <= l && l <= 'z' && c as u32 + 32 == l as u32);
        if !same {
            return false;
        }
        i = i + 1;
    }
    true
}

/// Whether a file with extension `ext` is one the player lists and plays:
/// mp3, flac, wav, ogg, m4a or opus, in any case.
pub fn is_audio_extension(ext: &str) -> (r: bool)
    ensures
        r == is_audio_ext(ext@),
{
    spells_word(ext, "mp3") || spells_word(ext, "flac") || spells_word(ext, "wav") || spells_word(
        ext,
        "ogg",
    ) || spells_word(ext, "m4a") || spells_word(ext, "opus")
}

/// Indices of the entries of `kinds` that are of kind `k`, in listing order.
pub open spec fn indices_of(kinds: Seq<EntryKind>, k: EntryKind) -> Seq<usize>
    decreases kinds.len(),
{
    if kinds.len() == 0 {
        Seq::empty()
    } else {
        let rest = indices_of(kinds.drop_last(), k);
        if kinds.last() == k {
            rest.push((kinds.len() - 1) as usize)
        } else {
            rest
        }
    }
}

/// The order in which a listing is shown: the parent marker, then the
/// directories, then the tracks, each group in its given order.
pub open spec fn listing_order(kinds: Seq<EntryKind>) -> Seq<usize> {
    indices_of(kinds, EntryKind::Parent) + indices_of(kinds, EntryKind::Directory) + indices_of(
        kinds,
        EntryKind::Track,
    )
}

fn append_indices(kinds: &Vec<EntryKind>, k: EntryKind, out: &mut Vec<usize>)
    ensures
        final(out)@ == old(out)@ + indices_of(kinds@, k),
{
    let ghost start = out@;
    let mut i: usize = 0;
    while i < kinds.len()
        invariant
            i <= kinds@.len(),
            out@ == start + indices_of(kinds@.subrange(0, i as int), k),
        decreases kinds@.len() - i,
    {
        assert(kinds@.subrange(0, i + 1).drop_last() =~= kinds@.subrange(0, i as int));
        if kinds[i] == k {
            out.push(i);
        }
        i = i + 1;
        assert(out@ =~= start + indices_of(kinds@.subrange(0, i as int), k));
    }
    assert(kinds@.subrange(0, kinds@.len() as int) =~= kinds@);
}

/// Positions of the entries of a listing in the order it is shown: the
/// parent marker, then directories, then tracks, each group keeping the
/// order it had (so a listing sorted by name stays sorted within groups).
pub fn listing_positions(kinds: &Vec<EntryKind>) -> (r: Vec<usize>)
    ensures
        r@ == listing_order(kinds@),
{
    let mut out: Vec<usize> = Vec::new();
    append_indices(kinds, EntryKind::Parent, &mut out);
    append_indices(kinds, EntryKind::Directory, &mut out);
    append_indices(kinds, EntryKind::Track, &mut out);
    assert(out@ =~= listing_order(kinds@));
    out
}

} // verus!
