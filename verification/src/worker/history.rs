//! The quick input history: how many of its records are loaded, and how the quick
//! input window walks through them with the arrow keys and adds what is submitted.

use vstd::prelude::*;
use crate::text::string_views;

verus! {

/// Most records that the quick input history loads.
pub const MAX_LOADED_HISTORY: usize = 500;

/// The last `max` of the loaded texts, oldest first; all of them where there are no
/// more than `max`.
pub fn keep_most_recent(values: Vec<String>, max: usize) -> (r: Vec<String>)
    ensures
        values@.len() <= max ==> r@ == values@,
        values@.len() > max ==> r@ == values@.skip(values@.len() - max),
{
    let n = values.len();
    if n <= max {
        return values;
    }
    let start = n - max;
    let mut out: Vec<String> = Vec::new();
    let mut values = values;
    let mut i: usize = 0;
    let ghost orig = values@;
    while values.len() > 0
        invariant
            values@.len() + i == n,
            orig.len() == n,
            values@ == orig.skip(i as int),
            start == n - max,
            i <= start ==> out@.len() == 0,
            i > start ==> out@ == orig.subrange(start as int, i as int),
        decreases values@.len(),
    {
        let v = values.remove(0);
        if i >= start {
            let ghost before = out@;
            out.push(v);
            assert(out@ =~= orig.subrange(start as int, i + 1));
        }
        assert(values@ =~= orig.skip(i + 1));
        i = i + 1;
    }
    assert(out@ =~= orig.skip(start as int));
    out
}

/// The history entry shown after Up: one older, stopping at the oldest.
pub open spec fn cursor_up(cursor: nat) -> nat {
    if cursor == 0 {
        0
    } else {
        (cursor - 1) as nat
    }
}

/// The history entry shown after Down: one newer, stopping after the newest (the
/// empty line).
pub open spec fn cursor_down(cursor: nat, len: nat) -> nat {
    if cursor + 1 < len {
        cursor + 1
    } else {
        len
    }
}

/// The text shown at a history position: the entry, or the empty line after the
/// newest.
pub open spec fn shown_at(entries: Seq<Seq<char>>, cursor: nat) -> Seq<char> {
    if cursor < entries.len() {
        entries[cursor as int]
    } else {
        Seq::empty()
    }
}

/// The texts submitted in the quick input window, oldest first, and the position
/// that the arrow keys have reached (the number of entries for the empty line after
/// the newest).
#[derive(Debug)]
pub struct QuickInputHistory {
    entries: Vec<String>,
    cursor: usize,
}

impl QuickInputHistory {
    /// The entries, oldest first.
    pub closed spec fn entries(&self) -> Seq<Seq<char>> {
        string_views(self.entries@)
    }

    /// The position reached.
    pub closed spec fn cursor(&self) -> nat {
        self.cursor as nat
    }

    /// The position is within the entries or just after the newest.
    pub closed spec fn wf(&self) -> bool {
        self.cursor <= self.entries@.len()
    }

    /// The history with the loaded entries, positioned after the newest.
    pub fn new(entries: Vec<String>) -> (r: QuickInputHistory)
        ensures
            r.wf(),
            r.entries() == string_views(entries@),
            r.cursor() == entries@.len(),
    {
        let cursor = entries.len();
        QuickInputHistory { entries, cursor }
    }

    /// Positions the history after the newest entry, as when the window opens.
    pub fn rewind(&mut self)
        requires
            old(self).wf(),
        ensures
            final(self).wf(),
            final(self).entries() == old(self).entries(),
            final(self).cursor() == old(self).entries().len(),
    {
        self.cursor = self.entries.len();
    }

    /// Enter with `text` in the window: a text that is not empty is added as the newest
    /// entry and handed back to be submitted, and the history is positioned after it;
    /// an empty text changes nothing.
    pub fn submit(&mut self, text: String) -> (r: Option<String>)
        requires
            old(self).wf(),
        ensures
            final(self).wf(),
            text@.len() == 0 ==> r is None && final(self).entries() == old(self).entries() && final(self).cursor()
                == old(self).cursor(),
            text@.len() > 0 ==> r == Some(text) && final(self).entries() == old(self).entries().push(text@)
                && final(self).cursor() == final(self).entries().len(),
    {
        if text.as_str().is_empty() {
            return None;
        }
        let ghost before = string_views(self.entries@);
        self.entries.push(text.clone());
        assert(string_views(self.entries@) =~= before.push(text@));
        self.cursor = self.entries.len();
        Some(text)
    }

    /// Up: where there are entries, the position moves one older (staying at the
    /// oldest) and its entry is handed back to be shown; without entries nothing
    /// changes.
    pub fn up(&mut self) -> (r: Option<String>)
        requires
            old(self).wf(),
        ensures
            final(self).wf(),
            final(self).entries() == old(self).entries(),
            old(self).entries().len() == 0 ==> r is None && final(self).cursor() == old(self).cursor(),
            old(self).entries().len() > 0 ==> final(self).cursor() == cursor_up(old(self).cursor()) && (r matches Some(
                t,
            ) && t@ == shown_at(old(self).entries(), final(self).cursor())),
    {
        if self.entries.len() == 0 {
            return None;
        }
        if self.cursor > 0 {
            self.cursor = self.cursor - 1;
        }
        Some(self.entries[self.cursor].clone())
    }

    /// Down: where there are entries, the position moves one newer (stopping at the
    /// empty line after the newest) and its text is handed back to be shown; without
    /// entries nothing changes.
    pub fn down(&mut self) -> (r: Option<String>)
        requires
            old(self).wf(),
        ensures
            final(self).wf(),
            final(self).entries() == old(self).entries(),
            old(self).entries().len() == 0 ==> r is None && final(self).cursor() == old(self).cursor(),
            old(self).entries().len() > 0 ==> final(self).cursor() == cursor_down(
                old(self).cursor(),
                old(self).entries().len(),
            ) && (r matches Some(t) && t@ == shown_at(old(self).entries(), final(self).cursor())),
    {
        if self.entries.len() == 0 {
            return None;
        }
        if self.cursor < self.entries.len() - 1 {
            self.cursor = self.cursor + 1;
        } else {
            self.cursor = self.entries.len();
        }
        if self.cursor < self.entries.len() {
            Some(self.entries[self.cursor].clone())
        } else {
            Some(String::new())
        }
    }
}

/// Down after Up comes back to where it started, unless Up stayed at the oldest
/// entry.
pub proof fn lemma_down_undoes_up(cursor: nat, len: nat)
    requires
        0 < cursor <= len,
    ensures
        cursor_down(cursor_up(cursor), len) == cursor,
{
}

/// From the empty line after the newest entry, `k` presses of Up show the `k`-th
/// newest entry (or the oldest where there are fewer).
pub proof fn lemma_up_walks_back(len: nat, k: nat)
    ensures
        repeat_up(len, k) == (if k <= len {
            (len - k) as nat
        } else {
            0nat
        }),
    decreases k,
{
    if k > 0 {
        lemma_up_walks_back(len, (k - 1) as nat);
    }
}

/// The position after `k` presses of Up from `cursor`.
pub open spec fn repeat_up(cursor: nat, k: nat) -> nat
    decreases k,
{
    if k == 0 {
        cursor
    } else {
        cursor_up(repeat_up(cursor, (k - 1) as nat))
    }
}

} // verus!
