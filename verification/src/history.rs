//! Bash-like command history: an ordered log of submitted lines (oldest
//! first, most recent last) bounded by a maximum size, a browse cursor, and
//! a one-slot draft cache holding the user's in-progress input while they
//! browse.
//!
//! The browse cursor is 0 when idle (the editor shows the live draft) and
//! `k` in `1 ..= len` when viewing the `k`-th most recent entry.

use vstd::prelude::*;
use vstd::string::*;

use crate::layout::max_int;
use crate::text::str_eq;

verus! {

/// Abstract state of the history.
#[verifier::ext_equal]
pub ghost struct HistV {
    /// Stored entries, oldest first, most recent last.
    pub entries: Seq<Seq<char>>,
    /// The in-progress input cached when browsing started.
    pub draft: Seq<char>,
    /// 0 = idle; `k` = viewing `entries[len - k]`.
    pub cursor: int,
    /// Capacity: the oldest entry is evicted when a push would exceed it.
    pub max: int,
}

impl HistV {
    pub open spec fn wf(self) -> bool {
        &&& 0 <= self.cursor <= self.entries.len()
        &&& self.entries.len() <= self.max
    }
}

/// Caching the draft is a no-op while already browsing.
pub open spec fn cache_spec(h: HistV, input: Seq<char>) -> HistV {
    if h.cursor != 0 {
        h
    } else {
        HistV { entries: h.entries, draft: input, cursor: h.cursor, max: h.max }
    }
}

/// Browsing one step older: clamped at the oldest entry.
pub open spec fn older_state(h: HistV) -> HistV {
    if h.cursor < h.entries.len() {
        HistV { entries: h.entries, draft: h.draft, cursor: h.cursor + 1, max: h.max }
    } else {
        h
    }
}

/// The entry recalled by one step older, if any.
pub open spec fn older_result(h: HistV) -> Option<Seq<char>> {
    if h.cursor < h.entries.len() {
        Option::Some(h.entries[h.entries.len() - 1 - h.cursor])
    } else {
        Option::None
    }
}

/// Browsing one step newer: clamped at the live draft.
pub open spec fn newer_state(h: HistV) -> HistV {
    if h.cursor > 0 {
        HistV { entries: h.entries, draft: h.draft, cursor: h.cursor - 1, max: h.max }
    } else {
        h
    }
}

/// The line recalled by one step newer: the cached draft when the step
/// reaches the idle state, an entry otherwise, nothing when already idle.
pub open spec fn newer_result(h: HistV) -> Option<Seq<char>> {
    if h.cursor == 0 {
        Option::None
    } else if h.cursor == 1 {
        Option::Some(h.draft)
    } else {
        Option::Some(h.entries[h.entries.len() - (h.cursor - 1)])
    }
}

/// Back to idle browsing (on submit or escape).
pub open spec fn reset_spec(h: HistV) -> HistV {
    HistV { entries: h.entries, draft: h.draft, cursor: 0, max: h.max }
}

/// Appending an entry: a repeat of the most recent entry is dropped; at
/// capacity the oldest entry is evicted first; capacity 0 stores nothing.
pub open spec fn push_spec(h: HistV, e: Seq<char>) -> HistV {
    if h.entries.len() > 0 && h.entries.last() == e {
        h
    } else if h.max <= 0 {
        h
    } else if h.entries.len() >= h.max {
        HistV { entries: h.entries.drop_first().push(e), draft: h.draft, cursor: h.cursor, max: h.max }
    } else {
        HistV { entries: h.entries.push(e), draft: h.draft, cursor: h.cursor, max: h.max }
    }
}

/// All of `items` pushed in order.
pub open spec fn push_all(h: HistV, items: Seq<Seq<char>>) -> HistV
    decreases items.len(),
{
    if items.len() == 0 {
        h
    } else {
        push_spec(push_all(h, items.drop_last()), items.last())
    }
}

/// No two consecutive items equal.
pub open spec fn adjacent_distinct(items: Seq<Seq<char>>) -> bool {
    forall|i: int| 0 < i < items.len() ==> #[trigger] items[i] != items[i - 1]
}

/// Law: pushing the same entry twice in a row stores it only once.
pub proof fn lemma_push_dedup(h: HistV, e: Seq<char>)
    requires
        h.wf(),
    ensures
        push_spec(push_spec(h, e), e) == push_spec(h, e),
{
    let h1 = push_spec(h, e);
    if !(h.entries.len() > 0 && h.entries.last() == e) && h.max >= 1 {
        assert(h1.entries.last() == e);
    }
}

/// Law: from the idle state, caching the draft and browsing one entry
/// older then one newer recalls exactly the cached draft, back in the idle
/// state.
pub proof fn lemma_draft_round_trip(h: HistV, d: Seq<char>)
    requires
        h.wf(),
        h.cursor == 0,
        h.entries.len() > 0,
    ensures
        ({
            let cached = cache_spec(h, d);
            let browsing = older_state(cached);
            &&& older_result(cached) is Some
            &&& newer_result(browsing) == Option::<Seq<char>>::Some(d)
            &&& newer_state(browsing).cursor == 0
            &&& newer_state(browsing).draft == d
        }),
{
}

/// Law: pushing a run of entries, no two consecutive ones equal, into an
/// empty history of capacity `max >= 1` retains exactly the most recent
/// `max` entries, oldest first and newest last.
pub proof fn lemma_push_retains_most_recent(h: HistV, items: Seq<Seq<char>>)
    requires
        h.wf(),
        h.entries.len() == 0,
        h.max >= 1,
        adjacent_distinct(items),
    ensures
        push_all(h, items).entries =~= items.skip(max_int(0, items.len() - h.max)),
        push_all(h, items).max == h.max,
    decreases items.len(),
{
    let n = items.len() as int;
    let m = h.max;
    if n == 0 {
        assert(push_all(h, items).entries =~= items.skip(0));
    } else {
        let front = items.drop_last();
        assert(adjacent_distinct(front)) by {
            assert(forall|i: int|
                0 < i < front.len() ==> #[trigger] front[i] == items[i] && front[i - 1] == items[i
                    - 1]);
        }
        lemma_push_retains_most_recent(h, front);
        let prev = push_all(h, front);
        let kp = max_int(0, n - 1 - m);
        assert(prev.entries =~= front.skip(kp));
        assert(prev.entries.len() == n - 1 - kp);
        let e = items.last();
        if prev.entries.len() > 0 {
            assert(prev.entries.last() == items[n - 2]);
            assert(e != items[n - 2]);
        }
        let k = max_int(0, n - m);
        if n - 1 - kp >= m {
            assert(kp == n - 1 - m);
            assert(k == n - m);
            assert(push_spec(prev, e).entries =~= prev.entries.drop_first().push(e));
            assert(prev.entries.drop_first().push(e) =~= items.skip(k));
        } else {
            assert(kp == 0);
            assert(n - 1 < m);
            assert(k == 0);
            assert(push_spec(prev, e).entries =~= front.push(e));
            assert(front.push(e) =~= items.skip(0));
        }
    }
}

/// The command history.
pub struct History {
    entries: Vec<String>,
    draft: String,
    cursor: usize,
    max_size: usize,
}

impl View for History {
    type V = HistV;

    closed spec fn view(&self) -> HistV {
        HistV {
            entries: self.entries@.map_values(|e: String| e@),
            draft: self.draft@,
            cursor: self.cursor as int,
            max: self.max_size as int,
        }
    }
}

impl History {
    /// A fresh history bounded by `max_size` entries.
    pub fn new(max_size: usize) -> (r: History)
        ensures
            r@ == (HistV {
                entries: Seq::<Seq<char>>::empty(),
                draft: Seq::<char>::empty(),
                cursor: 0,
                max: max_size as int,
            }),
            r@.wf(),
    {
        let r = History { entries: Vec::new(), draft: String::new(), cursor: 0, max_size };
        proof {
            assert(r@.entries =~= Seq::<Seq<char>>::empty());
        }
        r
    }

    /// Browse one step older (arrow Up); returns the recalled entry, or
    /// nothing when already at the oldest entry or the history is empty.
    pub fn get_next(&mut self) -> (r: Option<String>)
        requires
            old(self)@.wf(),
        ensures
            final(self)@ == older_state(old(self)@),
            final(self)@.wf(),
            match r {
                Option::Some(s) => older_result(old(self)@) == Option::Some(s@),
                Option::None => older_result(old(self)@) is None,
            },
    {
        if self.cursor < self.entries.len() {
            self.cursor = self.cursor + 1;
            let idx = self.entries.len() - self.cursor;
            Option::Some(self.entries[idx].clone())
        } else {
            Option::None
        }
    }

    /// Browse one step newer (arrow Down); returns the recalled entry — the
    /// cached draft when the step reaches the idle state — or nothing when
    /// already idle.
    pub fn get_prev(&mut self) -> (r: Option<String>)
        requires
            old(self)@.wf(),
        ensures
            final(self)@ == newer_state(old(self)@),
            final(self)@.wf(),
            match r {
                Option::Some(s) => newer_result(old(self)@) == Option::Some(s@),
                Option::None => newer_result(old(self)@) is None,
            },
    {
        if self.cursor == 0 {
            Option::None
        } else {
            self.cursor = self.cursor - 1;
            if self.cursor == 0 {
                Option::Some(self.draft.clone())
            } else {
                let idx = self.entries.len() - self.cursor;
                Option::Some(self.entries[idx].clone())
            }
        }
    }

    /// Leave browsing: the cursor returns to the idle state.
    pub fn reset(&mut self)
        requires
            old(self)@.wf(),
        ensures
            final(self)@ == reset_spec(old(self)@),
            final(self)@.wf(),
    {
        self.cursor = 0;
    }

    /// Store a submitted line. A repeat of the most recent entry is
    /// dropped; at capacity the oldest entry is evicted first.
    pub fn push(&mut self, entry: &str)
        requires
            old(self)@.wf(),
        ensures
            final(self)@ == push_spec(old(self)@, entry@),
            final(self)@.wf(),
    {
        let n = self.entries.len();
        if n > 0 {
            if str_eq(self.entries[n - 1].as_str(), entry) {
                return ;
            }
        }
        if self.max_size == 0 {
            return ;
        }
        let ghost old_entries = self@.entries;
        if n >= self.max_size {
            self.entries.remove(0);
            self.entries.push(entry.to_owned());
            proof {
                assert(self@.entries =~= old_entries.drop_first().push(entry@));
            }
        } else {
            self.entries.push(entry.to_owned());
            proof {
                assert(self@.entries =~= old_entries.push(entry@));
            }
        }
    }

    /// Snapshot the in-progress input into the draft slot; called when
    /// browsing starts, and a no-op while already browsing.
    pub fn cache_user_input(&mut self, input: &str)
        requires
            old(self)@.wf(),
        ensures
            final(self)@ == cache_spec(old(self)@, input@),
            final(self)@.wf(),
    {
        if self.cursor != 0 {
            return ;
        }
        self.draft = input.to_owned();
    }
}

} // verus!
