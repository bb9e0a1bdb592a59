//! The message history: an append-only log and an optional selection in it.
//!
//! Selection moves in a circle: past the last entry it returns to the first,
//! and before the first it returns to the last.

use vstd::prelude::*;
use vstd::arithmetic::div_mod::{
    lemma_fundamental_div_mod, lemma_fundamental_div_mod_converse, lemma_mod_pos_bound,
    lemma_mod_self_0, lemma_small_mod,
};

verus! {

/// The remainder of `value + 1` is the remainder of `value` moved one step
/// round the circle of `modulus` places.
proof fn lemma_mod_successor(value: int, modulus: int)
    requires
        0 <= value,
        0 < modulus,
    ensures
        (value + 1) % modulus == if value % modulus + 1 >= modulus {
            0
        } else {
            value % modulus + 1
        },
{
    let quotient = value / modulus;
    let rest = value % modulus;
    lemma_fundamental_div_mod(value, modulus);
    lemma_mod_pos_bound(value, modulus);
    if rest + 1 >= modulus {
        assert(value + 1 == (quotient + 1) * modulus + 0) by (nonlinear_arith)
            requires
                value == modulus * quotient + rest,
                rest + 1 == modulus,
        ;
        lemma_fundamental_div_mod_converse(value + 1, modulus, quotient + 1, 0);
    } else {
        assert(value + 1 == quotient * modulus + (rest + 1)) by (nonlinear_arith)
            requires
                value == modulus * quotient + rest,
        ;
        lemma_fundamental_div_mod_converse(value + 1, modulus, quotient, rest + 1);
    }
}

/// What a history holds: the entries, oldest first, and the index of the
/// selected one, if any.
pub struct HistoryView {
    pub entries: Seq<Seq<char>>,
    pub selected: Option<int>,
}

impl HistoryView {
    /// A selection points at an entry. An empty history has none.
    pub open spec fn wf(self) -> bool {
        match self.selected {
            Some(index) => 0 <= index < self.entries.len(),
            None => true,
        }
    }

    /// No entries, nothing selected.
    pub open spec fn empty() -> HistoryView {
        HistoryView { entries: Seq::empty(), selected: None }
    }

    /// `message` becomes the newest entry; the selection stays.
    pub open spec fn append(self, message: Seq<char>) -> HistoryView {
        HistoryView { entries: self.entries.push(message), selected: self.selected }
    }

    /// The selection moves to the entry before it, from the first entry to
    /// the last; with nothing selected the last entry is taken. An empty
    /// history is left as it is.
    pub open spec fn select_previous(self) -> HistoryView {
        if self.entries.len() == 0 {
            self
        } else {
            let last = self.entries.len() - 1;
            let index = match self.selected {
                Some(index) => if index == 0 { last } else { index - 1 },
                None => last,
            };
            HistoryView { entries: self.entries, selected: Some(index) }
        }
    }

    /// The selection moves to the entry after it, from the last entry to the
    /// first; with nothing selected the first entry is taken. An empty
    /// history is left as it is.
    pub open spec fn select_next(self) -> HistoryView {
        if self.entries.len() == 0 {
            self
        } else {
            let index = match self.selected {
                Some(index) => if index + 1 >= self.entries.len() { 0 } else { index + 1 },
                None => 0,
            };
            HistoryView { entries: self.entries, selected: Some(index) }
        }
    }

    /// Nothing is selected any more.
    pub open spec fn clear_selection(self) -> HistoryView {
        HistoryView { entries: self.entries, selected: None }
    }

    /// The selected entry.
    pub open spec fn get_selected(self) -> Option<Seq<char>> {
        match self.selected {
            Some(index) => Some(self.entries[index]),
            None => None,
        }
    }

    /// The history after `count` steps of [`HistoryView::select_next`].
    pub open spec fn select_next_times(self, count: nat) -> HistoryView
        decreases count,
    {
        if count == 0 {
            self
        } else {
            self.select_next_times((count - 1) as nat).select_next()
        }
    }

    /// Every operation keeps the selection on an entry.
    pub proof fn lemma_operations_keep_wf(self, message: Seq<char>)
        requires
            self.wf(),
        ensures
            self.append(message).wf(),
            self.select_previous().wf(),
            self.select_next().wf(),
            self.clear_selection().wf(),
    {
    }

    /// Entries stay as they were appended: an append adds one entry at the
    /// end, and no other operation touches the entries.
    pub proof fn lemma_entries_only_grow(self, message: Seq<char>)
        ensures
            self.append(message).entries.len() == self.entries.len() + 1,
            self.append(message).entries.last() == message,
            self.append(message).entries.drop_last() == self.entries,
            self.select_previous().entries == self.entries,
            self.select_next().entries == self.entries,
            self.clear_selection().entries == self.entries,
    {
        assert(self.append(message).entries.drop_last() =~= self.entries);
    }

    /// On an empty history neither selection step selects anything.
    pub proof fn lemma_empty_history_selects_nothing(self)
        requires
            self.wf(),
            self.entries.len() == 0,
        ensures
            self.select_previous().selected is None,
            self.select_next().selected is None,
    {
    }

    /// Stepping forward walks the selection round the entries: `count` steps
    /// from entry `index` lead to entry `(index + count) mod n`, and from no
    /// selection the first step leads to entry 0.
    pub proof fn lemma_select_next_walks_circle(self, count: nat)
        requires
            self.wf(),
            self.entries.len() > 0,
        ensures
            self.select_next_times(count).entries == self.entries,
            self.select_next_times(count).wf(),
            self.selected matches Some(index) ==> self.select_next_times(count).selected == Some(
                (index + count) % (self.entries.len() as int),
            ),
            self.selected is None && count > 0 ==> self.select_next_times(count).selected == Some(
                (count - 1) % (self.entries.len() as int),
            ),
        decreases count,
    {
        let n = self.entries.len() as int;
        if count == 0 {
            if let Some(index) = self.selected {
                lemma_small_mod(index as nat, n as nat);
            }
        } else {
            self.lemma_select_next_walks_circle((count - 1) as nat);
            match self.selected {
                Some(index) => {
                    lemma_mod_successor(index + count - 1, n);
                },
                None => {
                    if count == 1 {
                        lemma_small_mod(0, n as nat);
                    } else {
                        lemma_mod_successor(count - 2, n);
                    }
                },
            }
        }
    }

    /// With `n` entries and the first one selected, stepping forward visits
    /// the entries 0, 1, .., n - 1 in turn, and the n-th step is back on
    /// entry 0.
    pub proof fn lemma_select_next_returns_after_all(self)
        requires
            self.wf(),
            self.entries.len() > 0,
            self.selected == Some(0int),
        ensures
            forall|count: nat|
                count < self.entries.len() ==> (#[trigger] self.select_next_times(
                    count,
                )).selected == Some(count as int),
            self.select_next_times(self.entries.len()).selected == Some(0int),
    {
        let n = self.entries.len();
        assert forall|count: nat| count < n implies (#[trigger] self.select_next_times(
            count,
        )).selected == Some(count as int) by {
            self.lemma_select_next_walks_circle(count);
            lemma_small_mod(count, n);
        }
        self.lemma_select_next_walks_circle(n);
        lemma_mod_self_0(n as int);
    }

    /// A step back undoes a step forward, wherever the selection stood.
    pub proof fn lemma_select_previous_undoes_next(self)
        requires
            self.wf(),
            self.selected is Some,
        ensures
            self.select_next().select_previous() == self,
            self.select_previous().select_next() == self,
    {
    }
}

/// The log of messages with its selection.
#[derive(Debug)]
pub struct HistoryStore {
    entries: Vec<String>,
    selected: Option<usize>,
}

impl View for HistoryStore {
    type V = HistoryView;

    closed spec fn view(&self) -> HistoryView {
        HistoryView {
            entries: self.entries.deep_view(),
            selected: match self.selected {
                Some(index) => Some(index as int),
                None => None,
            },
        }
    }
}

impl HistoryStore {
    #[verifier::type_invariant]
    spec fn selection_in_entries(&self) -> bool {
        match self.selected {
            Some(index) => index < self.entries@.len(),
            None => true,
        }
    }

    /// An empty history with nothing selected.
    pub fn new() -> (history: Self)
        ensures
            history@ == HistoryView::empty(),
    {
        let history = HistoryStore { entries: Vec::new(), selected: None };
        assert(history.entries.deep_view() =~= Seq::<Seq<char>>::empty());
        history
    }

    /// The entries, oldest first.
    pub fn entries(&self) -> (entries: &Vec<String>)
        ensures
            entries.deep_view() == self@.entries,
    {
        &self.entries
    }

    /// The number of entries.
    pub fn len(&self) -> (len: usize)
        ensures
            len == self@.entries.len(),
    {
        self.entries.len()
    }

    /// The index of the selected entry, if one is selected. It is always the
    /// index of an entry.
    pub fn selected(&self) -> (selected: Option<usize>)
        ensures
            selected.is_some() == self@.selected.is_some(),
            selected matches Some(index) ==> self@.selected == Some(index as int),
            self@.wf(),
    {
        proof {
            use_type_invariant(self);
        }
        self.selected
    }

    /// Appends `message` as the newest entry. The selection does not move.
    pub fn append(&mut self, message: String)
        ensures
            final(self)@ == old(self)@.append(message@),
            final(self)@.wf(),
    {
        proof {
            use_type_invariant(&*self);
        }
        // The entries leave the store while they grow, and the selection
        // with them, so that the store never holds a selection without its
        // entry.
        let selected = self.selected;
        self.selected = None;
        let mut entries = Vec::new();
        std::mem::swap(&mut entries, &mut self.entries);
        entries.push(message);
        self.entries = entries;
        self.selected = selected;
        assert(self.entries.deep_view() =~= old(self).entries.deep_view().push(message@));
    }

    /// Selects the entry before the selected one, or the last entry.
    pub fn select_previous(&mut self)
        ensures
            final(self)@ == old(self)@.select_previous(),
            final(self)@.wf(),
            old(self)@.entries.len() == 0 ==> final(self)@.selected.is_none(),
    {
        proof {
            use_type_invariant(&*self);
        }
        let len = self.entries.len();
        if len > 0 {
            self.selected = match self.selected {
                Some(index) => if index == 0 { Some(len - 1) } else { Some(index - 1) },
                None => Some(len - 1),
            };
        }
    }

    /// Selects the entry after the selected one, or the first entry.
    pub fn select_next(&mut self)
        ensures
            final(self)@ == old(self)@.select_next(),
            final(self)@.wf(),
            old(self)@.entries.len() == 0 ==> final(self)@.selected.is_none(),
    {
        proof {
            use_type_invariant(&*self);
        }
        let len = self.entries.len();
        if len > 0 {
            self.selected = match self.selected {
                Some(index) => if len - index <= 1 { Some(0) } else { Some(index + 1) },
                None => Some(0),
            };
        }
    }

    /// Drops the selection.
    pub fn clear_selection(&mut self)
        ensures
            final(self)@ == old(self)@.clear_selection(),
    {
        self.selected = None;
    }

    /// A copy of the selected entry, or `None` when nothing is selected.
    pub fn get_selected(&self) -> (entry: Option<String>)
        ensures
            entry.deep_view() == self@.get_selected(),
    {
        proof {
            use_type_invariant(self);
        }
        match self.selected {
            Some(index) => Some(self.entries[index].clone()),
            None => None,
        }
    }
}

} // verus!
