use vstd::prelude::*;

verus! {

/// The cursor after one step down a list of `len` entries: the first entry when
/// nothing is selected, wrapping from the last entry to the first. An empty list
/// keeps its cursor.
pub open spec fn next_index(sel: Option<usize>, len: nat) -> Option<usize> {
    if len == 0 {
        sel
    } else {
        match sel {
            None => Some(0usize),
            Some(i) => if i + 1 >= len {
                Some(0usize)
            } else {
                Some((i + 1) as usize)
            },
        }
    }
}

/// The cursor after one step up a list of `len` entries: the first entry when
/// nothing is selected, wrapping from the first entry to the last.
pub open spec fn previous_index(sel: Option<usize>, len: nat) -> Option<usize> {
    if len == 0 {
        sel
    } else {
        match sel {
            None => Some(0usize),
            Some(i) => if i == 0 {
                Some((len - 1) as usize)
            } else {
                Some((i - 1) as usize)
            },
        }
    }
}

/// The cursor after `k` steps down.
pub open spec fn advance_times(sel: Option<usize>, len: nat, k: nat) -> Option<usize>
    decreases k,
{
    if k == 0 {
        sel
    } else {
        next_index(advance_times(sel, len, (k - 1) as nat), len)
    }
}

/// The cursor after a run of moves, `true` for a step down, `false` for a step up.
pub open spec fn after_moves(sel: Option<usize>, len: nat, moves: Seq<bool>) -> Option<usize>
    decreases moves.len(),
{
    if moves.len() == 0 {
        sel
    } else {
        let before = after_moves(sel, len, moves.drop_last());
        if moves.last() {
            next_index(before, len)
        } else {
            previous_index(before, len)
        }
    }
}

/// A cursor that is absent or points into a list of `len` entries.
pub open spec fn cursor_fits(sel: Option<usize>, len: nat) -> bool {
    match sel {
        None => true,
        Some(i) => i < len,
    }
}

pub fn step_down(sel: Option<usize>, len: usize) -> (r: Option<usize>)
    ensures
        r == next_index(sel, len as nat),
{
    if len == 0 {
        return sel;
    }
    match sel {
        None => Some(0),
        Some(i) => if i >= len - 1 {
            Some(0)
        } else {
            Some(i + 1)
        },
    }
}

pub fn step_up(sel: Option<usize>, len: usize) -> (r: Option<usize>)
    ensures
        r == previous_index(sel, len as nat),
{
    if len == 0 {
        return sel;
    }
    match sel {
        None => Some(0),
        Some(i) => if i == 0 {
            Some(len - 1)
        } else {
            Some(i - 1)
        },
    }
}

/// On a non-empty list, any run of steps up and down leaves a cursor that points
/// into the list, and after at least one step the cursor is present.
pub proof fn lemma_moves_stay_in_range(sel: Option<usize>, len: nat, moves: Seq<bool>)
    requires
        len > 0,
        cursor_fits(sel, len),
    ensures
        cursor_fits(after_moves(sel, len, moves), len),
        moves.len() > 0 ==> after_moves(sel, len, moves) is Some,
    decreases moves.len(),
{
    if moves.len() > 0 {
        lemma_moves_stay_in_range(sel, len, moves.drop_last());
    }
}

proof fn lemma_advance_offset(s: usize, len: nat, k: nat)
    requires
        s < len,
        len <= usize::MAX,
        k <= len,
    ensures
        s + k < len ==> advance_times(Some(s), len, k) == Some((s + k) as usize),
        s + k >= len ==> advance_times(Some(s), len, k) == Some((s + k - len) as usize),
    decreases k,
{
    if k > 0 {
        lemma_advance_offset(s, len, (k - 1) as nat);
    }
}

/// On a list of `len` entries, `len` steps down from a selected entry come back to it.
pub proof fn lemma_full_cycle(s: usize, len: nat)
    requires
        s < len,
        len <= usize::MAX,
    ensures
        advance_times(Some(s), len, len) == Some(s),
{
    lemma_advance_offset(s, len, len);
}

/// An ordered list of labels with an optional cursor.
pub struct SelectableList {
    items: Vec<String>,
    selected: Option<usize>,
}

impl SelectableList {
    pub closed spec fn labels(&self) -> Seq<Seq<char>> {
        self.items.deep_view()
    }

    pub closed spec fn selection(&self) -> Option<usize> {
        self.selected
    }

    /// The cursor points into the list, and an empty list has none.
    pub open spec fn wf(&self) -> bool {
        cursor_fits(self.selection(), self.labels().len())
    }

    pub fn new(items: Vec<String>) -> (r: SelectableList)
        ensures
            r.labels() == items.deep_view(),
            r.selection() is None,
            r.wf(),
    {
        SelectableList { items, selected: None }
    }

    pub fn len(&self) -> (r: usize)
        ensures
            r == self.labels().len(),
    {
        self.items.len()
    }

    pub fn selected(&self) -> (r: Option<usize>)
        ensures
            r == self.selection(),
    {
        self.selected
    }

    pub fn items(&self) -> (r: &Vec<String>)
        ensures
            r.deep_view() == self.labels(),
    {
        &self.items
    }

    /// Moves the cursor one entry down, wrapping to the top.
    pub fn next(&mut self)
        requires
            old(self).wf(),
        ensures
            final(self).wf(),
            final(self).labels() == old(self).labels(),
            final(self).selection() == next_index(old(self).selection(), old(self).labels().len()),
    {
        self.selected = step_down(self.selected, self.items.len());
    }

    /// Moves the cursor one entry up, wrapping to the bottom.
    pub fn previous(&mut self)
        requires
            old(self).wf(),
        ensures
            final(self).wf(),
            final(self).labels() == old(self).labels(),
            final(self).selection() == previous_index(old(self).selection(), old(self).labels().len()),
    {
        self.selected = step_up(self.selected, self.items.len());
    }

    pub fn unselect(&mut self)
        ensures
            final(self).labels() == old(self).labels(),
            final(self).selection() is None,
            final(self).wf(),
    {
        self.selected = None;
    }

    /// Takes a new sequence of labels. An equal sequence changes nothing; a different
    /// one replaces the labels and drops the cursor.
    pub fn set_items(&mut self, items: Vec<String>)
        requires
            old(self).wf(),
        ensures
            final(self).wf(),
            final(self).labels() == items.deep_view(),
            old(self).labels() == items.deep_view() ==> final(self).selection() == old(self).selection(),
            old(self).labels() != items.deep_view() ==> final(self).selection() is None,
    {
        if !strings_equal(&self.items, &items) {
            self.items = items;
            self.selected = None;
        } else {
            proof {
                assert(self.items.deep_view() =~= items.deep_view());
            }
        }
    }
}

/// Whether two lists of strings hold the same strings in the same order.
pub fn strings_equal(a: &Vec<String>, b: &Vec<String>) -> (r: bool)
    ensures
        r == (a.deep_view() == b.deep_view()),
{
    if a.len() != b.len() {
        proof {
            assert(a.deep_view().len() != b.deep_view().len());
        }
        return false;
    }
    let mut i: usize = 0;
    while i < a.len()
        invariant
            a.len() == b.len(),
            i <= a.len(),
            forall|j: int| 0 <= j < i ==> a.deep_view()[j] == b.deep_view()[j],
        decreases a.len() - i,
    {
        if !(a[i] == b[i]) {
            proof {
                assert(a.deep_view()[i as int] != b.deep_view()[i as int]);
            }
            return false;
        }
        i += 1;
    }
    proof {
        assert(a.deep_view() =~= b.deep_view());
    }
    true
}

} // verus!
