use vstd::prelude::*;

verus! {

/// Index that follows `i` in a list of `n` items, wrapping from the last to the first.
/// An index at or past the end (the list shrank) also wraps to the first item.
pub open spec fn down_index(i: nat, n: nat) -> nat
    recommends
        n > 0,
{
    if i + 1 >= n {
        0
    } else {
        i + 1
    }
}

/// Index that precedes `i` in a list of `n` items, wrapping from the first to the last.
/// An index past the end (the list shrank) moves to the last item.
pub open spec fn up_index(i: nat, n: nat) -> nat
    recommends
        n > 0,
{
    if i == 0 || i >= n {
        (n - 1) as nat
    } else {
        (i - 1) as nat
    }
}

/// Where the cursor stands after `k` moves down from `i` in a list of `n` items.
pub open spec fn down_times(i: nat, n: nat, k: nat) -> nat
    decreases k,
{
    if k == 0 {
        i
    } else {
        down_index(down_times(i, n, (k - 1) as nat), n)
    }
}

/// Where the cursor stands after `k` moves up from `i` in a list of `n` items.
pub open spec fn up_times(i: nat, n: nat, k: nat) -> nat
    decreases k,
{
    if k == 0 {
        i
    } else {
        up_index(up_times(i, n, (k - 1) as nat), n)
    }
}

proof fn lemma_down_times_offset(i: nat, n: nat, k: nat)
    requires
        i < n,
        k <= n,
    ensures
        down_times(i, n, k) == if i + k < n { i + k } else { (i + k - n) as nat },
    decreases k,
{
    if k > 0 {
        lemma_down_times_offset(i, n, (k - 1) as nat);
    }
}

proof fn lemma_up_times_offset(i: nat, n: nat, k: nat)
    requires
        i < n,
        k <= n,
    ensures
        up_times(i, n, k) == if i >= k { (i - k) as nat } else { (i + n - k) as nat },
    decreases k,
{
    if k > 0 {
        lemma_up_times_offset(i, n, (k - 1) as nat);
    }
}

/// In a list of `n > 0` items, `n` moves down from any valid index come back to
/// it, and so do `n` moves up.
pub proof fn lemma_full_cycle(i: nat, n: nat)
    requires
        n > 0,
        i < n,
    ensures
        down_times(i, n, n) == i,
        up_times(i, n, n) == i,
{
    lemma_down_times_offset(i, n, n);
    lemma_up_times_offset(i, n, n);
}

/// From any valid index, a move down followed by a move up returns to it, and
/// so does a move up followed by a move down.
pub proof fn lemma_down_up_inverse(i: nat, n: nat)
    requires
        n > 0,
        i < n,
    ensures
        up_index(down_index(i, n), n) == i,
        down_index(up_index(i, n), n) == i,
        down_index(i, n) < n,
        up_index(i, n) < n,
{
}

/// The selection after a move down in a list of `n` items: none in an empty
/// list, the first item when nothing was selected.
pub open spec fn moved_down(sel: Option<usize>, n: nat) -> Option<usize> {
    if n == 0 {
        None
    } else {
        match sel {
            Some(i) => Some(down_index(i as nat, n) as usize),
            None => Some(0usize),
        }
    }
}

/// The selection after a move up in a list of `n` items: none in an empty
/// list, the last item when nothing was selected.
pub open spec fn moved_up(sel: Option<usize>, n: nat) -> Option<usize> {
    if n == 0 {
        None
    } else {
        match sel {
            Some(i) => Some(up_index(i as nat, n) as usize),
            None => Some((n - 1) as usize),
        }
    }
}

/// The cursor of one navigable list: the index of the highlighted item, if any.
#[derive(Clone, Copy, Debug, PartialEq, Eq, Structural)]
pub struct SelectionState {
    pub selected: Option<usize>,
}

impl SelectionState {
    /// A cursor on the first item.
    pub fn new() -> (r: SelectionState)
        ensures
            r.selected == Some(0usize),
    {
        SelectionState { selected: Some(0) }
    }

    /// A cursor with nothing highlighted.
    pub fn none() -> (r: SelectionState)
        ensures
            r.selected.is_none(),
    {
        SelectionState { selected: None }
    }

    pub fn selected(&self) -> (r: Option<usize>)
        ensures
            r == self.selected,
    {
        self.selected
    }

    pub fn select(&mut self, index: Option<usize>)
        ensures
            final(self).selected == index,
    {
        self.selected = index;
    }

    /// Moves the cursor one item down in a list that now holds `len` items.
    /// On an empty list nothing can be selected; with no current selection
    /// the cursor lands on the first item.
    pub fn select_down(&mut self, len: usize)
        ensures
            final(self).selected == moved_down(old(self).selected, len as nat),
            len == 0 ==> final(self).selected.is_none(),
            len > 0 ==> final(self).selected.unwrap() < len,
    {
        if len == 0 {
            self.selected = None;
        } else {
            match self.selected {
                Some(i) => {
                    if i >= len - 1 {
                        self.selected = Some(0);
                    } else {
                        self.selected = Some(i + 1);
                    }
                },
                None => {
                    self.selected = Some(0);
                },
            }
        }
    }

    /// Moves the cursor one item up in a list that now holds `len` items.
    /// On an empty list nothing can be selected; with no current selection
    /// the cursor lands on the last item.
    pub fn select_up(&mut self, len: usize)
        ensures
            final(self).selected == moved_up(old(self).selected, len as nat),
            len == 0 ==> final(self).selected.is_none(),
            len > 0 ==> final(self).selected.unwrap() < len,
    {
        if len == 0 {
            self.selected = None;
        } else {
            match self.selected {
                Some(i) => {
                    if i == 0 || i >= len {
                        self.selected = Some(len - 1);
                    } else {
                        self.selected = Some(i - 1);
                    }
                },
                None => {
                    self.selected = Some(len - 1);
                },
            }
        }
    }
}

} // verus!
