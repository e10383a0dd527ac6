//! A list of items with at most one of them selected, and a selection that
//! wraps around at both ends.

use vstd::prelude::*;

verus! {

/// The selection after a step down a list of `len` items: the first item
/// where nothing was selected or the selection stood on the last item or
/// beyond it, else the item after the selected one. An empty list has no
/// selection.
pub open spec fn next_selection(selected: Option<int>, len: int) -> Option<int> {
    if len <= 0 {
        None
    } else {
        match selected {
            None => Some(0),
            Some(i) => if i >= len - 1 {
                Some(0)
            } else {
                Some(i + 1)
            },
        }
    }
}

/// The selection after a step up a list of `len` items: the first item where
/// nothing was selected, the last item where the selection stood on the first
/// item or beyond the last, else the item before the selected one. An empty
/// list has no selection.
pub open spec fn previous_selection(selected: Option<int>, len: int) -> Option<int> {
    if len <= 0 {
        None
    } else {
        match selected {
            None => Some(0),
            Some(i) => if i <= 0 || i > len - 1 {
                Some(len - 1)
            } else {
                Some(i - 1)
            },
        }
    }
}

/// The selection that a list of `len` items keeps of an earlier one: the
/// same index where the list still has it, the last item where it has not,
/// the first item where nothing was selected. An empty list has no
/// selection.
pub open spec fn kept_selection(selected: Option<int>, len: int) -> Option<int> {
    if len <= 0 {
        None
    } else {
        match selected {
            None => Some(0),
            Some(i) => if i > len - 1 {
                Some(len - 1)
            } else {
                Some(i)
            },
        }
    }
}

/// The selection after `count` steps down a list of `len` items.
pub open spec fn next_times(selected: Option<int>, len: int, count: nat) -> Option<int>
    decreases count,
{
    if count == 0 {
        selected
    } else {
        next_selection(next_times(selected, len, (count - 1) as nat), len)
    }
}

/// The selection after `count` steps up a list of `len` items.
pub open spec fn previous_times(selected: Option<int>, len: int, count: nat) -> Option<int>
    decreases count,
{
    if count == 0 {
        selected
    } else {
        previous_selection(previous_times(selected, len, (count - 1) as nat), len)
    }
}

/// A selection is valid for a list of `len` items where it names one of them
/// or none.
pub open spec fn valid_selection(selected: Option<int>, len: int) -> bool {
    match selected {
        None => true,
        Some(i) => 0 <= i < len,
    }
}

/// An ordered list of items and the index of the selected one, if any.
pub struct SelectableList<T> {
    pub items: Vec<T>,
    pub selected: Option<usize>,
}

impl<T> SelectableList<T> {
    /// The selected index as a mathematical integer.
    pub open spec fn selection(&self) -> Option<int> {
        match self.selected {
            None => None,
            Some(i) => Some(i as int),
        }
    }

    /// The selection names an item of the list, or nothing is selected.
    pub open spec fn wf(&self) -> bool {
        valid_selection(self.selection(), self.items@.len() as int)
    }

    /// A list of the given items with the first of them selected; with no
    /// selection where there is no item.
    pub fn new(items: Vec<T>) -> (list: Self)
        ensures
            list.items == items,
            items@.len() > 0 ==> list.selected == Some(0usize),
            items@.len() == 0 ==> list.selected is None,
            list.wf(),
    {
        let selected = if items.len() == 0 {
            None
        } else {
            Some(0)
        };
        SelectableList { items, selected }
    }

    /// The number of items.
    pub fn len(&self) -> (len: usize)
        ensures
            len == self.items@.len(),
    {
        self.items.len()
    }

    /// Moves the selection one item down, from the last item to the first.
    /// An empty list keeps no selection.
    pub fn next(&mut self)
        ensures
            final(self).items == old(self).items,
            final(self).selection() == next_selection(
                old(self).selection(),
                old(self).items@.len() as int,
            ),
            old(self).items@.len() == 0 ==> final(self).selected is None,
            final(self).wf(),
    {
        let len: usize = self.items.len();
        self.selected = if len == 0 {
            None
        } else {
            match self.selected {
                None => Some(0),
                Some(i) => if i >= len - 1 {
                    Some(0)
                } else {
                    Some(i + 1)
                },
            }
        };
    }

    /// Moves the selection one item up, from the first item to the last.
    /// An empty list keeps no selection.
    pub fn previous(&mut self)
        ensures
            final(self).items == old(self).items,
            final(self).selection() == previous_selection(
                old(self).selection(),
                old(self).items@.len() as int,
            ),
            old(self).items@.len() == 0 ==> final(self).selected is None,
            final(self).wf(),
    {
        let len: usize = self.items.len();
        self.selected = if len == 0 {
            None
        } else {
            match self.selected {
                None => Some(0),
                Some(i) => if i == 0 || i > len - 1 {
                    Some(len - 1)
                } else {
                    Some(i - 1)
                },
            }
        };
    }

    /// The selected item; none where nothing is selected or the selection
    /// names no item of the list.
    pub fn current(&self) -> (item: Option<&T>)
        ensures
            match self.selected {
                Some(i) if i < self.items@.len() => item == Some(&self.items@[i as int]),
                _ => item is None,
            },
    {
        match self.selected {
            Some(i) => if i < self.items.len() {
                Some(&self.items[i])
            } else {
                None
            },
            None => None,
        }
    }

    /// Replaces the items and keeps the selection as far as the new items
    /// allow: the same index, the last item where the list got shorter than
    /// that, the first item where nothing was selected, and no selection for
    /// an empty list.
    pub fn replace_items(&mut self, items: Vec<T>)
        ensures
            final(self).items == items,
            final(self).selection() == kept_selection(old(self).selection(), items@.len() as int),
            final(self).wf(),
    {
        let len: usize = items.len();
        self.selected = if len == 0 {
            None
        } else {
            match self.selected {
                None => Some(0),
                Some(i) => if i > len - 1 {
                    Some(len - 1)
                } else {
                    Some(i)
                },
            }
        };
        self.items = items;
    }
}

/// Steps down a list add up: `first + second` steps are `first` steps and
/// then `second` steps.
pub proof fn lemma_next_times_add(selected: Option<int>, len: int, first: nat, second: nat)
    ensures
        next_times(selected, len, first + second) == next_times(
            next_times(selected, len, first),
            len,
            second,
        ),
    decreases second,
{
    if second > 0 {
        lemma_next_times_add(selected, len, first, (second - 1) as nat);
    }
}

/// Steps up a list add up: `first + second` steps are `first` steps and then
/// `second` steps.
pub proof fn lemma_previous_times_add(selected: Option<int>, len: int, first: nat, second: nat)
    ensures
        previous_times(selected, len, first + second) == previous_times(
            previous_times(selected, len, first),
            len,
            second,
        ),
    decreases second,
{
    if second > 0 {
        lemma_previous_times_add(selected, len, first, (second - 1) as nat);
    }
}

/// Short of the last item, `count` steps down move the selection `count`
/// items down.
pub proof fn lemma_next_times_run(start: int, len: int, count: nat)
    requires
        0 <= start,
        start + count <= len - 1,
    ensures
        next_times(Some(start), len, count) == Some(start + count),
    decreases count,
{
    if count > 0 {
        lemma_next_times_run(start, len, (count - 1) as nat);
    }
}

/// Short of the first item, `count` steps up move the selection `count` items
/// up.
pub proof fn lemma_previous_times_run(start: int, len: int, count: nat)
    requires
        count <= start <= len - 1,
    ensures
        previous_times(Some(start), len, count) == Some(start - count),
    decreases count,
{
    if count > 0 {
        lemma_previous_times_run(start, len, (count - 1) as nat);
    }
}

/// As many steps down as the list has items lead from any selected item back
/// to it.
pub proof fn law_next_full_cycle(start: int, len: int)
    requires
        0 <= start < len,
    ensures
        next_times(Some(start), len, len as nat) == Some(start),
{
    let to_last = (len - 1 - start) as nat;
    lemma_next_times_run(start, len, to_last);
    lemma_next_times_add(Some(start), len, to_last, 1);
    assert(next_times(Some(start), len, to_last + 1) == Some(0int)) by {
        reveal_with_fuel(next_times, 2);
    }
    lemma_next_times_run(0, len, start as nat);
    lemma_next_times_add(Some(start), len, to_last + 1, start as nat);
    assert(to_last + 1 + start as nat == len as nat);
}

/// As many steps up as the list has items lead from any selected item back to
/// it.
pub proof fn law_previous_full_cycle(start: int, len: int)
    requires
        0 <= start < len,
    ensures
        previous_times(Some(start), len, len as nat) == Some(start),
{
    let to_first = start as nat;
    lemma_previous_times_run(start, len, to_first);
    lemma_previous_times_add(Some(start), len, to_first, 1);
    assert(previous_times(Some(start), len, to_first + 1) == Some(len - 1)) by {
        reveal_with_fuel(previous_times, 2);
    }
    let back = (len - 1 - start) as nat;
    lemma_previous_times_run(len - 1, len, back);
    lemma_previous_times_add(Some(start), len, to_first + 1, back);
    assert(to_first + 1 + back == len as nat);
}

/// Whatever index was selected, a step in either direction leaves a
/// selection that is valid for the list, and none on an empty list.
pub proof fn law_step_keeps_selection_valid(selected: Option<int>, len: int)
    requires
        0 <= len,
        selected matches Some(i) ==> 0 <= i,
    ensures
        valid_selection(next_selection(selected, len), len),
        valid_selection(previous_selection(selected, len), len),
        len == 0 ==> next_selection(selected, len) is None && previous_selection(selected, len)
            is None,
{
}

} // verus!
