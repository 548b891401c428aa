//! A list of text items with a selection that moves with wrap-around.

use vstd::prelude::*;
use crate::text::views;

verus! {

/// The selection after moving down: the next item, from the last back to the
/// first; the first item when nothing was selected; nothing in an empty list.
pub open spec fn next_sel(sel: Option<usize>, len: nat) -> Option<usize> {
    if len == 0 {
        sel
    } else {
        match sel {
            Some(i) => if i + 1 >= len {
                Some(0usize)
            } else {
                Some((i + 1) as usize)
            },
            None => Some(0usize),
        }
    }
}

/// The selection after moving up: the previous item, from the first round to
/// the last; the first item when nothing was selected.
pub open spec fn prev_sel(sel: Option<usize>, len: nat) -> Option<usize> {
    if len == 0 {
        sel
    } else {
        match sel {
            Some(i) => if i == 0 {
                Some((len - 1) as usize)
            } else {
                Some((i - 1) as usize)
            },
            None => Some(0usize),
        }
    }
}

/// The index that a selection stands for: none counts as the first.
pub open spec fn index_of(sel: Option<usize>) -> nat {
    match sel {
        Some(i) => i as nat,
        None => 0,
    }
}

/// The selection that `select(index)` leaves: an index past the end stands
/// for the last item.
pub open spec fn clamp_sel(index: Option<usize>, len: nat) -> Option<usize> {
    match index {
        Some(i) => if i < len {
            Some(i)
        } else if len > 0 {
            Some((len - 1) as usize)
        } else {
            None
        },
        None => None,
    }
}

/// A selectable list of items.
pub struct SelectableList {
    items: Vec<String>,
    selected: Option<usize>,
}

impl SelectableList {
    #[verifier::type_invariant]
    spec fn wf(self) -> bool {
        self.selected matches Some(i) ==> i < self.items.len()
    }

    /// The items' texts.
    pub closed spec fn item_views(&self) -> Seq<Seq<char>> {
        views(self.items@)
    }

    /// The selection.
    pub closed spec fn sel(&self) -> Option<usize> {
        self.selected
    }

    /// A list of `items`, its first item selected (none if it is empty).
    pub fn new(items: Vec<String>) -> (l: Self)
        ensures
            l.item_views() == views(items@),
            l.sel() == (if items.len() > 0 {
                Some(0usize)
            } else {
                None
            }),
    {
        let selected = if items.len() > 0 {
            Some(0)
        } else {
            None
        };
        SelectableList { items, selected }
    }

    pub fn items(&self) -> (r: &Vec<String>)
        ensures
            views(r@) == self.item_views(),
    {
        &self.items
    }

    pub fn len(&self) -> (n: usize)
        ensures
            n == self.item_views().len(),
    {
        self.items.len()
    }

    /// The selection; when present it is the index of an item.
    pub fn selected(&self) -> (s: Option<usize>)
        ensures
            s == self.sel(),
            s matches Some(i) ==> i < self.item_views().len(),
    {
        proof {
            use_type_invariant(self);
        }
        self.selected
    }

    /// The index of the selected item (0 when nothing is selected).
    pub fn selected_index(&self) -> (i: usize)
        ensures
            i == index_of(self.sel()),
            self.item_views().len() > 0 ==> i < self.item_views().len(),
            self.item_views().len() == 0 ==> i == 0,
    {
        proof {
            use_type_invariant(self);
        }
        match self.selected {
            Some(i) => i,
            None => 0,
        }
    }

    /// Moves the selection down, wrapping from the last item to the first.
    pub fn next(&mut self)
        ensures
            final(self).item_views() == old(self).item_views(),
            final(self).sel() == next_sel(old(self).sel(), old(self).item_views().len()),
    {
        proof {
            use_type_invariant(&*self);
        }
        let len = self.items.len();
        if len > 0 {
            let s = match self.selected {
                Some(i) => if i + 1 >= len {
                    0
                } else {
                    i + 1
                },
                None => 0,
            };
            self.selected = Some(s);
        }
    }

    /// Moves the selection up, wrapping from the first item to the last.
    pub fn previous(&mut self)
        ensures
            final(self).item_views() == old(self).item_views(),
            final(self).sel() == prev_sel(old(self).sel(), old(self).item_views().len()),
    {
        proof {
            use_type_invariant(&*self);
        }
        let len = self.items.len();
        if len > 0 {
            let s = match self.selected {
                Some(i) => if i == 0 {
                    len - 1
                } else {
                    i - 1
                },
                None => 0,
            };
            self.selected = Some(s);
        }
    }

    /// Selects `index`; an index past the end selects the last item.
    pub fn select(&mut self, index: Option<usize>)
        ensures
            final(self).item_views() == old(self).item_views(),
            final(self).sel() == clamp_sel(index, old(self).item_views().len()),
    {
        let len = self.items.len();
        self.selected = match index {
            Some(i) => if i < len {
                Some(i)
            } else if len > 0 {
                Some(len - 1)
            } else {
                None
            },
            None => None,
        };
    }
}

/// Moving down and then up comes back to the item one started from.
pub proof fn lemma_next_then_previous(sel: Option<usize>, len: nat)
    requires
        0 < len <= usize::MAX,
        sel matches Some(i) && i < len,
    ensures
        prev_sel(next_sel(sel, len), len) == sel,
{
}

/// Moving up and then down comes back to the item one started from.
pub proof fn lemma_previous_then_next(sel: Option<usize>, len: nat)
    requires
        0 < len <= usize::MAX,
        sel matches Some(i) && i < len,
    ensures
        next_sel(prev_sel(sel, len), len) == sel,
{
}

/// Either move keeps a selection within the list, and selects something in a
/// non-empty list.
pub proof fn lemma_moves_stay_in_range(sel: Option<usize>, len: nat)
    requires
        sel matches Some(i) ==> i < len,
    ensures
        next_sel(sel, len) matches Some(i) ==> i < len,
        prev_sel(sel, len) matches Some(i) ==> i < len,
        len > 0 ==> next_sel(sel, len) is Some && prev_sel(sel, len) is Some,
{
}

} // verus!
