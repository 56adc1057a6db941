//! A list of names with at most one of them selected, and a selection that
//! moves through the list in a circle.

use crate::error::ErrorKind;
use vstd::prelude::*;

verus! {

/// Where the selection stands after a step forward in a list of `len` items.
pub open spec fn next_spec(selected: Option<usize>, len: nat) -> Option<usize> {
    if len == 0 {
        None
    } else {
        match selected {
            Some(i) => if i + 1 >= len {
                Some(0)
            } else {
                Some((i + 1) as usize)
            },
            None => Some(0),
        }
    }
}

/// Where the selection stands after a step back in a list of `len` items.
pub open spec fn previous_spec(selected: Option<usize>, len: nat) -> Option<usize> {
    if len == 0 {
        None
    } else {
        match selected {
            Some(i) => if i == 0 {
                Some((len - 1) as usize)
            } else {
                Some((i - 1) as usize)
            },
            None => Some(0),
        }
    }
}

/// A list of items, one of which may be selected.
#[derive(Debug, PartialEq, Eq)]
pub struct StatefulList {
    selected: Option<usize>,
    items: Vec<String>,
}

impl StatefulList {
    /// A selection, where there is one, is the index of an item.
    #[verifier::type_invariant]
    pub closed spec fn wf(self) -> bool {
        self.selected matches Some(i) ==> i < self.items@.len()
    }

    /// The index of the selected item.
    pub closed spec fn selected_spec(&self) -> Option<usize> {
        self.selected
    }

    /// The items.
    pub closed spec fn items_spec(&self) -> Seq<String> {
        self.items@
    }

    /// A selection is the index of an item.
    pub proof fn lemma_selection_valid(self)
        requires
            self.wf(),
        ensures
            self.selected_spec() matches Some(i) ==> i < self.items_spec().len(),
    {
    }

    /// A list of `items`, none of them selected.
    pub fn with_items(items: Vec<String>) -> (list: StatefulList)
        ensures
            list.items_spec() == items@,
            list.selected_spec() is None,
            list.wf(),
    {
        StatefulList { selected: None, items }
    }

    /// The index of the selected item.
    #[verifier::when_used_as_spec(selected_spec)]
    pub fn selected(&self) -> (selected: Option<usize>)
        ensures
            selected == self.selected_spec(),
            selected matches Some(i) ==> i < self.items_spec().len(),
        no_unwind
    {
        proof {
            use_type_invariant(self);
        }
        self.selected
    }

    /// The items.
    pub fn items(&self) -> (items: &Vec<String>)
        ensures
            items@ == self.items_spec(),
    {
        &self.items
    }

    /// Selects the item after the selected one, and the first after the last.
    /// With nothing selected, selects the first. An empty list has no selection.
    pub fn next(&mut self)
        ensures
            final(self).items_spec() == old(self).items_spec(),
            final(self).selected_spec() == next_spec(
                old(self).selected_spec(),
                old(self).items_spec().len(),
            ),
            final(self).wf(),
        no_unwind
    {
        proof {
            use_type_invariant(&*self);
        }
        let len = self.items.len();
        if len == 0 {
            return ;
        }
        let i = match self.selected {
            Some(i) => if i >= len - 1 {
                0
            } else {
                i + 1
            },
            None => 0,
        };
        self.selected = Some(i);
    }

    /// Selects the item before the selected one, and the last before the
    /// first. With nothing selected, selects the first. An empty list has no
    /// selection.
    pub fn previous(&mut self)
        ensures
            final(self).items_spec() == old(self).items_spec(),
            final(self).selected_spec() == previous_spec(
                old(self).selected_spec(),
                old(self).items_spec().len(),
            ),
            final(self).wf(),
        no_unwind
    {
        proof {
            use_type_invariant(&*self);
        }
        let len = self.items.len();
        if len == 0 {
            return ;
        }
        let i = match self.selected {
            Some(i) => if i == 0 {
                len - 1
            } else {
                i - 1
            },
            None => 0,
        };
        self.selected = Some(i);
    }

    /// Selects the item at `index`, or nothing. An index that is no item's is
    /// an error and leaves the selection as it was.
    pub fn select(&mut self, index: Option<usize>) -> (result: Result<(), ErrorKind>)
        ensures
            final(self).items_spec() == old(self).items_spec(),
            final(self).wf(),
            match result {
                Ok(_) => {
                    &&& index matches Some(i) ==> i < old(self).items_spec().len()
                    &&& final(self).selected_spec() == index
                },
                Err(e) => {
                    &&& index matches Some(i) && i >= old(self).items_spec().len()
                    &&& e == ErrorKind::SelectionError
                    &&& final(self).selected_spec() == old(self).selected_spec()
                },
            },
        no_unwind
    {
        proof {
            use_type_invariant(&*self);
        }
        match index {
            Some(i) => {
                if i >= self.items.len() {
                    return Err(ErrorKind::SelectionError);
                }
            },
            None => {},
        }
        self.selected = index;
        Ok(())
    }

    /// Clears the selection.
    pub fn unselect(&mut self)
        ensures
            final(self).items_spec() == old(self).items_spec(),
            final(self).selected_spec() is None,
            final(self).wf(),
        no_unwind
    {
        self.selected = None;
    }
}

/// The selection moves in a circle: a step back undoes a step forward, and a
/// step forward undoes a step back.
pub proof fn lemma_steps_undo_each_other(i: usize, len: nat)
    requires
        i < len,
        len <= usize::MAX,
    ensures
        previous_spec(next_spec(Some(i), len), len) == Some(i),
        next_spec(previous_spec(Some(i), len), len) == Some(i),
{
}

/// From the last item a step forward leads to the first, and from the first a
/// step back leads to the last.
pub proof fn lemma_selection_wraps(len: nat)
    requires
        0 < len <= usize::MAX,
    ensures
        next_spec(Some((len - 1) as usize), len) == Some(0usize),
        previous_spec(Some(0usize), len) == Some((len - 1) as usize),
{
}

} // verus!
