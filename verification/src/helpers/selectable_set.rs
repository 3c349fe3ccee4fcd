//! An ordered list with one selected entry.
use vstd::prelude::*;

verus! {

/// A list of items, one of which is selected while the list is not empty.
pub struct SelectableSet<T> {
    set: Vec<T>,
    selected_index: usize,
}

impl<T> SelectableSet<T> {
    #[verifier::type_invariant]
    spec fn selection_in_bounds(&self) -> bool {
        self.selected_index < self.set@.len() || self.selected_index == 0
    }

    /// The items, in order.
    pub closed spec fn items(&self) -> Seq<T> {
        self.set@
    }

    pub closed spec fn spec_selected_index(&self) -> usize {
        self.selected_index
    }

    /// A list with its first item selected.
    pub fn new(set: Vec<T>) -> (r: SelectableSet<T>)
        ensures
            r.items() == set@,
            r.selected_index() == 0,
    {
        SelectableSet { set, selected_index: 0 }
    }

    #[verifier::when_used_as_spec(spec_selected_index)]
    pub fn selected_index(&self) -> (r: usize)
        ensures
            r == self.selected_index(),
            r < self.items().len() || r == 0,
    {
        proof {
            use_type_invariant(self);
        }
        self.selected_index
    }

    pub fn len(&self) -> (r: usize)
        ensures
            r == self.items().len(),
    {
        self.set.len()
    }

    /// The item at an index, if the list is that long.
    pub fn get(&self, index: usize) -> (r: Option<&T>)
        ensures
            match r {
                Some(item) => index < self.items().len() && *item == self.items()[index as int],
                None => index >= self.items().len(),
            },
    {
        if index < self.set.len() {
            Some(&self.set[index])
        } else {
            None
        }
    }

    /// The selected item, if the list has any item.
    pub fn selection(&self) -> (r: Option<&T>)
        ensures
            match r {
                Some(item) => self.selected_index() < self.items().len() && *item
                    == self.items()[self.selected_index() as int],
                None => self.items().len() == 0,
            },
    {
        proof {
            use_type_invariant(self);
        }
        if self.selected_index < self.set.len() {
            Some(&self.set[self.selected_index])
        } else {
            None
        }
    }

    /// Selects the item before the selected one, if there is one.
    pub fn select_previous(&mut self)
        ensures
            final(self).items() == old(self).items(),
            final(self).selected_index() == if old(self).selected_index() > 0 {
                (old(self).selected_index() - 1) as usize
            } else {
                0
            },
    {
        proof {
            use_type_invariant(&*self);
        }
        if self.selected_index > 0 {
            self.selected_index -= 1;
        }
    }

    /// Selects the item after the selected one, if there is one.
    pub fn select_next(&mut self)
        ensures
            final(self).items() == old(self).items(),
            final(self).selected_index() == if old(self).selected_index() + 1 < old(
                self,
            ).items().len() {
                (old(self).selected_index() + 1) as usize
            } else {
                old(self).selected_index()
            },
    {
        proof {
            use_type_invariant(&*self);
        }
        if self.set.len() > 0 && self.selected_index < self.set.len() - 1 {
            self.selected_index += 1;
        }
    }
}

} // verus!
