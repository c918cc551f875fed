//! A list with an optional selected position.
use vstd::prelude::*;

verus! {

/// Items and the index of the selected one. The index may point past the end
/// after the items were replaced; then nothing is selected in effect.
pub struct StatefulList<T> {
    pub selected: Option<usize>,
    pub items: Vec<T>,
}

/// The position after `i` in a list of `len` items, wrapping to the first.
pub open spec fn next_index(selected: Option<usize>, len: nat) -> Option<usize> {
    if len == 0 {
        selected
    } else {
        match selected {
            Some(i) => if i + 1 == len {
                Some(0usize)
            } else {
                Some((if i + 1 <= usize::MAX { i + 1 } else { i as int }) as usize)
            },
            None => Some(0usize),
        }
    }
}

/// The position before `i` in a list of `len` items, wrapping to the last.
pub open spec fn previous_index(selected: Option<usize>, len: nat) -> Option<usize> {
    if len == 0 {
        selected
    } else {
        match selected {
            Some(i) => if i == 0 {
                Some((len - 1) as usize)
            } else {
                Some((i - 1) as usize)
            },
            None => Some(0usize),
        }
    }
}

impl<T> StatefulList<T> {
    /// A list of these items, the first selected if there is one.
    pub fn with_items(items: Vec<T>) -> (r: StatefulList<T>)
        ensures
            r.items@ == items@,
            r.selected == (if items@.len() > 0 { Some(0usize) } else { None }),
    {
        let selected: Option<usize> = if items.len() > 0 { Some(0) } else { None };
        StatefulList { selected, items }
    }

    /// Appends the items; where there are any, the first item is selected.
    pub fn add_items(&mut self, items: Vec<T>)
        ensures
            final(self).items@ == old(self).items@ + items@,
            final(self).selected == (if items@.len() > 0 { Some(0usize) } else { old(self).selected }),
    {
        let mut items = items;
        if items.len() > 0 {
            self.selected = Some(0);
        }
        self.items.append(&mut items);
    }

    /// Replaces the items; where the list was empty and is not any more, the
    /// first item is selected.
    pub fn clear_and_insert_items(&mut self, items: Vec<T>)
        ensures
            final(self).items@ == items@,
            final(self).selected == (if old(self).items@.len() == 0 && items@.len() > 0 {
                Some(0usize)
            } else {
                old(self).selected
            }),
    {
        let should_select_first = self.items.len() == 0 && items.len() > 0;
        self.items = items;
        if should_select_first {
            self.selected = Some(0);
        }
    }

    /// The selected item, if the selection points at one.
    pub fn get_selected_item(&self) -> (r: Option<&T>)
        ensures
            match self.selected {
                Some(i) if i < self.items@.len() => r == Some(&self.items@[i as int]),
                _ => r is None,
            },
    {
        match self.selected {
            Some(i) => if i < self.items.len() {
                Some(&self.items[i])
            } else {
                None
            },
            None => None,
        }
    }

    pub fn add_item(&mut self, item: T)
        ensures
            final(self).items@ == old(self).items@.push(item),
            final(self).selected == old(self).selected,
    {
        self.items.push(item)
    }

    /// Selects the next item, the first after the last; nothing happens on an
    /// empty list.
    pub fn next(&mut self)
        ensures
            final(self).items@ == old(self).items@,
            final(self).selected == next_index(old(self).selected, old(self).items@.len()),
    {
        if self.items.len() > 0 {
            let next_selection: usize = match self.selected {
                Some(i) => if i == self.items.len() - 1 {
                    0
                } else {
                    i.saturating_add(1)
                },
                None => 0,
            };
            self.selected = Some(next_selection);
        }
    }

    /// Selects the previous item, the last before the first; nothing happens
    /// on an empty list.
    pub fn previous(&mut self)
        ensures
            final(self).items@ == old(self).items@,
            final(self).selected == previous_index(old(self).selected, old(self).items@.len()),
    {
        if self.items.len() > 0 {
            let previous_selection: usize = match self.selected {
                Some(i) => if i == 0 {
                    self.items.len() - 1
                } else {
                    i - 1
                },
                None => 0,
            };
            self.selected = Some(previous_selection);
        }
    }

    pub fn unselect(&mut self)
        ensures
            final(self).items@ == old(self).items@,
            final(self).selected is None,
    {
        self.selected = None;
    }
}

} // verus!
