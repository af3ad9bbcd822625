//! The backing store of row names behind the visual list.
//!
//! The embedding program mirrors this sequence 1:1 into the toolkit's model:
//! each name here backs one visible row, at the same position.

use vstd::prelude::*;

verus! {

/// An ordered sequence of row names.  A row is identified by its position
/// only for the instant of one request: positions shift on removal and
/// reordering, the names are the stable identities.
pub struct ListItems {
    items: Vec<String>,
}

impl View for ListItems {
    type V = Seq<String>;

    closed spec fn view(&self) -> Seq<String> {
        self.items@
    }
}

impl ListItems {
    /// An empty store.
    pub fn new() -> (r: ListItems)
        ensures
            r@ == Seq::<String>::empty(),
    {
        ListItems { items: Vec::new() }
    }

    /// Drop every row name.
    pub fn clear(&mut self)
        ensures
            final(self)@ == Seq::<String>::empty(),
    {
        self.items.clear();
    }

    /// Append one row name at the end.
    pub fn add_item_to(&mut self, item: String)
        ensures
            final(self)@ == old(self)@.push(item),
    {
        self.items.push(item);
    }

    /// How many rows the store holds.
    pub fn len(&self) -> (n: usize)
        ensures
            n == self@.len(),
    {
        self.items.len()
    }
}

} // verus!
