//! The item-list controller.
//!
//! One controller owns everything the widget glue used to share: the backing
//! sequence of row names, the pulldown's candidate entries, and the current
//! mode.  Every handler of the control becomes a method here that takes the
//! event's data as plain values (selected positions, submitted text) and
//! returns an outcome naming the UI action still owed (scroll somewhere,
//! clear the entry field, log a rejected submission).

use vstd::prelude::*;

use crate::mode::Mode;
use crate::rows;
use crate::rows::RemoveError;

verus! {

/// Some row of `s` reads exactly `t` (case-sensitive).
pub open spec fn contains_text(s: Seq<String>, t: Seq<char>) -> bool {
    exists|k: int| 0 <= k < s.len() && s[k]@ == t
}

/// Row `i` is the first row of `s` that reads exactly `t`.
pub open spec fn first_match(s: Seq<String>, t: Seq<char>, i: int) -> bool {
    &&& 0 <= i < s.len()
    &&& s[i]@ == t
    &&& forall|j: int| 0 <= j < i ==> s[j]@ != t
}

/// The position of the first row of `rows` that reads exactly `text`, if any.
fn find_position(rows: &Vec<String>, text: &String) -> (r: Option<usize>)
    ensures
        match r {
            Some(i) => first_match(rows@, text@, i as int),
            None => !contains_text(rows@, text@),
        },
{
    let mut i: usize = 0;
    while i < rows.len()
        invariant
            i <= rows@.len(),
            forall|j: int| 0 <= j < i ==> rows@[j]@ != text@,
        decreases rows@.len() - i,
    {
        if rows[i] == *text {
            return Some(i);
        }
        i += 1;
    }
    None
}

/// What a submitted combobox text led to.
#[derive(Clone, Copy, Debug, PartialEq, Eq, Structural)]
pub enum SubmitOutcome {
    /// Find path: the text names this row; scroll to it and select it.
    Found(usize),
    /// Find path: no row reads like the text; nothing to do.
    NotFound,
    /// Add path: empty text is rejected without effect.
    EmptyInput,
    /// Add path: the text is not one of the pulldown's entries; the
    /// submission is rejected and should be logged.
    NotInPulldown,
    /// Add path: a row with this text already exists at this position; it
    /// was not duplicated, navigate to it instead.
    Duplicate(usize),
    /// Add path: the text was appended as a new row at this position; clear
    /// the entry field and scroll to the end.
    Added(usize),
}

/// What a batch deletion request led to.
#[derive(Clone, Copy, Debug, PartialEq, Eq, Structural)]
pub enum DeleteOutcome {
    /// The control is not in remove mode: the request is a silent no-op.
    Ignored,
    /// Every selected row was removed.
    Removed,
    /// A selected position lay past the end; nothing was removed.
    OutOfRange,
}

/// The item-list control's state: the backing sequence the view displays,
/// the pulldown entries offered for validated insertion, and the mode.
pub struct ItemList {
    items: Vec<String>,
    cb_items: Vec<String>,
    mode: Mode,
}

impl ItemList {
    /// The backing sequence of row names, in display order.
    pub closed spec fn rows(self) -> Seq<String> {
        self.items@
    }

    /// The pulldown's candidate entries.
    pub closed spec fn pulldown(self) -> Seq<String> {
        self.cb_items@
    }

    /// The active mode.
    pub closed spec fn current_mode(self) -> Mode {
        self.mode
    }

    /// An empty control in the given initial mode.
    pub fn new(initial_mode: Mode) -> (r: ItemList)
        ensures
            r.rows() == Seq::<String>::empty(),
            r.pulldown() == Seq::<String>::empty(),
            r.current_mode() == initial_mode,
    {
        ItemList { items: Vec::new(), cb_items: Vec::new(), mode: initial_mode }
    }

    /// The active mode.
    pub fn mode(&self) -> (m: Mode)
        ensures
            m == self.current_mode(),
    {
        self.mode
    }

    /// Switch to `m`, leaving every other mode inactive.
    pub fn set_mode(&mut self, m: Mode)
        ensures
            final(self).current_mode() == m,
            final(self).rows() == old(self).rows(),
            final(self).pulldown() == old(self).pulldown(),
    {
        self.mode = m;
    }

    /// Switch to reorder mode.
    pub fn set_reorder_mode(&mut self)
        ensures
            final(self).current_mode() == Mode::Reorder,
            final(self).rows() == old(self).rows(),
            final(self).pulldown() == old(self).pulldown(),
    {
        self.set_mode(Mode::Reorder);
    }

    /// Switch to remove mode.
    pub fn set_remove_mode(&mut self)
        ensures
            final(self).current_mode() == Mode::Remove,
            final(self).rows() == old(self).rows(),
            final(self).pulldown() == old(self).pulldown(),
    {
        self.set_mode(Mode::Remove);
    }

    /// Switch to add mode.
    pub fn set_add_mode(&mut self)
        ensures
            final(self).current_mode() == Mode::Add,
            final(self).rows() == old(self).rows(),
            final(self).pulldown() == old(self).pulldown(),
    {
        self.set_mode(Mode::Add);
    }

    /// Switch to find mode.
    pub fn set_find_mode(&mut self)
        ensures
            final(self).current_mode() == Mode::Find,
            final(self).rows() == old(self).rows(),
            final(self).pulldown() == old(self).pulldown(),
    {
        self.set_mode(Mode::Find);
    }

    /// Whether the view should enable drag-and-drop right now.
    pub fn drag_enabled(&self) -> (r: bool)
        ensures
            r == self.current_mode().spec_drag_enabled(),
    {
        self.mode.drag_enabled()
    }

    /// Whether the combobox should accept text entry right now.
    pub fn entry_enabled(&self) -> (r: bool)
        ensures
            r == self.current_mode().spec_entry_enabled(),
    {
        self.mode.entry_enabled()
    }

    /// Drop every row, keeping the pulldown and the mode.
    pub fn clear(&mut self)
        ensures
            final(self).rows() == Seq::<String>::empty(),
            final(self).pulldown() == old(self).pulldown(),
            final(self).current_mode() == old(self).current_mode(),
    {
        self.items.clear();
    }

    /// Replace the rows with `items`, removing any pre-existing rows.
    pub fn set_items(&mut self, items: Vec<String>)
        ensures
            final(self).rows() == items@,
            final(self).pulldown() == old(self).pulldown(),
            final(self).current_mode() == old(self).current_mode(),
    {
        self.items = items;
    }

    /// Append one row at the end, unconditionally.
    pub fn add_item(&mut self, item: String)
        ensures
            final(self).rows() == old(self).rows().push(item),
            final(self).pulldown() == old(self).pulldown(),
            final(self).current_mode() == old(self).current_mode(),
    {
        self.items.push(item);
    }

    /// The rows as a vector of names, in display order.
    pub fn items(&self) -> (r: Vec<String>)
        ensures
            r@ == self.rows(),
    {
        let mut out: Vec<String> = Vec::new();
        let mut i: usize = 0;
        while i < self.items.len()
            invariant
                i <= self.items@.len(),
                out@ == self.items@.subrange(0, i as int),
            decreases self.items@.len() - i,
        {
            out.push(self.items[i].clone());
            i += 1;
            proof {
                assert(out@ =~= self.items@.subrange(0, i as int));
            }
        }
        proof {
            assert(out@ =~= self.items@);
        }
        out
    }

    /// Replace the pulldown entries, removing any extant ones.
    pub fn set_cb_items(&mut self, items: Vec<String>)
        ensures
            final(self).pulldown() == items@,
            final(self).rows() == old(self).rows(),
            final(self).current_mode() == old(self).current_mode(),
    {
        self.cb_items = items;
    }

    /// Remove all pulldown entries.
    pub fn remove_cb_items(&mut self)
        ensures
            final(self).pulldown() == Seq::<String>::empty(),
            final(self).rows() == old(self).rows(),
            final(self).current_mode() == old(self).current_mode(),
    {
        self.cb_items.clear();
    }

    /// The position of the first row that reads exactly `text`, if any
    /// (case-sensitive exact match).
    pub fn find_item(&self, text: &String) -> (r: Option<usize>)
        ensures
            match r {
                Some(i) => first_match(self.rows(), text@, i as int),
                None => !contains_text(self.rows(), text@),
            },
    {
        find_position(&self.items, text)
    }

    /// Delete the selected rows.
    ///
    /// Outside remove mode the request is a silent no-op.  In remove mode
    /// the positions are removed in descending order; a selection past the
    /// end of the rows is refused whole, before anything is removed.
    pub fn delete_sel_items(&mut self, positions: &Vec<usize>) -> (r: DeleteOutcome)
        requires
            positions@.no_duplicates(),
        ensures
            final(self).pulldown() == old(self).pulldown(),
            final(self).current_mode() == old(self).current_mode(),
            match r {
                DeleteOutcome::Ignored => {
                    &&& old(self).current_mode() != Mode::Remove
                    &&& final(self).rows() == old(self).rows()
                },
                DeleteOutcome::Removed => {
                    &&& old(self).current_mode() == Mode::Remove
                    &&& forall|k: int|
                        0 <= k < positions@.len() ==> (#[trigger] positions@[k]) < old(
                            self,
                        ).rows().len()
                    &&& final(self).rows() == rows::rows_removed(
                        old(self).rows(),
                        rows::position_set(positions@),
                    )
                    &&& final(self).rows().len() == old(self).rows().len() - positions@.len()
                },
                DeleteOutcome::OutOfRange => {
                    &&& old(self).current_mode() == Mode::Remove
                    &&& exists|k: int|
                        0 <= k < positions@.len() && (#[trigger] positions@[k]) >= old(
                            self,
                        ).rows().len()
                    &&& final(self).rows() == old(self).rows()
                },
            },
    {
        if self.mode != Mode::Remove {
            return DeleteOutcome::Ignored;
        }
        match rows::remove_rows(&mut self.items, positions) {
            Ok(()) => DeleteOutcome::Removed,
            Err(RemoveError::OutOfRange) => DeleteOutcome::OutOfRange,
        }
    }

    /// Handle the enter shortcut on the combobox.
    ///
    /// In add mode the text is validated and appended: empty text and text
    /// that is not one of the pulldown's entries are rejected without
    /// effect, and text that already names a row is not duplicated — the
    /// existing row is returned as a navigation target.  In every other
    /// mode the entry acts as find-and-scroll over the rows.
    pub fn submit_entry(&mut self, text: &String) -> (r: SubmitOutcome)
        ensures
            final(self).pulldown() == old(self).pulldown(),
            final(self).current_mode() == old(self).current_mode(),
            (r matches SubmitOutcome::Added(_)) || final(self).rows() == old(self).rows(),
            match r {
                SubmitOutcome::Found(i) => {
                    &&& old(self).current_mode() != Mode::Add
                    &&& first_match(old(self).rows(), text@, i as int)
                },
                SubmitOutcome::NotFound => {
                    &&& old(self).current_mode() != Mode::Add
                    &&& !contains_text(old(self).rows(), text@)
                },
                SubmitOutcome::EmptyInput => {
                    &&& old(self).current_mode() == Mode::Add
                    &&& text@.len() == 0
                },
                SubmitOutcome::NotInPulldown => {
                    &&& old(self).current_mode() == Mode::Add
                    &&& text@.len() > 0
                    &&& !contains_text(old(self).pulldown(), text@)
                },
                SubmitOutcome::Duplicate(i) => {
                    &&& old(self).current_mode() == Mode::Add
                    &&& text@.len() > 0
                    &&& contains_text(old(self).pulldown(), text@)
                    &&& first_match(old(self).rows(), text@, i as int)
                },
                SubmitOutcome::Added(i) => {
                    &&& old(self).current_mode() == Mode::Add
                    &&& text@.len() > 0
                    &&& contains_text(old(self).pulldown(), text@)
                    &&& !contains_text(old(self).rows(), text@)
                    &&& i as int == old(self).rows().len()
                    &&& final(self).rows() == old(self).rows().push(*text)
                },
            },
    {
        if self.mode != Mode::Add {
            match find_position(&self.items, text) {
                Some(i) => SubmitOutcome::Found(i),
                None => SubmitOutcome::NotFound,
            }
        } else if text.as_str().is_empty() {
            SubmitOutcome::EmptyInput
        } else {
            match find_position(&self.cb_items, text) {
                None => SubmitOutcome::NotInPulldown,
                Some(_) => {
                    match find_position(&self.items, text) {
                        Some(i) => SubmitOutcome::Duplicate(i),
                        None => {
                            let i = self.items.len();
                            self.items.push(text.clone());
                            SubmitOutcome::Added(i)
                        },
                    }
                },
            }
        }
    }
}

} // verus!
