//! The exclusive operational mode of the item-list control.

use vstd::prelude::*;

verus! {

/// Which of the four mutually exclusive operations the control currently
/// permits.  Exactly one mode is active at any time; switching modes is the
/// only transition and is total.
#[derive(Clone, Copy, Debug, PartialEq, Eq, Structural)]
pub enum Mode {
    /// Rows may be reordered by dragging; text entry is disabled.
    Reorder,
    /// Selected rows may be deleted; text entry is disabled.
    Remove,
    /// Text entry inserts a validated new row.
    Add,
    /// Text entry searches the rows and scrolls to the match.
    Find,
}

impl Mode {
    /// Whether the view's drag source/target is enabled in this mode.
    pub open spec fn spec_drag_enabled(self) -> bool {
        self == Mode::Reorder
    }

    /// Whether the combobox accepts text entry in this mode.
    pub open spec fn spec_entry_enabled(self) -> bool {
        self == Mode::Add || self == Mode::Find
    }

    /// Whether the "delete selected rows" operation is enabled in this mode.
    pub open spec fn spec_removal_enabled(self) -> bool {
        self == Mode::Remove
    }

    /// Drag-and-drop is enabled exactly in reorder mode.
    pub fn drag_enabled(self) -> (r: bool)
        ensures
            r == self.spec_drag_enabled(),
    {
        self == Mode::Reorder
    }

    /// Text entry is enabled exactly in add and find modes.
    pub fn entry_enabled(self) -> (r: bool)
        ensures
            r == self.spec_entry_enabled(),
    {
        self == Mode::Add || self == Mode::Find
    }

    /// Batch deletion is enabled exactly in remove mode.
    pub fn removal_enabled(self) -> (r: bool)
        ensures
            r == self.spec_removal_enabled(),
    {
        self == Mode::Remove
    }
}

/// How many of the four mode flags report active for mode `m`: the value of
/// `m == x` summed over the four modes `x`.
pub open spec fn active_flag_count(m: Mode) -> int {
    (if m == Mode::Reorder { 1int } else { 0int })
        + (if m == Mode::Remove { 1int } else { 0int })
        + (if m == Mode::Add { 1int } else { 0int })
        + (if m == Mode::Find { 1int } else { 0int })
}

/// Law: the modes are mutually exclusive.  Whatever mode is current, exactly
/// one of the four mode flags is active, and the drag-enabled flag is set
/// exactly when that mode is reorder.
pub proof fn lemma_modes_mutually_exclusive(m: Mode)
    ensures
        active_flag_count(m) == 1,
        m.spec_drag_enabled() <==> m == Mode::Reorder,
{
}

} // verus!
