//! A widget-free core for an editable, reorderable item-list control.
//!
//! The control itself (list view, toolbar, combobox, shortcuts) belongs to a
//! GUI toolkit and stays outside this crate.  What is verified here is the
//! logic the control runs on:
//!
//! * a mode state machine (reorder / remove / add / find) that gates which
//!   operations are currently permitted,
//! * an ordered row remover that deletes a batch of selected positions in
//!   descending order, so that positions computed before the batch stay valid,
//! * validated insertion of combobox text into the backing sequence.
//!
//! The embedding program owns the widgets; it feeds selections, submitted
//! text and mode switches in as plain values and carries the returned
//! outcomes (scroll targets, rejected input) back to the toolkit.

pub mod item_list;
pub mod list_items;
pub mod mode;
pub mod rows;
