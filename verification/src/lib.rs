//! The verified core of a terminal kanban tracker: ordered task collections
//! that keep a single selection consistent through every mutation, an
//! editable text field with a caret and word motion, a modal navigation
//! stack of unbounded depth, and the board aggregate that ties them to the
//! keyboard. Terminal drawing, key decoding and file storage live outside,
//! behind plain-value interfaces.

pub mod app;
pub mod collection;
pub mod events;
pub mod inputs;
pub mod lists;
pub mod wrap;

pub use collection::SelectableCollection;
