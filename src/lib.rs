//! A keyboard-driven table editor: a grid of labelled rows and columns of
//! fixed-point amounts with a total row, a focus that moves over it, in-place
//! editing under a per-column and per-row policy, a typed clipboard, and the
//! metrics a terminal renderer needs to draw it.
pub mod actions;
pub mod amount;
pub mod editor;
pub mod layout;
pub mod position;
pub mod table;
pub mod table_data;
