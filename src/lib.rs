//! A scrollable, keyboard-navigable list of rendered rows: which rows are on
//! screen, which one is highlighted, and where each is drawn.

pub mod columns;
pub mod layout;
