//! A selectable-list panel for a terminal user interface: an ordered list of
//! labelled entries with an optional highlighted selection that two keys move
//! up and down cyclically, rendered as a bordered list widget.

pub mod browser;
pub mod input;
pub mod navigation;
pub mod screen;
pub mod surface;
