//! Terminal-independent pieces of the user interface: the key map and the
//! text shown in the panes.
pub mod keymap;
pub mod layout;
pub mod theme;
pub mod widgets;
