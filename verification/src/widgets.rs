//! The widgets of the editor, as state machines without any drawing.

pub mod confirm_popup;
pub mod select_menu;
