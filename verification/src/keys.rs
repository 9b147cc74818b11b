//! Key presses as the editor sees them.

use vstd::prelude::*;

verus! {

/// One key press, reduced to what the editor tells apart.
///
/// Every key that has no meaning in any mode arrives as [`KeyCode::Other`].
#[derive(Clone, Copy, Debug, PartialEq, Eq, Structural)]
pub enum KeyCode {
    /// The backspace key.
    Backspace,
    /// The enter key.
    Enter,
    /// The left arrow.
    Left,
    /// The right arrow.
    Right,
    /// The up arrow.
    Up,
    /// The down arrow.
    Down,
    /// The escape key.
    Esc,
    /// A key that produces a character.
    Char(char),
    /// Any other key.
    Other,
}

/// Something that reacts to key presses. Every widget that takes keyboard
/// input implements this trait.
pub trait KeyHandler {
    /// Reacts to one key press.
    fn handle_key_code(self, key_code: KeyCode);
}

} // verus!
