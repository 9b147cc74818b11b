//! State machine behind an interactive editor for a `PATH`-style list of
//! directories: the ordered entries, the selection, and the modal keyboard
//! handling that moves, toggles, edits and reorders them.
//!
//! Nothing here draws or reads input. A host feeds key presses to
//! [`App`], draws what [`SelectMenu::rows`] returns, and stops once
//! [`App::wants_exit`] holds.

use vstd::prelude::*;

pub mod keys;
pub mod laws;
pub mod model;
pub mod strings;
pub mod widgets;

pub use crate::keys::{KeyCode, KeyHandler};
pub use crate::model::{InputMode, Which};
pub use crate::widgets::confirm_popup::ConfirmationMenu;
pub use crate::widgets::select_menu::{PathVar, Row, SelectMenu};

use crate::model::AppState;

verus! {

/// The editor: the list of entries and the request to leave.
#[derive(Debug)]
pub struct App {
    exit: bool,
    sel_menu: SelectMenu,
}

impl View for App {
    type V = AppState;

    closed spec fn view(&self) -> AppState {
        AppState { menu: self.sel_menu@, exit: self.exit }
    }
}

impl App {
    /// An editor for the given paths, all active, the first one selected.
    pub fn new(paths: Vec<String>) -> (app: Self)
        ensures
            app@ == AppState::initial(paths.deep_view()),
            app@.menu.wf(),
    {
        App { exit: false, sel_menu: SelectMenu::new(paths) }
    }

    /// Whether the user has asked to leave.
    pub fn wants_exit(&self) -> (exit: bool)
        ensures
            exit == self@.exit,
    {
        self.exit
    }

    /// Whether key presses currently edit the selected entry.
    pub fn is_typing(&self) -> (typing: bool)
        ensures
            typing == (self@.menu.mode == InputMode::Typing),
    {
        self.sel_menu.is_typing()
    }

    /// The list of entries.
    pub fn menu(&self) -> (menu: &SelectMenu)
        ensures
            menu@ == self@.menu,
            menu@.wf(),
    {
        proof {
            use_type_invariant(&self.sel_menu);
        }
        &self.sel_menu
    }

    /// Records that the host now shows the list from the entry at `offset`.
    pub fn set_offset(&mut self, offset: usize)
        ensures
            final(self)@ == old(self)@.with_offset(offset as nat),
            final(self)@.menu.wf(),
    {
        self.sel_menu.set_offset(offset);
    }
}

impl KeyHandler for &mut App {
    fn handle_key_code(self, key_code: KeyCode)
        ensures
            final(self)@ == old(self)@.step(key_code),
            final(self)@.menu.wf(),
    {
        if self.sel_menu.input_mode() == InputMode::Navigating {
            match key_code {
                KeyCode::Char('q') | KeyCode::Esc => self.exit = true,
                _ => {},
            }
        }
        self.sel_menu.handle_key_code(key_code);
    }
}

} // verus!
