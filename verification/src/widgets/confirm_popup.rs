//! A yes/no question put to the user.

use vstd::prelude::*;
use crate::keys::{KeyCode, KeyHandler};
use crate::model::{ConfirmState, Which};

verus! {

/// A yes/no question: its wording, the highlighted answer, and whether the
/// user has settled on it.
pub struct ConfirmationMenu<'a> {
    question: &'a str,
    exit: bool,
    which: Which,
}

impl<'a> View for ConfirmationMenu<'a> {
    type V = ConfirmState;

    closed spec fn view(&self) -> ConfirmState {
        ConfirmState { question: self.question@, which: self.which, exit: self.exit }
    }
}

impl<'a> ConfirmationMenu<'a> {
    /// Asks `question`, with yes highlighted.
    pub fn new(question: &'a str) -> (menu: Self)
        ensures
            menu@ == ConfirmState::initial(question@),
    {
        Self { question, exit: false, which: Which::Left }
    }

    /// Moves the highlight to the other answer.
    pub fn toggle_select(&mut self)
        ensures
            final(self)@ == old(self)@.toggle_select(),
    {
        if self.which == Which::Left {
            self.which = Which::Right;
        } else {
            self.which = Which::Left;
        }
    }

    /// The wording of the question.
    pub fn question(&self) -> (question: &'a str)
        ensures
            question@ == self@.question,
    {
        self.question
    }

    /// The answer that is currently highlighted.
    pub fn which(&self) -> (which: Which)
        ensures
            which == self@.which,
    {
        self.which
    }

    /// Whether the user has settled on an answer.
    pub fn is_done(&self) -> (done: bool)
        ensures
            done == self@.exit,
    {
        self.exit
    }

    /// The highlighted answer as a truth value: `true` for yes.
    pub fn answer(&self) -> (yes: bool)
        ensures
            yes == self@.answer(),
    {
        self.which == Which::Left
    }
}

impl KeyHandler for &mut ConfirmationMenu<'_> {
    fn handle_key_code(self, key_code: KeyCode)
        ensures
            final(self)@ == old(self)@.step(key_code),
    {
        match key_code {
            KeyCode::Right | KeyCode::Left | KeyCode::Char('h') | KeyCode::Char('l') => {
                self.toggle_select()
            },
            KeyCode::Enter => self.exit = true,
            KeyCode::Char('y') => {
                self.which = Which::Left;
                self.exit = true;
            },
            KeyCode::Char('n') => {
                self.which = Which::Right;
                self.exit = true;
            },
            _ => {},
        }
    }
}

} // verus!
