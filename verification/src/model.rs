//! Mathematical model of the editor: what a list of entries is, and what
//! each operation and each key press does to it.

use vstd::prelude::*;
use crate::keys::KeyCode;

verus! {

/// How key presses are currently interpreted.
#[derive(Clone, Copy, Debug, PartialEq, Eq, Structural)]
pub enum InputMode {
    /// Keys move the selection, toggle entries and switch modes.
    Navigating,
    /// Up and down carry the selected entry along.
    Grabbing,
    /// Keys edit the text of the selected entry.
    Typing,
}

impl Default for InputMode {
    /// The mode in which the editor starts.
    fn default() -> (mode: Self)
        ensures
            mode == InputMode::Navigating,
    {
        InputMode::Navigating
    }
}

/// One directory of the list: its text and whether it is switched on.
pub struct Entry {
    pub text: Seq<char>,
    pub active: bool,
}

/// One line of the list as the host draws it.
pub struct RowView {
    pub text: Seq<char>,
    pub active: bool,
    /// The selection rests on this entry.
    pub selected: bool,
    /// This entry is being carried.
    pub grabbed: bool,
}

/// The texts of the active entries, in their order.
pub open spec fn active_texts(entries: Seq<Entry>) -> Seq<Seq<char>> {
    entries.filter(|entry: Entry| entry.active).map_values(|entry: Entry| entry.text)
}

/// The whole state of the list editor.
pub struct MenuState {
    /// The entries, in precedence order.
    pub entries: Seq<Entry>,
    /// Index of the selected entry; `None` exactly when there is no entry.
    pub selected: Option<int>,
    /// Index of the first entry that the host currently shows.
    pub offset: nat,
    /// The current input mode.
    pub mode: InputMode,
}

impl MenuState {
    /// The selection points at an entry, and is absent only when there is
    /// none to point at.
    pub open spec fn wf(self) -> bool {
        match self.selected {
            Some(i) => 0 <= i < self.entries.len(),
            None => self.entries.len() == 0,
        }
    }

    /// The state right after start-up: every given text is an active entry,
    /// the first one is selected, nothing is scrolled, keys navigate.
    pub open spec fn initial(texts: Seq<Seq<char>>) -> Self {
        MenuState {
            entries: texts.map_values(|text: Seq<char>| Entry { text, active: true }),
            selected: if texts.len() > 0 { Some(0int) } else { None },
            offset: 0,
            mode: InputMode::Navigating,
        }
    }

    /// The selected entry.
    pub open spec fn current(self) -> Entry
        recommends
            self.selected.is_some(),
    {
        self.entries[self.selected.unwrap()]
    }

    /// The same state with another selection.
    pub open spec fn select(self, index: int) -> Self {
        MenuState { selected: Some(index), ..self }
    }

    /// The same state with the selected entry replaced.
    pub open spec fn replace_current(self, entry: Entry) -> Self {
        MenuState { entries: self.entries.update(self.selected.unwrap(), entry), ..self }
    }

    /// The same state in another input mode.
    pub open spec fn with_mode(self, mode: InputMode) -> Self {
        MenuState { mode, ..self }
    }

    /// The same state after the host has scrolled to `offset`.
    pub open spec fn with_offset(self, offset: nat) -> Self {
        MenuState { offset, ..self }
    }

    /// Selection moves one entry down; from the last entry it wraps to the
    /// first.
    pub open spec fn sel_next(self) -> Self {
        match self.selected {
            Some(i) => self.select(if i + 1 < self.entries.len() { i + 1 } else { 0 }),
            None => self,
        }
    }

    /// Selection moves one entry up; from the first entry it wraps to the
    /// last.
    pub open spec fn sel_prev(self) -> Self {
        match self.selected {
            Some(i) => self.select(if i > 0 { i - 1 } else { self.entries.len() - 1 }),
            None => self,
        }
    }

    /// Selection moves to the first entry.
    pub open spec fn sel_first(self) -> Self {
        match self.selected {
            Some(_) => self.select(0),
            None => self,
        }
    }

    /// Selection moves to the last entry.
    pub open spec fn sel_last(self) -> Self {
        match self.selected {
            Some(_) => self.select(self.entries.len() - 1),
            None => self,
        }
    }

    /// The selected entry is switched on if it was off, and off if it was
    /// on. Its text plays no part.
    pub open spec fn toggle_status(self) -> Self {
        match self.selected {
            Some(_) => {
                let entry = self.current();
                self.replace_current(Entry { active: !entry.active, ..entry })
            },
            None => self,
        }
    }

    /// `c` is appended to the selected entry. An entry whose text thereby
    /// reaches length one is switched on.
    pub open spec fn add_char(self, c: char) -> Self {
        match self.selected {
            Some(_) => {
                let entry = self.current();
                let text = entry.text.push(c);
                self.replace_current(Entry { text, active: entry.active || text.len() == 1 })
            },
            None => self,
        }
    }

    /// The last character of the selected entry is removed, if it has one.
    /// An entry whose text thereby becomes empty is switched off.
    pub open spec fn del_char(self) -> Self {
        match self.selected {
            Some(_) if self.current().text.len() > 0 => {
                let entry = self.current();
                let text = entry.text.drop_last();
                self.replace_current(Entry { text, active: entry.active && text.len() > 0 })
            },
            _ => self,
        }
    }

    /// The entries at `a` and `b` change places.
    pub open spec fn exchanged(self, a: int, b: int) -> Seq<Entry> {
        self.entries.update(a, self.entries[b]).update(b, self.entries[a])
    }

    /// The selected entry changes places with the one above it and stays
    /// selected. Nothing happens at the top of the list.
    pub open spec fn swap_up(self) -> Self {
        match self.selected {
            Some(i) if i > 0 => MenuState {
                entries: self.exchanged(i, i - 1),
                selected: Some(i - 1),
                ..self
            },
            _ => self,
        }
    }

    /// The selected entry changes places with the one below it and stays
    /// selected. Nothing happens at the bottom of the list.
    pub open spec fn swap_down(self) -> Self {
        match self.selected {
            Some(i) if i + 1 < self.entries.len() => MenuState {
                entries: self.exchanged(i, i + 1),
                selected: Some(i + 1),
                ..self
            },
            _ => self,
        }
    }

    /// Where the text caret belongs: the column just behind the selected
    /// entry's text, and the row of that entry counted from the first entry
    /// shown. An entry above the shown part counts as the first row, where
    /// it lands once the host scrolls up to it.
    pub open spec fn cursor(self) -> Option<(nat, nat)> {
        match self.selected {
            Some(i) => Some(
                (self.current().text.len(), if i >= self.offset { (i - self.offset) as nat } else { 0 }),
            ),
            None => None,
        }
    }

    /// Index of the entry that is being carried, if any.
    pub open spec fn grabbed(self) -> Option<int> {
        if self.mode == InputMode::Grabbing {
            self.selected
        } else {
            None
        }
    }

    /// The line that the host draws for the entry at `index`.
    pub open spec fn row(self, index: int) -> RowView
        recommends
            0 <= index < self.entries.len(),
    {
        RowView {
            text: self.entries[index].text,
            active: self.entries[index].active,
            selected: self.selected == Some(index),
            grabbed: self.grabbed() == Some(index),
        }
    }

    /// What the list stands for: the texts of its active entries, in order.
    pub open spec fn exported(self) -> Seq<Seq<char>> {
        active_texts(self.entries)
    }

    /// What a key press does while navigating.
    pub open spec fn nav_step(self, key: KeyCode) -> Self {
        match key {
            KeyCode::Enter => self.with_mode(InputMode::Typing),
            KeyCode::Char(' ') => self.with_mode(InputMode::Grabbing),
            KeyCode::Char('k') | KeyCode::Up => self.sel_prev(),
            KeyCode::Char('j') | KeyCode::Down => self.sel_next(),
            KeyCode::Char('h') | KeyCode::Left => self.sel_first(),
            KeyCode::Char('l') | KeyCode::Right => self.toggle_status(),
            _ => self,
        }
    }

    /// What a key press does while typing.
    pub open spec fn type_step(self, key: KeyCode) -> Self {
        match key {
            KeyCode::Enter => self.with_mode(InputMode::Navigating),
            KeyCode::Backspace => self.del_char(),
            KeyCode::Char(c) => self.add_char(c),
            _ => self,
        }
    }

    /// What a key press does while an entry is being carried.
    pub open spec fn grab_step(self, key: KeyCode) -> Self {
        match key {
            KeyCode::Char(' ') => self.with_mode(InputMode::Navigating),
            KeyCode::Char('k') | KeyCode::Up => self.swap_up(),
            KeyCode::Char('j') | KeyCode::Down => self.swap_down(),
            _ => self,
        }
    }

    /// What a key press does, by the current mode alone.
    pub open spec fn step(self, key: KeyCode) -> Self {
        match self.mode {
            InputMode::Navigating => self.nav_step(key),
            InputMode::Typing => self.type_step(key),
            InputMode::Grabbing => self.grab_step(key),
        }
    }
}

/// The state of the whole editor: the list and the request to leave.
pub struct AppState {
    pub menu: MenuState,
    /// Set once the user has asked to leave; never cleared.
    pub exit: bool,
}

impl AppState {
    /// The state right after start-up.
    pub open spec fn initial(texts: Seq<Seq<char>>) -> Self {
        AppState { menu: MenuState::initial(texts), exit: false }
    }

    /// Whether `key` asks to leave the editor in its current mode: `q` or
    /// escape, while navigating.
    pub open spec fn quits(self, key: KeyCode) -> bool {
        self.menu.mode == InputMode::Navigating && (key == KeyCode::Char('q') || key
            == KeyCode::Esc)
    }

    /// What a key press does to the editor.
    pub open spec fn step(self, key: KeyCode) -> Self {
        AppState { menu: self.menu.step(key), exit: self.exit || self.quits(key) }
    }

    /// The same editor after the host has scrolled to `offset`.
    pub open spec fn with_offset(self, offset: nat) -> Self {
        AppState { menu: self.menu.with_offset(offset), ..self }
    }
}

/// The two answers of a yes/no question, by where they are drawn.
#[derive(Clone, Copy, Debug, PartialEq, Eq, Structural)]
pub enum Which {
    /// The left answer: yes.
    Left,
    /// The right answer: no.
    Right,
}

impl Default for Which {
    /// The answer that is highlighted when a question is asked.
    fn default() -> (which: Self)
        ensures
            which == Which::Left,
    {
        Which::Left
    }
}

/// The state of a yes/no question put to the user.
pub struct ConfirmState {
    pub question: Seq<char>,
    /// The answer that is currently highlighted.
    pub which: Which,
    /// Set once the user has settled on an answer.
    pub exit: bool,
}

impl ConfirmState {
    /// A question that was just asked: yes is highlighted, nothing settled.
    pub open spec fn initial(question: Seq<char>) -> Self {
        ConfirmState { question, which: Which::Left, exit: false }
    }

    /// The highlight moves to the other answer.
    pub open spec fn toggle_select(self) -> Self {
        ConfirmState {
            which: match self.which {
                Which::Left => Which::Right,
                Which::Right => Which::Left,
            },
            ..self
        }
    }

    /// The user settles on `which`.
    pub open spec fn settle(self, which: Which) -> Self {
        ConfirmState { which, exit: true, ..self }
    }

    /// What a key press does to the question.
    pub open spec fn step(self, key: KeyCode) -> Self {
        match key {
            KeyCode::Right | KeyCode::Left | KeyCode::Char('h') | KeyCode::Char('l') => {
                self.toggle_select()
            },
            KeyCode::Enter => self.settle(self.which),
            KeyCode::Char('y') => self.settle(Which::Left),
            KeyCode::Char('n') => self.settle(Which::Right),
            _ => self,
        }
    }

    /// The answer as a truth value: whether yes is highlighted.
    pub open spec fn answer(self) -> bool {
        self.which == Which::Left
    }
}

} // verus!
