//! The list editor: entries, selection and input mode, and the operations
//! that key presses are bound to.

use vstd::prelude::*;
use crate::keys::{KeyCode, KeyHandler};
use crate::laws::active_texts_of_push;
use crate::model::{active_texts, Entry, InputMode, MenuState, RowView};

verus! {

/// A directory of the list, switched on or off.
#[derive(Debug)]
pub struct PathVar {
    pub path: String,
    pub active: bool,
}

impl View for PathVar {
    type V = Entry;

    open spec fn view(&self) -> Entry {
        Entry { text: self.path@, active: self.active }
    }
}

impl PathVar {
    /// An entry for `path`, switched on.
    pub fn new(path: String) -> (entry: Self)
        ensures
            entry@ == (Entry { text: path@, active: true }),
    {
        PathVar { path, active: true }
    }
}

/// One line of the list, ready to be drawn.
#[derive(Debug)]
pub struct Row {
    pub text: String,
    pub active: bool,
    /// The selection rests on this entry.
    pub selected: bool,
    /// This entry is being carried.
    pub grabbed: bool,
}

impl View for Row {
    type V = RowView;

    open spec fn view(&self) -> RowView {
        RowView {
            text: self.text@,
            active: self.active,
            selected: self.selected,
            grabbed: self.grabbed,
        }
    }
}

/// The list of entries with its selection, scroll position and input mode.
#[derive(Debug)]
pub struct SelectMenu {
    items: Vec<PathVar>,
    selected: Option<usize>,
    offset: usize,
    input_mode: InputMode,
}

impl View for SelectMenu {
    type V = MenuState;

    closed spec fn view(&self) -> MenuState {
        MenuState {
            entries: self.items@.map_values(|item: PathVar| item@),
            selected: match self.selected {
                Some(i) => Some(i as int),
                None => None,
            },
            offset: self.offset as nat,
            mode: self.input_mode,
        }
    }
}

impl SelectMenu {
    /// What holds of every list at all times: its selection rests on one of
    /// its entries, and is absent only when it has none.
    #[verifier::type_invariant]
    pub open spec fn well_formed(&self) -> bool {
        self@.wf()
    }

    /// A list with one active entry per path, the first one selected.
    pub fn new(paths: Vec<String>) -> (menu: Self)
        ensures
            menu@ == MenuState::initial(paths.deep_view()),
            menu@.wf(),
    {
        let mut items: Vec<PathVar> = Vec::new();
        let ghost given = paths@;
        for path in iter: paths
            invariant
                iter.seq() == given,
                items@.len() == iter.index(),
                forall|j: int|
                    0 <= j < items@.len() ==> #[trigger] items@[j]@ == (Entry {
                        text: given[j]@,
                        active: true,
                    }),
        {
            items.push(PathVar::new(path));
        }
        let selected = if items.len() > 0 {
            Some(0)
        } else {
            None
        };
        let menu = SelectMenu { items, selected, offset: 0, input_mode: InputMode::Navigating };
        assert(menu@.entries =~= MenuState::initial(given.map_values(|p: String| p@)).entries);
        assert(paths.deep_view() =~= given.map_values(|p: String| p@));
        menu
    }

    /// Number of entries.
    pub fn len(&self) -> (len: usize)
        ensures
            len == self@.entries.len(),
            self@.wf(),
    {
        proof {
            use_type_invariant(self);
        }
        self.items.len()
    }

    /// Index of the selected entry, or `None` when the list is empty.
    pub fn selected(&self) -> (index: Option<usize>)
        ensures
            self@.selected == match index {
                Some(i) => Some(i as int),
                None => None,
            },
            self@.wf(),
    {
        proof {
            use_type_invariant(self);
        }
        self.selected
    }

    /// Index of the first entry that the host shows, as last recorded.
    pub fn offset(&self) -> (offset: usize)
        ensures
            offset == self@.offset,
    {
        self.offset
    }

    /// The current input mode.
    pub fn input_mode(&self) -> (mode: InputMode)
        ensures
            mode == self@.mode,
    {
        self.input_mode
    }

    /// The entry at `index`, or `None` when there is no such entry.
    pub fn item(&self, index: usize) -> (item: Option<&PathVar>)
        ensures
            match item {
                Some(entry) => index < self@.entries.len() && entry@ == self@.entries[index as int],
                None => index >= self@.entries.len(),
            },
    {
        if index < self.items.len() {
            Some(&self.items[index])
        } else {
            None
        }
    }

    /// Column and row at which the text caret belongs while the selected
    /// entry is edited, or `None` when nothing is selected.
    pub fn get_cursor_ind(&self) -> (position: Option<(usize, usize)>)
        ensures
            self@.cursor() == match position {
                Some((column, row)) => Some((column as nat, row as nat)),
                None => None,
            },
    {
        proof {
            use_type_invariant(self);
        }
        match self.selected {
            Some(i) => {
                let column: usize = self.items[i].path.as_str().unicode_len();
                let row: usize = if i >= self.offset {
                    i - self.offset
                } else {
                    0
                };
                Some((column, row))
            },
            None => None,
        }
    }

    /// Whether key presses currently edit the selected entry.
    pub fn is_typing(&self) -> (typing: bool)
        ensures
            typing == (self@.mode == InputMode::Typing),
    {
        self.input_mode == InputMode::Typing
    }

    /// Records that the host now shows the list from the entry at `offset`.
    pub fn set_offset(&mut self, offset: usize)
        ensures
            final(self)@ == old(self)@.with_offset(offset as nat),
            final(self)@.wf(),
    {
        proof {
            use_type_invariant(&*self);
        }
        self.offset = offset;
    }

    /// The texts of the active entries, in their order: the value that the
    /// list stands for.
    pub fn active_paths(&self) -> (paths: Vec<String>)
        ensures
            paths.deep_view() == self@.exported(),
    {
        let mut paths: Vec<String> = Vec::new();
        let mut i: usize = 0;
        while i < self.items.len()
            invariant
                i <= self.items@.len(),
                paths.deep_view() == active_texts(self@.entries.take(i as int)),
            decreases self.items@.len() - i,
        {
            let ghost seen = self@.entries.take(i as int);
            let ghost shown = paths.deep_view();
            if self.items[i].active {
                paths.push(self.items[i].path.clone());
            }
            proof {
                let entry = self@.entries[i as int];
                assert(self@.entries.take(i + 1) =~= seen.push(entry));
                active_texts_of_push(seen, entry);
                if entry.active {
                    assert(paths.deep_view() =~= shown.push(entry.text));
                }
            }
            i += 1;
        }
        assert(self@.entries.take(i as int) =~= self@.entries);
        paths
    }

    /// The lines of the list as the host draws them, in order.
    pub fn rows(&self) -> (rows: Vec<Row>)
        ensures
            rows@.len() == self@.entries.len(),
            forall|i: int| 0 <= i < rows@.len() ==> #[trigger] rows@[i]@ == self@.row(i),
    {
        let grabbing = self.input_mode == InputMode::Grabbing;
        let mut rows: Vec<Row> = Vec::new();
        let mut i: usize = 0;
        while i < self.items.len()
            invariant
                i <= self.items@.len(),
                grabbing == (self@.mode == InputMode::Grabbing),
                rows@.len() == i,
                forall|j: int| 0 <= j < i ==> #[trigger] rows@[j]@ == self@.row(j),
            decreases self.items@.len() - i,
        {
            let selected = match self.selected {
                Some(s) => s == i,
                None => false,
            };
            rows.push(
                Row {
                    text: self.items[i].path.clone(),
                    active: self.items[i].active,
                    selected,
                    grabbed: grabbing && selected,
                },
            );
            i += 1;
        }
        rows
    }

    /// Selects the entry below, or the first one from the last.
    pub fn sel_next(&mut self)
        ensures
            final(self)@ == old(self)@.sel_next(),
            final(self)@.wf(),
    {
        proof {
            use_type_invariant(&*self);
        }
        let len: usize = self.items.len();
        if let Some(i) = self.selected {
            if i + 1 < len {
                self.selected = Some(i + 1);
            } else {
                self.selected = Some(0);
            }
        }
    }

    /// Selects the entry above, or the last one from the first.
    pub fn sel_prev(&mut self)
        ensures
            final(self)@ == old(self)@.sel_prev(),
            final(self)@.wf(),
    {
        proof {
            use_type_invariant(&*self);
        }
        let len: usize = self.items.len();
        if let Some(i) = self.selected {
            if i > 0 {
                self.selected = Some(i - 1);
            } else {
                self.selected = Some(len - 1);
            }
        }
    }

    /// Selects the first entry.
    pub fn sel_first(&mut self)
        ensures
            final(self)@ == old(self)@.sel_first(),
            final(self)@.wf(),
    {
        proof {
            use_type_invariant(&*self);
        }
        if self.selected.is_some() {
            self.selected = Some(0);
        }
    }

    /// Selects the last entry.
    pub fn sel_last(&mut self)
        ensures
            final(self)@ == old(self)@.sel_last(),
            final(self)@.wf(),
    {
        proof {
            use_type_invariant(&*self);
        }
        let len: usize = self.items.len();
        if self.selected.is_some() {
            self.selected = Some(len - 1);
        }
    }

    /// Switches the selected entry on or off.
    pub fn toggle_status(&mut self)
        ensures
            final(self)@ == old(self)@.toggle_status(),
            final(self)@.wf(),
    {
        proof {
            use_type_invariant(&*self);
        }
        if let Some(i) = self.selected {
            self.items[i].active = !self.items[i].active;
            assert(final(self)@.entries =~= old(self)@.toggle_status().entries);
        }
    }

    /// Appends `c` to the selected entry.
    pub fn add_char_to_sel_path(&mut self, c: char)
        ensures
            final(self)@ == old(self)@.add_char(c),
            final(self)@.wf(),
    {
        proof {
            use_type_invariant(&*self);
        }
        if let Some(i) = self.selected {
            let was_empty = self.items[i].path.as_str().is_empty();
            self.items[i].path.push(c);
            if was_empty {
                self.items[i].active = true;
            }
            assert(final(self)@.entries =~= old(self)@.add_char(c).entries);
        }
    }

    /// Removes the last character of the selected entry, if it has one.
    pub fn del_char_from_sel_path(&mut self)
        ensures
            final(self)@ == old(self)@.del_char(),
            final(self)@.wf(),
    {
        proof {
            use_type_invariant(&*self);
        }
        if let Some(i) = self.selected {
            if self.items[i].path.pop().is_some() {
                if self.items[i].path.as_str().is_empty() {
                    self.items[i].active = false;
                }
            }
            assert(final(self)@.entries =~= old(self)@.del_char().entries);
        }
    }

    /// Lets the entries at two different places `a` and `b` change places.
    fn exchange(&mut self, a: usize, b: usize)
        requires
            a != b,
            a < old(self)@.entries.len(),
            b < old(self)@.entries.len(),
        ensures
            final(self)@ == (MenuState {
                entries: old(self)@.exchanged(a as int, b as int),
                ..old(self)@
            }),
            final(self).items@.len() == old(self).items@.len(),
    {
        proof {
            use_type_invariant(&*self);
        }
        let mut held = PathVar { path: String::new(), active: false };
        core::mem::swap(&mut held, &mut self.items[a]);
        core::mem::swap(&mut held, &mut self.items[b]);
        core::mem::swap(&mut held, &mut self.items[a]);
        assert(final(self)@.entries =~= old(self)@.exchanged(a as int, b as int));
    }

    /// Moves the selected entry one place up, keeping it selected.
    pub fn swap_up(&mut self)
        ensures
            final(self)@ == old(self)@.swap_up(),
            final(self)@.wf(),
            old(self)@.selected == Some(0int) ==> final(self)@ == old(self)@,
    {
        proof {
            use_type_invariant(&*self);
        }
        if let Some(i) = self.selected {
            if i == 0 {
                return ;
            }
            self.exchange(i, i - 1);
            self.selected = Some(i - 1);
        }
    }

    /// Moves the selected entry one place down, keeping it selected.
    pub fn swap_down(&mut self)
        ensures
            final(self)@ == old(self)@.swap_down(),
            final(self)@.wf(),
            old(self)@.selected == Some(old(self)@.entries.len() - 1) ==> final(self)@ == old(self)@,
    {
        proof {
            use_type_invariant(&*self);
        }
        let len: usize = self.items.len();
        if let Some(i) = self.selected {
            if i == len - 1 {
                return ;
            }
            self.exchange(i, i + 1);
            self.selected = Some(i + 1);
        }
    }

    /// Handles a key press while navigating.
    pub fn handle_nav_key_code(&mut self, key_code: KeyCode)
        ensures
            final(self)@ == old(self)@.nav_step(key_code),
            final(self)@.wf(),
    {
        proof {
            use_type_invariant(&*self);
        }
        match key_code {
            KeyCode::Enter => self.input_mode = InputMode::Typing,
            KeyCode::Char(' ') => self.input_mode = InputMode::Grabbing,
            KeyCode::Char('k') | KeyCode::Up => self.sel_prev(),
            KeyCode::Char('j') | KeyCode::Down => self.sel_next(),
            KeyCode::Char('h') | KeyCode::Left => self.sel_first(),
            KeyCode::Char('l') | KeyCode::Right => self.toggle_status(),
            _ => {},
        }
    }

    /// Handles a key press while typing.
    pub fn handle_type_key_code(&mut self, key_code: KeyCode)
        ensures
            final(self)@ == old(self)@.type_step(key_code),
            final(self)@.wf(),
    {
        proof {
            use_type_invariant(&*self);
        }
        match key_code {
            KeyCode::Enter => self.input_mode = InputMode::Navigating,
            KeyCode::Backspace => self.del_char_from_sel_path(),
            KeyCode::Char(c) => self.add_char_to_sel_path(c),
            _ => {},
        }
    }

    /// Handles a key press while an entry is being carried.
    pub fn handle_grab_key_code(&mut self, key_code: KeyCode)
        ensures
            final(self)@ == old(self)@.grab_step(key_code),
            final(self)@.wf(),
    {
        proof {
            use_type_invariant(&*self);
        }
        match key_code {
            KeyCode::Char(' ') => self.input_mode = InputMode::Navigating,
            KeyCode::Char('k') | KeyCode::Up => self.swap_up(),
            KeyCode::Char('j') | KeyCode::Down => self.swap_down(),
            _ => {},
        }
    }
}

impl KeyHandler for &mut SelectMenu {
    fn handle_key_code(self, key_code: KeyCode)
        ensures
            final(self)@ == old(self)@.step(key_code),
            final(self)@.wf(),
    {
        match self.input_mode {
            InputMode::Navigating => self.handle_nav_key_code(key_code),
            InputMode::Typing => self.handle_type_key_code(key_code),
            InputMode::Grabbing => self.handle_grab_key_code(key_code),
        }
    }
}

} // verus!
