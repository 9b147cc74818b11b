//! Laws of the list editor, proved over its model.

use vstd::prelude::*;
use crate::keys::KeyCode;
use crate::model::{active_texts, AppState, Entry, InputMode, MenuState};

verus! {

impl MenuState {
    /// The state after `n` steps of the selection down the list.
    pub open spec fn sel_next_times(self, n: nat) -> Self
        decreases n,
    {
        if n == 0 {
            self
        } else {
            self.sel_next().sel_next_times((n - 1) as nat)
        }
    }

    /// The state after `n` steps of the selection up the list.
    pub open spec fn sel_prev_times(self, n: nat) -> Self
        decreases n,
    {
        if n == 0 {
            self
        } else {
            self.sel_prev().sel_prev_times((n - 1) as nat)
        }
    }

    /// The state after `n` attempts to remove the last character of the
    /// selected entry.
    pub open spec fn del_char_times(self, n: nat) -> Self
        decreases n,
    {
        if n == 0 {
            self
        } else {
            self.del_char().del_char_times((n - 1) as nat)
        }
    }
}

/// Stepping down `n` times from entry `i` reaches entry `i + n`, as long
/// as that does not pass the end of the list.
proof fn lemma_sel_next_advances(m: MenuState, n: nat)
    requires
        m.wf(),
        m.selected.is_some(),
        m.selected.unwrap() + n < m.entries.len(),
    ensures
        m.sel_next_times(n) == m.select(m.selected.unwrap() + n),
    decreases n,
{
    if n > 0 {
        lemma_sel_next_advances(m.sel_next(), (n - 1) as nat);
    }
}

/// Stepping up `n` times from entry `i` reaches entry `i - n`, as long as
/// that does not pass the start of the list.
proof fn lemma_sel_prev_retreats(m: MenuState, n: nat)
    requires
        m.wf(),
        m.selected.is_some(),
        n <= m.selected.unwrap(),
    ensures
        m.sel_prev_times(n) == m.select(m.selected.unwrap() - n),
    decreases n,
{
    if n > 0 {
        lemma_sel_prev_retreats(m.sel_prev(), (n - 1) as nat);
    }
}

/// Taking `a` steps down and then `b` more is taking `a + b` steps.
proof fn lemma_sel_next_times_split(m: MenuState, a: nat, b: nat)
    ensures
        m.sel_next_times(a + b) == m.sel_next_times(a).sel_next_times(b),
    decreases a,
{
    if a > 0 {
        lemma_sel_next_times_split(m.sel_next(), (a - 1) as nat, b);
    }
}

/// Taking `a` steps up and then `b` more is taking `a + b` steps.
proof fn lemma_sel_prev_times_split(m: MenuState, a: nat, b: nat)
    ensures
        m.sel_prev_times(a + b) == m.sel_prev_times(a).sel_prev_times(b),
    decreases a,
{
    if a > 0 {
        lemma_sel_prev_times_split(m.sel_prev(), (a - 1) as nat, b);
    }
}

/// Stepping the selection down once for every entry of a non-empty list
/// brings the list back to the state it started from, whichever entry was
/// selected.
pub proof fn sel_next_wraps_around(m: MenuState)
    requires
        m.wf(),
        m.entries.len() > 0,
    ensures
        m.sel_next_times(m.entries.len()) == m,
{
    let len = m.entries.len();
    let i = m.selected.unwrap();
    let to_last = (len - 1 - i) as nat;
    let last = m.select(len - 1);
    let first = m.select(0);
    lemma_sel_next_advances(m, to_last);
    assert(last.sel_next().sel_next_times(0) == first);
    lemma_sel_next_advances(first, i as nat);
    lemma_sel_next_times_split(m, to_last, 1);
    lemma_sel_next_times_split(m, to_last + 1, i as nat);
}

/// Stepping the selection up once for every entry of a non-empty list
/// brings the list back to the state it started from, whichever entry was
/// selected.
pub proof fn sel_prev_wraps_around(m: MenuState)
    requires
        m.wf(),
        m.entries.len() > 0,
    ensures
        m.sel_prev_times(m.entries.len()) == m,
{
    let len = m.entries.len();
    let i = m.selected.unwrap();
    let from_last = (len - 1 - i) as nat;
    let last = m.select(len - 1);
    let first = m.select(0);
    lemma_sel_prev_retreats(m, i as nat);
    assert(first.sel_prev().sel_prev_times(0) == last);
    lemma_sel_prev_retreats(last, from_last);
    lemma_sel_prev_times_split(m, i as nat, 1);
    lemma_sel_prev_times_split(m, (i + 1) as nat, from_last);
}

/// After `n` removals the selected entry has lost its last `n` characters;
/// it keeps its flag while nothing was removed, and afterwards is active
/// only if it was active and some text is left.
proof fn lemma_del_char_times(m: MenuState, n: nat)
    requires
        m.wf(),
        m.selected.is_some(),
        n <= m.current().text.len(),
    ensures
        m.del_char_times(n) == m.replace_current(
            Entry {
                text: m.current().text.take(m.current().text.len() - n),
                active: m.current().active && (n == 0 || n < m.current().text.len()),
            },
        ),
    decreases n,
{
    let entry = m.current();
    let len = entry.text.len();
    if n == 0 {
        assert(entry.text.take(len as int) =~= entry.text);
        assert(m.replace_current(entry).entries =~= m.entries);
    } else {
        let next = m.del_char();
        lemma_del_char_times(next, (n - 1) as nat);
        assert(next.current().text.take(len - n) =~= entry.text.take(len - n));
        assert(m.del_char_times(n).entries =~= m.replace_current(
            Entry { text: entry.text.take(len - n), active: entry.active && n < len },
        ).entries);
    }
}

/// Removing the characters of the selected entry one by one until none is
/// left switches the entry off, whatever its flag was; the first character
/// typed after that switches it on again.
pub proof fn emptied_entry_is_off_until_typed_into(m: MenuState, c: char)
    requires
        m.wf(),
        m.selected.is_some(),
        m.current().text.len() > 0,
    ensures
        m.del_char_times(m.current().text.len()).current() == (Entry {
            text: Seq::empty(),
            active: false,
        }),
        m.del_char_times(m.current().text.len()).add_char(c).current() == (Entry {
            text: seq![c],
            active: true,
        }),
{
    let emptied = m.del_char_times(m.current().text.len());
    lemma_del_char_times(m, m.current().text.len());
    assert(emptied.current().text =~= Seq::empty());
}

/// While an entry is moved it stays the selected one: after a move up or
/// down the selection rests on the entry it rested on before.
pub proof fn swap_keeps_the_selected_entry(m: MenuState)
    requires
        m.wf(),
        m.selected.is_some(),
    ensures
        m.swap_up().current() == m.current(),
        m.swap_down().current() == m.current(),
{
}

/// Moving the selected entry up and then down again restores the list,
/// and so does moving it down and then up, wherever the first move is a
/// real one.
pub proof fn swap_round_trip(m: MenuState)
    requires
        m.wf(),
        m.selected.is_some(),
    ensures
        m.selected.unwrap() > 0 ==> m.swap_up().swap_down() == m,
        m.selected.unwrap() + 1 < m.entries.len() ==> m.swap_down().swap_up() == m,
{
    let i = m.selected.unwrap();
    if i > 0 {
        assert(m.swap_up().swap_down().entries =~= m.entries);
    }
    if i + 1 < m.entries.len() {
        assert(m.swap_down().swap_up().entries =~= m.entries);
    }
}

/// A move of the selected entry one place up exchanges it with the entry
/// above and touches no other entry.
pub proof fn swap_up_exchanges_neighbours(m: MenuState)
    requires
        m.wf(),
        m.selected.is_some(),
        m.selected.unwrap() > 0,
    ensures
        m.swap_up().entries.len() == m.entries.len(),
        m.swap_up().selected == Some(m.selected.unwrap() - 1),
        m.swap_up().entries[m.selected.unwrap() - 1] == m.entries[m.selected.unwrap()],
        m.swap_up().entries[m.selected.unwrap()] == m.entries[m.selected.unwrap() - 1],
        forall|j: int|
            0 <= j < m.entries.len() && j != m.selected.unwrap() && j != m.selected.unwrap() - 1
                ==> m.swap_up().entries[j] == m.entries[j],
{
}

/// A move of the selected entry one place down exchanges it with the entry
/// below and touches no other entry.
pub proof fn swap_down_exchanges_neighbours(m: MenuState)
    requires
        m.wf(),
        m.selected.is_some(),
        m.selected.unwrap() + 1 < m.entries.len(),
    ensures
        m.swap_down().entries.len() == m.entries.len(),
        m.swap_down().selected == Some(m.selected.unwrap() + 1),
        m.swap_down().entries[m.selected.unwrap() + 1] == m.entries[m.selected.unwrap()],
        m.swap_down().entries[m.selected.unwrap()] == m.entries[m.selected.unwrap() + 1],
        forall|j: int|
            0 <= j < m.entries.len() && j != m.selected.unwrap() && j != m.selected.unwrap() + 1
                ==> m.swap_down().entries[j] == m.entries[j],
{
}

/// At the top of the list a move up changes nothing, and at the bottom a
/// move down changes nothing.
pub proof fn swap_at_the_ends_is_idle(m: MenuState)
    requires
        m.wf(),
    ensures
        m.selected == Some(0int) ==> m.swap_up() == m,
        m.selected == Some(m.entries.len() - 1) ==> m.swap_down() == m,
{
}

/// While typing, the up and down arrows change nothing: neither the
/// selection nor the order of the entries.
pub proof fn arrows_are_idle_while_typing(m: MenuState, key: KeyCode)
    requires
        m.mode == InputMode::Typing,
        key == KeyCode::Up || key == KeyCode::Down,
    ensures
        m.step(key) == m,
{
}

/// While typing, no key moves the selection or an entry: the selection
/// stays where it is, and every entry but the selected one stays as it is.
pub proof fn typing_keeps_selection_and_order(m: MenuState, key: KeyCode)
    requires
        m.wf(),
        m.mode == InputMode::Typing,
    ensures
        m.step(key).selected == m.selected,
        m.step(key).entries.len() == m.entries.len(),
        forall|i: int|
            0 <= i < m.entries.len() && m.selected != Some(i) ==> #[trigger] m.step(
                key,
            ).entries[i] == m.entries[i],
{
}

/// While navigating, no character key changes the text of any entry.
pub proof fn characters_leave_texts_alone_while_navigating(m: MenuState, c: char)
    requires
        m.wf(),
        m.mode == InputMode::Navigating,
    ensures
        m.step(KeyCode::Char(c)).entries.len() == m.entries.len(),
        forall|i: int|
            0 <= i < m.entries.len() ==> (#[trigger] m.step(KeyCode::Char(c)).entries[i]).text
                == m.entries[i].text,
{
}

/// Every key press leaves the selection on an entry of the list.
pub proof fn step_keeps_selection_in_range(m: MenuState, key: KeyCode)
    requires
        m.wf(),
    ensures
        m.step(key).wf(),
        m.step(key).entries.len() == m.entries.len(),
{
}

/// A list without entries stands for no text at all.
pub proof fn active_texts_of_nothing()
    ensures
        active_texts(Seq::empty()) == Seq::<Seq<char>>::empty(),
{
    reveal_with_fuel(Seq::filter, 1);
}

/// An entry added at the end of a list adds its text at the end of what the
/// list stands for if it is active, and adds nothing otherwise.
pub proof fn active_texts_of_push(entries: Seq<Entry>, entry: Entry)
    ensures
        active_texts(entries.push(entry)) == if entry.active {
            active_texts(entries).push(entry.text)
        } else {
            active_texts(entries)
        },
{
    entries.lemma_filter_push(entry, |entry: Entry| entry.active);
}

/// Once the user has asked to leave, no key press takes the request back.
pub proof fn exit_is_never_cleared(app: AppState, key: KeyCode)
    requires
        app.exit,
    ensures
        app.step(key).exit,
{
}

/// The editor hands every key press to its list, and a key that asks to
/// leave changes nothing in the list.
pub proof fn quitting_leaves_the_list_alone(app: AppState, key: KeyCode)
    ensures
        app.step(key).menu == app.menu.step(key),
        app.quits(key) ==> app.step(key).menu == app.menu,
{
}

} // verus!
