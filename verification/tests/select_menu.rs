use pathui::{InputMode, SelectMenu};

fn list_of(paths: &[&str]) -> SelectMenu {
    SelectMenu::new(paths.iter().map(|path| path.to_string()).collect())
}

fn texts_of(menu: &SelectMenu) -> Vec<String> {
    menu.rows().into_iter().map(|row| row.text).collect()
}

fn flags_of(menu: &SelectMenu) -> Vec<bool> {
    menu.rows().into_iter().map(|row| row.active).collect()
}

#[test]
fn it_works() {}

#[test]
fn new_list_has_every_entry_active_and_the_first_selected() {
    let menu = list_of(&["/usr/bin", "/bin", "/sbin"]);
    assert_eq!(menu.len(), 3);
    assert_eq!(texts_of(&menu), vec!["/usr/bin", "/bin", "/sbin"]);
    assert_eq!(flags_of(&menu), vec![true, true, true]);
    assert_eq!(menu.selected(), Some(0));
    assert_eq!(menu.offset(), 0);
    assert_eq!(menu.input_mode(), InputMode::Navigating);
    assert!(!menu.is_typing());
}

#[test]
fn new_list_without_entries_has_no_selection() {
    let menu = list_of(&[]);
    assert_eq!(menu.len(), 0);
    assert_eq!(menu.selected(), None);
    assert!(menu.rows().is_empty());
    assert!(menu.active_paths().is_empty());
    assert_eq!(menu.get_cursor_ind(), None);
}

#[test]
fn new_list_keeps_an_empty_path_active() {
    let menu = list_of(&["/a", "", "/b"]);
    assert_eq!(texts_of(&menu), vec!["/a", "", "/b"]);
    assert_eq!(flags_of(&menu), vec![true, true, true]);
}

#[test]
fn item_gives_the_entry_or_nothing() {
    let menu = list_of(&["/a", "/b"]);
    let second = menu.item(1).unwrap();
    assert_eq!(second.path, "/b");
    assert!(second.active);
    assert!(menu.item(2).is_none());
}

#[test]
fn sel_next_moves_down_and_wraps_to_the_first() {
    let mut menu = list_of(&["/a", "/b", "/c"]);
    menu.sel_next();
    assert_eq!(menu.selected(), Some(1));
    menu.sel_next();
    assert_eq!(menu.selected(), Some(2));
    menu.sel_next();
    assert_eq!(menu.selected(), Some(0));
}

#[test]
fn sel_prev_moves_up_and_wraps_to_the_last() {
    let mut menu = list_of(&["/a", "/b", "/c"]);
    menu.sel_prev();
    assert_eq!(menu.selected(), Some(2));
    menu.sel_prev();
    assert_eq!(menu.selected(), Some(1));
    menu.sel_prev();
    assert_eq!(menu.selected(), Some(0));
}

#[test]
fn sel_next_once_per_entry_returns_to_every_start() {
    let paths = ["/a", "/b", "/c", "/d", "/e"];
    for start in 0..paths.len() {
        let mut menu = list_of(&paths);
        for _ in 0..start {
            menu.sel_next();
        }
        assert_eq!(menu.selected(), Some(start));
        for _ in 0..paths.len() {
            menu.sel_next();
        }
        assert_eq!(menu.selected(), Some(start));
        assert_eq!(texts_of(&menu), paths);
    }
}

#[test]
fn sel_prev_once_per_entry_returns_to_every_start() {
    let paths = ["/a", "/b", "/c", "/d", "/e"];
    for start in 0..paths.len() {
        let mut menu = list_of(&paths);
        for _ in 0..start {
            menu.sel_next();
        }
        for _ in 0..paths.len() {
            menu.sel_prev();
        }
        assert_eq!(menu.selected(), Some(start));
        assert_eq!(texts_of(&menu), paths);
    }
}

#[test]
fn selection_of_a_single_entry_stays_on_it() {
    let mut menu = list_of(&["/only"]);
    menu.sel_next();
    assert_eq!(menu.selected(), Some(0));
    menu.sel_prev();
    assert_eq!(menu.selected(), Some(0));
    menu.sel_last();
    assert_eq!(menu.selected(), Some(0));
    menu.sel_first();
    assert_eq!(menu.selected(), Some(0));
}

#[test]
fn sel_first_and_sel_last_jump_to_the_ends() {
    let mut menu = list_of(&["/a", "/b", "/c"]);
    menu.sel_last();
    assert_eq!(menu.selected(), Some(2));
    menu.sel_first();
    assert_eq!(menu.selected(), Some(0));
    menu.sel_next();
    menu.sel_first();
    assert_eq!(menu.selected(), Some(0));
}

#[test]
fn toggle_status_flips_the_selected_entry_only() {
    let mut menu = list_of(&["/a", "/b", "/c"]);
    menu.sel_next();
    menu.toggle_status();
    assert_eq!(flags_of(&menu), vec![true, false, true]);
    assert_eq!(texts_of(&menu), vec!["/a", "/b", "/c"]);
    assert_eq!(menu.selected(), Some(1));
    menu.toggle_status();
    assert_eq!(flags_of(&menu), vec![true, true, true]);
}

#[test]
fn toggle_status_does_not_look_at_the_text() {
    let mut menu = list_of(&[""]);
    menu.toggle_status();
    assert_eq!(flags_of(&menu), vec![false]);
    menu.toggle_status();
    assert_eq!(flags_of(&menu), vec![true]);
    assert_eq!(texts_of(&menu), vec![""]);
}

#[test]
fn add_char_appends_to_the_selected_entry() {
    let mut menu = list_of(&["/usr/bin", "/bin"]);
    menu.sel_next();
    menu.add_char_to_sel_path('x');
    menu.add_char_to_sel_path('/');
    assert_eq!(texts_of(&menu), vec!["/usr/bin", "/binx/"]);
    assert_eq!(flags_of(&menu), vec![true, true]);
    assert_eq!(menu.selected(), Some(1));
}

#[test]
fn add_char_switches_an_emptied_entry_on() {
    let mut menu = list_of(&["a"]);
    menu.del_char_from_sel_path();
    assert_eq!(flags_of(&menu), vec![false]);
    menu.add_char_to_sel_path('b');
    assert_eq!(texts_of(&menu), vec!["b"]);
    assert_eq!(flags_of(&menu), vec![true]);
}

#[test]
fn add_char_leaves_a_disabled_entry_with_text_disabled() {
    let mut menu = list_of(&["/a"]);
    menu.toggle_status();
    menu.add_char_to_sel_path('b');
    assert_eq!(texts_of(&menu), vec!["/ab"]);
    assert_eq!(flags_of(&menu), vec![false]);
}

#[test]
fn add_char_counts_characters_not_bytes() {
    let mut menu = list_of(&[""]);
    menu.toggle_status();
    assert_eq!(flags_of(&menu), vec![false]);
    menu.add_char_to_sel_path('é');
    assert_eq!(texts_of(&menu), vec!["é"]);
    assert_eq!(flags_of(&menu), vec![true]);
}

#[test]
fn del_char_removes_the_last_character() {
    let mut menu = list_of(&["/usr/bin", "/bin"]);
    menu.del_char_from_sel_path();
    assert_eq!(texts_of(&menu), vec!["/usr/bi", "/bin"]);
    assert_eq!(flags_of(&menu), vec![true, true]);
    assert_eq!(menu.selected(), Some(0));
}

#[test]
fn del_char_removes_a_whole_character() {
    let mut menu = list_of(&["/café"]);
    menu.del_char_from_sel_path();
    assert_eq!(texts_of(&menu), vec!["/caf"]);
}

#[test]
fn del_char_on_empty_text_changes_nothing() {
    let mut menu = list_of(&["", "/b"]);
    menu.del_char_from_sel_path();
    assert_eq!(texts_of(&menu), vec!["", "/b"]);
    assert_eq!(flags_of(&menu), vec![true, true]);
}

#[test]
fn del_char_until_empty_switches_off_and_typing_switches_on() {
    let mut menu = list_of(&["/bin", "/sbin"]);
    let length: usize = "/bin".len();
    for left in (0..length).rev() {
        assert_eq!(flags_of(&menu), vec![true, true]);
        menu.del_char_from_sel_path();
        assert_eq!(texts_of(&menu)[0], "/bin"[..left]);
    }
    assert_eq!(texts_of(&menu), vec!["", "/sbin"]);
    assert_eq!(flags_of(&menu), vec![false, true]);
    menu.add_char_to_sel_path('/');
    assert_eq!(texts_of(&menu), vec!["/", "/sbin"]);
    assert_eq!(flags_of(&menu), vec![true, true]);
}

#[test]
fn swap_up_then_swap_down_keeps_the_entry_selected() {
    let mut menu = list_of(&["A", "B", "C"]);
    menu.sel_next();
    menu.swap_up();
    assert_eq!(texts_of(&menu), vec!["B", "A", "C"]);
    assert_eq!(menu.selected(), Some(0));
    menu.swap_down();
    assert_eq!(texts_of(&menu), vec!["A", "B", "C"]);
    assert_eq!(menu.selected(), Some(1));
}

#[test]
fn swap_carries_the_flag_along() {
    let mut menu = list_of(&["A", "B", "C"]);
    menu.toggle_status();
    menu.swap_down();
    assert_eq!(texts_of(&menu), vec!["B", "A", "C"]);
    assert_eq!(flags_of(&menu), vec![true, false, true]);
    menu.swap_down();
    assert_eq!(texts_of(&menu), vec!["B", "C", "A"]);
    assert_eq!(flags_of(&menu), vec![true, true, false]);
    assert_eq!(menu.selected(), Some(2));
}

#[test]
fn swap_up_at_the_top_changes_nothing() {
    let mut menu = list_of(&["A", "B", "C"]);
    menu.swap_up();
    assert_eq!(texts_of(&menu), vec!["A", "B", "C"]);
    assert_eq!(menu.selected(), Some(0));
}

#[test]
fn swap_down_at_the_bottom_changes_nothing() {
    let mut menu = list_of(&["A", "B", "C"]);
    menu.sel_last();
    menu.swap_down();
    assert_eq!(texts_of(&menu), vec!["A", "B", "C"]);
    assert_eq!(menu.selected(), Some(2));
}

#[test]
fn swap_on_a_single_entry_changes_nothing() {
    let mut menu = list_of(&["A"]);
    menu.swap_up();
    menu.swap_down();
    assert_eq!(texts_of(&menu), vec!["A"]);
    assert_eq!(menu.selected(), Some(0));
}

#[test]
fn every_operation_is_idle_on_an_empty_list() {
    let mut menu = list_of(&[]);
    menu.sel_next();
    menu.sel_prev();
    menu.sel_first();
    menu.sel_last();
    menu.toggle_status();
    menu.add_char_to_sel_path('x');
    menu.del_char_from_sel_path();
    menu.swap_up();
    menu.swap_down();
    assert_eq!(menu.len(), 0);
    assert_eq!(menu.selected(), None);
    assert_eq!(menu.get_cursor_ind(), None);
    assert_eq!(menu.input_mode(), InputMode::Navigating);
}

#[test]
fn cursor_sits_behind_the_text_of_the_selected_entry() {
    let mut menu = list_of(&["/usr/bin", "/bin", ""]);
    assert_eq!(menu.get_cursor_ind(), Some((8, 0)));
    menu.sel_next();
    assert_eq!(menu.get_cursor_ind(), Some((4, 1)));
    menu.add_char_to_sel_path('x');
    assert_eq!(menu.get_cursor_ind(), Some((5, 1)));
    menu.sel_next();
    assert_eq!(menu.get_cursor_ind(), Some((0, 2)));
}

#[test]
fn cursor_column_counts_characters() {
    let menu = list_of(&["/café"]);
    assert_eq!(menu.get_cursor_ind(), Some((5, 0)));
}

#[test]
fn cursor_row_is_counted_from_the_first_entry_shown() {
    let mut menu = list_of(&["/a", "/b", "/c", "/d", "/e"]);
    menu.sel_last();
    menu.set_offset(3);
    assert_eq!(menu.offset(), 3);
    assert_eq!(menu.get_cursor_ind(), Some((2, 1)));
    menu.set_offset(4);
    assert_eq!(menu.get_cursor_ind(), Some((2, 0)));
    menu.sel_first();
    assert_eq!(menu.get_cursor_ind(), Some((2, 0)));
    menu.set_offset(0);
    menu.sel_next();
    menu.sel_next();
    assert_eq!(menu.get_cursor_ind(), Some((2, 2)));
}

#[test]
fn set_offset_changes_nothing_else() {
    let mut menu = list_of(&["/a", "/b"]);
    menu.sel_next();
    menu.set_offset(7);
    assert_eq!(menu.offset(), 7);
    assert_eq!(menu.selected(), Some(1));
    assert_eq!(texts_of(&menu), vec!["/a", "/b"]);
    assert_eq!(menu.input_mode(), InputMode::Navigating);
}

#[test]
fn active_paths_leaves_out_disabled_entries() {
    let mut menu = list_of(&["/a", "/b", "/c"]);
    menu.sel_next();
    menu.toggle_status();
    assert_eq!(flags_of(&menu), vec![true, false, true]);
    assert_eq!(menu.active_paths(), vec!["/a", "/c"]);
}

#[test]
fn active_paths_follows_the_current_order() {
    let mut menu = list_of(&["/a", "/b", "/c"]);
    menu.swap_down();
    assert_eq!(menu.active_paths(), vec!["/b", "/a", "/c"]);
    menu.toggle_status();
    assert_eq!(menu.active_paths(), vec!["/b", "/c"]);
    menu.sel_first();
    menu.toggle_status();
    menu.sel_last();
    menu.toggle_status();
    assert!(menu.active_paths().is_empty());
}

#[test]
fn rows_mark_the_selected_entry() {
    let mut menu = list_of(&["/a", "/b", "/c"]);
    menu.sel_next();
    let rows = menu.rows();
    assert_eq!(rows.len(), 3);
    let marks: Vec<bool> = rows.iter().map(|row| row.selected).collect();
    assert_eq!(marks, vec![false, true, false]);
    assert!(rows.iter().all(|row| !row.grabbed));
}
