use yana::app::{App, Focus, SelectedButton};
use yana::notes::Note;
use yana::utils::{
    adjust_list_scroll_down, adjust_list_scroll_up, adjust_note_scroll_down,
    adjust_note_scroll_up, apply_key, handle_input, parse_note_lines, Action, Key,
};

fn note(title: &str, content: &str) -> Note {
    Note { title: title.to_string(), content: content.to_string() }
}

fn numbered(count: usize) -> Vec<Note> {
    (0..count).map(|i| note(&format!("n{}", i), &format!("# n{}\n\n- [ ] item", i))).collect()
}

fn titles(app: &App) -> Vec<String> {
    app.notes.iter().map(|n| n.title.clone()).collect()
}

#[test]
fn new_app_starts_at_the_top_of_the_list() {
    let app = App::new(numbered(3));
    assert_eq!(app.notes.len(), 3);
    assert_eq!(app.selected_note, 0);
    assert_eq!(app.list_scroll, 0);
    assert_eq!(app.selected_line, 0);
    assert_eq!(app.note_scroll, 0);
    assert_eq!(app.focus, Focus::Left);
    assert!(!app.confirm_delete);
    assert!(!app.needs_redraw);
    assert_eq!(app.selected_button, SelectedButton::No);
    assert!(app.is_valid());
}

#[test]
fn minimal_motion_keeps_selection_at_bottom_edge() {
    let mut app = App::new(numbered(10));
    for _ in 0..7 {
        assert_eq!(handle_input(Key::Char('j'), &mut app, 5, 10), Action::Continue);
    }
    assert_eq!(app.selected_note, 7);
    assert_eq!(app.list_scroll, 3);
}

#[test]
fn moving_up_scrolls_only_when_selection_leaves_the_window() {
    let mut app = App::new(numbered(10));
    for _ in 0..7 {
        handle_input(Key::Char('j'), &mut app, 5, 10);
    }
    handle_input(Key::Char('k'), &mut app, 5, 10);
    assert_eq!((app.selected_note, app.list_scroll), (6, 3));
    for _ in 0..3 {
        handle_input(Key::Char('k'), &mut app, 5, 10);
    }
    assert_eq!((app.selected_note, app.list_scroll), (3, 3));
    handle_input(Key::Char('k'), &mut app, 5, 10);
    assert_eq!((app.selected_note, app.list_scroll), (2, 2));
}

#[test]
fn selection_stops_at_both_ends_of_the_list() {
    let mut app = App::new(numbered(3));
    handle_input(Key::Char('k'), &mut app, 5, 10);
    assert_eq!(app.selected_note, 0);
    for _ in 0..5 {
        handle_input(Key::Char('j'), &mut app, 5, 10);
    }
    assert_eq!(app.selected_note, 2);
    assert_eq!(app.list_scroll, 0);
}

#[test]
fn shrinking_the_window_is_mended_by_the_next_move() {
    let mut app = App::new(numbered(20));
    for _ in 0..9 {
        handle_input(Key::Char('j'), &mut app, 10, 10);
    }
    assert_eq!((app.selected_note, app.list_scroll), (9, 0));
    handle_input(Key::Char('j'), &mut app, 4, 10);
    assert_eq!((app.selected_note, app.list_scroll), (10, 7));
    handle_input(Key::Char('k'), &mut app, 2, 10);
    assert_eq!((app.selected_note, app.list_scroll), (9, 8));
}

#[test]
fn moves_keep_selection_inside_current_window() {
    let mut app = App::new(numbered(9));
    let rows = [3usize, 1, 7, 2, 5, 4, 1, 9, 2, 3, 6, 1];
    let keys = ['j', 'j', 'j', 'k', 'j', 'j', 'j', 'j', 'j', 'j', 'k', 'k'];
    for (r, k) in rows.iter().zip(keys.iter()) {
        handle_input(Key::Char(*k), &mut app, *r, 10);
        assert!(app.selected_note < app.notes.len());
        assert!(app.list_scroll <= app.selected_note);
        assert!(app.selected_note < app.list_scroll + *r);
        assert!(app.is_valid());
    }
}

#[test]
fn a_window_of_no_rows_counts_as_one_row() {
    let mut app = App::new(numbered(4));
    handle_input(Key::Char('j'), &mut app, 0, 0);
    assert_eq!((app.selected_note, app.list_scroll), (1, 1));
}

#[test]
fn switching_notes_resets_the_body_pane() {
    let content = "- a\n- b\n- c\n- d\n- e\n- f";
    let mut app = App::new(vec![note("x", content), note("y", content)]);
    handle_input(Key::Char('l'), &mut app, 5, 3);
    assert_eq!(app.focus, Focus::Right);
    for _ in 0..4 {
        handle_input(Key::Char('j'), &mut app, 5, 3);
    }
    assert_eq!((app.selected_line, app.note_scroll), (4, 2));
    handle_input(Key::Char('h'), &mut app, 5, 3);
    assert_eq!(app.focus, Focus::Left);
    handle_input(Key::Char('j'), &mut app, 5, 3);
    assert_eq!(app.selected_note, 1);
    assert_eq!((app.selected_line, app.note_scroll), (0, 0));
}

#[test]
fn body_moves_stay_within_the_display_lines() {
    let content = "- a\n- b\n- c";
    assert_eq!(parse_note_lines(content), 3);
    let mut app = App::new(vec![note("x", content)]);
    handle_input(Key::Char('l'), &mut app, 5, 2);
    handle_input(Key::Char('k'), &mut app, 5, 2);
    assert_eq!((app.selected_line, app.note_scroll), (0, 0));
    for _ in 0..6 {
        handle_input(Key::Char('j'), &mut app, 5, 2);
        assert!(app.selected_line < 3);
        assert!(app.note_scroll <= app.selected_line);
        assert!(app.selected_line < app.note_scroll + 2);
    }
    assert_eq!((app.selected_line, app.note_scroll), (2, 1));
    handle_input(Key::Char('k'), &mut app, 5, 2);
    assert_eq!((app.selected_line, app.note_scroll), (1, 1));
    handle_input(Key::Char('k'), &mut app, 5, 2);
    assert_eq!((app.selected_line, app.note_scroll), (0, 0));
}

#[test]
fn a_line_beyond_the_note_is_brought_back_by_a_move() {
    let mut app = App::new(numbered(1));
    app.focus = Focus::Right;
    app.selected_line = 50;
    app.note_scroll = 45;
    assert_eq!(apply_key(Key::Char('k'), &mut app, 10, 5, 4), Action::Continue);
    assert_eq!((app.selected_line, app.note_scroll), (9, 9));
}

#[test]
fn jump_bottom_selects_last_line_and_scrolls_to_the_end() {
    let content = "- 1\n- 2\n- 3\n- 4\n- 5\n- 6\n- 7\n- 8\n- 9\n- 10\n- 11\n- 12";
    assert_eq!(parse_note_lines(content), 12);
    let mut app = App::new(vec![note("x", content)]);
    handle_input(Key::Char('l'), &mut app, 5, 10);
    assert_eq!(handle_input(Key::Char('G'), &mut app, 5, 10), Action::Continue);
    assert_eq!(app.selected_line, 11);
    assert_eq!(app.note_scroll, 2);
}

#[test]
fn jump_bottom_of_a_short_note_does_not_scroll() {
    let mut app = App::new(numbered(1));
    app.focus = Focus::Right;
    apply_key(Key::Char('G'), &mut app, 4, 5, 10);
    assert_eq!((app.selected_line, app.note_scroll), (3, 0));
    apply_key(Key::Char('G'), &mut app, 0, 5, 10);
    assert_eq!((app.selected_line, app.note_scroll), (0, 0));
}

#[test]
fn jump_top_returns_to_the_first_line() {
    let mut app = App::new(numbered(1));
    app.focus = Focus::Right;
    apply_key(Key::Char('G'), &mut app, 30, 5, 10);
    assert_eq!((app.selected_line, app.note_scroll), (29, 20));
    apply_key(Key::Char('g'), &mut app, 30, 5, 10);
    assert_eq!((app.selected_line, app.note_scroll), (0, 0));
}

#[test]
fn jumps_do_nothing_in_the_list_pane() {
    let mut app = App::new(numbered(3));
    apply_key(Key::Char('G'), &mut app, 30, 5, 10);
    assert_eq!((app.selected_line, app.note_scroll, app.selected_note), (0, 0, 0));
}

#[test]
fn confirmed_delete_removes_the_selected_note() {
    let mut app = App::new(numbered(4));
    handle_input(Key::Char('j'), &mut app, 5, 10);
    assert_eq!(handle_input(Key::Char('d'), &mut app, 5, 10), Action::Continue);
    assert!(app.confirm_delete);
    assert_eq!(app.selected_button, SelectedButton::No);
    assert_eq!(handle_input(Key::Char('h'), &mut app, 5, 10), Action::Continue);
    assert_eq!(app.selected_button, SelectedButton::Yes);
    assert_eq!(handle_input(Key::Enter, &mut app, 5, 10), Action::SaveNotes);
    assert!(!app.confirm_delete);
    assert_eq!(titles(&app), vec!["n0", "n2", "n3"]);
    assert_eq!(app.selected_note, 1);
}

#[test]
fn deleting_the_last_note_moves_the_selection_back() {
    let mut app = App::new(numbered(3));
    handle_input(Key::Char('j'), &mut app, 1, 10);
    handle_input(Key::Char('j'), &mut app, 1, 10);
    assert_eq!((app.selected_note, app.list_scroll), (2, 2));
    handle_input(Key::Char('d'), &mut app, 1, 10);
    handle_input(Key::Left, &mut app, 1, 10);
    assert_eq!(handle_input(Key::Enter, &mut app, 1, 10), Action::SaveNotes);
    assert_eq!(titles(&app), vec!["n0", "n1"]);
    assert_eq!((app.selected_note, app.list_scroll), (1, 1));
    assert!(app.is_valid());
}

#[test]
fn deleting_the_only_note_leaves_the_empty_state() {
    let mut app = App::new(numbered(1));
    handle_input(Key::Char('d'), &mut app, 5, 10);
    handle_input(Key::Char('h'), &mut app, 5, 10);
    assert_eq!(handle_input(Key::Enter, &mut app, 5, 10), Action::SaveNotes);
    assert!(app.notes.is_empty());
    assert_eq!((app.selected_note, app.list_scroll), (0, 0));
    assert_eq!(handle_input(Key::Char('d'), &mut app, 5, 10), Action::Continue);
    assert!(!app.confirm_delete);
}

#[test]
fn declined_delete_leaves_the_list_unchanged() {
    let mut app = App::new(numbered(3));
    handle_input(Key::Char('d'), &mut app, 5, 10);
    handle_input(Key::Char('h'), &mut app, 5, 10);
    handle_input(Key::Right, &mut app, 5, 10);
    assert_eq!(app.selected_button, SelectedButton::No);
    assert_eq!(handle_input(Key::Enter, &mut app, 5, 10), Action::Continue);
    assert!(!app.confirm_delete);
    assert_eq!(titles(&app), vec!["n0", "n1", "n2"]);
    assert_eq!(app.selected_note, 0);
}

#[test]
fn pending_delete_suppresses_navigation() {
    let mut app = App::new(numbered(3));
    handle_input(Key::Char('d'), &mut app, 5, 10);
    for key in [Key::Char('j'), Key::Char('k'), Key::Char('G'), Key::Char(' '), Key::Char('q'),
        Key::Char('c'), Key::Char('e'), Key::Other]
    {
        assert_eq!(handle_input(key, &mut app, 5, 10), Action::Continue);
        assert!(app.confirm_delete);
        assert_eq!(app.selected_note, 0);
        assert_eq!(app.focus, Focus::Left);
    }
    assert_eq!(titles(&app), vec!["n0", "n1", "n2"]);
}

#[test]
fn command_keys_ask_the_caller_to_act() {
    let mut app = App::new(numbered(2));
    assert_eq!(handle_input(Key::Char('q'), &mut app, 5, 10), Action::Quit);
    assert_eq!(handle_input(Key::Char('c'), &mut app, 5, 10), Action::CreateNote);
    assert_eq!(handle_input(Key::Char('e'), &mut app, 5, 10), Action::EditNote);
    assert_eq!(handle_input(Key::Enter, &mut app, 5, 10), Action::Continue);
    assert_eq!(handle_input(Key::Char('z'), &mut app, 5, 10), Action::Continue);
    let mut empty = App::new(Vec::new());
    assert_eq!(handle_input(Key::Char('e'), &mut empty, 5, 10), Action::Continue);
    assert_eq!(handle_input(Key::Char(' '), &mut empty, 5, 10), Action::Continue);
    assert_eq!(handle_input(Key::Char('j'), &mut empty, 5, 10), Action::Continue);
    assert_eq!(empty.selected_note, 0);
}

#[test]
fn space_toggles_the_item_below_the_selected_line() {
    let mut app = App::new(vec![note("t", "# t\n- [ ] a\n- [x] b")]);
    assert_eq!(handle_input(Key::Char(' '), &mut app, 5, 10), Action::SaveNotes);
    assert_eq!(app.notes[0].content, "# t\n- [x] a\n- [x] b");
    assert_eq!((app.selected_line, app.note_scroll), (0, 0));
}

#[test]
fn scroll_adjusters_follow_the_selection() {
    let mut app = App::new(numbered(30));
    app.selected_note = 12;
    adjust_list_scroll_down(&mut app, 10);
    assert_eq!(app.list_scroll, 3);
    adjust_list_scroll_down(&mut app, 20);
    assert_eq!(app.list_scroll, 3);
    app.selected_note = 1;
    adjust_list_scroll_up(&mut app);
    assert_eq!(app.list_scroll, 1);
    app.selected_line = 40;
    adjust_note_scroll_down(&mut app, 25, 10);
    assert_eq!((app.selected_line, app.note_scroll), (24, 15));
    app.selected_line = 4;
    adjust_note_scroll_up(&mut app);
    assert_eq!(app.note_scroll, 4);
}

#[test]
fn confirmed_delete_puts_the_body_pane_at_the_top() {
    let long = "- 1\n- 2\n- 3\n- 4\n- 5\n- 6\n- 7\n- 8\n- 9\n- 10";
    let mut app = App::new(vec![note("long", long), note("short", "only line")]);
    assert_eq!(parse_note_lines(long), 10);
    assert_eq!(parse_note_lines("only line"), 1);
    handle_input(Key::Char('l'), &mut app, 5, 3);
    for _ in 0..5 {
        handle_input(Key::Char('j'), &mut app, 5, 3);
    }
    assert_eq!((app.selected_line, app.note_scroll), (5, 3));
    handle_input(Key::Char('d'), &mut app, 5, 3);
    handle_input(Key::Char('h'), &mut app, 5, 3);
    assert_eq!((app.selected_line, app.note_scroll), (5, 3));
    assert_eq!(handle_input(Key::Enter, &mut app, 5, 3), Action::SaveNotes);
    assert_eq!(titles(&app), vec!["short"]);
    assert_eq!(app.selected_note, 0);
    assert_eq!((app.selected_line, app.note_scroll), (0, 0));
    assert!(app.selected_line < parse_note_lines(&app.notes[0].content));
    assert_eq!(app.focus, Focus::Right);
    assert!(app.is_valid());
}

#[test]
fn declined_delete_keeps_the_body_pane_where_it_was() {
    let long = "- 1\n- 2\n- 3\n- 4\n- 5\n- 6";
    let mut app = App::new(vec![note("long", long), note("short", "x")]);
    handle_input(Key::Char('l'), &mut app, 5, 3);
    for _ in 0..4 {
        handle_input(Key::Char('j'), &mut app, 5, 3);
    }
    assert_eq!((app.selected_line, app.note_scroll), (4, 2));
    handle_input(Key::Char('d'), &mut app, 5, 3);
    assert_eq!(handle_input(Key::Enter, &mut app, 5, 3), Action::Continue);
    assert_eq!(titles(&app), vec!["long", "short"]);
    assert_eq!((app.selected_line, app.note_scroll), (4, 2));
}
