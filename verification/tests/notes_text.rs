use yana::app::App;
use yana::notes::{
    count_todos, create_note, delete_note, edit_note, flipped, is_space_char, title_from_content,
    toggle_todo, toggled_content, Note,
};
use yana::text::{chars_of, find_marker, join, split_lines, string_of};

fn note(title: &str, content: &str) -> Note {
    Note { title: title.to_string(), content: content.to_string() }
}

fn lines(text: &str) -> Vec<String> {
    split_lines(&chars_of(text)).iter().map(string_of).collect()
}

#[test]
fn chars_and_strings_convert_both_ways() {
    assert_eq!(chars_of("a\u{e9}\u{2022}"), vec!['a', '\u{e9}', '\u{2022}']);
    assert_eq!(string_of(&vec!['h', 'i', '\u{2022}']), "hi\u{2022}");
    assert_eq!(string_of(&Vec::new()), "");
}

#[test]
fn split_lines_follows_line_feeds() {
    assert_eq!(lines("a\nb"), vec!["a", "b"]);
    assert_eq!(lines("a\nb\n"), vec!["a", "b"]);
    assert_eq!(lines("a\r\nb\r"), vec!["a", "b\r"]);
    assert_eq!(lines("\n\nx"), vec!["", "", "x"]);
    assert_eq!(lines(""), Vec::<String>::new());
    assert_eq!(lines("\n"), vec![""]);
}

#[test]
fn join_puts_one_line_feed_between_lines() {
    let parts = vec![chars_of("a"), chars_of(""), chars_of("bc")];
    assert_eq!(string_of(&join(&parts)), "a\n\nbc");
    assert_eq!(string_of(&join(&Vec::new())), "");
}

#[test]
fn find_marker_gives_the_first_position() {
    assert_eq!(find_marker(&chars_of("- [ ] a [ ]"), ' '), Some(2));
    assert_eq!(find_marker(&chars_of("- [ ] a [x]"), 'x'), Some(8));
    assert_eq!(find_marker(&chars_of("[x"), 'x'), None);
    assert_eq!(find_marker(&chars_of(""), ' '), None);
    assert_eq!(find_marker(&chars_of("[[ ]"), ' '), Some(1));
}

#[test]
fn count_todos_counts_open_and_closed_lines() {
    assert_eq!(count_todos("# T\n- [ ] a\n- [x] b\n- [ ] c\nplain"), (2, 1));
    assert_eq!(count_todos(""), (0, 0));
    assert_eq!(count_todos("no items\nhere"), (0, 0));
}

#[test]
fn count_todos_counts_a_line_with_both_markers_twice() {
    assert_eq!(count_todos("- [ ] and [x]"), (1, 1));
    assert_eq!(count_todos("[ ] [ ] [ ]\n[x][x]"), (1, 1));
}

#[test]
fn flipped_changes_only_the_first_marker() {
    assert_eq!(string_of(&flipped(&chars_of("- [ ] a [ ]"))), "- [x] a [ ]");
    assert_eq!(string_of(&flipped(&chars_of("- [x] a [x]"))), "- [ ] a [x]");
    assert_eq!(string_of(&flipped(&chars_of("[x] then [ ]"))), "[x] then [x]");
    assert_eq!(string_of(&flipped(&chars_of("nothing"))), "nothing");
}

#[test]
fn toggled_content_flips_the_line_below_the_selection() {
    assert_eq!(toggled_content("# T\n- [ ] a\n- [x] b", 0), Some("# T\n- [x] a\n- [x] b".to_string()));
    assert_eq!(toggled_content("# T\n- [ ] a\n- [x] b", 1), Some("# T\n- [ ] a\n- [ ] b".to_string()));
    assert_eq!(toggled_content("# T\n- [ ] a\n- [x] b", 2), None);
    assert_eq!(toggled_content("", 0), None);
    assert_eq!(toggled_content("- [ ] only", 0), None);
    assert_eq!(toggled_content("a", usize::MAX), None);
}

#[test]
fn toggled_content_rejoins_lines_with_line_feeds() {
    assert_eq!(toggled_content("a\r\nplain\r\n", 0), Some("a\nplain".to_string()));
}

#[test]
fn toggle_todo_rewrites_the_selected_note_only() {
    let mut app = App::new(vec![note("a", "x\n- [ ] one"), note("b", "x\n- [ ] two")]);
    app.selected_note = 1;
    app.list_scroll = 1;
    assert!(toggle_todo(&mut app));
    assert_eq!(app.notes[0].content, "x\n- [ ] one");
    assert_eq!(app.notes[1].content, "x\n- [x] two");
    assert_eq!(app.notes[1].title, "b");
    assert!(toggle_todo(&mut app));
    assert_eq!(app.notes[1].content, "x\n- [ ] two");
    app.selected_line = 1;
    assert!(!toggle_todo(&mut app));
    let mut empty = App::new(Vec::new());
    assert!(!toggle_todo(&mut empty));
}

#[test]
fn delete_note_removes_and_reclamps() {
    let mut app = App::new(vec![note("a", ""), note("b", ""), note("c", "")]);
    app.selected_note = 2;
    app.list_scroll = 2;
    assert!(delete_note(&mut app));
    assert_eq!(app.notes.len(), 2);
    assert_eq!(app.notes[1].title, "b");
    assert_eq!((app.selected_note, app.list_scroll), (1, 1));
    app.selected_note = 0;
    app.list_scroll = 0;
    assert!(delete_note(&mut app));
    assert_eq!(app.notes[0].title, "b");
    assert_eq!(app.selected_note, 0);
    assert!(delete_note(&mut app));
    assert!(app.notes.is_empty());
    assert!(!delete_note(&mut app));
    assert_eq!((app.selected_note, app.list_scroll), (0, 0));
}

#[test]
fn title_is_the_first_line_with_text() {
    assert_eq!(title_from_content("# Title\n\n- [ ] New item"), "Title");
    assert_eq!(title_from_content("\n   \n  ## Shopping list  \nmilk"), "Shopping list");
    assert_eq!(title_from_content("plain first line\n# heading"), "plain first line");
    assert_eq!(title_from_content("#tag # more"), "tag # more");
}

#[test]
fn title_defaults_to_untitled() {
    assert_eq!(title_from_content(""), "Untitled");
    assert_eq!(title_from_content("\n \t\n"), "Untitled");
    assert_eq!(title_from_content("###\nnext"), "Untitled");
    assert_eq!(title_from_content("  #  \n"), "Untitled");
}

#[test]
fn white_space_is_recognised() {
    for c in [' ', '\t', '\n', '\r', '\u{a0}', '\u{3000}', '\u{2009}'] {
        assert!(is_space_char(c));
    }
    for c in ['a', '#', '\u{2022}', '\u{200b}', '0'] {
        assert!(!is_space_char(c));
    }
}

#[test]
fn create_note_appends_and_keeps_the_selection() {
    let mut app = App::new(vec![note("a", "a")]);
    create_note(&mut app, "# Fresh\n\n- [ ] New item".to_string());
    assert_eq!(app.notes.len(), 2);
    assert_eq!(app.notes[1].title, "Fresh");
    assert_eq!(app.notes[1].content, "# Fresh\n\n- [ ] New item");
    assert_eq!(app.selected_note, 0);
    assert!(app.needs_redraw);
}

#[test]
fn edit_note_replaces_content_and_title() {
    let mut app = App::new(vec![note("a", "a"), note("b", "b")]);
    app.selected_note = 1;
    edit_note(&mut app, "\n# Renamed\nbody".to_string());
    assert_eq!(app.notes[0].title, "a");
    assert_eq!(app.notes[1].title, "Renamed");
    assert_eq!(app.notes[1].content, "\n# Renamed\nbody");
    assert!(app.needs_redraw);
    let mut empty = App::new(Vec::new());
    edit_note(&mut empty, "x".to_string());
    assert!(empty.notes.is_empty());
    assert!(!empty.needs_redraw);
}

#[test]
fn delete_note_resets_the_selected_line() {
    let mut app = App::new(vec![note("a", "1\n2\n3\n4\n5\n6\n7"), note("b", "1"), note("c", "1")]);
    app.selected_line = 5;
    app.note_scroll = 4;
    assert!(delete_note(&mut app));
    assert_eq!(app.notes[0].title, "b");
    assert_eq!(app.selected_note, 0);
    assert_eq!((app.selected_line, app.note_scroll), (0, 0));
    app.selected_note = 1;
    app.selected_line = 3;
    app.note_scroll = 3;
    assert!(delete_note(&mut app));
    assert_eq!((app.selected_note, app.selected_line, app.note_scroll), (0, 0, 0));
    assert!(delete_note(&mut app));
    assert!(app.notes.is_empty());
    app.selected_line = 2;
    app.note_scroll = 1;
    assert!(!delete_note(&mut app));
    assert_eq!((app.selected_line, app.note_scroll), (2, 1));
}
