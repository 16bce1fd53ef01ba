//! What each pane shows in a frame: the part of the note list and of the
//! note body that the current window covers, and the text of a list entry.

use vstd::prelude::*;
use vstd::string::StringExecFns;
use crate::app::{App, AppView};
use crate::notes::{count_marked, count_todos, Note};
use crate::text::{chars_of, lines_of, string_of};

verus! {

/// The character of the decimal digit `d`.
pub open spec fn digit(d: int) -> char {
    if d == 0 {
        '0'
    } else if d == 1 {
        '1'
    } else if d == 2 {
        '2'
    } else if d == 3 {
        '3'
    } else if d == 4 {
        '4'
    } else if d == 5 {
        '5'
    } else if d == 6 {
        '6'
    } else if d == 7 {
        '7'
    } else if d == 8 {
        '8'
    } else {
        '9'
    }
}

/// The decimal digits of `n`, most significant first, without leading zeros.
pub open spec fn decimal(n: nat) -> Seq<char>
    decreases n,
{
    if n < 10 {
        seq![digit(n as int)]
    } else {
        decimal(n / 10).push(digit((n % 10) as int))
    }
}

fn digit_of(d: usize) -> (c: char)
    requires
        d < 10,
    ensures
        c == digit(d as int),
{
    if d == 0 {
        '0'
    } else if d == 1 {
        '1'
    } else if d == 2 {
        '2'
    } else if d == 3 {
        '3'
    } else if d == 4 {
        '4'
    } else if d == 5 {
        '5'
    } else if d == 6 {
        '6'
    } else if d == 7 {
        '7'
    } else if d == 8 {
        '8'
    } else {
        '9'
    }
}

/// Writes `n` in decimal.
pub fn decimal_chars(n: usize) -> (digits: Vec<char>)
    ensures
        digits@ == decimal(n as nat),
    decreases n,
{
    if n < 10 {
        let mut digits: Vec<char> = Vec::new();
        digits.push(digit_of(n));
        assert(digits@ =~= decimal(n as nat));
        digits
    } else {
        let mut digits = decimal_chars(n / 10);
        digits.push(digit_of(n % 10));
        digits
    }
}

/// The text of a note's entry in the list: a check mark and a space where
/// the note has closed items and no open one, then the title, then the
/// numbers of open and closed items in parentheses, with a slash between.
pub open spec fn summary_text(title: Seq<char>, open: nat, closed: nat) -> Seq<char> {
    let mark = if open == 0 && closed > 0 {
        seq!['\u{2713}', ' ']
    } else {
        Seq::empty()
    };
    mark + title + seq![' ', '('] + decimal(open) + seq!['/'] + decimal(closed) + seq![')']
}

fn extend(text: &mut Vec<char>, more: &Vec<char>)
    ensures
        final(text)@ == old(text)@ + more@,
{
    let mut i: usize = 0;
    assert(text@ =~= old(text)@ + more@.take(0));
    while i < more.len()
        invariant
            i <= more.len(),
            text@ == old(text)@ + more@.take(i as int),
        decreases more.len() - i,
    {
        text.push(more[i]);
        i += 1;
        assert(text@ =~= old(text)@ + more@.take(i as int));
    }
    assert(more@.take(i as int) =~= more@);
}

/// The text of `note`'s entry in the list.
pub fn summary_title(note: &Note) -> (text: String)
    ensures
        text@ == summary_text(
            note.title@,
            count_marked(lines_of(note.content@), ' '),
            count_marked(lines_of(note.content@), 'x'),
        ),
{
    let (open, closed) = count_todos(note.content.as_str());
    let mut text: Vec<char> = Vec::new();
    if open == 0 && closed > 0 {
        text.push('\u{2713}');
        text.push(' ');
    }
    let ghost mark = text@;
    extend(&mut text, &chars_of(note.title.as_str()));
    text.push(' ');
    text.push('(');
    extend(&mut text, &decimal_chars(open));
    text.push('/');
    extend(&mut text, &decimal_chars(closed));
    text.push(')');
    assert(text@ =~= mark + note.title@ + seq![' ', '('] + decimal(open as nat) + seq!['/']
        + decimal(closed as nat) + seq![')']);
    assert(mark =~= if open == 0 && closed > 0 {
        seq!['\u{2713}', ' ']
    } else {
        Seq::<char>::empty()
    });
    string_of(&text)
}

/// The entries of the list that a pane of `rows` rows shows, as the index of
/// the first and the index after the last: the rows from the scroll offset
/// on, or the last `rows` notes where fewer than `rows` follow the offset.
pub open spec fn list_window_of(state: AppView, rows: int) -> (int, int) {
    let count = state.notes.len() as int;
    if count == 0 {
        (0, 0)
    } else if state.list_scroll + rows > count {
        (
            if rows < count {
                count - rows
            } else {
                0
            },
            count,
        )
    } else {
        (state.list_scroll, state.list_scroll + rows)
    }
}

/// The entries of the list that a pane of `visible_rows` rows shows.
pub fn list_window(app: &App, visible_rows: usize) -> (window: (usize, usize))
    requires
        app.wf(),
    ensures
        (window.0 as int, window.1 as int) == list_window_of(app@, visible_rows as int),
        window.0 <= window.1 <= app.notes.len(),
{
    let count = app.notes.len();
    assert(app@.notes.len() == count);
    if count == 0 {
        (0, 0)
    } else if visible_rows > count - app.list_scroll {
        (
            if visible_rows < count {
                count - visible_rows
            } else {
                0
            },
            count,
        )
    } else {
        (app.list_scroll, app.list_scroll + visible_rows)
    }
}

/// The part of a note's display lines that the body pane shows.
#[derive(Clone, Copy, Debug, PartialEq, Eq, Structural)]
pub struct BodyWindow {
    /// The index of the first line shown.
    pub start: usize,
    /// The index after the last line shown; nothing is shown where this is
    /// not above `start`.
    pub end: usize,
    /// The index of the line drawn as selected.
    pub selected: usize,
}

/// The smaller of two numbers.
pub open spec fn least(a: int, b: int) -> int {
    if a < b {
        a
    } else {
        b
    }
}

/// The lines of the selected note that a body pane of `height` lines shows,
/// of the `line_count` display lines that the note renders to: those from
/// the scroll offset on, as far as the pane and the note reach. The line
/// drawn as selected is the selected line, or the last line where the
/// selection lies beyond it. The result is the index of the first line
/// shown, the index after the last, and the index of the line drawn as
/// selected.
pub open spec fn body_window_of(state: AppView, line_count: int, height: int) -> (int, int, int) {
    (
        state.note_scroll,
        least(state.note_scroll + height, line_count),
        if line_count <= 0 {
            0
        } else {
            least(state.selected_line, line_count - 1)
        },
    )
}

/// The lines of the selected note that a body pane of `visible_height`
/// lines shows, of the `line_count` display lines that the note renders to.
pub fn body_window(app: &App, line_count: usize, visible_height: usize) -> (window: BodyWindow)
    ensures
        (window.start as int, window.end as int, window.selected as int) == body_window_of(
            app@,
            line_count as int,
            visible_height as int,
        ),
{
    let reach = if visible_height > usize::MAX - app.note_scroll {
        usize::MAX
    } else {
        app.note_scroll + visible_height
    };
    BodyWindow {
        start: app.note_scroll,
        end: if reach < line_count {
            reach
        } else {
            line_count
        },
        selected: if line_count == 0 {
            0
        } else if app.selected_line < line_count - 1 {
            app.selected_line
        } else {
            line_count - 1
        },
    }
}

/// The title of the list pane: the position of the selected note, counted
/// from one, and the number of notes; the position is zero without a note.
pub open spec fn list_title_text(state: AppView) -> Seq<char> {
    let position = if state.notes.len() == 0 {
        0
    } else {
        state.selected_note + 1
    };
    " Notes ("@ + decimal(position as nat) + "/"@ + decimal(state.notes.len()) + ") "@
}

/// The title of the list pane.
pub fn list_title(app: &App) -> (title: String)
    requires
        app.wf(),
    ensures
        title@ == list_title_text(app@),
{
    let count = app.notes.len();
    assert(app@.notes.len() == count);
    let position = if count == 0 {
        0
    } else {
        app.selected_note + 1
    };
    let mut title = String::new();
    title.append(" Notes (");
    title.append(string_of(&decimal_chars(position)).as_str());
    title.append("/");
    title.append(string_of(&decimal_chars(count)).as_str());
    title.append(") ");
    title
}

/// The title of the body pane: the selected note's title and the numbers of
/// its open and closed items, or a remark that there are no notes.
pub open spec fn body_title_text(state: AppView) -> Seq<char> {
    if state.notes.len() == 0 {
        " No Notes "@
    } else {
        let note = state.notes[state.selected_note];
        " "@ + note.title + " (Todos: "@ + decimal(count_marked(lines_of(note.content), ' '))
            + " open / "@ + decimal(count_marked(lines_of(note.content), 'x')) + " done) "@
    }
}

/// The title of the body pane.
pub fn body_title(app: &App) -> (title: String)
    requires
        app.wf(),
    ensures
        title@ == body_title_text(app@),
{
    assert(app@.notes.len() == app.notes@.len());
    let mut title = String::new();
    if app.notes.len() == 0 {
        title.append(" No Notes ");
        assert(title@ =~= " No Notes "@);
        return title;
    }
    let note = &app.notes[app.selected_note];
    assert(app@.notes[app.selected_note as int] == note@);
    let (open, closed) = count_todos(note.content.as_str());
    title.append(" ");
    title.append(note.title.as_str());
    title.append(" (Todos: ");
    title.append(string_of(&decimal_chars(open)).as_str());
    title.append(" open / ");
    title.append(string_of(&decimal_chars(closed)).as_str());
    title.append(" done) ");
    title
}

/// Where a box of a given size stands on the screen.
#[derive(Clone, Copy, Debug, PartialEq, Eq, Structural)]
pub struct ModalArea {
    pub x: u16,
    pub y: u16,
    pub width: u16,
    pub height: u16,
}

/// Half of what is left of `screen` beside `size`, rounded down; zero where
/// the screen is no larger.
pub open spec fn centered(screen: int, size: int) -> int {
    if screen > size {
        (screen - size) / 2
    } else {
        0
    }
}

/// The area of a box of `width` by `height` cells in the middle of a screen
/// of `screen_width` by `screen_height` cells.
pub fn centered_modal_area(screen_width: u16, screen_height: u16, width: u16, height: u16) -> (area:
    ModalArea)
    ensures
        area.x == centered(screen_width as int, width as int),
        area.y == centered(screen_height as int, height as int),
        area.width == width,
        area.height == height,
{
    ModalArea {
        x: if screen_width > width {
            (screen_width - width) / 2
        } else {
            0
        },
        y: if screen_height > height {
            (screen_height - height) / 2
        } else {
            0
        },
        width,
        height,
    }
}

} // verus!
