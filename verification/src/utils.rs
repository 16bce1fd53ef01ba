//! The navigation state machine: how a key moves the selections and scroll
//! offsets of the two panes, and what the caller has to do afterwards.

use vstd::prelude::*;
use crate::app::{App, AppView, Focus, SelectedButton};
use crate::markdown::{render, rendered};
use crate::notes::{delete_note, toggle_todo};

verus! {

/// A key press, as far as the application tells keys apart.
#[derive(Clone, Copy, Debug, PartialEq, Eq)]
pub enum Key {
    Char(char),
    Left,
    Right,
    Enter,
    Other,
}

/// What the caller has to do after a key has been handled.
#[derive(Clone, Copy, Debug, PartialEq, Eq, Structural)]
pub enum Action {
    /// Nothing but to draw the next frame.
    Continue,
    /// Save the notes and leave.
    Quit,
    /// Let the user write a new note and hand its text to `create_note`.
    CreateNote,
    /// Let the user edit the selected note and hand its text to `edit_note`.
    EditNote,
    /// Save the notes: the list or a note's content has changed.
    SaveNotes,
}

/// The size a window is taken to have: a pane too small to show anything is
/// treated as one that shows a single row.
pub open spec fn effective_window(window: int) -> int {
    if window < 1 {
        1
    } else {
        window
    }
}

/// The scroll offset after it has followed the selection upwards: the
/// smaller of `scroll` and `selected`.
pub open spec fn scroll_up_to(scroll: int, selected: int) -> int {
    if scroll < selected {
        scroll
    } else {
        selected
    }
}

/// The scroll offset after it has followed the selection downwards: the
/// larger of `scroll` and `selected - window + 1`.
pub open spec fn scroll_down_to(scroll: int, selected: int, window: int) -> int {
    let lowest = selected - effective_window(window) + 1;
    if scroll > lowest {
        scroll
    } else {
        lowest
    }
}

/// The minimal-motion rule: the scroll offset moves by the least amount
/// that brings `selected` into the window, first upwards, then downwards.
pub open spec fn minimal_motion(scroll: int, selected: int, window: int) -> int {
    scroll_down_to(scroll_up_to(scroll, selected), selected, window)
}

/// `target` brought into `0..count`, or zero where that range is empty.
pub open spec fn clamp_index(target: int, count: int) -> int {
    if count <= 0 || target < 0 {
        0
    } else if target >= count {
        count - 1
    } else {
        target
    }
}

impl AppView {
    /// The state after the list selection has moved by `delta`: the
    /// selection stays within the notes, the list scrolls by the
    /// minimal-motion rule, and the body pane starts again at its top.
    pub open spec fn move_selection(self, delta: int, rows: int) -> AppView {
        let selected = clamp_index(self.selected_note + delta, self.notes.len() as int);
        AppView {
            selected_note: selected,
            list_scroll: minimal_motion(self.list_scroll, selected, rows),
            selected_line: 0,
            note_scroll: 0,
            ..self
        }
    }

    /// The state after the selected line has moved by `delta` within the
    /// `line_count` display lines of the selected note. Without a note
    /// nothing moves.
    pub open spec fn move_line(self, delta: int, line_count: int, height: int) -> AppView {
        if self.notes.len() == 0 {
            self
        } else {
            let line = clamp_index(self.selected_line + delta, line_count);
            AppView {
                selected_line: line,
                note_scroll: minimal_motion(self.note_scroll, line, height),
                ..self
            }
        }
    }

    /// The state after a jump to the first display line.
    pub open spec fn jump_top(self) -> AppView {
        AppView { selected_line: 0, note_scroll: 0, ..self }
    }

    /// The state after a jump to the last of `line_count` display lines: the
    /// window ends with that line where the note is longer than the window.
    pub open spec fn jump_bottom(self, line_count: int, height: int) -> AppView {
        if self.notes.len() == 0 {
            self
        } else {
            AppView {
                selected_line: clamp_index(line_count - 1, line_count),
                note_scroll: if line_count > effective_window(height) {
                    line_count - effective_window(height)
                } else {
                    0
                },
                ..self
            }
        }
    }

    /// The state after a deletion has been asked for: with a note to delete,
    /// the confirmation opens with "No" highlighted.
    pub open spec fn request_delete(self) -> AppView {
        if self.notes.len() > 0 {
            AppView { confirm_delete: true, selected_button: SelectedButton::No, ..self }
        } else {
            self
        }
    }

    /// The state after the confirmation has been answered with the
    /// highlighted button: "Yes" removes the selected note and puts the body
    /// pane at the top of the note that is current afterwards, "No" changes
    /// nothing else, and either way the confirmation closes.
    pub open spec fn confirm(self) -> AppView {
        match self.selected_button {
            SelectedButton::Yes => AppView { confirm_delete: false, ..self.delete_selected() },
            SelectedButton::No => AppView { confirm_delete: false, ..self },
        }
    }

    /// The state after `key` while a deletion waits for confirmation. Only
    /// the confirmation's own keys do anything.
    pub open spec fn after_confirm_key(self, key: Key) -> AppView {
        match key {
            Key::Left => AppView { selected_button: SelectedButton::Yes, ..self },
            Key::Right => AppView { selected_button: SelectedButton::No, ..self },
            Key::Enter => self.confirm(),
            Key::Char(c) => if c == 'h' {
                AppView { selected_button: SelectedButton::Yes, ..self }
            } else if c == 'l' {
                AppView { selected_button: SelectedButton::No, ..self }
            } else {
                self
            },
            Key::Other => self,
        }
    }

    /// The state after the character `c` while no deletion is pending.
    pub open spec fn after_char(self, c: char, line_count: int, rows: int, height: int) -> AppView {
        if c == 'd' {
            self.request_delete()
        } else if c == 'h' {
            AppView { focus: Focus::Left, ..self }
        } else if c == 'l' {
            AppView { focus: Focus::Right, ..self }
        } else if c == 'g' {
            match self.focus {
                Focus::Left => self,
                Focus::Right => self.jump_top(),
            }
        } else if c == 'G' {
            match self.focus {
                Focus::Left => self,
                Focus::Right => self.jump_bottom(line_count, height),
            }
        } else if c == 'j' {
            match self.focus {
                Focus::Left => self.move_selection(1, rows),
                Focus::Right => self.move_line(1, line_count, height),
            }
        } else if c == 'k' {
            match self.focus {
                Focus::Left => self.move_selection(-1, rows),
                Focus::Right => self.move_line(-1, line_count, height),
            }
        } else if c == ' ' {
            self.toggle_todo()
        } else {
            self
        }
    }

    /// The state after `key`, where the selected note renders to
    /// `line_count` display lines, the list pane shows `rows` rows and the
    /// body pane `height` lines in the current frame.
    pub open spec fn after_key(self, key: Key, line_count: int, rows: int, height: int) -> AppView {
        if self.confirm_delete {
            self.after_confirm_key(key)
        } else {
            match key {
                Key::Char(c) => self.after_char(c, line_count, rows, height),
                _ => self,
            }
        }
    }

    /// What the caller has to do after `key`.
    pub open spec fn action_for(self, key: Key) -> Action {
        if self.confirm_delete {
            if key == Key::Enter && self.selected_button == SelectedButton::Yes && self.notes.len()
                > 0 {
                Action::SaveNotes
            } else {
                Action::Continue
            }
        } else {
            match key {
                Key::Char(c) => if c == 'q' {
                    Action::Quit
                } else if c == 'c' {
                    Action::CreateNote
                } else if c == 'e' && self.notes.len() > 0 {
                    Action::EditNote
                } else if c == ' ' && self.toggle_rewrites() {
                    Action::SaveNotes
                } else {
                    Action::Continue
                },
                _ => Action::Continue,
            }
        }
    }

    /// The number of display lines of the selected note; zero without a note.
    pub open spec fn line_count(self) -> int {
        if self.notes.len() > 0 {
            rendered(self.notes[self.selected_note].content).len() as int
        } else {
            0
        }
    }
}

/// The number of display lines that `content` renders to.
pub fn parse_note_lines(content: &str) -> (count: usize)
    ensures
        count == rendered(content@).len(),
{
    let lines = render(content);
    assert(crate::markdown::display_view(lines@).len() == lines@.len());
    lines.len()
}

/// Lets the list scroll offset follow the selection upwards.
pub fn adjust_list_scroll_up(app: &mut App)
    ensures
        final(app)@ == (AppView {
            list_scroll: scroll_up_to(old(app)@.list_scroll, old(app)@.selected_note),
            ..old(app)@
        }),
{
    if app.selected_note < app.list_scroll {
        app.list_scroll = app.selected_note;
    }
}

/// Lets the list scroll offset follow the selection downwards, for a list
/// pane of `visible_rows` rows.
pub fn adjust_list_scroll_down(app: &mut App, visible_rows: usize)
    ensures
        final(app)@ == (AppView {
            list_scroll: scroll_down_to(
                old(app)@.list_scroll,
                old(app)@.selected_note,
                visible_rows as int,
            ),
            ..old(app)@
        }),
{
    let above: usize = if visible_rows == 0 {
        0
    } else {
        visible_rows - 1
    };
    if app.selected_note > above && app.list_scroll < app.selected_note - above {
        app.list_scroll = app.selected_note - above;
    }
}

/// Lets the body scroll offset follow the selected line upwards.
pub fn adjust_note_scroll_up(app: &mut App)
    ensures
        final(app)@ == (AppView {
            note_scroll: scroll_up_to(old(app)@.note_scroll, old(app)@.selected_line),
            ..old(app)@
        }),
{
    if app.selected_line < app.note_scroll {
        app.note_scroll = app.selected_line;
    }
}

/// Brings the selected line back into the `line_count` display lines and
/// lets the body scroll offset follow it downwards, for a body pane of
/// `visible_height` lines.
pub fn adjust_note_scroll_down(app: &mut App, line_count: usize, visible_height: usize)
    ensures
        final(app)@ == (AppView {
            selected_line: clamp_index(old(app)@.selected_line, line_count as int),
            note_scroll: scroll_down_to(
                old(app)@.note_scroll,
                clamp_index(old(app)@.selected_line, line_count as int),
                visible_height as int,
            ),
            ..old(app)@
        }),
{
    if line_count == 0 {
        app.selected_line = 0;
    } else if app.selected_line >= line_count {
        app.selected_line = line_count - 1;
    }
    let above: usize = if visible_height == 0 {
        0
    } else {
        visible_height - 1
    };
    if app.selected_line > above && app.note_scroll < app.selected_line - above {
        app.note_scroll = app.selected_line - above;
    }
}

impl App {
    /// Moves the list selection one note down (`down`) or up, and scrolls
    /// the list by the minimal-motion rule for a pane of `visible_rows` rows.
    pub fn move_selection(&mut self, down: bool, visible_rows: usize)
        requires
            old(self).wf(),
        ensures
            final(self)@ == old(self)@.move_selection(if down { 1 } else { -1 }, visible_rows as int),
            final(self).wf(),
    {
        assert(self@.notes.len() == self.notes@.len());
        let count = self.notes.len();
        if down {
            if count > 0 && self.selected_note < count - 1 {
                self.selected_note += 1;
            }
        } else if self.selected_note > 0 {
            self.selected_note -= 1;
        }
        adjust_list_scroll_up(self);
        adjust_list_scroll_down(self, visible_rows);
        self.selected_line = 0;
        self.note_scroll = 0;
    }

    /// Moves the selected line one display line down (`down`) or up within
    /// the `line_count` lines of the selected note, and scrolls the body by
    /// the minimal-motion rule for a pane of `visible_height` lines.
    pub fn move_line(&mut self, down: bool, line_count: usize, visible_height: usize)
        requires
            old(self).wf(),
        ensures
            final(self)@ == old(self)@.move_line(
                if down { 1 } else { -1 },
                line_count as int,
                visible_height as int,
            ),
            final(self).wf(),
    {
        if self.notes.len() == 0 {
            return ;
        }
        let current = self.selected_line;
        self.selected_line = if line_count == 0 {
            0
        } else if down {
            if current < line_count - 1 {
                current + 1
            } else {
                line_count - 1
            }
        } else if current == 0 {
            0
        } else if current - 1 >= line_count {
            line_count - 1
        } else {
            current - 1
        };
        adjust_note_scroll_up(self);
        adjust_note_scroll_down(self, line_count, visible_height);
    }

    /// Selects the first display line and scrolls the body to its top.
    pub fn jump_top(&mut self)
        requires
            old(self).wf(),
        ensures
            final(self)@ == old(self)@.jump_top(),
            final(self).wf(),
    {
        self.selected_line = 0;
        self.note_scroll = 0;
    }

    /// Selects the last of the `line_count` display lines of the selected
    /// note and scrolls the body so that its window ends there.
    pub fn jump_bottom(&mut self, line_count: usize, visible_height: usize)
        requires
            old(self).wf(),
        ensures
            final(self)@ == old(self)@.jump_bottom(line_count as int, visible_height as int),
            final(self).wf(),
    {
        if self.notes.len() == 0 {
            return ;
        }
        let window: usize = if visible_height == 0 {
            1
        } else {
            visible_height
        };
        self.selected_line = if line_count == 0 {
            0
        } else {
            line_count - 1
        };
        self.note_scroll = if line_count > window {
            line_count - window
        } else {
            0
        };
    }
}

/// Applies `key` to the state, where the selected note renders to
/// `line_count` display lines and the current frame shows `visible_rows`
/// rows of the list and `visible_height` lines of the body. Returns what the
/// caller has to do next.
pub fn apply_key(
    key: Key,
    app: &mut App,
    line_count: usize,
    visible_rows: usize,
    visible_height: usize,
) -> (action: Action)
    requires
        old(app).wf(),
    ensures
        final(app)@ == old(app)@.after_key(
            key,
            line_count as int,
            visible_rows as int,
            visible_height as int,
        ),
        action == old(app)@.action_for(key),
        final(app).wf(),
{
    if app.confirm_delete {
        let yes = match key {
            Key::Left => true,
            Key::Char(c) => c == 'h',
            _ => false,
        };
        let no = match key {
            Key::Right => true,
            Key::Char(c) => c == 'l',
            _ => false,
        };
        let enter = match key {
            Key::Enter => true,
            _ => false,
        };
        if yes {
            app.selected_button = SelectedButton::Yes;
        } else if no {
            app.selected_button = SelectedButton::No;
        } else if enter {
            match app.selected_button {
                SelectedButton::Yes => {
                    let removed = delete_note(app);
                    app.confirm_delete = false;
                    if removed {
                        return Action::SaveNotes;
                    }
                },
                SelectedButton::No => {
                    app.confirm_delete = false;
                },
            }
        }
        return Action::Continue;
    }
    match key {
        Key::Char(c) => {
            if c == 'q' {
                return Action::Quit;
            } else if c == 'c' {
                return Action::CreateNote;
            } else if c == 'e' {
                if app.notes.len() > 0 {
                    return Action::EditNote;
                }
            } else if c == 'd' {
                if app.notes.len() > 0 {
                    app.confirm_delete = true;
                    app.selected_button = SelectedButton::No;
                }
            } else if c == 'h' {
                app.focus = Focus::Left;
            } else if c == 'l' {
                app.focus = Focus::Right;
            } else if c == 'g' {
                match app.focus {
                    Focus::Left => {},
                    Focus::Right => app.jump_top(),
                }
            } else if c == 'G' {
                match app.focus {
                    Focus::Left => {},
                    Focus::Right => app.jump_bottom(line_count, visible_height),
                }
            } else if c == 'j' {
                match app.focus {
                    Focus::Left => app.move_selection(true, visible_rows),
                    Focus::Right => app.move_line(true, line_count, visible_height),
                }
            } else if c == 'k' {
                match app.focus {
                    Focus::Left => app.move_selection(false, visible_rows),
                    Focus::Right => app.move_line(false, line_count, visible_height),
                }
            } else if c == ' ' {
                if toggle_todo(app) {
                    return Action::SaveNotes;
                }
            }
            Action::Continue
        },
        _ => Action::Continue,
    }
}

/// Handles one key press in a frame that shows `visible_rows` rows of the
/// list and `visible_height` lines of the body: renders the selected note to
/// learn its number of display lines, then applies the key.
pub fn handle_input(key: Key, app: &mut App, visible_rows: usize, visible_height: usize) -> (action:
    Action)
    requires
        old(app).wf(),
    ensures
        final(app)@ == old(app)@.after_key(
            key,
            old(app)@.line_count(),
            visible_rows as int,
            visible_height as int,
        ),
        action == old(app)@.action_for(key),
        final(app).wf(),
{
    let line_count = if app.notes.len() > 0 {
        parse_note_lines(app.notes[app.selected_note].content.as_str())
    } else {
        0
    };
    apply_key(key, app, line_count, visible_rows, visible_height)
}

} // verus!
