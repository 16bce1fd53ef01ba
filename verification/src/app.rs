//! The application state and its mathematical model.

use vstd::prelude::*;
use crate::notes::{Note, NoteView, notes_view};

verus! {

/// The input mode. There is a single mode today; the type leaves room for more.
#[derive(Clone, Copy, Debug, PartialEq, Eq, Structural)]
pub enum Mode {
    Normal,
}

/// The pane that has the keyboard: the note list on the left or the note
/// body on the right.
#[derive(Clone, Copy, Debug, PartialEq, Eq, Structural)]
pub enum Focus {
    Left,
    Right,
}

/// The button that is highlighted while a deletion waits for confirmation.
#[derive(Clone, Copy, Debug, PartialEq, Eq, Structural)]
pub enum SelectedButton {
    Yes,
    No,
}

/// The whole state of the application: the notes, in display order, and the
/// selection and scroll offset of each pane.
pub struct App {
    pub notes: Vec<Note>,
    pub selected_note: usize,
    pub note_scroll: usize,
    pub list_scroll: usize,
    pub mode: Mode,
    pub focus: Focus,
    pub needs_redraw: bool,
    pub selected_line: usize,
    pub confirm_delete: bool,
    pub selected_button: SelectedButton,
}

/// The state as plain mathematical values.
pub ghost struct AppView {
    pub notes: Seq<NoteView>,
    pub selected_note: int,
    pub note_scroll: int,
    pub list_scroll: int,
    pub mode: Mode,
    pub focus: Focus,
    pub needs_redraw: bool,
    pub selected_line: int,
    pub confirm_delete: bool,
    pub selected_button: SelectedButton,
}

impl View for App {
    type V = AppView;

    open spec fn view(&self) -> AppView {
        AppView {
            notes: notes_view(self.notes@),
            selected_note: self.selected_note as int,
            note_scroll: self.note_scroll as int,
            list_scroll: self.list_scroll as int,
            mode: self.mode,
            focus: self.focus,
            needs_redraw: self.needs_redraw,
            selected_line: self.selected_line as int,
            confirm_delete: self.confirm_delete,
            selected_button: self.selected_button,
        }
    }
}

impl AppView {
    /// The state that the application starts in with the given notes.
    pub open spec fn initial(notes: Seq<NoteView>) -> AppView {
        AppView {
            notes,
            selected_note: 0,
            note_scroll: 0,
            list_scroll: 0,
            mode: Mode::Normal,
            focus: Focus::Left,
            needs_redraw: false,
            selected_line: 0,
            confirm_delete: false,
            selected_button: SelectedButton::No,
        }
    }

    /// Validity: the selection names a note whenever there is one and is zero
    /// otherwise, and neither scroll offset lies beyond its selection.
    pub open spec fn wf(self) -> bool {
        &&& 0 <= self.selected_note
        &&& self.notes.len() == 0 ==> self.selected_note == 0
        &&& self.notes.len() > 0 ==> self.selected_note < self.notes.len()
        &&& 0 <= self.list_scroll <= self.selected_note
        &&& 0 <= self.note_scroll <= self.selected_line
    }

    /// Whether the list window of `rows` rows shows the selected note.
    pub open spec fn list_window_holds(self, rows: int) -> bool {
        self.list_scroll <= self.selected_note < self.list_scroll + rows
    }

    /// Whether the body window of `height` lines shows the selected line.
    pub open spec fn body_window_holds(self, height: int) -> bool {
        self.note_scroll <= self.selected_line < self.note_scroll + height
    }

    /// Whether the selected line is one of `line_count` display lines.
    pub open spec fn line_in_range(self, line_count: int) -> bool {
        0 <= self.selected_line && (line_count > 0 ==> self.selected_line < line_count)
    }
}

impl App {
    /// Validity of the state; see [`AppView::wf`].
    pub open spec fn wf(&self) -> bool {
        self@.wf()
    }

    /// The starting state: the first note selected, the list pane focused,
    /// nothing scrolled and no deletion pending.
    pub fn new(notes: Vec<Note>) -> (app: App)
        ensures
            app@ == AppView::initial(notes_view(notes@)),
            app.notes == notes,
            app.wf(),
    {
        App {
            notes,
            selected_note: 0,
            note_scroll: 0,
            list_scroll: 0,
            mode: Mode::Normal,
            focus: Focus::Left,
            needs_redraw: false,
            selected_line: 0,
            confirm_delete: false,
            selected_button: SelectedButton::No,
        }
    }

    /// Tests whether the state is valid.
    pub fn is_valid(&self) -> (valid: bool)
        ensures
            valid == self.wf(),
    {
        let n = self.notes.len();
        (if n == 0 {
            self.selected_note == 0
        } else {
            self.selected_note < n
        }) && self.list_scroll <= self.selected_note && self.note_scroll <= self.selected_line
    }
}

} // verus!
