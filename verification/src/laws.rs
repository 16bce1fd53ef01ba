//! What holds of the navigation state machine as a whole.

use vstd::prelude::*;
use crate::app::{AppView, Focus, SelectedButton};
use crate::panes::{body_window_of, list_window_of};
use crate::utils::{minimal_motion, Key};

verus! {

/// One key press in one frame: the key, the number of display lines that
/// the selected note renders to, and the sizes that the frame reports for
/// the list pane and the body pane.
pub ghost struct Frame {
    pub key: Key,
    pub line_count: int,
    pub rows: int,
    pub height: int,
}

/// Whether a frame's key is one of the two that move the selection of the
/// focused pane, and its panes show at least one row each.
pub open spec fn is_move(frame: Frame) -> bool {
    &&& frame.key == Key::Char('j') || frame.key == Key::Char('k')
    &&& frame.rows >= 1
    &&& frame.height >= 1
}

/// The state after the key presses of `frames`, one after the other.
pub open spec fn after_keys(start: AppView, frames: Seq<Frame>) -> AppView
    decreases frames.len(),
{
    if frames.len() == 0 {
        start
    } else {
        let last = frames.last();
        after_keys(start, frames.drop_last()).after_key(
            last.key,
            last.line_count,
            last.rows,
            last.height,
        )
    }
}

/// Whether the pane that `state` has in focus shows its selection in a frame
/// of the given sizes, with the selection inside its valid range.
pub open spec fn selection_shown(state: AppView, frame: Frame) -> bool {
    &&& state.notes.len() > 0 ==> 0 <= state.selected_note < state.notes.len()
    &&& state.focus == Focus::Left ==> state.list_window_holds(frame.rows)
        && state.body_window_holds(frame.height) && state.line_in_range(frame.line_count)
    &&& state.focus == Focus::Right && state.notes.len() > 0 ==> state.line_in_range(
        frame.line_count,
    ) && state.body_window_holds(frame.height)
}

/// Every key leaves a valid state valid.
pub proof fn lemma_key_keeps_valid(state: AppView, frame: Frame)
    requires
        state.wf(),
    ensures
        state.after_key(frame.key, frame.line_count, frame.rows, frame.height).wf(),
{
}

/// One move of the focused pane's selection, from a valid state, leaves the
/// selection inside its range and inside the window that the frame reports.
pub proof fn lemma_move_shows_selection(state: AppView, frame: Frame)
    requires
        state.wf(),
        !state.confirm_delete,
        is_move(frame),
    ensures
        ({
            let next = state.after_key(frame.key, frame.line_count, frame.rows, frame.height);
            &&& next.wf()
            &&& !next.confirm_delete
            &&& next.notes == state.notes
            &&& next.focus == state.focus
            &&& selection_shown(next, frame)
        }),
{
}

/// Any run of moves, from a valid state, leaves the selection of the focused
/// pane inside its range and inside the window that the last frame
/// showed, whatever sizes the frames before it had.
pub proof fn lemma_moves_show_selection(state: AppView, frames: Seq<Frame>)
    requires
        state.wf(),
        !state.confirm_delete,
        frames.len() > 0,
        forall|i: int| 0 <= i < frames.len() ==> is_move(#[trigger] frames[i]),
    ensures
        ({
            let end = after_keys(state, frames);
            &&& end.wf()
            &&& !end.confirm_delete
            &&& end.notes == state.notes
            &&& end.focus == state.focus
            &&& selection_shown(end, frames.last())
        }),
    decreases frames.len(),
{
    let before = frames.drop_last();
    if before.len() == 0 {
        assert(after_keys(state, before) == state);
    } else {
        assert forall|i: int| 0 <= i < before.len() implies is_move(#[trigger] before[i]) by {
            assert(before[i] == frames[i]);
        }
        lemma_moves_show_selection(state, before);
    }
    lemma_move_shows_selection(after_keys(state, before), frames.last());
}

/// A key that changes which note is current puts the body pane back at its
/// top: so does every key that moves the selection to another index, and so
/// does every key that removes a note.
pub proof fn lemma_switch_resets_body(state: AppView, frame: Frame)
    requires
        state.wf(),
    ensures
        ({
            let next = state.after_key(frame.key, frame.line_count, frame.rows, frame.height);
            next.selected_note != state.selected_note || next.notes.len() != state.notes.len()
                ==> next.selected_line == 0 && next.note_scroll == 0
        }),
{
}

/// Whether `key` confirms a deletion in `state`: the confirming key while
/// "Yes" is highlighted.
pub open spec fn confirms_delete(state: AppView, key: Key) -> bool {
    key == Key::Enter && state.selected_button == SelectedButton::Yes
}

/// While a deletion waits for confirmation, no key changes the focus, and
/// only the confirming key on "Yes" touches the notes, the selections or
/// the scroll offsets: every other key leaves all of them as they are.
/// Short of the confirming key the confirmation stays open; the confirming
/// key closes it, and on "No" changes nothing else.
pub proof fn lemma_confirmation_suppresses_navigation(state: AppView, frame: Frame)
    requires
        state.wf(),
        state.confirm_delete,
    ensures
        ({
            let next = state.after_key(frame.key, frame.line_count, frame.rows, frame.height);
            &&& next.focus == state.focus
            &&& !confirms_delete(state, frame.key) ==> {
                &&& next.notes == state.notes
                &&& next.selected_note == state.selected_note
                &&& next.list_scroll == state.list_scroll
                &&& next.selected_line == state.selected_line
                &&& next.note_scroll == state.note_scroll
            }
            &&& confirms_delete(state, frame.key) ==> next == (AppView {
                confirm_delete: false,
                ..state.delete_selected()
            })
            &&& next.confirm_delete == (frame.key != Key::Enter)
        }),
{
}

/// Asking for a deletion, choosing "Yes" and confirming removes exactly the
/// note that was selected when the deletion was asked for. The selection
/// keeps its index, unless that note was the last of the list: then it moves
/// to the new last note, or to zero when no note is left. The body pane
/// stands at the top of the note that is current afterwards.
pub proof fn lemma_confirmed_delete_removes_selected(state: AppView, frame: Frame)
    requires
        state.wf(),
        !state.confirm_delete,
        state.notes.len() > 0,
    ensures
        ({
            let asked = state.after_key(Key::Char('d'), frame.line_count, frame.rows, frame.height);
            let chosen = asked.after_key(Key::Char('h'), frame.line_count, frame.rows, frame.height);
            let end = chosen.after_key(Key::Enter, frame.line_count, frame.rows, frame.height);
            &&& asked.confirm_delete && asked.selected_button == SelectedButton::No
            &&& end.notes == state.notes.remove(state.selected_note)
            &&& end.notes.len() == state.notes.len() - 1
            &&& end.selected_note == if state.selected_note < end.notes.len() {
                state.selected_note
            } else if end.notes.len() > 0 {
                end.notes.len() - 1
            } else {
                0
            }
            &&& end.selected_line == 0
            &&& end.note_scroll == 0
            &&& !end.confirm_delete
            &&& end.wf()
        }),
{
}

/// After a note has been removed, the selected line is a display line of
/// the note that is current afterwards, however many lines that note
/// renders to, and a body pane of at least one line shows it.
pub proof fn lemma_delete_leaves_valid_line(state: AppView, line_count: int, height: int)
    requires
        state.wf(),
        state.notes.len() > 0,
        height >= 1,
    ensures
        state.delete_selected().wf(),
        state.delete_selected().selected_line == 0,
        state.delete_selected().note_scroll == 0,
        state.delete_selected().line_in_range(line_count),
        state.delete_selected().body_window_holds(height),
{
}

/// Asking for a deletion, choosing "No" and confirming leaves the notes,
/// the selections and the scroll offsets as they were.
pub proof fn lemma_declined_delete_changes_nothing(state: AppView, frame: Frame)
    requires
        state.wf(),
        !state.confirm_delete,
    ensures
        ({
            let asked = state.after_key(Key::Char('d'), frame.line_count, frame.rows, frame.height);
            let chosen = asked.after_key(Key::Char('l'), frame.line_count, frame.rows, frame.height);
            let end = chosen.after_key(Key::Enter, frame.line_count, frame.rows, frame.height);
            &&& end.notes == state.notes
            &&& end.selected_note == state.selected_note
            &&& end.list_scroll == state.list_scroll
            &&& end.selected_line == state.selected_line
            &&& end.note_scroll == state.note_scroll
            &&& !end.confirm_delete
        }),
{
}

/// Where the list window of a valid state holds the selected note for a
/// pane of `rows` rows, the selected note is among the entries that a pane
/// of that size shows.
pub proof fn lemma_list_pane_shows_selected_note(state: AppView, rows: int)
    requires
        state.wf(),
        state.notes.len() > 0,
        state.list_window_holds(rows),
    ensures
        list_window_of(state, rows).0 <= state.selected_note < list_window_of(state, rows).1,
        0 <= list_window_of(state, rows).0,
        list_window_of(state, rows).1 <= state.notes.len(),
{
}

/// Where the body window of a valid state holds the selected line for a
/// pane of `height` lines, and that line is one of the note's display
/// lines, it is among the lines that a pane of that size shows, and it is
/// the one drawn as selected.
pub proof fn lemma_body_pane_shows_selected_line(state: AppView, line_count: int, height: int)
    requires
        state.wf(),
        line_count > 0,
        state.line_in_range(line_count),
        state.body_window_holds(height),
    ensures
        body_window_of(state, line_count, height).2 == state.selected_line,
        body_window_of(state, line_count, height).0 <= state.selected_line < body_window_of(
            state,
            line_count,
            height,
        ).1,
        body_window_of(state, line_count, height).1 <= line_count,
{
}

/// The distance between two scroll offsets.
pub open spec fn distance(a: int, b: int) -> int {
    if a < b {
        b - a
    } else {
        a - b
    }
}

/// The minimal-motion rule brings the selection into a window of at least
/// one row, leaves an offset alone that already shows the selection, and
/// moves no further than any other offset that shows the selection would
/// have to.
pub proof fn lemma_minimal_motion_is_minimal(scroll: int, selected: int, window: int, other: int)
    requires
        window >= 1,
    ensures
        minimal_motion(scroll, selected, window) <= selected < minimal_motion(
            scroll,
            selected,
            window,
        ) + window,
        scroll <= selected < scroll + window ==> minimal_motion(scroll, selected, window)
            == scroll,
        other <= selected < other + window ==> distance(
            scroll,
            minimal_motion(scroll, selected, window),
        ) <= distance(scroll, other),
        0 <= scroll && 0 <= selected ==> 0 <= minimal_motion(scroll, selected, window),
{
}

/// Every key leaves the selections inside windows that showed them before,
/// as long as the frame reports the same sizes: a key either leaves a pane
/// alone or scrolls it so that its selection is shown.
pub proof fn lemma_key_keeps_windows(state: AppView, frame: Frame)
    requires
        state.wf(),
        frame.rows >= 1,
        frame.height >= 1,
        state.list_window_holds(frame.rows),
        state.body_window_holds(frame.height),
    ensures
        ({
            let next = state.after_key(frame.key, frame.line_count, frame.rows, frame.height);
            &&& next.list_window_holds(frame.rows)
            &&& next.body_window_holds(frame.height)
        }),
{
}

} // verus!
