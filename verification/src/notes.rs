//! Notes and the operations on their raw text.

use vstd::prelude::*;
use crate::app::{App, AppView};
use crate::text::{
    chars_of, find_marker, has_marker, is_first_marker, join, join_lines, line_views, lines_of,
    split_lines, string_of,
};

verus! {

/// A note. The content is the single source of truth; the title is derived
/// from it whenever the content is written.
#[derive(Clone, Debug)]
pub struct Note {
    pub title: String,
    pub content: String,
}

/// A note as plain mathematical values.
pub ghost struct NoteView {
    pub title: Seq<char>,
    pub content: Seq<char>,
}

impl View for Note {
    type V = NoteView;

    open spec fn view(&self) -> NoteView {
        NoteView { title: self.title@, content: self.content@ }
    }
}

/// The notes of a list as plain mathematical values, in the same order.
pub open spec fn notes_view(notes: Seq<Note>) -> Seq<NoteView> {
    Seq::new(notes.len(), |i: int| notes[i]@)
}

/// How many of `lines` contain a checklist marker with `mid` between its
/// brackets.
pub open spec fn count_marked(lines: Seq<Seq<char>>, mid: char) -> nat {
    lines.filter(|line: Seq<char>| has_marker(line, mid)).len()
}

/// Counts the open and the closed checklist items of `content`: the lines
/// that contain `[ ]` and the lines that contain `[x]`. The two counts are
/// independent, so a line that contains both markers adds to both.
pub fn count_todos(content: &str) -> (counts: (usize, usize))
    ensures
        counts.0 == count_marked(lines_of(content@), ' '),
        counts.1 == count_marked(lines_of(content@), 'x'),
{
    let chars = chars_of(content);
    let lines = split_lines(&chars);
    let mut open: usize = 0;
    let mut closed: usize = 0;
    let mut i: usize = 0;
    proof {
        reveal(Seq::filter);
        assert(line_views(lines@).take(0) =~= Seq::<Seq<char>>::empty());
    }
    while i < lines.len()
        invariant
            i <= lines.len(),
            line_views(lines@) == lines_of(content@),
            open <= i,
            closed <= i,
            open == count_marked(line_views(lines@).take(i as int), ' '),
            closed == count_marked(line_views(lines@).take(i as int), 'x'),
        decreases lines.len() - i,
    {
        proof {
            reveal(Seq::filter);
            assert(line_views(lines@).take(i + 1).drop_last() =~= line_views(lines@).take(
                i as int,
            ));
            assert(line_views(lines@).take(i + 1).last() == lines@[i as int]@);
        }
        if find_marker(&lines[i], ' ').is_some() {
            open += 1;
        }
        if find_marker(&lines[i], 'x').is_some() {
            closed += 1;
        }
        i += 1;
    }
    assert(line_views(lines@).take(i as int) =~= line_views(lines@));
    (open, closed)
}

/// Where the first checklist marker of `line` with `mid` between its brackets
/// begins. Meaningful only for a line that has such a marker.
pub open spec fn first_marker(line: Seq<char>, mid: char) -> int {
    choose|i: int| is_first_marker(line, mid, i)
}

/// A line has at most one first marker.
pub proof fn lemma_first_marker_unique(line: Seq<char>, mid: char, i: int)
    requires
        is_first_marker(line, mid, i),
    ensures
        first_marker(line, mid) == i,
{
    let j = first_marker(line, mid);
    assert(is_first_marker(line, mid, j));
    if j < i {
        assert(!crate::text::marker_at(line, mid, j));
    }
    if i < j {
        assert(!crate::text::marker_at(line, mid, i));
    }
}

/// A line with its first checklist marker flipped: the first `[ ]` becomes
/// `[x]`; on a line without `[ ]`, the first `[x]` becomes `[ ]`; a line with
/// neither stays as it is.
pub open spec fn flip_line(line: Seq<char>) -> Seq<char> {
    if has_marker(line, ' ') {
        line.update(first_marker(line, ' ') + 1, 'x')
    } else if has_marker(line, 'x') {
        line.update(first_marker(line, 'x') + 1, ' ')
    } else {
        line
    }
}

/// Whether toggling at display line `selected_line` rewrites `content`: the
/// raw line one below that index has to exist.
pub open spec fn toggle_applies(content: Seq<char>, selected_line: int) -> bool {
    0 <= selected_line + 1 < lines_of(content).len()
}

/// The content after a toggle at display line `selected_line`. The raw line
/// that is flipped is the one at `selected_line + 1`; the lines are then
/// joined again by single line feeds.
pub open spec fn toggled(content: Seq<char>, selected_line: int) -> Seq<char> {
    let lines = lines_of(content);
    let target = selected_line + 1;
    if toggle_applies(content, selected_line) {
        join_lines(lines.update(target, flip_line(lines[target])))
    } else {
        content
    }
}

/// A copy of `line` with the character at `at` replaced by `c`.
fn with_char(line: &Vec<char>, at: usize, c: char) -> (changed: Vec<char>)
    requires
        at < line.len(),
    ensures
        changed@ == line@.update(at as int, c),
{
    let mut changed: Vec<char> = Vec::new();
    let mut i: usize = 0;
    while i < line.len()
        invariant
            i <= line.len(),
            at < line.len(),
            changed@ == line@.update(at as int, c).take(i as int),
        decreases line.len() - i,
    {
        changed.push(if i == at { c } else { line[i] });
        i += 1;
        assert(line@.update(at as int, c).take(i as int) =~= line@.update(at as int, c).take(
            i - 1,
        ).push(line@.update(at as int, c)[i - 1]));
    }
    assert(line@.update(at as int, c).take(i as int) =~= line@.update(at as int, c));
    changed
}

/// Flips the first checklist marker of `line`.
pub fn flipped(line: &Vec<char>) -> (changed: Vec<char>)
    ensures
        changed@ == flip_line(line@),
{
    match find_marker(line, ' ') {
        Some(k) => {
            proof {
                lemma_first_marker_unique(line@, ' ', k as int);
            }
            with_char(line, k + 1, 'x')
        },
        None => match find_marker(line, 'x') {
            Some(k) => {
                proof {
                    lemma_first_marker_unique(line@, 'x', k as int);
                }
                with_char(line, k + 1, ' ')
            },
            None => copy_of(line),
        },
    }
}

/// A copy of `line`.
fn copy_of(line: &Vec<char>) -> (copy: Vec<char>)
    ensures
        copy@ == line@,
{
    let mut copy: Vec<char> = Vec::new();
    let mut i: usize = 0;
    while i < line.len()
        invariant
            i <= line.len(),
            copy@ == line@.take(i as int),
        decreases line.len() - i,
    {
        copy.push(line[i]);
        i += 1;
        assert(line@.take(i as int) =~= line@.take(i - 1).push(line@[i - 1]));
    }
    assert(line@.take(i as int) =~= line@);
    copy
}

/// Toggles the checklist item at display line `selected_line` of `content`.
/// Returns the rewritten content, or `None` where there is no raw line at
/// `selected_line + 1` and nothing is rewritten.
pub fn toggled_content(content: &str, selected_line: usize) -> (rewritten: Option<String>)
    ensures
        rewritten is Some <==> toggle_applies(content@, selected_line as int),
        rewritten is Some ==> rewritten->0@ == toggled(content@, selected_line as int),
{
    let chars = chars_of(content);
    let mut lines = split_lines(&chars);
    assert(line_views(lines@).len() == lines@.len());
    if selected_line < usize::MAX && selected_line + 1 < lines.len() {
        let target = selected_line + 1;
        let ghost before = line_views(lines@);
        let changed = flipped(&lines[target]);
        lines.set(target, changed);
        assert(line_views(lines@) =~= before.update(target as int, flip_line(before[target as int])));
        let joined = join(&lines);
        Some(string_of(&joined))
    } else {
        None
    }
}

impl AppView {
    /// The state after a toggle of the checklist item at the selected line of
    /// the selected note. Selection and scroll offsets stay as they are.
    pub open spec fn toggle_todo(self) -> AppView {
        if self.notes.len() == 0 {
            self
        } else {
            let note = self.notes[self.selected_note];
            AppView {
                notes: self.notes.update(
                    self.selected_note,
                    NoteView { title: note.title, content: toggled(note.content, self.selected_line) },
                ),
                ..self
            }
        }
    }

    /// Whether a toggle rewrites the selected note, so that the notes have to
    /// be saved.
    pub open spec fn toggle_rewrites(self) -> bool {
        self.notes.len() > 0 && toggle_applies(
            self.notes[self.selected_note].content,
            self.selected_line,
        )
    }

    /// The state after the selected note is removed: the selection stays on
    /// its index unless that index is gone, in which case it moves to the new
    /// last note, or to zero when no note is left; the list scroll offset
    /// follows the selection upwards. Another note is current afterwards, or
    /// none, so the body pane starts again at its top. Without a note
    /// nothing changes.
    pub open spec fn delete_selected(self) -> AppView {
        if self.notes.len() == 0 {
            self
        } else {
            let notes = self.notes.remove(self.selected_note);
            let selected = if notes.len() == 0 {
                0
            } else if self.selected_note >= notes.len() {
                notes.len() - 1
            } else {
                self.selected_note
            };
            AppView {
                notes,
                selected_note: selected,
                list_scroll: if self.list_scroll < selected {
                    self.list_scroll
                } else {
                    selected
                },
                selected_line: 0,
                note_scroll: 0,
                ..self
            }
        }
    }
}

/// Toggles the checklist item at the selected line of the selected note.
/// Returns whether the note was rewritten and the notes have to be saved.
pub fn toggle_todo(app: &mut App) -> (rewritten: bool)
    requires
        old(app).wf(),
    ensures
        final(app)@ == old(app)@.toggle_todo(),
        rewritten == old(app)@.toggle_rewrites(),
        final(app).wf(),
{
    if app.notes.len() == 0 {
        return false;
    }
    let selected = app.selected_note;
    match toggled_content(app.notes[selected].content.as_str(), app.selected_line) {
        Some(content) => {
            let title = app.notes[selected].title.clone();
            app.notes.set(selected, Note { title, content });
            assert(final(app)@.notes =~= old(app)@.toggle_todo().notes);
            true
        },
        None => {
            assert(old(app)@.toggle_todo().notes =~= old(app)@.notes);
            false
        },
    }
}

/// Removes the selected note, if there is one, moves the selection back
/// into the list and puts the body pane at the top of the note that is
/// current afterwards. Returns whether a note was removed and the notes have
/// to be saved.
pub fn delete_note(app: &mut App) -> (removed: bool)
    requires
        old(app).wf(),
    ensures
        final(app)@ == old(app)@.delete_selected(),
        removed == (old(app).notes.len() > 0),
        removed ==> final(app).notes@ == old(app).notes@.remove(old(app).selected_note as int),
        !removed ==> final(app).notes@ == old(app).notes@,
        removed ==> final(app).selected_line == 0 && final(app).note_scroll == 0,
        final(app).wf(),
{
    if app.notes.len() == 0 {
        return false;
    }
    app.notes.remove(app.selected_note);
    let n = app.notes.len();
    if n == 0 {
        app.selected_note = 0;
    } else if app.selected_note >= n {
        app.selected_note = n - 1;
    }
    if app.list_scroll > app.selected_note {
        app.list_scroll = app.selected_note;
    }
    app.selected_line = 0;
    app.note_scroll = 0;
    assert(final(app)@.notes =~= old(app)@.delete_selected().notes);
    true
}

/// Whether `c` is white space, as Unicode defines it.
pub open spec fn is_space(c: char) -> bool {
    let u = c as u32;
    ||| 0x09 <= u <= 0x0D
    ||| u == 0x20
    ||| u == 0x85
    ||| u == 0xA0
    ||| u == 0x1680
    ||| 0x2000 <= u <= 0x200A
    ||| u == 0x2028
    ||| u == 0x2029
    ||| u == 0x202F
    ||| u == 0x205F
    ||| u == 0x3000
}

/// Tests whether `c` is white space.
pub fn is_space_char(c: char) -> (space: bool)
    ensures
        space == is_space(c),
{
    let u = c as u32;
    (0x09 <= u && u <= 0x0D) || u == 0x20 || u == 0x85 || u == 0xA0 || u == 0x1680 || (0x2000 <= u
        && u <= 0x200A) || u == 0x2028 || u == 0x2029 || u == 0x202F || u == 0x205F || u == 0x3000
}

/// The first position in `from..to` of `line` that holds no white space, or
/// `to` where there is none.
pub open spec fn skip_spaces(line: Seq<char>, from: int, to: int) -> int
    decreases to - from,
{
    if 0 <= from < to <= line.len() && is_space(line[from]) {
        skip_spaces(line, from + 1, to)
    } else {
        from
    }
}

/// The first position in `from..to` of `line` that holds no `#`, or `to`
/// where there is none.
pub open spec fn skip_hashes(line: Seq<char>, from: int, to: int) -> int
    decreases to - from,
{
    if 0 <= from < to <= line.len() && line[from] == '#' {
        skip_hashes(line, from + 1, to)
    } else {
        from
    }
}

/// The end of `from..to` of `line` once the white space at its end is cut off.
pub open spec fn trim_end(line: Seq<char>, from: int, to: int) -> int
    decreases to - from,
{
    if 0 <= from < to <= line.len() && is_space(line[to - 1]) {
        trim_end(line, from, to - 1)
    } else {
        to
    }
}

/// Whether `line` holds nothing but white space.
pub open spec fn is_blank(line: Seq<char>) -> bool {
    skip_spaces(line, 0, line.len() as int) == line.len()
}

/// The index of the first of `lines` at or after `from` that is not blank,
/// or the number of lines where all of them are.
pub open spec fn first_nonblank(lines: Seq<Seq<char>>, from: int) -> int
    decreases lines.len() - from,
{
    if from < 0 || from >= lines.len() {
        lines.len() as int
    } else if !is_blank(lines[from]) {
        from
    } else {
        first_nonblank(lines, from + 1)
    }
}

/// The text of a title line: the line without the white space around it,
/// then without the `#` signs at its front, then again without the white
/// space around what is left.
pub open spec fn heading_text(line: Seq<char>) -> Seq<char> {
    let from = skip_spaces(line, 0, line.len() as int);
    let to = trim_end(line, from, line.len() as int);
    let past_hashes = skip_hashes(line, from, to);
    let start = skip_spaces(line, past_hashes, to);
    let end = trim_end(line, start, to);
    line.subrange(start, end)
}

/// The title of a note without a title of its own.
pub open spec fn untitled() -> Seq<char> {
    seq!['U', 'n', 't', 'i', 't', 'l', 'e', 'd']
}

/// The title that `content` gives its note: the text of its first line that
/// is not blank, or "Untitled" where there is no such line or no text is
/// left of it.
pub open spec fn title_of(content: Seq<char>) -> Seq<char> {
    let lines = lines_of(content);
    let first = first_nonblank(lines, 0);
    if first >= lines.len() || heading_text(lines[first]).len() == 0 {
        untitled()
    } else {
        heading_text(lines[first])
    }
}

fn skip_spaces_in(line: &Vec<char>, from: usize, to: usize) -> (at: usize)
    requires
        from <= to <= line.len(),
    ensures
        at == skip_spaces(line@, from as int, to as int),
        from <= at <= to,
{
    let mut at = from;
    while at < to && is_space_char(line[at])
        invariant
            from <= at <= to <= line.len(),
            skip_spaces(line@, from as int, to as int) == skip_spaces(line@, at as int, to as int),
        decreases to - at,
    {
        at += 1;
    }
    at
}

fn skip_hashes_in(line: &Vec<char>, from: usize, to: usize) -> (at: usize)
    requires
        from <= to <= line.len(),
    ensures
        at == skip_hashes(line@, from as int, to as int),
        from <= at <= to,
{
    let mut at = from;
    while at < to && line[at] == '#'
        invariant
            from <= at <= to <= line.len(),
            skip_hashes(line@, from as int, to as int) == skip_hashes(line@, at as int, to as int),
        decreases to - at,
    {
        at += 1;
    }
    at
}

fn trim_end_in(line: &Vec<char>, from: usize, to: usize) -> (end: usize)
    requires
        from <= to <= line.len(),
    ensures
        end == trim_end(line@, from as int, to as int),
        from <= end <= to,
{
    let mut end = to;
    while from < end && is_space_char(line[end - 1])
        invariant
            from <= end <= to <= line.len(),
            trim_end(line@, from as int, to as int) == trim_end(line@, from as int, end as int),
        decreases end - from,
    {
        end -= 1;
    }
    end
}

/// Tests whether `line` holds nothing but white space.
fn is_blank_line(line: &Vec<char>) -> (blank: bool)
    ensures
        blank == is_blank(line@),
{
    skip_spaces_in(line, 0, line.len()) == line.len()
}

/// The text of the title line `line`.
fn heading_text_of(line: &Vec<char>) -> (text: Vec<char>)
    ensures
        text@ == heading_text(line@),
{
    let from = skip_spaces_in(line, 0, line.len());
    let to = trim_end_in(line, from, line.len());
    let past_hashes = skip_hashes_in(line, from, to);
    let start = skip_spaces_in(line, past_hashes, to);
    let end = trim_end_in(line, start, to);
    let mut text: Vec<char> = Vec::new();
    let mut i = start;
    while i < end
        invariant
            start <= i <= end <= line.len(),
            text@ == line@.subrange(start as int, i as int),
        decreases end - i,
    {
        text.push(line[i]);
        i += 1;
        assert(line@.subrange(start as int, i as int) =~= line@.subrange(start as int, i - 1).push(
            line@[i - 1],
        ));
    }
    text
}

/// Derives a note's title from its content.
pub fn title_from_content(content: &str) -> (title: String)
    ensures
        title@ == title_of(content@),
{
    let chars = chars_of(content);
    let lines = split_lines(&chars);
    assert(line_views(lines@).len() == lines@.len());
    let mut first: usize = 0;
    while first < lines.len() && is_blank_line(&lines[first])
        invariant
            first <= lines.len(),
            line_views(lines@) == lines_of(content@),
            first_nonblank(lines_of(content@), 0) == first_nonblank(
                lines_of(content@),
                first as int,
            ),
        decreases lines.len() - first,
    {
        assert(line_views(lines@)[first as int] == lines@[first as int]@);
        first += 1;
    }
    if first < lines.len() {
        assert(line_views(lines@)[first as int] == lines@[first as int]@);
        let text = heading_text_of(&lines[first]);
        if text.len() > 0 {
            return string_of(&text);
        }
    }
    let mut fallback = String::new();
    fallback.push('U');
    fallback.push('n');
    fallback.push('t');
    fallback.push('i');
    fallback.push('t');
    fallback.push('l');
    fallback.push('e');
    fallback.push('d');
    assert(fallback@ =~= untitled());
    fallback
}

impl AppView {
    /// The state after a note with `content` has been added at the end of
    /// the list. The selection stays where it is.
    pub open spec fn create_note(self, content: Seq<char>) -> AppView {
        AppView {
            notes: self.notes.push(NoteView { title: title_of(content), content }),
            needs_redraw: true,
            ..self
        }
    }

    /// The state after the selected note has been given `content`. Without
    /// a note nothing changes.
    pub open spec fn edit_note(self, content: Seq<char>) -> AppView {
        if self.notes.len() == 0 {
            self
        } else {
            AppView {
                notes: self.notes.update(
                    self.selected_note,
                    NoteView { title: title_of(content), content },
                ),
                needs_redraw: true,
                ..self
            }
        }
    }
}

/// Adds a note with the text `content`, as it came back from the editor, at
/// the end of the list, titled by its content, and asks for a full redraw.
pub fn create_note(app: &mut App, content: String)
    requires
        old(app).wf(),
    ensures
        final(app)@ == old(app)@.create_note(content@),
        final(app).wf(),
{
    let title = title_from_content(content.as_str());
    app.notes.push(Note { title, content });
    app.needs_redraw = true;
    assert(final(app)@.notes =~= old(app)@.create_note(content@).notes);
}

/// Gives the selected note the text `content`, as it came back from the
/// editor, titles it anew by that content, and asks for a full redraw.
/// Without a note nothing changes.
pub fn edit_note(app: &mut App, content: String)
    requires
        old(app).wf(),
    ensures
        final(app)@ == old(app)@.edit_note(content@),
        final(app).wf(),
{
    if app.notes.len() == 0 {
        assert(old(app)@.notes.len() == 0);
        return ;
    }
    let title = title_from_content(content.as_str());
    let selected = app.selected_note;
    app.notes.set(selected, Note { title, content });
    app.needs_redraw = true;
    assert(final(app)@.notes =~= old(app)@.edit_note(content@).notes);
}

} // verus!
