//! Character-level helpers: strings as sequences of characters, the split of
//! raw text into lines, and the search for checklist markers.

use vstd::prelude::*;

verus! {

/// `String::push` appends one character at the end of the string and leaves
/// the characters before it as they were.
pub assume_specification[ String::push ](s: &mut String, c: char)
    ensures
        final(s)@ == old(s)@.push(c),
;

/// The characters of `s`, in order.
pub fn chars_of(s: &str) -> (chars: Vec<char>)
    ensures
        chars@ == s@,
{
    let mut chars: Vec<char> = Vec::new();
    for c in it: s.chars()
        invariant
            chars@ == it.seq().take(it.index() as int),
            it.seq() == s@,
    {
        chars.push(c);
    }
    chars
}

/// The string made of `chars`, in order.
pub fn string_of(chars: &Vec<char>) -> (s: String)
    ensures
        s@ == chars@,
{
    let mut s = String::new();
    let mut i: usize = 0;
    while i < chars.len()
        invariant
            i <= chars.len(),
            s@ == chars@.take(i as int),
        decreases chars.len() - i,
    {
        s.push(chars[i]);
        i += 1;
        assert(chars@.take(i as int) =~= chars@.take(i - 1).push(chars@[i - 1]));
    }
    assert(chars@.take(i as int) =~= chars@);
    s
}

/// A line without the carriage return that stood before its line feed.
pub open spec fn strip_cr(line: Seq<char>) -> Seq<char> {
    if line.len() > 0 && line.last() == '\r' {
        line.drop_last()
    } else {
        line
    }
}

/// The lines of `s` that begin at or after `start`, where `start` is the
/// beginning of the line that position `i` lies in.
pub open spec fn lines_scan(s: Seq<char>, start: int, i: int) -> Seq<Seq<char>>
    decreases s.len() - i,
{
    if i < 0 || i >= s.len() {
        if 0 <= start < s.len() {
            seq![s.subrange(start, s.len() as int)]
        } else {
            Seq::empty()
        }
    } else if s[i] == '\n' {
        seq![strip_cr(s.subrange(start, i))] + lines_scan(s, i + 1, i + 1)
    } else {
        lines_scan(s, start, i + 1)
    }
}

/// The lines of `s`. A line ends at a line feed, which is not part of it, and
/// neither is a carriage return directly before that line feed. Text after
/// the last line feed is a line of its own unless it is empty.
pub open spec fn lines_of(s: Seq<char>) -> Seq<Seq<char>> {
    lines_scan(s, 0, 0)
}

/// The character sequences that the vectors of `lines` hold.
pub open spec fn line_views(lines: Seq<Vec<char>>) -> Seq<Seq<char>> {
    Seq::new(lines.len(), |i: int| lines[i]@)
}

/// Splits `s` into its lines.
pub fn split_lines(s: &Vec<char>) -> (lines: Vec<Vec<char>>)
    ensures
        line_views(lines@) == lines_of(s@),
{
    let mut lines: Vec<Vec<char>> = Vec::new();
    let mut cur: Vec<char> = Vec::new();
    let mut start: usize = 0;
    let mut i: usize = 0;
    assert(line_views(lines@) + lines_scan(s@, 0, 0) =~= lines_of(s@));
    while i < s.len()
        invariant
            start <= i <= s.len(),
            cur@ == s@.subrange(start as int, i as int),
            line_views(lines@) + lines_scan(s@, start as int, i as int) == lines_of(s@),
        decreases s.len() - i,
    {
        let c = s[i];
        if c == '\n' {
            let ghost whole = cur@;
            let n = cur.len();
            if n > 0 && cur[n - 1] == '\r' {
                cur.pop();
            }
            assert(cur@ =~= strip_cr(whole));
            let ghost before = line_views(lines@);
            lines.push(cur);
            assert(line_views(lines@) =~= before + seq![strip_cr(whole)]);
            assert(line_views(lines@) + lines_scan(s@, i + 1, i + 1) =~= before + lines_scan(
                s@,
                start as int,
                i as int,
            ));
            cur = Vec::new();
            start = i + 1;
            i += 1;
            assert(cur@ =~= s@.subrange(start as int, i as int));
        } else {
            cur.push(c);
            i += 1;
            assert(cur@ =~= s@.subrange(start as int, i as int));
        }
    }
    if start < s.len() {
        let ghost before = line_views(lines@);
        assert(cur@ =~= s@.subrange(start as int, s@.len() as int));
        lines.push(cur);
        assert(line_views(lines@) =~= before + seq![s@.subrange(start as int, s@.len() as int)]);
    } else {
        assert(line_views(lines@) + Seq::<Seq<char>>::empty() =~= line_views(lines@));
    }
    lines
}

/// The lines of `lines` joined by single line feeds, with none at the end.
pub open spec fn join_lines(lines: Seq<Seq<char>>) -> Seq<char>
    decreases lines.len(),
{
    if lines.len() == 0 {
        Seq::empty()
    } else if lines.len() == 1 {
        lines[0]
    } else {
        join_lines(lines.drop_last()) + seq!['\n'] + lines.last()
    }
}

/// Joins `lines` by single line feeds.
pub fn join(lines: &Vec<Vec<char>>) -> (joined: Vec<char>)
    ensures
        joined@ == join_lines(line_views(lines@)),
{
    let mut joined: Vec<char> = Vec::new();
    let mut i: usize = 0;
    assert(line_views(lines@).take(0) =~= Seq::<Seq<char>>::empty());
    while i < lines.len()
        invariant
            i <= lines.len(),
            joined@ == join_lines(line_views(lines@).take(i as int)),
        decreases lines.len() - i,
    {
        let ghost done = line_views(lines@).take(i as int);
        let ghost next = line_views(lines@).take(i + 1);
        assert(next.drop_last() =~= done);
        assert(next.last() == lines@[i as int]@);
        if i > 0 {
            joined.push('\n');
        }
        let ghost head = joined@;
        let line = &lines[i];
        let mut j: usize = 0;
        while j < line.len()
            invariant
                j <= line.len(),
                joined@ == head + line@.take(j as int),
            decreases line.len() - j,
        {
            joined.push(line[j]);
            j += 1;
            assert(line@.take(j as int) =~= line@.take(j - 1).push(line@[j - 1]));
        }
        assert(line@.take(j as int) =~= line@);
        assert(head + line@ =~= join_lines(next));
        i += 1;
    }
    assert(line_views(lines@).take(i as int) =~= line_views(lines@));
    joined
}

/// Whether a checklist marker with `mid` between its brackets begins at
/// position `i` of `line`.
pub open spec fn marker_at(line: Seq<char>, mid: char, i: int) -> bool {
    &&& 0 <= i
    &&& i + 3 <= line.len()
    &&& line[i] == '['
    &&& line[i + 1] == mid
    &&& line[i + 2] == ']'
}

/// Whether `line` contains a checklist marker with `mid` between its brackets.
pub open spec fn has_marker(line: Seq<char>, mid: char) -> bool {
    exists|i: int| marker_at(line, mid, i)
}

/// Whether `i` is where the first such marker of `line` begins.
pub open spec fn is_first_marker(line: Seq<char>, mid: char, i: int) -> bool {
    &&& marker_at(line, mid, i)
    &&& forall|j: int| 0 <= j < i ==> !marker_at(line, mid, j)
}

/// Finds the first checklist marker of `line` with `mid` between its brackets.
pub fn find_marker(line: &Vec<char>, mid: char) -> (found: Option<usize>)
    ensures
        found is Some <==> has_marker(line@, mid),
        found is Some ==> is_first_marker(line@, mid, found->0 as int),
        found is Some ==> found->0 + 3 <= line.len(),
{
    let n = line.len();
    let mut k: usize = 0;
    while k < n && n - k >= 3
        invariant
            k <= n,
            n == line.len(),
            forall|j: int| 0 <= j < k ==> !marker_at(line@, mid, j),
        decreases n - k,
    {
        if line[k] == '[' && line[k + 1] == mid && line[k + 2] == ']' {
            assert(marker_at(line@, mid, k as int));
            return Some(k);
        }
        k += 1;
    }
    assert(forall|j: int| !marker_at(line@, mid, j));
    None
}

} // verus!
