//! The text buffer: an ordered sequence of lines, none of which holds a
//! line break, with character-level insertion and deletion and the
//! conversion from and to the text of a file.

use vstd::prelude::*;
use vstd::string::*;
use crate::terminal::Location;

verus! {

/// The character that ends a line in a file and splits a line when it is
/// inserted.
pub const LINE_BREAK: char = '\n';

/// No character of `line` is a line break.
pub open spec fn is_line(line: Seq<char>) -> bool {
    forall|i: int| 0 <= i < line.len() ==> line[i] != LINE_BREAK
}

/// Every element of `lines` is free of line breaks.
pub open spec fn are_lines(lines: Seq<Seq<char>>) -> bool {
    forall|i: int| 0 <= i < lines.len() ==> is_line(#[trigger] lines[i])
}

/// `lines` after inserting `c` at `at`.
///
/// A row beyond the end of the buffer changes nothing. A row just at the
/// end appends a line: an empty one for a line break, else one that
/// holds `c` alone. On an existing row the column is first brought back
/// to the length of the line; a line break then splits the line there, the
/// tail becoming the next line, and any other character is inserted there.
pub open spec fn inserted(lines: Seq<Seq<char>>, c: char, at: Location) -> Seq<Seq<char>> {
    let row = at.y as int;
    if row > lines.len() {
        lines
    } else if row == lines.len() {
        if c == LINE_BREAK {
            lines.push(Seq::empty())
        } else {
            lines.push(seq![c])
        }
    } else {
        let line = lines[row];
        let column = if at.x <= line.len() {
            at.x as int
        } else {
            line.len() as int
        };
        if c == LINE_BREAK {
            lines.update(row, line.subrange(0, column)).insert(
                row + 1,
                line.subrange(column, line.len() as int),
            )
        } else {
            lines.update(row, line.insert(column, c))
        }
    }
}

/// `lines` after deleting backwards from `at`.
///
/// A row that does not exist changes nothing. In a column after the first,
/// the character just before the column goes, if the line has one there.
/// In the first column of a row after the first, the line is joined to the
/// end of the line above it. At the origin nothing changes.
pub open spec fn backspaced(lines: Seq<Seq<char>>, at: Location) -> Seq<Seq<char>> {
    let row = at.y as int;
    if row >= lines.len() {
        lines
    } else if at.x > 0 {
        if at.x <= lines[row].len() {
            lines.update(row, lines[row].remove(at.x - 1))
        } else {
            lines
        }
    } else if row > 0 {
        lines.update(row - 1, lines[row - 1] + lines[row]).remove(row)
    } else {
        lines
    }
}

/// The text of a file that holds `lines`: each line, first to last,
/// followed by a line break.
pub open spec fn text_of(lines: Seq<Seq<char>>) -> Seq<char>
    decreases lines.len(),
{
    if lines.len() == 0 {
        Seq::empty()
    } else {
        lines[0].push(LINE_BREAK) + text_of(lines.drop_first())
    }
}

/// The index of the first line break in `text`, or the length of `text`
/// if it holds none.
pub open spec fn first_break(text: Seq<char>) -> int
    decreases text.len(),
{
    if text.len() == 0 || text[0] == LINE_BREAK {
        0
    } else {
        1 + first_break(text.drop_first())
    }
}

/// The lines of `text`: what stands between its line breaks, in order. A
/// last line that no line break ends counts as a line unless it is empty,
/// so an empty text has no lines.
pub open spec fn lines_of(text: Seq<char>) -> Seq<Seq<char>>
    decreases text.len(),
{
    let end = first_break(text);
    if text.len() == 0 {
        Seq::empty()
    } else if 0 <= end < text.len() {
        seq![text.subrange(0, end)] + lines_of(text.subrange(end + 1, text.len() as int))
    } else {
        seq![text]
    }
}

/// A sequence of text lines, in document order, rows counted from zero.
#[derive(Debug, PartialEq, Eq)]
pub struct Buffer {
    pub lines: Vec<String>,
}

impl View for Buffer {
    type V = Seq<Seq<char>>;

    /// The lines as character sequences.
    open spec fn view(&self) -> Seq<Seq<char>> {
        self.lines@.map_values(|line: String| line@)
    }
}

/// Appends one character to a string, by `String::push` of the standard
/// library: the string afterwards is the string before, followed by `c`.
#[verifier::external_body]
fn push_char(text: &mut String, c: char)
    ensures
        final(text)@ == old(text)@.push(c),
{
    text.push(c)
}

impl Buffer {
    /// No line of the buffer holds a line break.
    pub open spec fn wf(&self) -> bool {
        are_lines(self@)
    }

    /// An empty buffer.
    pub fn default() -> (buffer: Buffer)
        ensures
            buffer@ == Seq::<Seq<char>>::empty(),
            buffer.wf(),
    {
        Buffer { lines: Vec::new() }
    }

    /// An empty buffer.
    pub fn new() -> (buffer: Buffer)
        ensures
            buffer@ == Seq::<Seq<char>>::empty(),
            buffer.wf(),
    {
        Buffer { lines: Vec::new() }
    }

    /// The number of lines.
    pub fn line_count(&self) -> (count: usize)
        ensures
            count == self@.len(),
    {
        self.lines.len()
    }

    /// Appends `line` as the last line. The buffer stays well formed just
    /// when `line` holds no line break.
    pub fn push(&mut self, line: String)
        ensures
            final(self)@ == old(self)@.push(line@),
            final(self).wf() == (old(self).wf() && is_line(line@)),
    {
        self.lines.push(line);
        proof {
            let before = old(self)@;
            let after = self@;
            if are_lines(after) {
                assert(is_line(after[before.len() as int]));
                assert forall|i: int| 0 <= i < before.len() implies is_line(
                    #[trigger] before[i],
                ) by {
                    assert(before[i] == after[i]);
                }
            }
            if are_lines(before) && is_line(line@) {
                assert forall|i: int| 0 <= i < after.len() implies is_line(#[trigger] after[i]) by {
                    if i < before.len() {
                        assert(after[i] == before[i]);
                    }
                }
            }
        }
    }

    /// Takes the last line off the buffer and returns it; `None` when the
    /// buffer is empty, which then stays as it is.
    pub fn pop(&mut self) -> (line: Option<String>)
        ensures
            old(self)@.len() == 0 ==> line is None && final(self)@ == old(self)@,
            old(self)@.len() > 0 ==> line is Some && line->0@ == old(self)@.last() && final(self)@
                == old(self)@.drop_last(),
            old(self).wf() ==> final(self).wf(),
    {
        let line = self.lines.pop();
        proof {
            if old(self)@.len() == 0 {
                assert(self@ =~= old(self)@);
            }
        }
        line
    }

    /// A copy of the line in row `index`; `None` when the buffer has no
    /// such row.
    pub fn get_line(&self, index: usize) -> (line: Option<String>)
        ensures
            index < self@.len() ==> line is Some && line->0@ == self@[index as int],
            index >= self@.len() ==> line is None,
    {
        if index < self.lines.len() {
            Some(self.lines[index].clone())
        } else {
            None
        }
    }

    /// The buffer that a file with the contents `text` holds: one line for
    /// each stretch of `text` between line breaks.
    pub fn from_text(text: &str) -> (buffer: Buffer)
        ensures
            buffer@ == lines_of(text@),
            buffer.wf(),
    {
        let mut buffer = Buffer::new();
        let mut open = String::new();
        for c in it: text.chars()
            invariant
                it.seq() == text@,
                buffer.wf(),
                is_line(open@),
                text@.take(it.index()) == text_of(buffer@) + open@,
        {
            proof {
                assert(text@.take(it.index() + 1) =~= text@.take(it.index()).push(c));
            }
            if c == LINE_BREAK {
                proof {
                    lemma_text_of_push(buffer@, open@);
                }
                buffer.push(open);
                open = String::new();
                assert(text_of(buffer@) + open@ =~= text_of(buffer@));
            } else {
                proof {
                    assert(text@.take(it.index()).push(c) =~= text_of(buffer@) + open@.push(c));
                }
                push_char(&mut open, c);
            }
        }
        proof {
            assert(text@.take(text@.len() as int) =~= text@);
            lemma_lines_of_text(buffer@, open@);
        }
        if !open.as_str().is_empty() {
            buffer.push(open);
        }
        buffer
    }

    /// The contents of the file that holds this buffer: every line, first
    /// to last, each followed by a line break.
    pub fn to_text(&self) -> (text: String)
        ensures
            text@ == text_of(self@),
    {
        let mut text = String::new();
        let count = self.lines.len();
        let mut row: usize = 0;
        while row < count
            invariant
                count == self@.len(),
                row <= count,
                text@ == text_of(self@.take(row as int)),
            decreases count - row,
        {
            proof {
                lemma_text_of_push(self@.take(row as int), self@[row as int]);
                assert(self@.take(row + 1) =~= self@.take(row as int).push(self@[row as int]));
            }
            text.append(self.lines[row].as_str());
            push_char(&mut text, LINE_BREAK);
            row += 1;
            assert(text@ =~= text_of(self@.take(row as int)));
        }
        assert(self@.take(count as int) =~= self@);
        text
    }

    /// Inserts `c` at `at`; see [`inserted`]. A row beyond the end of the
    /// buffer leaves it untouched, and a line break at the row just past
    /// the end adds one empty line and alters no other.
    pub fn insert(&mut self, c: char, at: Location)
        ensures
            final(self)@ == inserted(old(self)@, c, at),
            old(self).wf() ==> final(self).wf(),
            at.y > old(self)@.len() ==> final(self)@ == old(self)@,
            c == LINE_BREAK && at.y == old(self)@.len() ==> final(self)@.len() == old(self)@.len()
                + 1 && final(self)@.take(old(self)@.len() as int) == old(self)@,
    {
        let count = self.lines.len();
        if at.y > count {
            return;
        }
        proof {
            if self.wf() {
                lemma_inserted_lines(self@, c, at);
            }
        }
        if at.y == count {
            let mut line = String::new();
            if c != LINE_BREAK {
                push_char(&mut line, c);
            }
            self.lines.push(line);
            assert(self@ =~= inserted(old(self)@, c, at));
            assert(self@.take(old(self)@.len() as int) =~= old(self)@);
        } else {
            let line = self.lines[at.y].as_str();
            let length = line.unicode_len();
            let column = if at.x < length {
                at.x
            } else {
                length
            };
            let mut head = line.substring_char(0, column).to_owned();
            let tail = line.substring_char(column, length);
            if c == LINE_BREAK {
                let tail = tail.to_owned();
                self.lines[at.y] = head;
                self.lines.insert(at.y + 1, tail);
            } else {
                push_char(&mut head, c);
                head.append(tail);
                assert(head@ =~= old(self)@[at.y as int].insert(column as int, c));
                self.lines[at.y] = head;
            }
            assert(self@ =~= inserted(old(self)@, c, at));
        }
    }

    /// Deletes backwards from `at`; see [`backspaced`]. At the origin the
    /// buffer is left untouched.
    pub fn backspace(&mut self, at: Location)
        ensures
            final(self)@ == backspaced(old(self)@, at),
            old(self).wf() ==> final(self).wf(),
            at.x == 0 && at.y == 0 ==> final(self)@ == old(self)@,
    {
        if at.y >= self.lines.len() {
            return;
        }
        proof {
            if self.wf() {
                lemma_backspaced_lines(self@, at);
            }
        }
        if at.x > 0 {
            let line = self.lines[at.y].as_str();
            let length = line.unicode_len();
            if at.x <= length {
                let mut head = line.substring_char(0, at.x - 1).to_owned();
                head.append(line.substring_char(at.x, length));
                assert(head@ =~= old(self)@[at.y as int].remove(at.x - 1));
                self.lines[at.y] = head;
                assert(self@ =~= backspaced(old(self)@, at));
            }
        } else if at.y > 0 {
            let moved = self.lines.remove(at.y);
            let mut joined = self.lines[at.y - 1].clone();
            joined.append(moved.as_str());
            self.lines[at.y - 1] = joined;
            assert(self@ =~= backspaced(old(self)@, at));
        }
    }
}

/// Inserting a character keeps lines free of line breaks.
pub proof fn lemma_inserted_lines(lines: Seq<Seq<char>>, c: char, at: Location)
    requires
        are_lines(lines),
    ensures
        are_lines(inserted(lines, c, at)),
{
    let after = inserted(lines, c, at);
    let row = at.y as int;
    assert forall|i: int| 0 <= i < after.len() implies is_line(#[trigger] after[i]) by {
        if row < lines.len() {
            assert(is_line(lines[row]));
        }
    }
}

/// Deleting backwards keeps lines free of line breaks.
pub proof fn lemma_backspaced_lines(lines: Seq<Seq<char>>, at: Location)
    requires
        are_lines(lines),
    ensures
        are_lines(backspaced(lines, at)),
{
    let after = backspaced(lines, at);
    let row = at.y as int;
    assert forall|i: int| 0 <= i < after.len() implies is_line(#[trigger] after[i]) by {
        if 0 < row < lines.len() {
            assert(is_line(lines[row]) && is_line(lines[row - 1]));
        }
    }
}


/// Where [`first_break`] points: not past the end, at a line break unless
/// at the end, and after no line break.
pub proof fn lemma_first_break(text: Seq<char>)
    ensures
        0 <= first_break(text) <= text.len(),
        first_break(text) < text.len() ==> text[first_break(text)] == LINE_BREAK,
        is_line(text.subrange(0, first_break(text))),
    decreases text.len(),
{
    if text.len() > 0 && text[0] != LINE_BREAK {
        let rest = text.drop_first();
        lemma_first_break(rest);
        let end = first_break(text);
        assert forall|i: int| 0 <= i < end implies text.subrange(0, end)[i] != LINE_BREAK by {
            if i > 0 {
                assert(text[i] == rest.subrange(0, end - 1)[i - 1]);
            }
        }
    }
}

/// The first line break of a text that starts with a line, then has a line
/// break, stands right after that line.
pub proof fn lemma_first_break_after_line(line: Seq<char>, rest: Seq<char>)
    requires
        is_line(line),
    ensures
        first_break(line.push(LINE_BREAK) + rest) == line.len(),
        first_break(line) == line.len(),
    decreases line.len(),
{
    let text = line.push(LINE_BREAK) + rest;
    if line.len() > 0 {
        let shorter = line.drop_first();
        assert(is_line(shorter)) by {
            assert forall|i: int| 0 <= i < shorter.len() implies shorter[i] != LINE_BREAK by {
                assert(shorter[i] == line[i + 1]);
            }
        }
        lemma_first_break_after_line(shorter, rest);
        assert(text.drop_first() =~= shorter.push(LINE_BREAK) + rest);
    }
}

/// The text of a buffer with one more line is the text before, then that
/// line, then a line break.
pub proof fn lemma_text_of_push(lines: Seq<Seq<char>>, line: Seq<char>)
    ensures
        text_of(lines.push(line)) == text_of(lines) + line.push(LINE_BREAK),
    decreases lines.len(),
{
    if lines.len() == 0 {
        let rest = lines.push(line).drop_first();
        assert(text_of(rest) =~= Seq::<char>::empty());
    } else {
        lemma_text_of_push(lines.drop_first(), line);
        assert(lines.push(line).drop_first() =~= lines.drop_first().push(line));
    }
}

/// Reading back what was written: the text of `lines`, followed by a last
/// line `open` that no line break ends, has the lines `lines` and then
/// `open`, unless `open` is empty.
pub proof fn lemma_lines_of_text(lines: Seq<Seq<char>>, open: Seq<char>)
    requires
        are_lines(lines),
        is_line(open),
    ensures
        lines_of(text_of(lines) + open) == if open.len() == 0 {
            lines
        } else {
            lines.push(open)
        },
    decreases lines.len(),
{
    let text = text_of(lines) + open;
    if lines.len() == 0 {
        assert(text =~= open);
        lemma_first_break_after_line(open, Seq::empty());
    } else {
        let first = lines[0];
        let rest = lines.drop_first();
        assert(are_lines(rest)) by {
            assert forall|i: int| 0 <= i < rest.len() implies is_line(#[trigger] rest[i]) by {
                assert(rest[i] == lines[i + 1]);
            }
        }
        let tail = text_of(rest) + open;
        assert(text =~= first.push(LINE_BREAK) + tail);
        lemma_first_break_after_line(first, tail);
        lemma_lines_of_text(rest, open);
        assert(text.subrange(0, first.len() as int) =~= first);
        assert(text.subrange(first.len() as int + 1, text.len() as int) =~= tail);
        if open.len() == 0 {
            assert(seq![first] + rest =~= lines);
        } else {
            assert(seq![first] + rest.push(open) =~= lines.push(open));
        }
    }
}

/// The lines of any text hold no line break.
pub proof fn lemma_lines_of_are_lines(text: Seq<char>)
    ensures
        are_lines(lines_of(text)),
    decreases text.len(),
{
    lemma_first_break(text);
    let end = first_break(text);
    if 0 <= end < text.len() {
        let rest = text.subrange(end + 1, text.len() as int);
        lemma_lines_of_are_lines(rest);
        let lines = seq![text.subrange(0, end)] + lines_of(rest);
        assert forall|i: int| 0 <= i < lines.len() implies is_line(#[trigger] lines[i]) by {
            if i > 0 {
                assert(lines[i] == lines_of(rest)[i - 1]);
            }
        }
    } else if text.len() > 0 {
        assert(text.subrange(0, end) =~= text);
    }
}

/// Round trip: a buffer whose lines hold no line break is read back from
/// its own text exactly as it was, line for line.
pub proof fn lemma_text_round_trip(lines: Seq<Seq<char>>)
    requires
        are_lines(lines),
    ensures
        lines_of(text_of(lines)) == lines,
{
    assert(text_of(lines) + Seq::<char>::empty() =~= text_of(lines));
    lemma_lines_of_text(lines, Seq::empty());
}

} // verus!
