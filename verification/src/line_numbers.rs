//! Byte offsets into a source text, and the lines and columns an editor
//! counts in. Lines end at a line feed; a column counts code points, so a
//! character of several bytes is one column wide.

use vstd::prelude::*;
use vstd::string::*;

verus! {

/// Whether a byte of UTF-8 continues a code point that an earlier byte began.
pub open spec fn is_continuation(byte: u8) -> bool {
    0x80 <= byte <= 0xBF
}

/// The number of code points that begin in `text[from..to]`.
pub open spec fn code_points(text: Seq<u8>, from: int, to: int) -> nat
    decreases to - from,
{
    if to <= from {
        0
    } else if is_continuation(text[to - 1]) {
        code_points(text, from, to - 1)
    } else {
        code_points(text, from, to - 1) + 1
    }
}

/// The offsets at which the lines begin that start within the first `upto`
/// bytes of `text`: offset 0, and the offset after each line feed.
pub open spec fn line_starts_upto(text: Seq<u8>, upto: int) -> Seq<int>
    decreases upto,
{
    if upto <= 0 {
        seq![0int]
    } else if text[upto - 1] == 10u8 {
        line_starts_upto(text, upto - 1).push(upto)
    } else {
        line_starts_upto(text, upto - 1)
    }
}

/// The offsets at which the lines of `text` begin.
pub open spec fn line_starts_of(text: Seq<u8>) -> Seq<int> {
    line_starts_upto(text, text.len() as int)
}

/// A byte offset, or the end of the text if the offset lies beyond it.
pub open spec fn within(text: Seq<u8>, byte_index: int) -> int {
    if byte_index > text.len() {
        text.len() as int
    } else {
        byte_index
    }
}

/// The line, counted from 0, that a byte offset is on: as many as there are
/// line feeds before it.
pub open spec fn line_of(text: Seq<u8>, byte_index: int) -> int {
    line_starts_upto(text, within(text, byte_index)).len() - 1
}

/// The column, counted from 0, of a byte offset: the code points between
/// the start of its line and the offset.
pub open spec fn column_of(text: Seq<u8>, byte_index: int) -> int {
    let at = within(text, byte_index);
    code_points(text, line_starts_upto(text, at).last(), at) as int
}

/// The offset at which a line stops: that of its line feed, or the end of
/// the text for the last line.
pub open spec fn line_end(text: Seq<u8>, line: int) -> int {
    let starts = line_starts_of(text);
    if line + 1 < starts.len() {
        starts[line + 1] - 1
    } else {
        text.len() as int
    }
}

/// Whether `offset` is where `character` code points into line `line` leads:
/// the start of the code point with that column, or the end of the line if
/// the line is shorter, or the end of the text if there is no such line.
pub open spec fn at_position(text: Seq<u8>, line: int, character: int, offset: int) -> bool {
    let starts = line_starts_of(text);
    if line >= starts.len() {
        offset == text.len()
    } else {
        let start = starts[line];
        let end = line_end(text, line);
        &&& start <= offset <= end
        &&& if offset == end {
            code_points(text, start, end) <= character
        } else {
            code_points(text, start, offset) == character && !is_continuation(text[offset])
        }
    }
}

/// The line starts found in a prefix stay the same in a longer prefix, are
/// in ascending order, and split at the prefix's length.
pub proof fn lemma_line_starts(text: Seq<u8>, m: int, n: int)
    requires
        0 <= m <= n <= text.len(),
    ensures
        line_starts_upto(text, m).len() >= 1,
        line_starts_upto(text, m).len() <= line_starts_upto(text, n).len(),
        line_starts_upto(text, n)[0] == 0,
        forall|i: int|
            0 <= i < line_starts_upto(text, m).len() ==> line_starts_upto(text, n)[i]
                == #[trigger] line_starts_upto(text, m)[i],
        forall|i: int|
            0 <= i < line_starts_upto(text, m).len() ==> 0 <= #[trigger] line_starts_upto(
                text,
                n,
            )[i] <= m,
        forall|i: int|
            line_starts_upto(text, m).len() <= i < line_starts_upto(text, n).len() ==> m
                < #[trigger] line_starts_upto(text, n)[i] <= n,
        forall|i: int, j: int|
            0 <= i < j < line_starts_upto(text, n).len() ==> line_starts_upto(text, n)[i]
                < line_starts_upto(text, n)[j],
        forall|i: int|
            1 <= i < line_starts_upto(text, n).len() ==> text[#[trigger] line_starts_upto(
                text,
                n,
            )[i] - 1] == 10u8,
    decreases n,
{
    if n == 0 {
    } else if m == n {
        lemma_line_starts(text, n - 1, n - 1);
        lemma_line_starts(text, 0, n - 1);
    } else {
        lemma_line_starts(text, m, n - 1);
        lemma_line_starts(text, n - 1, n - 1);
    }
}

/// Counting code points over a range is counting over its two parts.
pub proof fn lemma_code_points_split(text: Seq<u8>, from: int, mid: int, to: int)
    requires
        from <= mid <= to,
    ensures
        code_points(text, from, to) == code_points(text, from, mid) + code_points(text, mid, to),
    decreases to - mid,
{
    if mid < to {
        lemma_code_points_split(text, from, mid, to - 1);
    }
}

/// Going from a byte offset to its line and column and back leads to the
/// same offset, and to no other, whenever the offset is within the text and
/// on the start of a code point (or at the end of the text).
pub proof fn lemma_round_trip(text: Seq<u8>, byte_index: int, offset: int)
    requires
        0 <= byte_index <= text.len(),
        byte_index == text.len() || !is_continuation(text[byte_index]),
    ensures
        at_position(text, line_of(text, byte_index), column_of(text, byte_index), offset) <==> offset
            == byte_index,
{
    let line = line_of(text, byte_index);
    let starts = line_starts_of(text);
    lemma_line_starts(text, byte_index, text.len() as int);
    lemma_line_starts(text, byte_index, byte_index);
    let start = starts[line];
    let end = line_end(text, line);
    assert(start == line_starts_upto(text, byte_index).last());
    assert(start <= byte_index <= end);
    if start <= offset <= end {
        if offset < byte_index {
            lemma_code_points_split(text, start, offset, byte_index);
            lemma_code_points_split(text, offset, offset + 1, byte_index);
            assert(code_points(text, offset, offset + 1) == if is_continuation(text[offset]) {
                0nat
            } else {
                1nat
            }) by {
                assert(code_points(text, offset, offset) == 0);
            }
        } else if offset > byte_index {
            lemma_code_points_split(text, start, byte_index, offset);
            lemma_code_points_split(text, byte_index, byte_index + 1, offset);
            assert(code_points(text, byte_index, byte_index + 1) == 1) by {
                assert(code_points(text, byte_index, byte_index) == 0);
            }
        }
    }
}

/// A line and a count of code points lead to one offset only.
pub proof fn lemma_one_position(text: Seq<u8>, line: int, character: int, a: int, b: int)
    requires
        0 <= line,
        at_position(text, line, character, a),
        at_position(text, line, character, b),
    ensures
        a == b,
{
    let starts = line_starts_of(text);
    if line < starts.len() {
        let start = starts[line];
        let end = line_end(text, line);
        if a < b {
            lemma_code_points_split(text, start, a, b);
            lemma_code_points_split(text, a, a + 1, b);
            assert(code_points(text, a, a + 1) == 1) by {
                assert(code_points(text, a, a) == 0);
            }
        } else if b < a {
            lemma_code_points_split(text, start, b, a);
            lemma_code_points_split(text, b, b + 1, a);
            assert(code_points(text, b, b + 1) == 1) by {
                assert(code_points(text, b, b) == 0);
            }
        }
    }
}

/// The offset that a line and a count of code points into it lead to.
pub open spec fn offset_at(text: Seq<u8>, line: int, character: int) -> int {
    choose|offset: int| at_position(text, line, character, offset)
}

/// The number of lines that a text is read as: a line feed ends a line, and
/// what follows the last line feed is a line if there is anything.
pub open spec fn lines_in(text: Seq<u8>) -> int {
    if text.len() > 0 && text.last() != 10u8 {
        line_starts_of(text).len() as int
    } else {
        line_starts_of(text).len() - 1
    }
}

/// A line and a column, both counted from 0.
#[derive(Debug, Clone, Copy, PartialEq, Eq, Structural)]
pub struct LineColumn {
    pub line: usize,
    pub column: usize,
}

/// The index of a source text: where each of its lines begins.
#[derive(Debug, PartialEq, Eq)]
pub struct LineNumbers {
    text: Vec<u8>,
    line_starts: Vec<usize>,
}

impl View for LineNumbers {
    type V = Seq<u8>;

    /// The bytes of the text that was indexed.
    closed spec fn view(&self) -> Seq<u8> {
        self.text@
    }
}

impl LineNumbers {
    #[verifier::type_invariant]
    spec fn indexed(&self) -> bool {
        &&& self.line_starts@.len() == line_starts_of(self.text@).len()
        &&& forall|i: int|
            0 <= i < self.line_starts@.len() ==> self.line_starts@[i] as int == line_starts_of(
                self.text@,
            )[i]
    }

    /// Indexes a source text.
    pub fn new(src: &str) -> (index: LineNumbers)
        ensures
            index@ == src.spec_bytes(),
    {
        let text = src.as_bytes_vec();
        let mut line_starts: Vec<usize> = Vec::new();
        line_starts.push(0);
        let mut i: usize = 0;
        while i < text.len()
            invariant
                i <= text.len(),
                line_starts@.len() == line_starts_upto(text@, i as int).len(),
                forall|k: int|
                    0 <= k < line_starts@.len() ==> line_starts@[k] as int == line_starts_upto(
                        text@,
                        i as int,
                    )[k],
            decreases text.len() - i,
        {
            if text[i] == 10u8 {
                line_starts.push(i + 1);
            }
            i += 1;
        }
        LineNumbers { text, line_starts }
    }

    /// The number of lines: one more than there are line feeds.
    pub fn line_count(&self) -> (count: usize)
        ensures
            count == line_starts_of(self@).len(),
    {
        proof {
            use_type_invariant(self);
        }
        self.line_starts.len()
    }

    /// The number of lines that the text is read as.
    pub fn lines(&self) -> (count: usize)
        ensures
            count == lines_in(self@),
    {
        proof {
            use_type_invariant(self);
            lemma_line_starts(self.text@, 0, self.text@.len() as int);
        }
        let len = self.text.len();
        if len > 0 && self.text[len - 1] != 10u8 {
            self.line_starts.len()
        } else {
            self.line_starts.len() - 1
        }
    }

    /// The line, counted from 0, that a byte offset is on. An offset beyond
    /// the text is on the last line.
    pub fn line_number(&self, byte_index: usize) -> (line: usize)
        ensures
            line == line_of(self@, byte_index as int),
    {
        proof {
            use_type_invariant(self);
            lemma_line_starts(
                self.text@,
                within(self.text@, byte_index as int),
                self.text@.len() as int,
            );
        }
        let at = if byte_index > self.text.len() {
            self.text.len()
        } else {
            byte_index
        };
        let n = self.line_starts.len();
        let mut low: usize = 0;
        let mut high: usize = n;
        while high - low > 1
            invariant
                low < high <= n,
                n == self.line_starts@.len(),
                self.line_starts@[low as int] <= at,
                forall|i: int| high <= i < n ==> self.line_starts@[i] > at,
                forall|i: int, j: int|
                    0 <= i < j < n ==> self.line_starts@[i] < self.line_starts@[j],
            decreases high - low,
        {
            let middle = low + (high - low) / 2;
            if self.line_starts[middle] <= at {
                low = middle;
            } else {
                high = middle;
            }
        }
        proof {
            let all = line_starts_of(self.text@);
            let before = line_starts_upto(self.text@, at as int).len() as int;
            assert(all[low as int] <= at);
            if low + 1 < before {
                assert(all[low + 1] <= at);
                assert(self.line_starts@[low + 1] as int == all[low + 1]);
            }
        }
        low
    }

    /// The line and the column, both counted from 0, of a byte offset. An
    /// offset beyond the text counts as the end of the text.
    pub fn line_and_column_number(&self, byte_index: usize) -> (found: LineColumn)
        ensures
            found.line == line_of(self@, byte_index as int),
            found.column == column_of(self@, byte_index as int),
    {
        proof {
            use_type_invariant(self);
            lemma_line_starts(
                self.text@,
                within(self.text@, byte_index as int),
                self.text@.len() as int,
            );
        }
        let at = if byte_index > self.text.len() {
            self.text.len()
        } else {
            byte_index
        };
        let line = self.line_number(byte_index);
        let start = self.line_starts[line];
        let mut column: usize = 0;
        let mut i: usize = start;
        while i < at
            invariant
                start <= i <= at <= self.text@.len(),
                column == code_points(self.text@, start as int, i as int),
                column <= i - start,
            decreases at - i,
        {
            let byte = self.text[i];
            if !(byte >= 0x80 && byte <= 0xBF) {
                column += 1;
            }
            i += 1;
        }
        LineColumn { line, column }
    }

    /// The byte offset that a line and a count of code points into it lead
    /// to, both counted from 0. A count beyond the line's end leads to the
    /// line's end, a line beyond the last to the end of the text.
    pub fn byte_index(&self, line: usize, character: usize) -> (offset: usize)
        ensures
            at_position(self@, line as int, character as int, offset as int),
            offset == offset_at(self@, line as int, character as int),
            offset <= self@.len(),
    {
        let offset = self.find_byte_index(line, character);
        proof {
            let chosen = offset_at(self@, line as int, character as int);
            lemma_one_position(self@, line as int, character as int, offset as int, chosen);
        }
        offset
    }

    fn find_byte_index(&self, line: usize, character: usize) -> (offset: usize)
        ensures
            at_position(self@, line as int, character as int, offset as int),
            offset <= self@.len(),
    {
        proof {
            use_type_invariant(self);
            lemma_line_starts(self.text@, 0, self.text@.len() as int);
        }
        if line >= self.line_starts.len() {
            return self.text.len();
        }
        let start = self.line_starts[line];
        let end = if line + 1 < self.line_starts.len() {
            self.line_starts[line + 1] - 1
        } else {
            self.text.len()
        };
        let mut seen: usize = 0;
        let mut i: usize = start;
        while i < end
            invariant
                start <= i <= end <= self.text@.len(),
                line < line_starts_of(self.text@).len(),
                start == line_starts_of(self.text@)[line as int],
                end == line_end(self.text@, line as int),
                seen == code_points(self.text@, start as int, i as int),
                seen <= character,
                seen <= i - start,
            decreases end - i,
        {
            let byte = self.text[i];
            if !(byte >= 0x80 && byte <= 0xBF) {
                if seen == character {
                    return i;
                }
                seen += 1;
            }
            i += 1;
        }
        i
    }
}

} // verus!
