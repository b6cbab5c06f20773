//! Walking the lines of a source buffer in both directions from a byte
//! offset, without copying the buffer.
//!
//! A line is a maximal run of bytes without a newline. It is given by the
//! span `(start, end)` of its bytes; the newline that ends it belongs to no
//! line. A buffer that ends in a newline has no empty line after it, and an
//! empty buffer has no line at all.

use vstd::prelude::*;
use vstd::slice::slice_subrange;

verus! {

/// The byte that ends a line.
pub const NEWLINE: u8 = 10;

/// Where the line that holds the byte at `offset` starts: the closest
/// position at or before `offset` that is the start of the buffer or follows
/// a newline.
pub open spec fn line_start(buf: Seq<u8>, offset: int) -> int
    recommends
        0 <= offset <= buf.len(),
    decreases offset,
{
    if offset <= 0 {
        0
    } else if buf[offset - 1] == NEWLINE {
        offset
    } else {
        line_start(buf, offset - 1)
    }
}

/// Where the line that holds the byte at `from` ends: the closest position
/// at or after `from` that holds a newline or is the end of the buffer.
pub open spec fn line_end(buf: Seq<u8>, from: int) -> int
    recommends
        0 <= from <= buf.len(),
    decreases buf.len() - from,
{
    if from >= buf.len() {
        buf.len() as int
    } else if from >= 0 && buf[from] == NEWLINE {
        from
    } else {
        line_end(buf, from + 1)
    }
}

/// The bytes of the line with the given span.
pub open spec fn line_bytes(buf: Seq<u8>, span: (int, int)) -> Seq<u8> {
    buf.subrange(span.0, span.1)
}

/// The lines from the one that starts at `start` to the last line of the
/// buffer, in ascending order.
pub open spec fn lines_forward(buf: Seq<u8>, start: int) -> Seq<(int, int)>
    decreases buf.len() - start,
{
    if start < 0 || start >= buf.len() {
        Seq::empty()
    } else {
        let end = line_end(buf, start);
        proof {
            lemma_line_end_bounds(buf, start);
        }
        seq![(start, end)] + if end < buf.len() {
            lines_forward(buf, end + 1)
        } else {
            Seq::empty()
        }
    }
}

/// The lines before the one that starts at `start`, the closest first.
pub open spec fn lines_backward(buf: Seq<u8>, start: int) -> Seq<(int, int)>
    decreases start,
{
    if start <= 0 || start > buf.len() {
        Seq::empty()
    } else {
        let prev = line_start(buf, start - 1);
        proof {
            lemma_line_start_bounds(buf, start - 1);
        }
        seq![(prev, start - 1)] + lines_backward(buf, prev)
    }
}

/// The start of the line that `offset` lies in. An offset past the end of the
/// buffer counts as the end of the buffer.
pub open spec fn anchor(buf: Seq<u8>, offset: int) -> int {
    line_start(
        buf,
        if offset > buf.len() {
            buf.len() as int
        } else {
            offset
        },
    )
}

/// The line that `offset` lies in and the lines after it, in ascending order.
pub open spec fn lines_from(buf: Seq<u8>, offset: int) -> Seq<(int, int)> {
    lines_forward(buf, anchor(buf, offset))
}

/// The lines before the one that `offset` lies in, the closest first.
pub open spec fn lines_before(buf: Seq<u8>, offset: int) -> Seq<(int, int)> {
    lines_backward(buf, anchor(buf, offset))
}

/// A line starts at or before the offset it is asked for, inside the buffer.
pub proof fn lemma_line_start_bounds(buf: Seq<u8>, offset: int)
    requires
        0 <= offset,
    ensures
        0 <= line_start(buf, offset) <= offset,
    decreases offset,
{
    if offset > 0 && buf[offset - 1] != NEWLINE {
        lemma_line_start_bounds(buf, offset - 1);
    }
}

/// A line ends at or after the offset it is asked for, inside the buffer.
pub proof fn lemma_line_end_bounds(buf: Seq<u8>, from: int)
    requires
        0 <= from <= buf.len(),
    ensures
        from <= line_end(buf, from) <= buf.len(),
    decreases buf.len() - from,
{
    if from < buf.len() && buf[from] != NEWLINE {
        lemma_line_end_bounds(buf, from + 1);
    }
}

/// No line holds a newline.
pub proof fn lemma_line_without_newline(buf: Seq<u8>, start: int, at: int)
    requires
        0 <= start <= at < line_end(buf, start),
    ensures
        at < buf.len(),
        buf[at] != NEWLINE,
    decreases buf.len() - start,
{
    if start < buf.len() && buf[start] != NEWLINE && start < at {
        lemma_line_without_newline(buf, start + 1, at);
    }
}

/// A line starts at the start of the buffer or right after a newline.
pub proof fn lemma_line_starts_after_newline(buf: Seq<u8>, offset: int)
    requires
        0 <= offset <= buf.len(),
    ensures
        line_start(buf, offset) == 0 || buf[line_start(buf, offset) - 1] == NEWLINE,
        forall|at: int| line_start(buf, offset) <= at < offset ==> buf[at] != NEWLINE,
    decreases offset,
{
    if offset > 0 && buf[offset - 1] != NEWLINE {
        lemma_line_starts_after_newline(buf, offset - 1);
    }
}

/// The lines from a position on lie in the buffer, one after the other.
pub proof fn lemma_lines_forward_spans(buf: Seq<u8>, start: int, i: int)
    requires
        0 <= i < lines_forward(buf, start).len(),
    ensures
        ({
            let all = lines_forward(buf, start);
            &&& 0 <= all[i].0 <= all[i].1 <= buf.len()
            &&& all[i].0 < buf.len()
            &&& all[i].1 == line_end(buf, all[i].0)
            &&& all[0].0 == start
            &&& i > 0 ==> all[i].0 == all[i - 1].1 + 1
        }),
    decreases i,
{
    lemma_line_end_bounds(buf, start);
    let end = line_end(buf, start);
    if i > 0 {
        let rest = lines_forward(buf, end + 1);
        assert(lines_forward(buf, start) =~= seq![(start, end)] + rest);
        lemma_lines_forward_spans(buf, end + 1, i - 1);
        if i > 1 {
            assert(lines_forward(buf, start)[i - 1] == rest[i - 2]);
        }
    }
}

/// A cursor over the lines of a buffer. It is set on the line that holds a
/// given offset and hands out the lines from there on with [`Lines::next`],
/// and the lines before it with [`Lines::next_back`]. The two directions are
/// independent of each other.
pub struct Lines<'a> {
    code: &'a [u8],
    front: usize,
    back: usize,
}

impl<'a> Lines<'a> {
    #[verifier::type_invariant]
    spec fn in_buffer(self) -> bool {
        self.front <= self.code@.len() && self.back <= self.code@.len()
    }

    /// The buffer that the cursor walks.
    pub closed spec fn buffer(&self) -> Seq<u8> {
        self.code@
    }

    /// The lines that [`Lines::next`] has yet to hand out, in that order.
    pub closed spec fn ahead(&self) -> Seq<(int, int)> {
        lines_forward(self.code@, self.front as int)
    }

    /// The lines that [`Lines::next_back`] has yet to hand out, in that order.
    pub closed spec fn behind(&self) -> Seq<(int, int)> {
        lines_backward(self.code@, self.back as int)
    }

    /// Sets a cursor on the line of `code` that `offset` lies in.
    pub fn new(code: &'a [u8], offset: usize) -> (lines: Self)
        ensures
            lines.buffer() == code@,
            lines.ahead() == lines_from(code@, offset as int),
            lines.behind() == lines_before(code@, offset as int),
    {
        let from = if offset > code.len() {
            code.len()
        } else {
            offset
        };
        let mut start = from;
        while start > 0 && code[start - 1] != NEWLINE
            invariant
                start <= from <= code@.len(),
                line_start(code@, start as int) == line_start(code@, from as int),
            decreases start,
        {
            start -= 1;
        }
        Lines { code, front: start, back: start }
    }

    /// Hands out the next line in ascending order, first the line that the
    /// cursor was set on.
    pub fn next(&mut self) -> (line: Option<&'a [u8]>)
        ensures
            final(self).buffer() == old(self).buffer(),
            final(self).behind() == old(self).behind(),
            match line {
                Some(bytes) => {
                    &&& old(self).ahead().len() > 0
                    &&& bytes@ == line_bytes(old(self).buffer(), old(self).ahead()[0])
                    &&& final(self).ahead() == old(self).ahead().drop_first()
                },
                None => old(self).ahead().len() == 0 && final(self).ahead() == old(self).ahead(),
            },
    {
        proof {
            use_type_invariant(&*self);
        }
        let code = self.code;
        let start = self.front;
        if start >= code.len() {
            return None;
        }
        let mut end = start;
        while end < code.len() && code[end] != NEWLINE
            invariant
                start <= end <= code@.len(),
                line_end(code@, end as int) == line_end(code@, start as int),
            decreases code@.len() - end,
        {
            end += 1;
        }
        let ghost rest = if end < code@.len() {
            lines_forward(code@, end + 1)
        } else {
            Seq::empty()
        };
        assert(lines_forward(code@, start as int) == seq![(start as int, end as int)] + rest);
        if end < code.len() {
            self.front = end + 1;
        } else {
            self.front = end;
        }
        assert(self.ahead() =~= old(self).ahead().drop_first());
        Some(slice_subrange(code, start, end))
    }

    /// Hands out the next line in descending order, first the line before
    /// the one that the cursor was set on.
    pub fn next_back(&mut self) -> (line: Option<&'a [u8]>)
        ensures
            final(self).buffer() == old(self).buffer(),
            final(self).ahead() == old(self).ahead(),
            match line {
                Some(bytes) => {
                    &&& old(self).behind().len() > 0
                    &&& bytes@ == line_bytes(old(self).buffer(), old(self).behind()[0])
                    &&& final(self).behind() == old(self).behind().drop_first()
                },
                None => old(self).behind().len() == 0 && final(self).behind() == old(
                    self,
                ).behind(),
            },
    {
        proof {
            use_type_invariant(&*self);
        }
        let code = self.code;
        let end = self.back;
        if end == 0 {
            return None;
        }
        let end = end - 1;
        let mut start = end;
        while start > 0 && code[start - 1] != NEWLINE
            invariant
                start <= end < code@.len(),
                line_start(code@, start as int) == line_start(code@, end as int),
            decreases start,
        {
            start -= 1;
        }
        assert(lines_backward(code@, end + 1) == seq![(start as int, end as int)]
            + lines_backward(code@, start as int));
        self.back = start;
        assert(self.behind() =~= old(self).behind().drop_first());
        Some(slice_subrange(code, start, end))
    }
}

} // verus!
