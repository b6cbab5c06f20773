//! The plan of the code block of a report: which lines of the source are
//! shown, in which order and under which numbers, and how the match is
//! marked. A plan holds no text yet.

use vstd::prelude::*;

use crate::finding::LintMatch;
use crate::lines::{line_bytes, lines_before, lines_from, Lines};
use crate::report::Opts;
use crate::text::decimal_width;

verus! {

/// What stands between the gutter and the code of a line.
#[derive(Clone, Copy, Debug, PartialEq, Eq, Structural)]
pub enum Lead {
    /// That many spaces.
    Indent(usize),
    /// The connector `/` of the first line of a match of several lines.
    Open,
    /// The connector `|` of a later line of a match of several lines.
    Continue,
}

/// A line of the code block of a report.
pub enum Row {
    /// An empty gutter and nothing else.
    Separator,
    /// A line of code under its number.
    Code { label: nat, lead: Lead, line: Seq<u8> },
    /// The carets under a match on one line.
    Carets { indent: nat, count: nat },
    /// The line that closes a match of several lines, and points at its end.
    Closing { fill: nat },
}

/// A line of the code block of a report, as it is planned before any of it
/// is written.
#[derive(Clone, Copy, Debug)]
pub enum PlannedRow<'a> {
    /// An empty gutter and nothing else.
    Separator,
    /// A line of code under its number.
    Code { label: u128, lead: Lead, line: &'a [u8] },
    /// The carets under a match on one line.
    Carets { indent: usize, count: usize },
    /// The line that closes a match of several lines, and points at its end.
    Closing { fill: usize },
}

impl<'a> View for PlannedRow<'a> {
    type V = Row;

    open spec fn view(&self) -> Row {
        match *self {
            PlannedRow::Separator => Row::Separator,
            PlannedRow::Code { label, lead, line } => Row::Code {
                label: label as nat,
                lead,
                line: line@,
            },
            PlannedRow::Carets { indent, count } => Row::Carets {
                indent: indent as nat,
                count: count as nat,
            },
            PlannedRow::Closing { fill } => Row::Closing { fill: fill as nat },
        }
    }
}

/// The rows that a plan stands for.
pub open spec fn views<'a>(plan: Seq<PlannedRow<'a>>) -> Seq<Row> {
    Seq::new(plan.len(), |i: int| plan[i]@)
}

/// The smaller of two numbers.
pub open spec fn least(a: nat, b: nat) -> nat {
    if a <= b {
        a
    } else {
        b
    }
}

/// A match without bytes has no code to show.
pub open spec fn span_is_empty(m: LintMatch) -> bool {
    m.range.bytes.start >= m.range.bytes.end
}

/// The width of the column of line numbers: that of the largest number that
/// the context after the match could ask for, whether or not the buffer has
/// that many lines.
pub open spec fn gutter_width(m: LintMatch, opts: Opts) -> nat {
    decimal_width((m.range.end_point.row + opts.extra_lines.1) as nat)
}

/// The columns kept free before the code for the connectors of a match of
/// several lines.
pub open spec fn code_indent(m: LintMatch) -> usize {
    if m.range.start_point.row == m.range.end_point.row {
        0
    } else {
        3
    }
}

/// The number of carets under a match on one line: one for each column of
/// the match, and one where it has none.
pub open spec fn caret_count(m: LintMatch) -> nat {
    if m.range.end_point.col > m.range.start_point.col {
        (m.range.end_point.col - m.range.start_point.col) as nat
    } else {
        1
    }
}

/// The number of lines that precede the match: as many as the buffer has
/// before the line of the match, and no more than its row number allows.
pub open spec fn lines_preceding(m: LintMatch, code: Seq<u8>) -> nat {
    least(lines_before(code, m.range.bytes.start as int).len(), m.range.start_point.row as nat)
}

/// The number of lines of context shown before the match: as many as are
/// asked for, as far as there are that many.
pub open spec fn before_count(m: LintMatch, code: Seq<u8>, opts: Opts) -> nat {
    least(opts.extra_lines.0 as nat, lines_preceding(m, code))
}

/// The lines of context before the match, in ascending order.
pub open spec fn before_rows(m: LintMatch, code: Seq<u8>, opts: Opts) -> Seq<Row> {
    let count = before_count(m, code, opts);
    let behind = lines_before(code, m.range.bytes.start as int);
    Seq::new(
        count,
        |i: int|
            Row::Code {
                label: (m.range.start_point.row - count + i) as nat,
                lead: Lead::Indent(code_indent(m)),
                line: line_bytes(code, behind[count - 1 - i]),
            },
    )
}

/// The number of rows that the match spans by its points.
pub open spec fn rows_spanned(m: LintMatch) -> nat {
    if m.range.start_point.row <= m.range.end_point.row {
        (m.range.end_point.row - m.range.start_point.row + 1) as nat
    } else {
        0
    }
}

/// The number of lines of the match that are shown: those that it spans, as
/// far as the buffer has them.
pub open spec fn match_count(m: LintMatch, code: Seq<u8>) -> nat {
    least(rows_spanned(m), lines_from(code, m.range.bytes.start as int).len())
}

/// What stands before the code of the line of the match with the given
/// number.
pub open spec fn match_lead(m: LintMatch, i: int) -> Lead {
    if m.range.start_point.row == m.range.end_point.row {
        Lead::Indent(0)
    } else if i == 0 {
        Lead::Open
    } else {
        Lead::Continue
    }
}

/// The lines of the match.
pub open spec fn match_rows(m: LintMatch, code: Seq<u8>) -> Seq<Row> {
    let ahead = lines_from(code, m.range.bytes.start as int);
    Seq::new(
        match_count(m, code),
        |i: int|
            Row::Code {
                label: (m.range.start_point.row + i) as nat,
                lead: match_lead(m, i),
                line: line_bytes(code, ahead[i]),
            },
    )
}

/// The line that marks the match: carets under a match on one line, the
/// closing line under a match of several.
pub open spec fn mark_row(m: LintMatch) -> Row {
    if m.range.start_point.row == m.range.end_point.row {
        Row::Carets { indent: m.range.start_point.col as nat, count: caret_count(m) }
    } else {
        Row::Closing { fill: m.range.end_point.col as nat }
    }
}

/// The number of lines of context shown after the match: as many as are
/// asked for, as far as the buffer has them after the lines of the match.
pub open spec fn after_count(m: LintMatch, code: Seq<u8>, opts: Opts) -> nat {
    least(
        opts.extra_lines.1 as nat,
        (lines_from(code, m.range.bytes.start as int).len() - match_count(m, code)) as nat,
    )
}

/// The lines of context after the match.
pub open spec fn after_rows(m: LintMatch, code: Seq<u8>, opts: Opts) -> Seq<Row> {
    let ahead = lines_from(code, m.range.bytes.start as int);
    let skipped = match_count(m, code);
    Seq::new(
        after_count(m, code, opts),
        |i: int|
            Row::Code {
                label: (m.range.end_point.row + 1 + i) as nat,
                lead: Lead::Indent(code_indent(m)),
                line: line_bytes(code, ahead[skipped + i]),
            },
    )
}

/// The code block of the report of a match that has bytes: between two
/// separators the context before the match, the match, its mark and the
/// context after it.
pub open spec fn rows(m: LintMatch, code: Seq<u8>, opts: Opts) -> Seq<Row> {
    seq![Row::Separator] + before_rows(m, code, opts) + match_rows(m, code) + seq![mark_row(m)]
        + after_rows(m, code, opts) + seq![Row::Separator]
}

/// Collects the lines of context before a match, the closest first.
fn context_before<'a>(m: &LintMatch, code: &'a [u8], opts: &Opts) -> (found: Vec<&'a [u8]>)
    ensures
        found@.len() == before_count(*m, code@, *opts),
        forall|j: int|
            0 <= j < found@.len() ==> (#[trigger] found@[j])@ == line_bytes(
                code@,
                lines_before(code@, m.range.bytes.start as int)[j],
            ),
{
    let ghost behind = lines_before(code@, m.range.bytes.start as int);
    let wanted: usize = if (opts.extra_lines.0 as usize) < m.range.start_point.row {
        opts.extra_lines.0 as usize
    } else {
        m.range.start_point.row
    };
    let mut back = Lines::new(code, m.range.bytes.start);
    let mut found: Vec<&'a [u8]> = Vec::new();
    let mut more = true;
    while more && found.len() < wanted
        invariant
            found@.len() <= wanted,
            found@.len() <= behind.len(),
            back.buffer() == code@,
            back.behind() =~= behind.skip(found@.len() as int),
            !more ==> found@.len() == behind.len(),
            forall|j: int|
                0 <= j < found@.len() ==> (#[trigger] found@[j])@ == line_bytes(code@, behind[j]),
        decreases wanted - found@.len() + (if more { 1int } else { 0int }),
    {
        match back.next_back() {
            Some(line) => {
                found.push(line);
            },
            None => {
                more = false;
            },
        }
    }
    found
}

/// Adds the rows of the context before a match to a plan.
fn plan_before<'a>(plan: &mut Vec<PlannedRow<'a>>, m: &LintMatch, code: &'a [u8], opts: &Opts)
    ensures
        views(final(plan)@) == views(old(plan)@) + before_rows(*m, code@, *opts),
{
    let found = context_before(m, code, opts);
    let start_row = m.range.start_point.row;
    let indent: usize = if start_row == m.range.end_point.row {
        0
    } else {
        3
    };
    let ghost base = views(plan@);
    let ghost section = before_rows(*m, code@, *opts);
    let mut j: usize = found.len();
    assert(section.take(0) =~= Seq::<Row>::empty());
    while j > 0
        invariant
            j <= found@.len(),
            found@.len() == before_count(*m, code@, *opts),
            section == before_rows(*m, code@, *opts),
            start_row == m.range.start_point.row,
            indent == code_indent(*m),
            forall|k: int|
                0 <= k < found@.len() ==> (#[trigger] found@[k])@ == line_bytes(
                    code@,
                    lines_before(code@, m.range.bytes.start as int)[k],
                ),
            views(plan@) =~= base + section.take(found@.len() - j),
        decreases j,
    {
        j -= 1;
        let ghost i = found@.len() - 1 - j;
        let row = PlannedRow::Code {
            label: (start_row - 1 - j) as u128,
            lead: Lead::Indent(indent),
            line: found[j],
        };
        assert(row@ == section[i]);
        let ghost planned = views(plan@);
        plan.push(row);
        assert(views(plan@) =~= planned.push(section[i]));
        assert(base + section.take(i + 1) =~= (base + section.take(i)).push(section[i]));
    }
    assert(section.take(found@.len() as int) =~= section);
}

/// Adds the rows of the lines of a match to a plan, as far as the cursor
/// finds them.
fn plan_match<'a>(plan: &mut Vec<PlannedRow<'a>>, lines: &mut Lines<'a>, m: &LintMatch)
    requires
        old(lines).ahead() == lines_from(old(lines).buffer(), m.range.bytes.start as int),
    ensures
        views(final(plan)@) == views(old(plan)@) + match_rows(*m, old(lines).buffer()),
        final(lines).buffer() == old(lines).buffer(),
        final(lines).ahead() == old(lines).ahead().skip(
            match_count(*m, old(lines).buffer()) as int,
        ),
{
    let ghost code = lines.buffer();
    let ghost ahead = lines.ahead();
    let ghost base = views(plan@);
    let ghost section = match_rows(*m, code);
    let start_row = m.range.start_point.row;
    let end_row = m.range.end_point.row;
    let wanted: u128 = if start_row <= end_row {
        (end_row - start_row) as u128 + 1
    } else {
        0
    };
    let mut taken: u128 = 0;
    let mut more = true;
    assert(section.take(0) =~= Seq::<Row>::empty());
    assert(ahead.skip(0) =~= ahead);
    while more && taken < wanted
        invariant
            taken <= ahead.len(),
            taken <= wanted,
            wanted == rows_spanned(*m),
            start_row == m.range.start_point.row,
            end_row == m.range.end_point.row,
            ahead == lines_from(code, m.range.bytes.start as int),
            section == match_rows(*m, code),
            lines.buffer() == code,
            lines.ahead() =~= ahead.skip(taken as int),
            !more ==> taken == ahead.len(),
            views(plan@) =~= base + section.take(taken as int),
        decreases wanted - taken + (if more { 1int } else { 0int }),
    {
        match lines.next() {
            Some(line) => {
                let lead = if start_row == end_row {
                    Lead::Indent(0)
                } else if taken == 0 {
                    Lead::Open
                } else {
                    Lead::Continue
                };
                let row = PlannedRow::Code {
                    label: start_row as u128 + taken,
                    lead,
                    line,
                };
                assert(line@ == line_bytes(code, ahead[taken as int]));
                assert(row@ == section[taken as int]);
                let ghost planned = views(plan@);
                plan.push(row);
                assert(views(plan@) =~= planned.push(section[taken as int]));
                assert(base + section.take(taken + 1) =~= (base + section.take(taken as int)).push(
                    section[taken as int],
                ));
                taken += 1;
                assert(lines.ahead() =~= ahead.skip(taken as int));
            },
            None => {
                more = false;
            },
        }
    }
    assert(section.take(taken as int) =~= section);
}

/// Adds the rows of the context after a match to a plan.
fn plan_after<'a>(
    plan: &mut Vec<PlannedRow<'a>>,
    lines: &mut Lines<'a>,
    m: &LintMatch,
    opts: &Opts,
)
    requires
        old(lines).ahead() == lines_from(old(lines).buffer(), m.range.bytes.start as int).skip(
            match_count(*m, old(lines).buffer()) as int,
        ),
    ensures
        views(final(plan)@) == views(old(plan)@) + after_rows(*m, old(lines).buffer(), *opts),
{
    let ghost code = lines.buffer();
    let ghost rest = lines.ahead();
    let ghost base = views(plan@);
    let ghost section = after_rows(*m, code, *opts);
    let end_row = m.range.end_point.row;
    let indent: usize = if m.range.start_point.row == end_row {
        0
    } else {
        3
    };
    let mut count: u8 = 0;
    let mut more = true;
    assert(section.take(0) =~= Seq::<Row>::empty());
    assert(rest.skip(0) =~= rest);
    while more && count < opts.extra_lines.1
        invariant
            count <= opts.extra_lines.1,
            count <= rest.len(),
            end_row == m.range.end_point.row,
            indent == code_indent(*m),
            rest == lines_from(code, m.range.bytes.start as int).skip(
                match_count(*m, code) as int,
            ),
            section == after_rows(*m, code, *opts),
            lines.buffer() == code,
            lines.ahead() =~= rest.skip(count as int),
            !more ==> count == rest.len(),
            views(plan@) =~= base + section.take(count as int),
        decreases opts.extra_lines.1 - count + (if more { 1int } else { 0int }),
    {
        match lines.next() {
            Some(line) => {
                let row = PlannedRow::Code {
                    label: end_row as u128 + 1 + count as u128,
                    lead: Lead::Indent(indent),
                    line,
                };
                assert(line@ == line_bytes(code, rest[count as int]));
                assert(row@ == section[count as int]);
                let ghost planned = views(plan@);
                plan.push(row);
                assert(views(plan@) =~= planned.push(section[count as int]));
                assert(base + section.take(count + 1) =~= (base + section.take(count as int)).push(
                    section[count as int],
                ));
                count += 1;
                assert(lines.ahead() =~= rest.skip(count as int));
            },
            None => {
                more = false;
            },
        }
    }
    assert(section.take(count as int) =~= section);
}

/// Plans the code block of the report of a match: which lines of `code` are
/// shown, in which order and under which numbers, and how the match is
/// marked.
pub fn plan_rows<'a>(m: &LintMatch, code: &'a [u8], opts: &Opts) -> (plan: Vec<PlannedRow<'a>>)
    ensures
        views(plan@) == rows(*m, code@, *opts),
{
    let mut plan: Vec<PlannedRow<'a>> = Vec::new();
    plan.push(PlannedRow::Separator);
    assert(views(plan@) =~= seq![Row::Separator]);
    plan_before(&mut plan, m, code, opts);
    let mut lines = Lines::new(code, m.range.bytes.start);
    plan_match(&mut plan, &mut lines, m);
    let ghost planned = views(plan@);
    if m.range.start_point.row == m.range.end_point.row {
        let start_col = m.range.start_point.col;
        let end_col = m.range.end_point.col;
        let count = if end_col > start_col {
            end_col - start_col
        } else {
            1
        };
        plan.push(PlannedRow::Carets { indent: start_col, count });
    } else {
        plan.push(PlannedRow::Closing { fill: m.range.end_point.col });
    }
    assert(views(plan@) =~= planned + seq![mark_row(*m)]);
    plan_after(&mut plan, &mut lines, m, opts);
    let ghost planned = views(plan@);
    plan.push(PlannedRow::Separator);
    assert(views(plan@) =~= planned + seq![Row::Separator]);
    plan
}

} // verus!
