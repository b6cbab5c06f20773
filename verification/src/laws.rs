//! What holds of every report, proved from the definitions of its plan and
//! its text.

use vstd::prelude::*;

use crate::finding::LintMatch;
use crate::highlight::{HighlightError, Styling};
use crate::plan::{
    after_count, after_rows, before_count, before_rows, gutter_width, lines_preceding, mark_row,
    match_count, match_rows, rows, span_is_empty, Row,
};
use crate::report::{
    gutter, head_text, label_column, lemma_plain_rows_shown, report_complete, report_text,
    reported_in, row_label, row_text, Opts,
};
use crate::style::{Backend, Tokens};
use crate::text::{
    decimal_width, lemma_decimal_width_monotonic, lemma_right_aligned_width, repeated,
};

verus! {

/// The code block is made of a separator, the context before the match, the
/// lines of the match, its mark, the context after it and a separator, in
/// that order.
pub proof fn lemma_rows_layout(m: LintMatch, code: Seq<u8>, opts: Opts, i: int)
    requires
        0 <= i < rows(m, code, opts).len(),
    ensures
        ({
            let before = before_count(m, code, opts) as int;
            let matched = match_count(m, code) as int;
            let after = after_count(m, code, opts) as int;
            let row = rows(m, code, opts)[i];
            &&& rows(m, code, opts).len() == before + matched + after + 3
            &&& i == 0 ==> row == Row::Separator
            &&& 1 <= i <= before ==> row == before_rows(m, code, opts)[i - 1]
            &&& before < i <= before + matched ==> row == match_rows(m, code)[i - 1 - before]
            &&& i == before + matched + 1 ==> row == mark_row(m)
            &&& before + matched + 1 < i <= before + matched + 1 + after ==> row == after_rows(
                m,
                code,
                opts,
            )[i - before - matched - 2]
            &&& i == before + matched + after + 2 ==> row == Row::Separator
        }),
{
}

/// A match without bytes is reported by its two head lines and nothing
/// else, whatever the code, the context asked for and the highlighter.
pub proof fn law_empty_span_only_head(
    m: LintMatch,
    code: Seq<u8>,
    path: Seq<char>,
    opts: Opts,
    backend: Backend,
    h: Styling,
)
    requires
        span_is_empty(m),
    ensures
        report_text(m, code, path, opts, backend, h) == head_text(m, path, opts, backend),
        report_complete(m, code, opts, h),
{
}

/// A match on one line is marked, right under its line, by a row of carets:
/// one caret for each column from its start to its end, a single caret
/// where the two are the same, after as many spaces past the gutter as the
/// column at which it starts.
pub proof fn law_single_line_underline(
    m: LintMatch,
    code: Seq<u8>,
    opts: Opts,
    t: Tokens,
    h: Styling,
)
    requires
        m.range.start_point.row == m.range.end_point.row,
    ensures
        ({
            let all = rows(m, code, opts);
            let at = (1 + before_count(m, code, opts) + match_count(m, code)) as int;
            let count = if m.range.end_point.col > m.range.start_point.col {
                (m.range.end_point.col - m.range.start_point.col) as nat
            } else {
                1nat
            };
            &&& at < all.len()
            &&& all[at] == Row::Carets { indent: m.range.start_point.col as nat, count }
            &&& row_text(t, gutter_width(m, opts), h, all[at]) == gutter(
                t,
                gutter_width(m, opts),
                None,
            ) + (repeated(' ', m.range.start_point.col as nat) + t.warn + repeated('^', count)
                + t.reset) + "\n"@
        }),
{
    let at = 1 + before_count(m, code, opts) + match_count(m, code);
    lemma_rows_layout(m, code, opts, at as int);
}

/// The column of line numbers has the same width in every row of a report:
/// the number of digits of the last row of the match plus the context asked
/// for after it.
pub proof fn law_gutter_width(m: LintMatch, code: Seq<u8>, opts: Opts, i: int)
    requires
        m.range.start_point.row <= m.range.end_point.row,
        0 <= i < rows(m, code, opts).len(),
    ensures
        gutter_width(m, opts) == decimal_width(
            (m.range.end_point.row + opts.extra_lines.1) as nat,
        ),
        label_column(row_label(rows(m, code, opts)[i]), gutter_width(m, opts)).len()
            == gutter_width(m, opts),
{
    lemma_rows_layout(m, code, opts, i);
    let last = (m.range.end_point.row + opts.extra_lines.1) as nat;
    match rows(m, code, opts)[i] {
        Row::Code { label, .. } => {
            assert(label <= last);
            lemma_decimal_width_monotonic(label, last);
            lemma_right_aligned_width(label, gutter_width(m, opts));
        },
        _ => {},
    }
}

/// Asking for more context before a match than there are lines before it is
/// no error: the lines that there are get shown, all of them and no more.
pub proof fn law_context_before_clamped(m: LintMatch, code: Seq<u8>, opts: Opts)
    ensures
        before_rows(m, code, opts).len() == before_count(m, code, opts),
        before_count(m, code, opts) <= opts.extra_lines.0,
        before_count(m, code, opts) <= lines_preceding(m, code),
        opts.extra_lines.0 >= lines_preceding(m, code) ==> before_count(m, code, opts)
            == lines_preceding(m, code),
        report_complete(m, code, opts, Styling::Plain),
{
    lemma_plain_rows_shown(rows(m, code, opts));
}

/// Reporting the same match twice on the same inputs writes the same text
/// and ends the same way, with or without color and in either backend: what
/// is written and how it ends is a function of the match, the code, the
/// path, the options and the backend alone.
pub proof fn law_same_inputs_same_report(
    m: LintMatch,
    code: Seq<u8>,
    path: Seq<char>,
    opts: Opts,
    backend: Backend,
    sink: Seq<char>,
    first: Seq<char>,
    first_done: Result<(), HighlightError>,
    second: Seq<char>,
    second_done: Result<(), HighlightError>,
)
    requires
        reported_in(m, code, path, opts, backend, sink, first, first_done),
        reported_in(m, code, path, opts, backend, sink, second, second_done),
    ensures
        first == second,
        first_done == second_done,
{
}

} // verus!
