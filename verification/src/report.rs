//! The report of one match: a header, the location, and the code of the
//! match with some lines of context around it, every line behind a gutter
//! that holds its number, and the match marked underneath.

use vstd::prelude::*;

use crate::escape::{escape_html, escaped};
use crate::finding::LintMatch;
use crate::highlight::{create_highlighter, HighlightError, Highlighter, Styling};
use crate::plan::{gutter_width, plan_rows, rows, span_is_empty, views, Lead, PlannedRow, Row};
use crate::style::{format_tokens, get_format_strings, Backend, Tokens};
use crate::text::{
    count_digits, decimal, push_decimal, push_right_aligned, push_run, push_spaces, repeated,
    right_aligned,
};

verus! {

/// How a report is laid out. There are no options but these.
#[derive(Debug)]
pub struct Opts {
    /// The numbers of lines of context to show before and after a match.
    pub extra_lines: (u8, u8),
    /// Whether to color the report.
    pub color: bool,
    /// Keeps room for options to come.
    pub _non_exhaustive: (),
}

impl Clone for Opts {
    fn clone(&self) -> (copy: Self)
        ensures
            copy == *self,
    {
        Opts {
            extra_lines: (self.extra_lines.0, self.extra_lines.1),
            color: self.color,
            _non_exhaustive: (),
        }
    }
}

impl Opts {
    /// The layout of a report without context and without color.
    pub open spec fn plain() -> Opts {
        Opts { extra_lines: (0u8, 0u8), color: false, _non_exhaustive: () }
    }
}

impl Default for Opts {
    fn default() -> (opts: Self)
        ensures
            opts == Opts::plain(),
    {
        Opts { extra_lines: (0, 0), color: false, _non_exhaustive: () }
    }
}

/// The strings that decorate the frame of a report.
pub struct Chrome<'a> {
    /// Starts bold text.
    pub bold: &'a str,
    /// Starts a warning.
    pub warn: &'a str,
    /// Starts accented text.
    pub highlight: &'a str,
    /// Ends what one of the other three started.
    pub reset: &'a str,
}

impl<'a> View for Chrome<'a> {
    type V = Tokens;

    open spec fn view(&self) -> Tokens {
        Tokens {
            bold: self.bold@,
            warn: self.warn@,
            highlight: self.highlight@,
            reset: self.reset@,
        }
    }
}

/// The line number of a row, where it has one.
pub open spec fn row_label(row: Row) -> Option<nat> {
    match row {
        Row::Code { label, .. } => Some(label),
        _ => None,
    }
}

/// What the column of line numbers holds: a number, aligned to the right,
/// or spaces.
pub open spec fn label_column(label: Option<nat>, width: nat) -> Seq<char> {
    match label {
        Some(number) => right_aligned(number, width),
        None => repeated(' ', width),
    }
}

/// The gutter of a row: the column of line numbers and a bar.
pub open spec fn gutter(t: Tokens, width: nat, label: Option<nat>) -> Seq<char> {
    t.highlight + label_column(label, width) + " |"@ + t.reset + " "@
}

/// The text of what stands between the gutter and the code of a line.
pub open spec fn lead_text(t: Tokens, lead: Lead) -> Seq<char> {
    match lead {
        Lead::Indent(count) => repeated(' ', count as nat),
        Lead::Open => " "@ + t.warn + "/"@ + t.reset + " "@,
        Lead::Continue => " "@ + t.warn + "|"@ + t.reset + " "@,
    }
}

/// Why a row cannot be written, where it cannot: the error that the
/// highlighting of its line ends in. A row without code can always be
/// written.
pub open spec fn row_failure(h: Styling, row: Row) -> Option<HighlightError> {
    match row {
        Row::Code { line, .. } => match h.styled(line) {
            Ok(_) => None,
            Err(error) => Some(error),
        },
        _ => None,
    }
}

/// Whether a row can be written.
pub open spec fn row_ok(h: Styling, row: Row) -> bool {
    row_failure(h, row) is None
}

/// What follows the gutter in a row.
pub open spec fn row_body(t: Tokens, h: Styling, row: Row) -> Seq<char> {
    match row {
        Row::Separator => Seq::empty(),
        Row::Code { lead, line, .. } => lead_text(t, lead) + h.styled(line)->Ok_0,
        Row::Carets { indent, count } => repeated(' ', indent) + t.warn + repeated('^', count)
            + t.reset,
        Row::Closing { fill } => " "@ + t.warn + "|"@ + repeated('_', fill) + "^"@ + t.reset,
    }
}

/// The text of a row, with the newline that ends it.
pub open spec fn row_text(t: Tokens, width: nat, h: Styling, row: Row) -> Seq<char> {
    gutter(t, width, row_label(row)) + row_body(t, h, row) + "\n"@
}

/// The text of some rows, one after the other.
pub open spec fn rows_text(t: Tokens, width: nat, h: Styling, rows: Seq<Row>) -> Seq<char>
    decreases rows.len(),
{
    if rows.len() == 0 {
        Seq::empty()
    } else {
        rows_text(t, width, h, rows.drop_last()) + row_text(t, width, h, rows.last())
    }
}

/// The number of rows that are written: those before the first row that
/// cannot be.
pub open spec fn shown(h: Styling, rows: Seq<Row>) -> nat
    decreases rows.len(),
{
    if rows.len() == 0 {
        0
    } else {
        let before = shown(h, rows.drop_last());
        if before + 1 == rows.len() && row_ok(h, rows.last()) {
            before + 1
        } else {
            before
        }
    }
}

/// The first line of a report: the word `warning`, the name of the lint in
/// brackets and its message.
pub open spec fn header_text(t: Tokens, name: Seq<char>, message: Seq<char>) -> Seq<char> {
    t.warn + "warning"@ + t.reset + t.bold + ": ["@ + name + "] "@ + message + t.reset + "\n"@
}

/// The second line of a report: an arrow, the path, and the row and column
/// at which the match starts.
pub open spec fn location_text(t: Tokens, path: Seq<char>, row: nat, column: nat) -> Seq<char> {
    "  "@ + t.highlight + "-->"@ + t.reset + " "@ + path + ":"@ + decimal(row) + ":"@ + decimal(
        column,
    ) + "\n"@
}

/// The two lines that every report starts with.
pub open spec fn head_text(m: LintMatch, path: Seq<char>, opts: Opts, backend: Backend) -> Seq<
    char,
> {
    let t = format_tokens(opts.color, backend);
    header_text(t, escaped(m.lint_name@, backend), escaped(m.message@, backend)) + location_text(
        t,
        escaped(path, backend),
        m.range.start_point.row as nat,
        m.range.start_point.col as nat,
    )
}

/// The code block of a report, as far as it is written: all of its rows
/// before the first whose code the highlighter fails on.
pub open spec fn block_text(
    m: LintMatch,
    code: Seq<u8>,
    opts: Opts,
    backend: Backend,
    h: Styling,
) -> Seq<char> {
    let all = rows(m, code, opts);
    rows_text(
        format_tokens(opts.color, backend),
        gutter_width(m, opts),
        h,
        all.take(shown(h, all) as int),
    )
}

/// The text of a report, as far as it is written.
pub open spec fn report_text(
    m: LintMatch,
    code: Seq<u8>,
    path: Seq<char>,
    opts: Opts,
    backend: Backend,
    h: Styling,
) -> Seq<char> {
    if span_is_empty(m) {
        head_text(m, path, opts, backend)
    } else {
        head_text(m, path, opts, backend) + block_text(m, code, opts, backend, h)
    }
}

/// Whether a report is written to its end.
pub open spec fn report_complete(m: LintMatch, code: Seq<u8>, opts: Opts, h: Styling) -> bool {
    span_is_empty(m) || shown(h, rows(m, code, opts)) == rows(m, code, opts).len()
}

/// How the writing of some rows ends: well where all of them are written,
/// else with the error of the first row that cannot be.
pub open spec fn rows_result(h: Styling, rows: Seq<Row>) -> Result<(), HighlightError> {
    if shown(h, rows) >= rows.len() {
        Ok(())
    } else {
        Err(row_failure(h, rows[shown(h, rows) as int])->Some_0)
    }
}

/// How the writing of a report ends: well where it is written to its end,
/// else with the error that highlighting ends in on the first line on which
/// it fails.
pub open spec fn report_result(m: LintMatch, code: Seq<u8>, opts: Opts, h: Styling) -> Result<
    (),
    HighlightError,
> {
    if span_is_empty(m) {
        Ok(())
    } else {
        rows_result(h, rows(m, code, opts))
    }
}

/// Appends the gutter of a row to `out`: the number `label` where there is
/// one, spaces where there is none.
fn push_gutter(out: &mut String, chrome: &Chrome, width: usize, label: Option<u128>)
    ensures
        final(out)@ == old(out)@ + gutter(
            chrome@,
            width as nat,
            match label {
                Some(number) => Some(number as nat),
                None => None,
            },
        ),
{
    let ghost number: Option<nat> = match label {
        Some(number) => Some(number as nat),
        None => None,
    };
    out.append(chrome.highlight);
    match label {
        Some(number) => push_right_aligned(out, number, width),
        None => push_spaces(out, width),
    }
    out.append(" |");
    out.append(chrome.reset);
    out.append(" ");
    assert(out@ =~= old(out)@ + gutter(chrome@, width as nat, number));
}

/// Appends what stands between the gutter and the code of a line to `out`.
fn push_lead(out: &mut String, chrome: &Chrome, lead: Lead)
    ensures
        final(out)@ == old(out)@ + lead_text(chrome@, lead),
{
    match lead {
        Lead::Indent(count) => push_spaces(out, count),
        Lead::Open => {
            out.append(" ");
            out.append(chrome.warn);
            out.append("/");
            out.append(chrome.reset);
            out.append(" ");
        },
        Lead::Continue => {
            out.append(" ");
            out.append(chrome.warn);
            out.append("|");
            out.append(chrome.reset);
            out.append(" ");
        },
    }
    assert(out@ =~= old(out)@ + lead_text(chrome@, lead));
}

/// Appends one row to `out`. Where the code of the row cannot be
/// highlighted, nothing is appended.
pub fn render_row(
    out: &mut String,
    chrome: &Chrome,
    width: usize,
    highlighter: &Highlighter,
    row: &PlannedRow,
) -> (done: Result<(), HighlightError>)
    ensures
        match done {
            Ok(_) => row_ok(highlighter@, row@) && final(out)@ == old(out)@ + row_text(
                chrome@,
                width as nat,
                highlighter@,
                row@,
            ),
            Err(error) => row_failure(highlighter@, row@) == Some(error) && final(out)@ == old(
                out,
            )@,
        },
{
    proof {
        reveal_strlit("^");
        reveal_strlit("_");
    }
    match *row {
        PlannedRow::Separator => {
            push_gutter(out, chrome, width, None);
        },
        PlannedRow::Code { label, lead, line } => {
            let styled = match highlighter.highlight(line) {
                Ok(styled) => styled,
                Err(error) => {
                    return Err(error);
                },
            };
            push_gutter(out, chrome, width, Some(label));
            push_lead(out, chrome, lead);
            out.append(styled.as_str());
        },
        PlannedRow::Carets { indent, count } => {
            push_gutter(out, chrome, width, None);
            push_spaces(out, indent);
            out.append(chrome.warn);
            push_run(out, "^", count);
            out.append(chrome.reset);
        },
        PlannedRow::Closing { fill } => {
            push_gutter(out, chrome, width, None);
            out.append(" ");
            out.append(chrome.warn);
            out.append("|");
            push_run(out, "_", fill);
            out.append("^");
            out.append(chrome.reset);
        },
    }
    out.append("\n");
    assert(out@ =~= old(out)@ + row_text(chrome@, width as nat, highlighter@, row@));
    Ok(())
}

/// The rows before the first that cannot be written are all that is written,
/// however many rows follow.
proof fn lemma_shown_stops(h: Styling, rows: Seq<Row>, k: int)
    requires
        0 <= k < rows.len(),
        shown(h, rows.take(k)) == k,
        !row_ok(h, rows[k]),
    ensures
        shown(h, rows) == k,
    decreases rows.len() - k,
{
    lemma_shown_at_most(h, rows.drop_last());
    if k + 1 == rows.len() {
        assert(rows.drop_last() =~= rows.take(k));
    } else {
        assert(rows.drop_last().take(k) =~= rows.take(k));
        lemma_shown_stops(h, rows.drop_last(), k);
    }
}

/// No more rows are written than there are.
proof fn lemma_shown_at_most(h: Styling, rows: Seq<Row>)
    ensures
        shown(h, rows) <= rows.len(),
    decreases rows.len(),
{
    if rows.len() > 0 {
        lemma_shown_at_most(h, rows.drop_last());
    }
}

/// Appends the rows of a plan to `out`, up to the first whose code cannot be
/// highlighted.
pub fn render_rows(
    out: &mut String,
    chrome: &Chrome,
    width: usize,
    highlighter: &Highlighter,
    plan: &Vec<PlannedRow>,
) -> (done: Result<(), HighlightError>)
    ensures
        final(out)@ == old(out)@ + rows_text(
            chrome@,
            width as nat,
            highlighter@,
            views(plan@).take(shown(highlighter@, views(plan@)) as int),
        ),
        done == rows_result(highlighter@, views(plan@)),
{
    let ghost all = views(plan@);
    let mut k: usize = 0;
    assert(all.take(0) =~= Seq::<Row>::empty());
    while k < plan.len()
        invariant
            k <= plan@.len(),
            all == views(plan@),
            shown(highlighter@, all.take(k as int)) == k,
            out@ == old(out)@ + rows_text(chrome@, width as nat, highlighter@, all.take(k as int)),
        decreases plan@.len() - k,
    {
        assert(all.take(k + 1).drop_last() =~= all.take(k as int));
        assert(all.take(k + 1).last() == plan@[k as int]@);
        match render_row(out, chrome, width, highlighter, &plan[k]) {
            Ok(_) => {},
            Err(error) => {
                proof {
                    lemma_shown_stops(highlighter@, all, k as int);
                }
                return Err(error);
            },
        }
        assert(out@ =~= old(out)@ + rows_text(
            chrome@,
            width as nat,
            highlighter@,
            all.take(k + 1),
        ));
        k += 1;
    }
    assert(all.take(k as int) =~= all);
    Ok(())
}

/// Appends the two lines that every report starts with to `out`.
fn push_head(out: &mut String, chrome: &Chrome, m: &LintMatch, path: &str, backend: Backend)
    ensures
        final(out)@ == old(out)@ + header_text(
            chrome@,
            escaped(m.lint_name@, backend),
            escaped(m.message@, backend),
        ) + location_text(
            chrome@,
            escaped(path@, backend),
            m.range.start_point.row as nat,
            m.range.start_point.col as nat,
        ),
{
    let name = escape_html(m.lint_name.as_str(), backend);
    let message = escape_html(m.message.as_str(), backend);
    let place = escape_html(path, backend);
    out.append(chrome.warn);
    out.append("warning");
    out.append(chrome.reset);
    out.append(chrome.bold);
    out.append(": [");
    out.append(name.as_str());
    out.append("] ");
    out.append(message.as_str());
    out.append(chrome.reset);
    out.append("\n");
    let ghost header = out@;
    assert(header =~= old(out)@ + header_text(chrome@, name@, message@));
    out.append("  ");
    out.append(chrome.highlight);
    out.append("-->");
    out.append(chrome.reset);
    out.append(" ");
    out.append(place.as_str());
    out.append(":");
    push_decimal(out, m.range.start_point.row as u128);
    out.append(":");
    push_decimal(out, m.range.start_point.col as u128);
    out.append("\n");
    assert(out@ =~= header + location_text(
        chrome@,
        place@,
        m.range.start_point.row as nat,
        m.range.start_point.col as nat,
    ));
}

/// A highlighter that styles nothing can write every row.
pub proof fn lemma_plain_rows_shown(rows: Seq<Row>)
    ensures
        shown(Styling::Plain, rows) == rows.len(),
    decreases rows.len(),
{
    if rows.len() > 0 {
        lemma_plain_rows_shown(rows.drop_last());
    }
}

/// What the writing of a report does with a given styling: it takes the sink
/// from `before` to `after`, and ends as `done` says.
pub open spec fn reported(
    h: Styling,
    m: LintMatch,
    code: Seq<u8>,
    path: Seq<char>,
    opts: Opts,
    backend: Backend,
    before: Seq<char>,
    after: Seq<char>,
    done: Result<(), HighlightError>,
) -> bool {
    &&& after == before + report_text(m, code, path, opts, backend, h)
    &&& done == report_result(m, code, opts, h)
}

/// What the writing of a report does in a backend: where the highlighter
/// that the color flag asks for cannot be set up, nothing is written and the
/// error of the engine is returned; else the report is written with the
/// styling of that highlighter.
pub open spec fn reported_in(
    m: LintMatch,
    code: Seq<u8>,
    path: Seq<char>,
    opts: Opts,
    backend: Backend,
    before: Seq<char>,
    after: Seq<char>,
    done: Result<(), HighlightError>,
) -> bool {
    match Styling::created(opts.color, backend) {
        Ok(h) => reported(h, m, code, path, opts, backend, before, after, done),
        Err(refusal) => after == before && done == Err::<(), HighlightError>(
            HighlightError::Config(refusal),
        ),
    }
}

/// Writes the report of a match to the end of `out`, with the code of each
/// line as `highlighter` styles it.
///
/// The report is written line by line. Where the highlighter fails on a
/// line, the lines before it stay in `out` and its error is returned.
pub fn report_with(
    m: &LintMatch,
    code: &[u8],
    path: &str,
    opts: &Opts,
    backend: Backend,
    highlighter: &Highlighter,
    out: &mut String,
) -> (done: Result<(), HighlightError>)
    ensures
        final(out)@ == old(out)@ + report_text(*m, code@, path@, *opts, backend, highlighter@),
        done == report_result(*m, code@, *opts, highlighter@),
        done is Ok <==> report_complete(*m, code@, *opts, highlighter@),
        done matches Err(error) ==> error is Engine || error is Span,
        highlighter is NoOp ==> done is Ok,
        span_is_empty(*m) ==> final(out)@ == old(out)@ + head_text(*m, path@, *opts, backend),
{
    let strings = get_format_strings(opts.color, backend);
    let chrome = Chrome {
        bold: strings.0,
        warn: strings.1.as_str(),
        highlight: strings.2.as_str(),
        reset: strings.3,
    };
    assert(chrome@ == format_tokens(opts.color, backend));
    push_head(out, &chrome, m, path, backend);
    if m.range.bytes.start >= m.range.bytes.end {
        return Ok(());
    }
    let width = count_digits(m.range.end_point.row as u128 + opts.extra_lines.1 as u128);
    let plan = plan_rows(m, code, opts);
    proof {
        let all = rows(*m, code@, *opts);
        if highlighter is NoOp {
            lemma_plain_rows_shown(all);
        }
        lemma_shown_fails(highlighter@, all);
    }
    let done = render_rows(out, &chrome, width, highlighter, &plan);
    assert(out@ =~= old(out)@ + report_text(*m, code@, path@, *opts, backend, highlighter@));
    done
}

/// Where not all rows are written, the first that is not written is one
/// that cannot be: its line fails with the error of the engine or over a
/// span.
proof fn lemma_shown_fails(h: Styling, rows: Seq<Row>)
    ensures
        shown(h, rows) <= rows.len(),
        shown(h, rows) < rows.len() ==> (row_failure(h, rows[shown(h, rows) as int]) matches Some(
            error,
        ) && (error is Engine || error is Span)),
    decreases rows.len(),
{
    if rows.len() > 0 {
        lemma_shown_fails(h, rows.drop_last());
    }
}

/// Writes the report of a match to the end of `out`, in the encoding of
/// `backend`.
///
/// Without color the report is always written to its end. With color the
/// code is highlighted: nothing is written where the highlighter cannot be
/// set up, and the report ends before the first line on which it fails.
pub fn report_backend(
    m: &LintMatch,
    code: &[u8],
    path: &str,
    opts: &Opts,
    backend: Backend,
    out: &mut String,
) -> (done: Result<(), HighlightError>)
    ensures
        reported_in(*m, code@, path@, *opts, backend, old(out)@, final(out)@, done),
        !opts.color ==> done is Ok && final(out)@ == old(out)@ + report_text(
            *m,
            code@,
            path@,
            *opts,
            backend,
            Styling::Plain,
        ),
{
    let highlighter = match create_highlighter(opts.color, backend) {
        Ok(highlighter) => highlighter,
        Err(error) => {
            return Err(error);
        },
    };
    report_with(m, code, path, opts, backend, &highlighter, out)
}

/// Writes the report of a match to the end of `out`, for a terminal, with
/// extra lines of context and color as `opts` asks for them.
///
/// - `m` is the match to report
/// - `code` is the source code that the match was found in
/// - `path` is how the report names the file of the code
pub fn report_opts(m: &LintMatch, code: &[u8], path: &str, opts: &Opts, out: &mut String) -> (done:
    Result<(), HighlightError>)
    ensures
        reported_in(*m, code@, path@, *opts, Backend::Terminal, old(out)@, final(out)@, done),
        !opts.color ==> done is Ok && final(out)@ == old(out)@ + report_text(
            *m,
            code@,
            path@,
            *opts,
            Backend::Terminal,
            Styling::Plain,
        ),
{
    report_backend(m, code, path, opts, Backend::Terminal, out)
}

/// Writes the report of a match to the end of `out`, for a terminal,
/// without context and without color.
pub fn report(m: &LintMatch, code: &[u8], path: &str, out: &mut String) -> (done: Result<
    (),
    HighlightError,
>)
    ensures
        done is Ok,
        final(out)@ == old(out)@ + report_text(
            *m,
            code@,
            path@,
            Opts::plain(),
            Backend::Terminal,
            Styling::Plain,
        ),
{
    let opts = Opts::default();
    report_opts(m, code, path, &opts, out)
}

} // verus!
