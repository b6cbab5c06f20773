//! The layout of reports: what is shown, under which numbers, and how the
//! match is marked.

use lint_report::highlight::create_highlighter;
use lint_report::highlight::Highlighter;
use lint_report::plan::plan_rows;
use lint_report::plan::Lead;
use lint_report::plan::PlannedRow;
use lint_report::report;
use lint_report::report::report_backend;
use lint_report::report::report_with;
use lint_report::report_opts;
use lint_report::style::Backend;
use lint_report::LintMatch;
use lint_report::Opts;
use lint_report::Point;
use lint_report::Range;

/// Joins lines into a text in which every line ends with a newline.
fn text(lines: &[&str]) -> String {
    let mut joined = String::new();
    for line in lines {
        joined.push_str(line);
        joined.push('\n');
    }
    joined
}

fn found(bytes: std::ops::Range<usize>, start: (usize, usize), end: (usize, usize)) -> LintMatch {
    LintMatch {
        lint_name: "x".to_string(),
        message: "y".to_string(),
        range: Range {
            bytes,
            start_point: Point { row: start.0, col: start.1 },
            end_point: Point { row: end.0, col: end.1 },
        },
    }
}

fn context(before: u8, after: u8) -> Opts {
    Opts {
        extra_lines: (before, after),
        ..Default::default()
    }
}

fn rendered(m: &LintMatch, code: &str, opts: &Opts) -> String {
    let mut r = String::new();
    let () = report_opts(m, code.as_bytes(), "t", opts, &mut r).unwrap();
    r
}

#[test]
fn single_line_no_context_no_color() {
    let m = found(4..8, (0, 4), (0, 8));
    let mut r = String::new();
    let () = report(&m, b"int main() {}\n", "t", &mut r).unwrap();
    let expected = text(&[
        "warning: [x] y",
        "  --> t:0:4",
        "  | ",
        "0 | int main() {}",
        "  |     ^^^^",
        "  | ",
    ]);
    assert_eq!(r, expected);
}

#[test]
fn report_is_appended_to_what_the_sink_holds() {
    let m = found(4..8, (0, 4), (0, 8));
    let mut r = String::from("before\n");
    let () = report(&m, b"int main() {}\n", "t", &mut r).unwrap();
    assert!(r.starts_with("before\nwarning: [x] y\n"));
    assert!(r.ends_with("  |     ^^^^\n  | \n"));
}

#[test]
fn empty_range_shows_no_code_whatever_is_asked_for() {
    let code = text(&["int main() {}", "int other() {}"]);
    let expected = text(&["warning: [x] y", "  --> t:1:2"]);
    for m in [found(3..3, (1, 2), (1, 2)), found(9..3, (1, 2), (4, 0))] {
        for opts in [context(0, 0), context(2, 2), context(255, 255)] {
            assert_eq!(rendered(&m, &code, &opts), expected);
        }
        let mut r = String::new();
        let () = report_with(
            &m,
            code.as_bytes(),
            "t",
            &context(1, 1),
            Backend::Terminal,
            &Highlighter::NoOp,
            &mut r,
        )
        .unwrap();
        assert_eq!(r, expected);
    }
}

#[test]
fn empty_range_with_color_shows_no_code() {
    let m = found(0..0, (0, 0), (0, 0));
    let opts = Opts {
        color: true,
        ..Default::default()
    };
    let mut r = String::new();
    let () = report_opts(&m, b"int main() {}\n", "t", &opts, &mut r).unwrap();
    assert_eq!(
        r,
        "\x1b[1m\x1b[31mwarning\x1b[0m\x1b[1m: [x] y\x1b[0m\n  \x1b[1m\x1b[34m-->\x1b[0m t:0:0\n"
    );
}

#[test]
fn carets_cover_the_columns_of_the_match() {
    let code = "0123456789\n";
    for (start, end, underline) in [
        (0, 1, "  | ^"),
        (0, 10, "  | ^^^^^^^^^^"),
        (3, 5, "  |    ^^"),
        (9, 10, "  |          ^"),
    ] {
        let m = found(start..end, (0, start), (0, end));
        let expected = text(&[
            "warning: [x] y",
            &format!("  --> t:0:{start}"),
            "  | ",
            "0 | 0123456789",
            underline,
            "  | ",
        ]);
        assert_eq!(rendered(&m, code, &context(0, 0)), expected);
    }
}

#[test]
fn a_match_without_columns_gets_one_caret() {
    let code = "0123456789\n";
    let expected = text(&[
        "warning: [x] y",
        "  --> t:0:4",
        "  | ",
        "0 | 0123456789",
        "  |     ^",
        "  | ",
    ]);
    let same = found(4..5, (0, 4), (0, 4));
    assert_eq!(rendered(&same, code, &context(0, 0)), expected);
    let backwards = found(4..5, (0, 4), (0, 2));
    assert_eq!(rendered(&backwards, code, &context(0, 0)), expected);
}

#[test]
fn gutter_is_as_wide_as_the_last_number_asked_for() {
    let code = text(&["a", "b", "c", "d", "e", "f", "g", "h", "i", "j"]);
    let m = found(18..19, (9, 0), (9, 1));
    let expected = text(&[
        "warning: [x] y",
        "  --> t:9:0",
        "   | ",
        " 8 | i",
        " 9 | j",
        "   | ^",
        "   | ",
    ]);
    assert_eq!(rendered(&m, &code, &context(1, 1)), expected);
    let narrow = text(&[
        "warning: [x] y",
        "  --> t:9:0",
        "  | ",
        "8 | i",
        "9 | j",
        "  | ^",
        "  | ",
    ]);
    assert_eq!(rendered(&m, &code, &context(1, 0)), narrow);
}

#[test]
fn gutter_width_is_the_same_in_every_row() {
    let code = text(&[
        "a", "b", "c", "d", "e", "f", "g", "h", "i", "j", "k", "l", "m",
    ]);
    let m = found(16..21, (8, 0), (10, 1));
    let r = rendered(&m, &code, &context(3, 2));
    let expected = text(&[
        "warning: [x] y",
        "  --> t:8:0",
        "   | ",
        " 5 |    f",
        " 6 |    g",
        " 7 |    h",
        " 8 |  / i",
        " 9 |  | j",
        "10 |  | k",
        "   |  |_^",
        "11 |    l",
        "12 |    m",
        "   | ",
    ]);
    assert_eq!(r, expected);
    for row in r.lines().skip(2) {
        assert_eq!(row.find(" |"), Some(2));
    }
}

#[test]
fn context_before_is_clamped_to_the_lines_that_exist() {
    let code = text(&["a", "b", "c", "d"]);
    let m = found(4..5, (2, 0), (2, 1));
    let all = text(&[
        "warning: [x] y",
        "  --> t:2:0",
        "  | ",
        "0 | a",
        "1 | b",
        "2 | c",
        "  | ^",
        "  | ",
    ]);
    assert_eq!(rendered(&m, &code, &context(2, 0)), all);
    assert_eq!(rendered(&m, &code, &context(3, 0)), all);
    assert_eq!(rendered(&m, &code, &context(255, 0)), all);
    let one = text(&[
        "warning: [x] y",
        "  --> t:2:0",
        "  | ",
        "1 | b",
        "2 | c",
        "  | ^",
        "  | ",
    ]);
    assert_eq!(rendered(&m, &code, &context(1, 0)), one);
}

#[test]
fn context_before_is_clamped_to_the_row_of_the_match() {
    let code = text(&["a", "b", "c", "d"]);
    let m = found(4..5, (1, 0), (1, 1));
    let expected = text(&[
        "warning: [x] y",
        "  --> t:1:0",
        "  | ",
        "0 | b",
        "1 | c",
        "  | ^",
        "  | ",
    ]);
    assert_eq!(rendered(&m, &code, &context(5, 0)), expected);
}

#[test]
fn context_after_is_clamped_to_the_lines_that_exist() {
    let code = "a\nb\nc";
    let m = found(0..1, (0, 0), (0, 1));
    let expected = text(&[
        "warning: [x] y",
        "  --> t:0:0",
        "    | ",
        "  0 | a",
        "    | ^",
        "  1 | b",
        "  2 | c",
        "    | ",
    ]);
    assert_eq!(rendered(&m, code, &context(0, 255)), expected);
    assert_eq!(rendered(&m, code, &context(0, 100)), expected);
    let two = text(&[
        "warning: [x] y",
        "  --> t:0:0",
        "  | ",
        "0 | a",
        "  | ^",
        "1 | b",
        "2 | c",
        "  | ",
    ]);
    assert_eq!(rendered(&m, code, &context(0, 2)), two);
    assert_eq!(rendered(&m, code, &context(0, 9)), two);
}

#[test]
fn plan_tells_rows_apart() {
    let code = text(&["a", "b", "c", "d", "e"]);
    let m = found(2..5, (1, 0), (2, 1));
    let plan = plan_rows(&m, code.as_bytes(), &context(4, 1));
    assert_eq!(plan.len(), 7);
    assert!(matches!(plan[0], PlannedRow::Separator));
    assert!(matches!(
        plan[1],
        PlannedRow::Code { label: 0, lead: Lead::Indent(3), line: b"a" }
    ));
    assert!(matches!(
        plan[2],
        PlannedRow::Code { label: 1, lead: Lead::Open, line: b"b" }
    ));
    assert!(matches!(
        plan[3],
        PlannedRow::Code { label: 2, lead: Lead::Continue, line: b"c" }
    ));
    assert!(matches!(plan[4], PlannedRow::Closing { fill: 1 }));
    assert!(matches!(
        plan[5],
        PlannedRow::Code { label: 3, lead: Lead::Indent(3), line: b"d" }
    ));
    assert!(matches!(plan[6], PlannedRow::Separator));
}

#[test]
fn plan_of_a_match_on_one_line() {
    let code = text(&["a", "bcd", "e"]);
    let m = found(3..5, (1, 1), (1, 3));
    let plan = plan_rows(&m, code.as_bytes(), &context(0, 0));
    assert_eq!(plan.len(), 4);
    assert!(matches!(plan[0], PlannedRow::Separator));
    assert!(matches!(
        plan[1],
        PlannedRow::Code { label: 1, lead: Lead::Indent(0), line: b"bcd" }
    ));
    assert!(matches!(plan[2], PlannedRow::Carets { indent: 1, count: 2 }));
    assert!(matches!(plan[3], PlannedRow::Separator));
}

#[test]
fn rows_past_the_end_of_the_buffer_are_left_out() {
    let code = text(&["a", "b"]);
    let m = found(2..4, (1, 0), (5, 3));
    let expected = text(&[
        "warning: [x] y",
        "  --> t:1:0",
        "  | ",
        "1 |  / b",
        "  |  |___^",
        "  | ",
    ]);
    assert_eq!(rendered(&m, &code, &context(0, 3)), expected);
}

#[test]
fn a_match_past_the_end_of_the_buffer_is_marked_without_code() {
    let m = found(10..12, (3, 1), (3, 3));
    let expected = text(&[
        "warning: [x] y",
        "  --> t:3:1",
        "  | ",
        "  |  ^^",
        "  | ",
    ]);
    assert_eq!(rendered(&m, "", &context(0, 0)), expected);
    let after_newline = text(&[
        "warning: [x] y",
        "  --> t:3:1",
        "  | ",
        "2 | a",
        "  |  ^^",
        "  | ",
    ]);
    assert_eq!(rendered(&m, "a\n", &context(1, 1)), after_newline);
}

#[test]
fn points_that_run_backwards_show_no_line_of_the_match() {
    let code = text(&["a", "b", "c"]);
    let m = found(2..3, (2, 0), (1, 1));
    let expected = text(&[
        "warning: [x] y",
        "  --> t:2:0",
        "  | ",
        "  |  |_^",
        "2 |    b",
        "  | ",
    ]);
    assert_eq!(rendered(&m, &code, &context(0, 1)), expected);
}

#[test]
fn largest_rows_do_not_overflow() {
    let m = found(0..1, (usize::MAX, 0), (usize::MAX, 1));
    let r = rendered(&m, "a\nb\n", &context(1, 1));
    let last = usize::MAX as u128 + 1;
    let shown = usize::MAX;
    let width = last.to_string().len();
    let blank = " ".repeat(width);
    let expected = text(&[
        "warning: [x] y",
        &format!("  --> t:{shown}:0"),
        &format!("{blank} | "),
        &format!("{shown:>width$} | a"),
        &format!("{blank} | ^"),
        &format!("{last:>width$} | b"),
        &format!("{blank} | "),
    ]);
    assert_eq!(r, expected);
}

#[test]
fn invalid_bytes_in_code_are_replaced() {
    let m = found(0..1, (0, 0), (0, 1));
    let mut r = String::new();
    let () = report(&m, b"a\xffb\n", "t", &mut r).unwrap();
    let expected = text(&[
        "warning: [x] y",
        "  --> t:0:0",
        "  | ",
        "0 | a\u{fffd}b",
        "  | ^",
        "  | ",
    ]);
    assert_eq!(r, expected);
}

#[test]
fn same_inputs_give_the_same_report() {
    let code = text(&[
        "SEC(\"kprobe/test\")",
        "int handle__test(void)",
        "{",
        "    return 0;",
        "}",
    ]);
    let m = found(19..44, (1, 0), (2, 1));
    for color in [false, true] {
        for backend in [Backend::Terminal, Backend::Markup] {
            let opts = Opts {
                extra_lines: (1, 2),
                color,
                ..Default::default()
            };
            let mut first = String::new();
            let mut second = String::new();
            let () = report_backend(&m, code.as_bytes(), "t", &opts, backend, &mut first).unwrap();
            let () = report_backend(&m, code.as_bytes(), "t", &opts, backend, &mut second).unwrap();
            assert_eq!(first, second);
            assert!(first.starts_with(if backend == Backend::Markup {
                "<span class=\"warn\">warning</span>"
            } else if color {
                "\x1b[1m\x1b[31mwarning\x1b[0m"
            } else {
                "warning: "
            }));
        }
    }
}

#[test]
fn report_with_a_given_highlighter() {
    let code = text(&["SEC(\"kprobe/test\")"]);
    let m = found(4..17, (0, 4), (0, 17));
    let highlighter = create_highlighter(true, Backend::Terminal).unwrap();
    let mut r = String::new();
    let () = report_with(
        &m,
        code.as_bytes(),
        "t",
        &Opts::default(),
        Backend::Terminal,
        &highlighter,
        &mut r,
    )
    .unwrap();
    let teal = lint_report::style::COLOR_TEAL;
    let pink = lint_report::style::COLOR_PINK;
    let reset = lint_report::style::COLOR_RESET;
    let expected = text(&[
        "warning: [x] y",
        "  --> t:0:4",
        "  | ",
        &format!("0 | {teal}SEC{reset}({pink}\"kprobe/test\"{reset})"),
        "  |     ^^^^^^^^^^^^^",
        "  | ",
    ]);
    assert_eq!(r, expected);
}

#[test]
fn markup_report_wraps_its_frame_and_escapes_its_texts() {
    let m = LintMatch {
        lint_name: "a<b".to_string(),
        message: "c & d".to_string(),
        range: Range {
            bytes: 4..8,
            start_point: Point { row: 0, col: 4 },
            end_point: Point { row: 0, col: 8 },
        },
    };
    let mut r = String::new();
    let () = report_backend(
        &m,
        b"int main() {}\n",
        "<stdin>",
        &Opts::default(),
        Backend::Markup,
        &mut r,
    )
    .unwrap();
    let bold = "<span class=\"bold\">";
    let warn = "<span class=\"warn\">";
    let accent = "<span class=\"highlight\">";
    let end = "</span>";
    let expected = text(&[
        &format!("{warn}warning{end}{bold}: [a&lt;b] c &amp; d{end}"),
        &format!("  {accent}-->{end} &lt;stdin&gt;:0:4"),
        &format!("{accent}  |{end} "),
        &format!("{accent}0 |{end} int main() {{}}"),
        &format!("{accent}  |{end}     {warn}^^^^{end}"),
        &format!("{accent}  |{end} "),
    ]);
    assert_eq!(r, expected);
}

#[test]
fn markup_report_of_several_lines_with_color() {
    let code = text(&["SEC(\"kprobe/test\")", "int x;"]);
    let m = found(0..25, (0, 0), (1, 6));
    let opts = Opts {
        color: true,
        ..Default::default()
    };
    let mut r = String::new();
    let () = report_backend(&m, code.as_bytes(), "t", &opts, Backend::Markup, &mut r).unwrap();
    let warn = "<span class=\"warn\">";
    let accent = "<span class=\"highlight\">";
    let end = "</span>";
    let rows: Vec<&str> = r.lines().collect();
    assert_eq!(rows.len(), 7);
    assert_eq!(rows[2], format!("{accent}  |{end} "));
    assert_eq!(
        rows[3],
        format!(
            "{accent}0 |{end}  {warn}/{end} <span class=\"variable\">SEC{end}(<span class=\"operator\">\"kprobe/test\"{end})"
        )
    );
    assert!(rows[4].starts_with(&format!("{accent}1 |{end}  {warn}|{end} ")));
    assert!(rows[4].contains("int"));
    assert_eq!(rows[5], format!("{accent}  |{end}  {warn}|______^{end}"));
    assert_eq!(rows[6], format!("{accent}  |{end} "));
}
