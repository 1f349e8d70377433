use compare::pairing::{classify, LinePair, LineRead, Outcome};
use compare::report::{
    compare_and_display, open_error_message, render_header, render_row, render_rule, FileSide,
};
use compare::style::{paint, Hue, Styling};
use compare::text::{decimal_string, pad_right, repeat_str};

fn reads(lines: &[&str]) -> Vec<LineRead> {
    lines.iter().map(|l| Ok(l.to_string())).collect()
}

fn row(n: usize, left: &str, right: &str) -> String {
    format!("{:<10} {:<40} {:<40}", n, left, right)
}

fn outcomes(a: &[&str], b: &[&str]) -> Vec<Outcome> {
    let a = reads(a);
    let b = reads(b);
    let n = a.len().max(b.len());
    (0..n)
        .map(|i| {
            let p = match (a.get(i), b.get(i)) {
                (Some(x), Some(y)) => LinePair::Both(x.clone(), y.clone()),
                (Some(x), None) => LinePair::Left(x.clone()),
                (None, Some(y)) => LinePair::Right(y.clone()),
                (None, None) => unreachable!(),
            };
            classify(&p)
        })
        .collect()
}

fn is_match(o: &Outcome, t: &str) -> bool {
    matches!(o, Outcome::Match(x) if x == t)
}

#[test]
fn scenario_one_middle_line_differs() {
    let out = compare_and_display(reads(&["a", "b", "c"]), reads(&["a", "x", "c"]), Styling::Plain);
    assert_eq!(out.len(), 5);
    assert_eq!(out[2], row(1, "a", "a"));
    assert_eq!(out[3], row(2, "b", "x"));
    assert_eq!(out[4], row(3, "c", "c"));
    let o = outcomes(&["a", "b", "c"], &["a", "x", "c"]);
    assert!(is_match(&o[0], "a"));
    assert!(matches!(&o[1], Outcome::Mismatch(x, y) if x == "b" && y == "x"));
    assert!(is_match(&o[2], "c"));
}

#[test]
fn scenario_one_highlighted() {
    colored::control::set_override(true);
    let out = compare_and_display(reads(&["a", "b", "c"]), reads(&["a", "x", "c"]), Styling::Terminal);
    assert_eq!(out[2], row(1, "a", "a"));
    let expected = format!(
        "{:<10} \x1b[32m{:<40}\x1b[0m \x1b[31m{:<40}\x1b[0m",
        2, "b", "x"
    );
    assert_eq!(out[3], expected);
    assert_eq!(out[4], row(3, "c", "c"));
}

#[test]
fn scenario_two_left_longer() {
    let out = compare_and_display(reads(&["a", "b"]), reads(&["a"]), Styling::Plain);
    assert_eq!(out.len(), 4);
    assert_eq!(out[2], row(1, "a", "a"));
    assert_eq!(out[3], row(2, "b", ""));
    let o = outcomes(&["a", "b"], &["a"]);
    assert!(is_match(&o[0], "a"));
    assert!(matches!(&o[1], Outcome::OnlyLeft(x) if x == "b"));
}

#[test]
fn scenario_three_left_empty() {
    let out = compare_and_display(reads(&[]), reads(&["x"]), Styling::Plain);
    assert_eq!(out.len(), 3);
    assert_eq!(out[2], row(1, "", "x"));
    let o = outcomes(&[], &["x"]);
    assert_eq!(o.len(), 1);
    assert!(matches!(&o[0], Outcome::OnlyRight(x) if x == "x"));
}

#[test]
fn scenario_four_open_failure_message() {
    let m = open_error_message(FileSide::First, "missing.txt", "No such file or directory (os error 2)");
    assert_eq!(m, "Error opening file1 'missing.txt': No such file or directory (os error 2)");
    assert!(m.contains("Error opening file1"));
    assert!(m.contains("missing.txt"));
    let m2 = open_error_message(FileSide::Second, "b.txt", "denied");
    assert_eq!(m2, "Error opening file2 'b.txt': denied");
}

#[test]
fn identical_texts_are_all_neutral_matches() {
    colored::control::set_override(true);
    let lines = ["one", "two", "", "three"];
    let out = compare_and_display(reads(&lines), reads(&lines), Styling::Terminal);
    assert_eq!(out.len(), 6);
    for (i, l) in lines.iter().enumerate() {
        assert_eq!(out[i + 2], row(i + 1, l, l));
        assert!(!out[i + 2].contains('\x1b'));
    }
    assert!(outcomes(&lines, &lines).iter().zip(lines.iter()).all(|(o, l)| is_match(o, l)));
}

#[test]
fn trailing_left_lines_are_only_left() {
    let a = ["p", "q", "r", "s"];
    let b = ["p"];
    let o = outcomes(&a, &b);
    assert_eq!(o.len(), 4);
    for i in 1..4 {
        assert!(matches!(&o[i], Outcome::OnlyLeft(x) if x == a[i]));
    }
}

#[test]
fn trailing_right_lines_are_only_right() {
    let a = ["p"];
    let b = ["p", "q", "r"];
    let o = outcomes(&a, &b);
    assert_eq!(o.len(), 3);
    for i in 1..3 {
        assert!(matches!(&o[i], Outcome::OnlyRight(x) if x == b[i]));
    }
    let out = compare_and_display(reads(&a), reads(&b), Styling::Plain);
    assert_eq!(out[3], row(2, "", "q"));
    assert_eq!(out[4], row(3, "", "r"));
}

#[test]
fn one_character_difference_is_a_mismatch() {
    let o = outcomes(&["hello", "Hello", "x "], &["hellp", "hello", "x"]);
    assert!(o.iter().all(|o| matches!(o, Outcome::Mismatch(_, _))));
}

#[test]
fn comparing_twice_gives_identical_output() {
    let a = ["a", "b", "c", "d"];
    let b = ["a", "c"];
    let first = compare_and_display(reads(&a), reads(&b), Styling::Plain);
    let second = compare_and_display(reads(&a), reads(&b), Styling::Plain);
    assert_eq!(first, second);
}

#[test]
fn row_count_is_the_longer_length() {
    for (a, b) in [(0usize, 0usize), (0, 3), (3, 0), (2, 5), (5, 2), (4, 4)] {
        let la: Vec<String> = (0..a).map(|i| format!("l{}", i)).collect();
        let lb: Vec<String> = (0..b).map(|i| format!("r{}", i)).collect();
        let ra: Vec<&str> = la.iter().map(|s| s.as_str()).collect();
        let rb: Vec<&str> = lb.iter().map(|s| s.as_str()).collect();
        let out = compare_and_display(reads(&ra), reads(&rb), Styling::Plain);
        assert_eq!(out.len() - 2, a.max(b));
    }
}

#[test]
fn empty_texts_give_header_only() {
    let out = compare_and_display(Vec::new(), Vec::new(), Styling::Plain);
    assert_eq!(out.len(), 2);
    assert_eq!(out[0], format!("{:<10} {:<40} {:<40}", "Line", "File 1", "File 2"));
    assert_eq!(out[1], "-".repeat(90));
}

#[test]
fn header_is_bold_on_a_terminal() {
    colored::control::set_override(true);
    let h = render_header(Styling::Terminal);
    let expected = format!(
        "\x1b[1m{:<10}\x1b[0m \x1b[1m{:<40}\x1b[0m \x1b[1m{:<40}\x1b[0m",
        "Line", "File 1", "File 2"
    );
    assert_eq!(h, expected);
    assert_eq!(render_rule().len(), 90);
}

#[test]
fn left_read_failure_is_a_diagnostic() {
    let p = LinePair::Left(Err("stream did not contain valid UTF-8".to_string()));
    let o = classify(&p);
    assert!(matches!(&o, Outcome::LeftReadError(_)));
    assert_eq!(
        render_row(7, &o, Styling::Plain),
        "fail reading File 1 at line 7: stream did not contain valid UTF-8"
    );
}

#[test]
fn right_read_failure_is_a_diagnostic() {
    let p = LinePair::Both(Ok("a".to_string()), Err("bad".to_string()));
    let o = classify(&p);
    assert!(matches!(&o, Outcome::RightReadError(e) if e == "bad"));
    assert_eq!(render_row(12, &o, Styling::Terminal), "fail reading File 2 at line 12: bad");
}

#[test]
fn left_failure_beside_a_right_line_is_reported_for_the_left() {
    let p = LinePair::Both(Err("bad".to_string()), Ok("a".to_string()));
    let o = classify(&p);
    assert!(matches!(&o, Outcome::LeftReadError(e) if e == "bad"));
}

#[test]
fn failures_on_both_sides_are_unclassified() {
    let p = LinePair::Both(Err("x".to_string()), Err("y".to_string()));
    let o = classify(&p);
    assert!(matches!(o, Outcome::Unclassified));
    assert_eq!(render_row(3, &o, Styling::Plain), "Unknown error at line 3");
}

#[test]
fn failed_reads_in_a_whole_comparison() {
    let a: Vec<LineRead> = vec![Ok("a".to_string()), Err("oops".to_string())];
    let b: Vec<LineRead> = vec![Ok("a".to_string()), Ok("b".to_string()), Err("late".to_string())];
    let out = compare_and_display(a, b, Styling::Plain);
    assert_eq!(out.len(), 5);
    assert_eq!(out[3], "fail reading File 1 at line 2: oops");
    assert_eq!(out[4], "fail reading File 2 at line 3: late");
}

#[test]
fn empty_line_differs_from_missing_line() {
    let o = outcomes(&["a", ""], &["a"]);
    assert!(matches!(&o[1], Outcome::OnlyLeft(x) if x.is_empty()));
    let o = outcomes(&["a", ""], &["a", ""]);
    assert!(is_match(&o[1], ""));
}

#[test]
fn wide_text_is_not_truncated() {
    let long = "z".repeat(55);
    let out = compare_and_display(reads(&[&long]), reads(&["short"]), Styling::Plain);
    assert_eq!(out[2], row(1, &long, "short"));
    assert_eq!(pad_right(&long, 40), long);
    assert_eq!(pad_right("ab", 5), "ab   ");
    assert_eq!(pad_right("äö", 4), "äö  ");
}

#[test]
fn decimal_numerals() {
    assert_eq!(decimal_string(0), "0");
    assert_eq!(decimal_string(9), "9");
    assert_eq!(decimal_string(10), "10");
    assert_eq!(decimal_string(1234567), "1234567");
    assert_eq!(decimal_string(usize::MAX), usize::MAX.to_string());
    assert_eq!(repeat_str("-", 3), "---");
    assert_eq!(repeat_str("-", 0), "");
}

#[test]
fn paint_uses_colour_only_on_a_terminal() {
    colored::control::set_override(true);
    assert_eq!(paint("ab", Hue::Added, Styling::Terminal), "\x1b[32mab\x1b[0m");
    assert_eq!(paint("ab", Hue::Removed, Styling::Terminal), "\x1b[31mab\x1b[0m");
    assert_eq!(paint("ab", Hue::Strong, Styling::Terminal), "\x1b[1mab\x1b[0m");
    assert_eq!(paint("ab", Hue::Neutral, Styling::Terminal), "ab");
    assert_eq!(paint("ab", Hue::Added, Styling::Plain), "ab");
}

#[test]
fn terminal_without_colour_support_stays_plain() {
    colored::control::set_override(false);
    let out = compare_and_display(reads(&["a", "b"]), reads(&["a", "c"]), Styling::Terminal);
    assert_eq!(out[3], row(2, "b", "c"));
}
