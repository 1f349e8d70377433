//! Rendering of the comparison report: a header, a separator, then one row
//! per position, in order.

use vstd::prelude::*;
use crate::pairing::{LinePair, LineRead, Outcome, outcome_of, pair_at, pair_count, classify, zip_longest_lines};
use crate::style::{Hue, Styling, styled, paint};
use crate::text::{decimal, decimal_string, pad, pad_right, repeat_str, repeated};

verus! {

/// Width of the line number column.
pub const NUMBER_WIDTH: usize = 10;

/// Width of each text column.
pub const TEXT_WIDTH: usize = 40;

/// Length of the separator under the header.
pub const RULE_LENGTH: usize = 90;

/// A three-column row: the line number left-justified, then the two rendered
/// cells, each preceded by one space.
pub open spec fn row_line(n: nat, left: Seq<char>, right: Seq<char>) -> Seq<char> {
    pad(decimal(n), NUMBER_WIDTH as nat) + seq![' '] + left + seq![' '] + right
}

/// An empty text column.
pub open spec fn blank_cell() -> Seq<char> {
    repeated(' ', TEXT_WIDTH as nat)
}

/// The diagnostic that replaces the row of a line that could not be read.
pub open spec fn read_failure_line(side: Seq<char>, n: nat, e: Seq<char>) -> Seq<char> {
    "fail reading File "@ + side + " at line "@ + decimal(n) + ": "@ + e
}

/// The diagnostic of a line that could be read on neither side.
pub open spec fn unknown_failure_line(n: nat) -> Seq<char> {
    "Unknown error at line "@ + decimal(n)
}

/// `r` is a rendering under `s` of the row of line `n` (counted from 1)
/// with outcome `o`. Equal lines and diagnostics are never highlighted.
pub open spec fn rendered(r: Seq<char>, n: nat, o: Outcome, s: Styling) -> bool {
    match o {
        Outcome::Match(t) => r == row_line(n, pad(t@, TEXT_WIDTH as nat), pad(t@, TEXT_WIDTH as nat)),
        Outcome::Mismatch(a, b) => exists|l: Seq<char>, m: Seq<char>|
            styled(l, pad(a@, TEXT_WIDTH as nat), Hue::Added, s)
            && styled(m, pad(b@, TEXT_WIDTH as nat), Hue::Removed, s)
            && r == #[trigger] row_line(n, l, m),
        Outcome::OnlyLeft(a) => exists|l: Seq<char>|
            styled(l, pad(a@, TEXT_WIDTH as nat), Hue::Added, s)
            && r == #[trigger] row_line(n, l, blank_cell()),
        Outcome::OnlyRight(b) => exists|m: Seq<char>|
            styled(m, pad(b@, TEXT_WIDTH as nat), Hue::Removed, s)
            && r == #[trigger] row_line(n, blank_cell(), m),
        Outcome::LeftReadError(e) => r == read_failure_line("1"@, n, e@),
        Outcome::RightReadError(e) => r == read_failure_line("2"@, n, e@),
        Outcome::Unclassified => r == unknown_failure_line(n),
    }
}

/// The row of line `n` with outcome `o`, without highlighting.
pub open spec fn plain_row(n: nat, o: Outcome) -> Seq<char> {
    match o {
        Outcome::Match(t) => row_line(n, pad(t@, TEXT_WIDTH as nat), pad(t@, TEXT_WIDTH as nat)),
        Outcome::Mismatch(a, b) => row_line(n, pad(a@, TEXT_WIDTH as nat), pad(b@, TEXT_WIDTH as nat)),
        Outcome::OnlyLeft(a) => row_line(n, pad(a@, TEXT_WIDTH as nat), blank_cell()),
        Outcome::OnlyRight(b) => row_line(n, blank_cell(), pad(b@, TEXT_WIDTH as nat)),
        Outcome::LeftReadError(e) => read_failure_line("1"@, n, e@),
        Outcome::RightReadError(e) => read_failure_line("2"@, n, e@),
        Outcome::Unclassified => unknown_failure_line(n),
    }
}

/// Joins a line number and two rendered cells into a row.
fn format_row(n: usize, left: &str, right: &str) -> (r: String)
    ensures
        r@ == row_line(n as nat, left@, right@),
{
    proof {
        reveal_strlit(" ");
    }
    let mut r = pad_right(decimal_string(n).as_str(), NUMBER_WIDTH);
    r.append(" ");
    r.append(left);
    r.append(" ");
    r.append(right);
    r
}

/// The diagnostic for an unreadable line `n` of File `side`.
fn format_read_failure(side: &str, n: usize, e: &str) -> (r: String)
    ensures
        r@ == read_failure_line(side@, n as nat, e@),
{
    let mut r = String::from_str("fail reading File ");
    r.append(side);
    r.append(" at line ");
    r.append(decimal_string(n).as_str());
    r.append(": ");
    r.append(e);
    r
}

/// Renders the row of line `n` (counted from 1) with outcome `o`.
pub fn render_row(n: usize, o: &Outcome, styling: Styling) -> (r: String)
    ensures
        rendered(r@, n as nat, *o, styling),
        styling == Styling::Plain ==> r@ == plain_row(n as nat, *o),
{
    match o {
        Outcome::Match(t) => {
            let cell = pad_right(t.as_str(), TEXT_WIDTH);
            format_row(n, cell.as_str(), cell.as_str())
        },
        Outcome::Mismatch(a, b) => {
            let l = paint(pad_right(a.as_str(), TEXT_WIDTH).as_str(), Hue::Added, styling);
            let m = paint(pad_right(b.as_str(), TEXT_WIDTH).as_str(), Hue::Removed, styling);
            format_row(n, l.as_str(), m.as_str())
        },
        Outcome::OnlyLeft(a) => {
            let l = paint(pad_right(a.as_str(), TEXT_WIDTH).as_str(), Hue::Added, styling);
            let blank = pad_right("", TEXT_WIDTH);
            proof {
                reveal_strlit("");
                assert(blank@ =~= blank_cell());
            }
            format_row(n, l.as_str(), blank.as_str())
        },
        Outcome::OnlyRight(b) => {
            let m = paint(pad_right(b.as_str(), TEXT_WIDTH).as_str(), Hue::Removed, styling);
            let blank = pad_right("", TEXT_WIDTH);
            proof {
                reveal_strlit("");
                assert(blank@ =~= blank_cell());
            }
            format_row(n, blank.as_str(), m.as_str())
        },
        Outcome::LeftReadError(e) => format_read_failure("1", n, e.as_str()),
        Outcome::RightReadError(e) => format_read_failure("2", n, e.as_str()),
        Outcome::Unclassified => {
            let mut r = String::from_str("Unknown error at line ");
            r.append(decimal_string(n).as_str());
            r
        },
    }
}

/// The header cells joined into a line.
pub open spec fn header_line(number: Seq<char>, left: Seq<char>, right: Seq<char>) -> Seq<char> {
    number + seq![' '] + left + seq![' '] + right
}

/// `r` is a rendering under `s` of the header: the column titles "Line",
/// "File 1" and "File 2", left-justified in their columns and emphasised.
pub open spec fn header_rendered(r: Seq<char>, s: Styling) -> bool {
    exists|c: Seq<char>, l: Seq<char>, m: Seq<char>|
        styled(c, pad("Line"@, NUMBER_WIDTH as nat), Hue::Strong, s)
        && styled(l, pad("File 1"@, TEXT_WIDTH as nat), Hue::Strong, s)
        && styled(m, pad("File 2"@, TEXT_WIDTH as nat), Hue::Strong, s)
        && r == #[trigger] header_line(c, l, m)
}

/// The header without highlighting.
pub open spec fn plain_header() -> Seq<char> {
    header_line(
        pad("Line"@, NUMBER_WIDTH as nat),
        pad("File 1"@, TEXT_WIDTH as nat),
        pad("File 2"@, TEXT_WIDTH as nat),
    )
}

/// The separator under the header.
pub open spec fn rule() -> Seq<char> {
    repeated('-', RULE_LENGTH as nat)
}

/// The row of position `i` (counted from 0) of `a` and `b`, without
/// highlighting.
pub open spec fn plain_report_row(a: Seq<LineRead>, b: Seq<LineRead>, i: int) -> Seq<char> {
    plain_row((i + 1) as nat, outcome_of(pair_at(a, b, i)))
}

/// The whole report of `a` against `b` without highlighting, line by line:
/// header, separator, then one row per position.
pub open spec fn plain_report(a: Seq<LineRead>, b: Seq<LineRead>) -> Seq<Seq<char>> {
    seq![plain_header(), rule()] + Seq::new(pair_count(a, b), |i: int| plain_report_row(a, b, i))
}

/// Renders the header.
pub fn render_header(styling: Styling) -> (r: String)
    ensures
        header_rendered(r@, styling),
        styling == Styling::Plain ==> r@ == plain_header(),
{
    proof {
        reveal_strlit(" ");
    }
    let mut r = paint(pad_right("Line", NUMBER_WIDTH).as_str(), Hue::Strong, styling);
    let ghost c = r@;
    let l = paint(pad_right("File 1", TEXT_WIDTH).as_str(), Hue::Strong, styling);
    let m = paint(pad_right("File 2", TEXT_WIDTH).as_str(), Hue::Strong, styling);
    r.append(" ");
    r.append(l.as_str());
    r.append(" ");
    r.append(m.as_str());
    assert(r@ == header_line(c, l@, m@));
    r
}

/// Renders the separator under the header.
pub fn render_rule() -> (r: String)
    ensures
        r@ == rule(),
{
    proof {
        reveal_strlit("-");
    }
    repeat_str("-", RULE_LENGTH)
}

/// Compares `lines1` (File 1) with `lines2` (File 2) by position and renders
/// the report, one string per output line: the header, the separator, then
/// the row of each position up to the longer length, in order.
pub fn compare_and_display(lines1: Vec<LineRead>, lines2: Vec<LineRead>, styling: Styling) -> (r: Vec<String>)
    ensures
        r@.len() == pair_count(lines1@, lines2@) + 2,
        header_rendered(r@[0]@, styling),
        r@[1]@ == rule(),
        forall|i: int| 0 <= i < pair_count(lines1@, lines2@) ==>
            rendered(#[trigger] r@[i + 2]@, (i + 1) as nat, outcome_of(pair_at(lines1@, lines2@, i)), styling),
        styling == Styling::Plain ==> r@.map_values(|s: String| s@) == plain_report(lines1@, lines2@),
{
    let ghost a = lines1@;
    let ghost b = lines2@;
    let pairs = zip_longest_lines(lines1, lines2);
    let mut out: Vec<String> = Vec::new();
    out.push(render_header(styling));
    out.push(render_rule());
    let mut i: usize = 0;
    while i < pairs.len()
        invariant
            i <= pairs@.len(),
            pairs@.len() == pair_count(a, b),
            forall|j: int| 0 <= j < pairs@.len() ==> #[trigger] pairs@[j] == pair_at(a, b, j),
            out@.len() == i + 2,
            header_rendered(out@[0]@, styling),
            styling == Styling::Plain ==> out@[0]@ == plain_header(),
            out@[1]@ == rule(),
            forall|j: int| 0 <= j < i ==>
                rendered(#[trigger] out@[j + 2]@, (j + 1) as nat, outcome_of(pair_at(a, b, j)), styling),
            forall|j: int| 0 <= j < i ==> styling == Styling::Plain ==>
                #[trigger] out@[j + 2]@ == plain_report_row(a, b, j),
        decreases pairs@.len() - i,
    {
        let o = classify(&pairs[i]);
        let row = render_row(i + 1, &o, styling);
        out.push(row);
        i = i + 1;
    }
    proof {
        if styling == Styling::Plain {
            let v = out@.map_values(|s: String| s@);
            let w = plain_report(a, b);
            assert(v.len() == w.len());
            assert forall|k: int| 0 <= k < v.len() implies v[k] == w[k] by {
                if k >= 2 {
                    assert(out@[(k - 2) + 2]@ == plain_report_row(a, b, k - 2));
                }
            }
            assert(v =~= w);
        }
    }
    out
}

/// The message of a file that could not be opened: which of the two files
/// (1 or 2), its path, and the cause.
pub open spec fn open_failure_line(which: Seq<char>, path: Seq<char>, cause: Seq<char>) -> Seq<char> {
    "Error opening file"@ + which + " '"@ + path + "': "@ + cause
}

/// Which of the two compared files.
#[derive(Clone, Copy, Debug, PartialEq, Eq, Structural)]
pub enum FileSide {
    /// The first file, shown on the left.
    First,
    /// The second file, shown on the right.
    Second,
}

/// The numeral that names a side in messages.
pub open spec fn side_numeral(side: FileSide) -> Seq<char> {
    match side {
        FileSide::First => seq!['1'],
        FileSide::Second => seq!['2'],
    }
}

/// The message for `side`'s file at `path` failing to open with `cause`.
pub fn open_error_message(side: FileSide, path: &str, cause: &str) -> (r: String)
    ensures
        r@ == open_failure_line(side_numeral(side), path@, cause@),
{
    proof {
        reveal_strlit("1");
        reveal_strlit("2");
    }
    let which = match side {
        FileSide::First => "1",
        FileSide::Second => "2",
    };
    let mut r = String::from_str("Error opening file");
    r.append(which);
    r.append(" '");
    r.append(path);
    r.append("': ");
    r.append(cause);
    r
}

} // verus!
