//! Positional pairing of two line sequences and the classification of each
//! pair.

use itertools::EitherOrBoth;
use itertools::Itertools;
use vstd::prelude::*;

verus! {

/// The result of reading one line: its text, or the message of the error
/// that reading it raised.
pub type LineRead = Result<String, String>;

/// What stands at one position of the two sequences. A missing line is
/// absence, never an empty text.
pub enum LinePair {
    /// Both sequences still have a line here.
    Both(LineRead, LineRead),
    /// Only the left sequence has a line here.
    Left(LineRead),
    /// Only the right sequence has a line here.
    Right(LineRead),
}

/// The pair at position `i` of `a` and `b`, for `i` below the longer length.
pub open spec fn pair_at(a: Seq<LineRead>, b: Seq<LineRead>, i: int) -> LinePair {
    if i < a.len() && i < b.len() {
        LinePair::Both(a[i], b[i])
    } else if i < a.len() {
        LinePair::Left(a[i])
    } else {
        LinePair::Right(b[i])
    }
}

/// The number of positions of `a` and `b`: the longer length.
pub open spec fn pair_count(a: Seq<LineRead>, b: Seq<LineRead>) -> nat {
    if a.len() >= b.len() {
        a.len()
    } else {
        b.len()
    }
}

/// Relies on itertools' `Itertools::zip_longest`: it yields `Both` while both
/// sides have an item, then `Left` or `Right` for the rest of the longer side.
#[verifier::external_body]
pub(crate) fn zip_longest_lines(a: Vec<LineRead>, b: Vec<LineRead>) -> (r: Vec<LinePair>)
    ensures
        r@.len() == pair_count(a@, b@),
        forall|i: int| 0 <= i < r@.len() ==> #[trigger] r@[i] == pair_at(a@, b@, i),
{
    let mut r = Vec::new();
    for p in a.into_iter().zip_longest(b) {
        r.push(match p {
            EitherOrBoth::Both(x, y) => LinePair::Both(x, y),
            EitherOrBoth::Left(x) => LinePair::Left(x),
            EitherOrBoth::Right(y) => LinePair::Right(y),
        });
    }
    r
}

/// The classification of one position.
pub enum Outcome {
    /// Both sides read, with equal text.
    Match(String),
    /// Both sides read, with different texts (left, right).
    Mismatch(String, String),
    /// Only the left side has a line.
    OnlyLeft(String),
    /// Only the right side has a line.
    OnlyRight(String),
    /// The left side has a line that could not be read; the error message.
    LeftReadError(String),
    /// The right side has a line that could not be read; the error message.
    RightReadError(String),
    /// Both sides have a line and neither could be read.
    Unclassified,
}

/// The outcome of a pair: texts compared by exact equality, a failed read
/// on one side reported for that side, failures on both sides unclassified.
pub open spec fn outcome_of(p: LinePair) -> Outcome {
    match p {
        LinePair::Both(Ok(x), Ok(y)) => if x@ == y@ {
            Outcome::Match(x)
        } else {
            Outcome::Mismatch(x, y)
        },
        LinePair::Both(Err(e), Ok(_)) => Outcome::LeftReadError(e),
        LinePair::Both(Ok(_), Err(e)) => Outcome::RightReadError(e),
        LinePair::Both(Err(_), Err(_)) => Outcome::Unclassified,
        LinePair::Left(Ok(x)) => Outcome::OnlyLeft(x),
        LinePair::Left(Err(e)) => Outcome::LeftReadError(e),
        LinePair::Right(Ok(y)) => Outcome::OnlyRight(y),
        LinePair::Right(Err(e)) => Outcome::RightReadError(e),
    }
}

/// Classifies one pair.
pub fn classify(p: &LinePair) -> (r: Outcome)
    ensures
        r == outcome_of(*p),
{
    match p {
        LinePair::Both(Ok(x), Ok(y)) => if *x == *y {
            Outcome::Match(x.clone())
        } else {
            Outcome::Mismatch(x.clone(), y.clone())
        },
        LinePair::Both(Err(e), Ok(_)) => Outcome::LeftReadError(e.clone()),
        LinePair::Both(Ok(_), Err(e)) => Outcome::RightReadError(e.clone()),
        LinePair::Both(Err(_), Err(_)) => Outcome::Unclassified,
        LinePair::Left(Ok(x)) => Outcome::OnlyLeft(x.clone()),
        LinePair::Left(Err(e)) => Outcome::LeftReadError(e.clone()),
        LinePair::Right(Ok(y)) => Outcome::OnlyRight(y.clone()),
        LinePair::Right(Err(e)) => Outcome::RightReadError(e.clone()),
    }
}

} // verus!
