//! General properties of the comparison, stated over the models that the
//! functions' contracts use.

use vstd::prelude::*;
use crate::pairing::{LineRead, Outcome, outcome_of, pair_at, pair_count};
use crate::report::{plain_report, plain_report_row, rendered};
use crate::style::Styling;

verus! {

/// Two sequences of line reads hold the same texts and the same error
/// messages, position by position.
pub open spec fn same_reads(a: Seq<LineRead>, b: Seq<LineRead>) -> bool {
    &&& a.len() == b.len()
    &&& forall|i: int| 0 <= i < a.len() ==> match (#[trigger] a[i], b[i]) {
        (Ok(x), Ok(y)) => x@ == y@,
        (Err(x), Err(y)) => x@ == y@,
        _ => false,
    }
}

/// Two texts whose lines all read, and are equal position by position, give
/// a `Match` at every position, and every row renders the same under every
/// styling as without highlighting: no highlighting appears.
pub proof fn lemma_identical_texts_all_match(a: Seq<LineRead>, b: Seq<LineRead>)
    requires
        a.len() == b.len(),
        forall|i: int| 0 <= i < a.len() ==> #[trigger] a[i] is Ok && b[i] is Ok,
        forall|i: int| 0 <= i < a.len() ==> (#[trigger] a[i])->Ok_0@ == b[i]->Ok_0@,
    ensures
        pair_count(a, b) == a.len(),
        forall|i: int| 0 <= i < a.len() ==> #[trigger] outcome_of(pair_at(a, b, i)) is Match,
        forall|i: int, r: Seq<char>, s: Styling| 0 <= i < a.len() ==>
            (#[trigger] rendered(r, (i + 1) as nat, outcome_of(pair_at(a, b, i)), s)
                <==> r == plain_report_row(a, b, i)),
{
    assert forall|i: int| 0 <= i < a.len() implies #[trigger] outcome_of(pair_at(a, b, i)) is Match by {
        assert(a[i] is Ok && b[i] is Ok);
        assert(a[i]->Ok_0@ == b[i]->Ok_0@);
    }
}

/// Where the left text has more lines than the right one, each of its
/// trailing lines past the right one's length is `OnlyLeft` with its own
/// text, provided that line could be read.
pub proof fn lemma_left_longer_only_left(a: Seq<LineRead>, b: Seq<LineRead>)
    requires
        a.len() > b.len(),
        forall|i: int| b.len() <= i < a.len() ==> #[trigger] a[i] is Ok,
    ensures
        pair_count(a, b) == a.len(),
        forall|i: int| b.len() <= i < a.len() ==>
            #[trigger] outcome_of(pair_at(a, b, i)) == Outcome::OnlyLeft(a[i]->Ok_0),
{
}

/// Where the right text has more lines than the left one, each of its
/// trailing lines past the left one's length is `OnlyRight` with its own
/// text, provided that line could be read.
pub proof fn lemma_right_longer_only_right(a: Seq<LineRead>, b: Seq<LineRead>)
    requires
        b.len() > a.len(),
        forall|i: int| a.len() <= i < b.len() ==> #[trigger] b[i] is Ok,
    ensures
        pair_count(a, b) == b.len(),
        forall|i: int| a.len() <= i < b.len() ==>
            #[trigger] outcome_of(pair_at(a, b, i)) == Outcome::OnlyRight(b[i]->Ok_0),
{
}

/// Where both sides have a readable line at a position and the two texts
/// differ anywhere, the position is a `Mismatch`, never a `Match`.
pub proof fn lemma_differing_texts_mismatch(a: Seq<LineRead>, b: Seq<LineRead>, i: int)
    requires
        0 <= i < a.len(),
        i < b.len(),
        a[i] is Ok,
        b[i] is Ok,
        a[i]->Ok_0@ != b[i]->Ok_0@,
    ensures
        outcome_of(pair_at(a, b, i)) == Outcome::Mismatch(a[i]->Ok_0, b[i]->Ok_0),
        !(outcome_of(pair_at(a, b, i)) is Match),
{
}

/// The report without highlighting depends on the texts and error messages
/// read alone: the same reads give the same report, line for line and
/// character for character.
pub proof fn lemma_report_reproducible(
    a1: Seq<LineRead>,
    b1: Seq<LineRead>,
    a2: Seq<LineRead>,
    b2: Seq<LineRead>,
)
    requires
        same_reads(a1, a2),
        same_reads(b1, b2),
    ensures
        plain_report(a1, b1) == plain_report(a2, b2),
{
    let r1 = plain_report(a1, b1);
    let r2 = plain_report(a2, b2);
    assert forall|k: int| 0 <= k < r1.len() implies r1[k] == r2[k] by {
        if k >= 2 {
            let i = k - 2;
            if i < a1.len() {
                assert(match (a1[i], a2[i]) {
                    (Ok(x), Ok(y)) => x@ == y@,
                    (Err(x), Err(y)) => x@ == y@,
                    _ => false,
                });
            }
            if i < b1.len() {
                assert(match (b1[i], b2[i]) {
                    (Ok(x), Ok(y)) => x@ == y@,
                    (Err(x), Err(y)) => x@ == y@,
                    _ => false,
                });
            }
            assert(r1[k] == plain_report_row(a1, b1, i));
            assert(r2[k] == plain_report_row(a2, b2, i));
        }
    }
    assert(r1 =~= r2);
}

} // verus!
