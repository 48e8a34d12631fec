//! The report on a computed matrix: how many elements differ from the
//! expected ones, and where the first few of them lie.

use vstd::prelude::*;

verus! {

/// How many mismatches a report lists one by one.
pub const MAX_PRINT_ERRORS: usize = 10;

/// An element outside the tolerance: its linear index and its place.
#[derive(Clone, Copy, Debug, PartialEq, Eq, Structural)]
pub struct Mismatch {
    pub index: usize,
    pub row: usize,
    pub col: usize,
}

/// The count of mismatched elements and the first of them, in index order.
#[derive(Debug)]
pub struct VerificationResult {
    pub mismatch_count: usize,
    pub shown: Vec<Mismatch>,
}

/// The indices `i` with `flags[i]`, in increasing order.
pub open spec fn mismatch_positions(flags: Seq<bool>) -> Seq<int>
    decreases flags.len(),
{
    if flags.len() == 0 {
        seq![]
    } else {
        let prev = mismatch_positions(flags.drop_last());
        if flags.last() {
            prev.push(flags.len() - 1)
        } else {
            prev
        }
    }
}

/// The element at linear index `i` of a matrix with `cols` columns.
pub open spec fn mismatch_at(i: int, cols: int) -> Mismatch {
    Mismatch { index: i as usize, row: (i / cols) as usize, col: (i % cols) as usize }
}

/// How many mismatches are listed out of `count`.
pub open spec fn shown_count(count: int) -> int {
    if count < MAX_PRINT_ERRORS {
        count
    } else {
        MAX_PRINT_ERRORS as int
    }
}

/// The report on the flags, row-major with `cols` columns.
pub open spec fn report_matches(r: VerificationResult, flags: Seq<bool>, cols: int) -> bool {
    let pos = mismatch_positions(flags);
    &&& r.mismatch_count == pos.len()
    &&& r.shown@.len() == shown_count(pos.len() as int)
    &&& forall|j: int| 0 <= j < r.shown@.len() ==> r.shown@[j] == mismatch_at(pos[j], cols)
}

proof fn lemma_positions_step(flags: Seq<bool>, i: int)
    requires
        0 <= i < flags.len(),
    ensures
        mismatch_positions(flags.take(i + 1)) == if flags[i] {
            mismatch_positions(flags.take(i)).push(i)
        } else {
            mismatch_positions(flags.take(i))
        },
{
    assert(flags.take(i + 1).drop_last() =~= flags.take(i));
}

impl VerificationResult {
    /// No element is outside the tolerance.
    pub fn is_clean(&self) -> (r: bool)
        ensures
            r == (self.mismatch_count == 0),
    {
        self.mismatch_count == 0
    }

    /// How many mismatches the report counts without listing them.
    pub fn omitted(&self) -> (r: usize)
        requires
            self.shown@.len() <= self.mismatch_count,
        ensures
            r == self.mismatch_count - self.shown@.len(),
    {
        self.mismatch_count - self.shown.len()
    }
}

/// Builds the report from one flag per element (`true` where the computed
/// value is outside the tolerance of the expected one), for a row-major
/// matrix with `cols` columns: the number of flagged elements, and the
/// first `MAX_PRINT_ERRORS` of them with their row and column.
pub fn verify_results(mismatches: &Vec<bool>, cols: u32) -> (r: VerificationResult)
    requires
        cols > 0,
    ensures
        report_matches(r, mismatches@, cols as int),
        r.shown@.len() <= r.mismatch_count,
{
    let ghost flags = mismatches@;
    let mut count: usize = 0;
    let mut shown: Vec<Mismatch> = Vec::new();
    let mut i: usize = 0;
    while i < mismatches.len()
        invariant
            flags == mismatches@,
            cols > 0,
            0 <= i <= flags.len(),
            count <= i,
            report_matches(
                VerificationResult { mismatch_count: count, shown },
                flags.take(i as int),
                cols as int,
            ),
        decreases flags.len() - i,
    {
        proof {
            lemma_positions_step(flags, i as int);
        }
        if mismatches[i] {
            count = count + 1;
            if shown.len() < MAX_PRINT_ERRORS {
                let c = cols as usize;
                shown.push(Mismatch { index: i, row: i / c, col: i % c });
            }
        }
        i = i + 1;
    }
    assert(flags.take(i as int) =~= flags);
    VerificationResult { mismatch_count: count, shown }
}

} // verus!
