//! Matrix files: one number per line, row-major. This module splits a
//! file's bytes into lines and assembles the parsed values into a matrix,
//! checking the element count.

use crate::error::{ErrorKind, GenError, GenResult};
use crate::text::{decimal, decimal_text};
use vstd::prelude::*;

verus! {

/// Line feed, which ends a line.
pub const NEWLINE: u8 = 10;

/// Carriage return, dropped where it stands right before a line feed.
pub const CARRIAGE_RETURN: u8 = 13;

/// The length of the first line of `s`: the index of its first line feed,
/// or the length of `s` when it has none.
pub open spec fn line_end(s: Seq<u8>) -> nat
    decreases s.len(),
{
    if s.len() == 0 || s[0] == NEWLINE {
        0
    } else {
        1 + line_end(s.drop_first())
    }
}

/// A line ended by a line feed loses one trailing carriage return.
pub open spec fn strip_cr(l: Seq<u8>) -> Seq<u8> {
    if l.len() > 0 && l.last() == CARRIAGE_RETURN {
        l.drop_last()
    } else {
        l
    }
}

/// The lines of `s`: the text before each line feed (without a carriage
/// return right before it), then the text after the last line feed if it
/// is not empty.
pub open spec fn lines_of(s: Seq<u8>) -> Seq<Seq<u8>>
    decreases s.len(),
{
    if s.len() == 0 {
        seq![]
    } else {
        let k = line_end(s);
        if k < s.len() {
            seq![strip_cr(s.take(k as int))] + lines_of(s.skip(k + 1 as int))
        } else {
            seq![s]
        }
    }
}

/// The contents of each line.
pub open spec fn line_views(v: Seq<Vec<u8>>) -> Seq<Seq<u8>> {
    v.map_values(|l: Vec<u8>| l@)
}

/// A file that holds each line followed by a line feed.
pub open spec fn join_lines(lines: Seq<Seq<u8>>) -> Seq<u8>
    decreases lines.len(),
{
    if lines.len() == 0 {
        seq![]
    } else {
        lines[0] + seq![NEWLINE] + join_lines(lines.drop_first())
    }
}

/// A line that survives a write and a read: no line feed in it, and no
/// carriage return at its end.
pub open spec fn plain_line(l: Seq<u8>) -> bool {
    &&& forall|j: int| 0 <= j < l.len() ==> l[j] != NEWLINE
    &&& !(l.len() > 0 && l.last() == CARRIAGE_RETURN)
}

proof fn lemma_line_end_at(s: Seq<u8>, k: int)
    requires
        0 <= k <= s.len(),
        forall|j: int| 0 <= j < k ==> s[j] != NEWLINE,
        k == s.len() || s[k] == NEWLINE,
    ensures
        line_end(s) == k,
    decreases k,
{
    if k > 0 {
        lemma_line_end_at(s.drop_first(), k - 1);
    }
}

proof fn lemma_lines_split(s: Seq<u8>, k: int)
    requires
        0 <= k < s.len(),
        forall|j: int| 0 <= j < k ==> s[j] != NEWLINE,
        s[k] == NEWLINE,
    ensures
        lines_of(s) == seq![strip_cr(s.take(k))] + lines_of(s.skip(k + 1)),
{
    lemma_line_end_at(s, k);
}

proof fn lemma_lines_last(s: Seq<u8>)
    requires
        forall|j: int| 0 <= j < s.len() ==> s[j] != NEWLINE,
    ensures
        lines_of(s) == if s.len() == 0 {
            Seq::<Seq<u8>>::empty()
        } else {
            seq![s]
        },
{
    lemma_line_end_at(s, s.len() as int);
}

/// Writing lines that hold no line feed and end in no carriage return, each
/// followed by a line feed, and splitting the text again gives back the
/// same lines in the same order.
pub proof fn lemma_lines_round_trip(lines: Seq<Seq<u8>>)
    requires
        forall|i: int| 0 <= i < lines.len() ==> plain_line(#[trigger] lines[i]),
    ensures
        lines_of(join_lines(lines)) == lines,
    decreases lines.len(),
{
    if lines.len() > 0 {
        let l0 = lines[0];
        let rest = join_lines(lines.drop_first());
        let s = join_lines(lines);
        assert(plain_line(l0));
        assert(s == l0 + seq![NEWLINE] + rest);
        let k = l0.len() as int;
        assert(s[k] == NEWLINE);
        lemma_lines_split(s, k);
        assert(s.take(k) =~= l0);
        assert(s.skip(k + 1) =~= rest);
        assert forall|i: int| 0 <= i < lines.drop_first().len() implies plain_line(
            #[trigger] lines.drop_first()[i],
        ) by {
            assert(lines.drop_first()[i] == lines[i + 1]);
        }
        lemma_lines_round_trip(lines.drop_first());
        assert(lines =~= seq![l0] + lines.drop_first());
    }
}

/// Splits a file's bytes into lines, as `lines_of` describes.
pub fn split_lines(text: &[u8]) -> (r: Vec<Vec<u8>>)
    ensures
        line_views(r@) == lines_of(text@),
{
    let ghost s = text@;
    let mut lines: Vec<Vec<u8>> = Vec::new();
    let mut cur: Vec<u8> = Vec::new();
    let ghost mut start: int = 0;
    let mut i: usize = 0;
    proof {
        assert(s.skip(0) =~= s);
        assert(line_views(lines@) + lines_of(s) =~= lines_of(s));
    }
    while i < text.len()
        invariant
            s == text@,
            0 <= start <= i <= s.len(),
            cur@ == s.subrange(start, i as int),
            forall|j: int| start <= j < i ==> s[j] != NEWLINE,
            line_views(lines@) + lines_of(s.skip(start)) == lines_of(s),
        decreases s.len() - i,
    {
        let b = text[i];
        if b == NEWLINE {
            proof {
                let t = s.skip(start);
                let k = i - start;
                assert forall|j: int| 0 <= j < k implies t[j] != NEWLINE by {
                    assert(t[j] == s[start + j]);
                }
                lemma_lines_split(t, k);
                assert(t.take(k) =~= cur@);
                assert(t.skip(k + 1) =~= s.skip(i + 1));
            }
            let n = cur.len();
            if n > 0 && cur[n - 1] == CARRIAGE_RETURN {
                cur.pop();
            }
            let ghost before = lines@;
            lines.push(cur);
            proof {
                assert(line_views(lines@) =~= line_views(before).push(strip_cr(
                    s.subrange(start, i as int),
                )));
                start = i + 1;
            }
            cur = Vec::new();
        } else {
            cur.push(b);
        }
        i = i + 1;
    }
    proof {
        let t = s.skip(start);
        assert forall|j: int| 0 <= j < t.len() implies t[j] != NEWLINE by {
            assert(t[j] == s[start + j]);
        }
        lemma_lines_last(t);
        assert(t =~= cur@);
    }
    if cur.len() > 0 {
        let ghost before = lines@;
        lines.push(cur);
        proof {
            assert(line_views(lines@) =~= line_views(before).push(s.skip(start)));
        }
    } else {
        proof {
            assert(line_views(lines@) + lines_of(s.skip(start)) =~= line_views(lines@));
        }
    }
    lines
}

/// Every line was parsed.
pub open spec fn all_parsed<T>(parsed: Seq<Result<T, String>>) -> bool {
    forall|i: int| 0 <= i < parsed.len() ==> parsed[i] is Ok
}

/// `i` is the first line that was not parsed.
pub open spec fn first_unparsed<T>(parsed: Seq<Result<T, String>>, i: int) -> bool {
    &&& 0 <= i < parsed.len()
    &&& parsed[i] is Err
    &&& forall|j: int| 0 <= j < i ==> parsed[j] is Ok
}

/// The message for a matrix with the wrong number of elements.
pub open spec fn size_mismatch_message(filename: Seq<char>, found: nat, expected: nat) -> Seq<
    char,
> {
    "Matrix read from "@ + filename + " has "@ + decimal(found) + " elements; "@ + decimal(
        expected,
    ) + " expected."@
}

/// Assembles a matrix of `expected` elements from the parsed lines of the
/// file `filename` (for a line that is not a number, the parser's error
/// text). The first unparsed line is a parse error carrying that text;
/// otherwise a line count other than `expected` is a size mismatch;
/// otherwise the values come out in order.
pub fn matrix_from_lines<T: Copy>(
    filename: &str,
    parsed: &Vec<Result<T, String>>,
    expected: u32,
) -> (r: GenResult<Vec<T>>)
    ensures
        r is Ok <==> all_parsed(parsed@) && parsed@.len() == expected,
        r matches Ok(v) ==> v@.len() == parsed@.len() && forall|i: int|
            0 <= i < v@.len() ==> parsed@[i] == Ok::<T, String>(#[trigger] v@[i]),
        !all_parsed(parsed@) ==> (r matches Err(e) && e.kind == ErrorKind::Parse && exists|i: int|
            first_unparsed(parsed@, i) && (parsed@[i] matches Err(text) && e.message@ == text@)),
        all_parsed(parsed@) && parsed@.len() != expected ==> (r matches Err(e) && e.kind
            == ErrorKind::SizeMismatch && e.message@ == size_mismatch_message(
            filename@,
            parsed@.len(),
            expected as nat,
        )),
{
    let mut values: Vec<T> = Vec::new();
    let mut i: usize = 0;
    while i < parsed.len()
        invariant
            0 <= i <= parsed@.len(),
            values@.len() == i,
            forall|j: int| 0 <= j < i ==> parsed@[j] == Ok::<T, String>(#[trigger] values@[j]),
            forall|j: int| 0 <= j < i ==> #[trigger] parsed@[j] is Ok,
        decreases parsed@.len() - i,
    {
        match &parsed[i] {
            Ok(x) => {
                values.push(*x);
            },
            Err(text) => {
                proof {
                    assert(first_unparsed(parsed@, i as int));
                }
                return Err(GenError::new(ErrorKind::Parse, text.clone()));
            },
        }
        i = i + 1;
    }
    if values.len() != expected as usize {
        let mut message = String::from_str("Matrix read from ");
        message.append(filename);
        message.append(" has ");
        let found = decimal_text(values.len() as u64);
        message.append(found.as_str());
        message.append(" elements; ");
        let wanted = decimal_text(expected as u64);
        message.append(wanted.as_str());
        message.append(" expected.");
        return Err(GenError::new(ErrorKind::SizeMismatch, message));
    }
    Ok(values)
}

} // verus!
