use vstd::prelude::*;
use vstd::string::StringSliceAdditionalSpecFns;
use vstd::utf8::encode_utf8;

use core::cmp::Ordering;
use itertools::Itertools;

use crate::summary::ROISummary;

verus! {

/// Byte-wise lexicographic order, a prefix first.
pub open spec fn spec_lex_cmp(a: Seq<u8>, b: Seq<u8>) -> Ordering
    decreases a.len(),
{
    if a.len() == 0 && b.len() == 0 {
        Ordering::Equal
    } else if a.len() == 0 {
        Ordering::Less
    } else if b.len() == 0 {
        Ordering::Greater
    } else if a[0] < b[0] {
        Ordering::Less
    } else if a[0] > b[0] {
        Ordering::Greater
    } else {
        spec_lex_cmp(a.subrange(1, a.len() as int), b.subrange(1, b.len() as int))
    }
}

proof fn lemma_lex_flip(a: Seq<u8>, b: Seq<u8>)
    ensures
        spec_lex_cmp(a, b) == Ordering::Less <==> spec_lex_cmp(b, a) == Ordering::Greater,
        spec_lex_cmp(a, b) == Ordering::Equal <==> a == b,
    decreases a.len(),
{
    if a.len() > 0 && b.len() > 0 && a[0] == b[0] {
        let (ra, rb) = (a.subrange(1, a.len() as int), b.subrange(1, b.len() as int));
        lemma_lex_flip(ra, rb);
        assert(a =~= seq![a[0]] + ra);
        assert(b =~= seq![b[0]] + rb);
        if a == b {
            assert(ra =~= rb);
        }
    } else if a.len() > 0 && b.len() > 0 {
        assert(a != b) by {
            if a == b {
                assert(a[0] == b[0]);
            }
        }
    } else if a.len() != b.len() {
        assert(a != b);
    } else {
        assert(a =~= b);
    }
}

proof fn lemma_lex_transitive(a: Seq<u8>, b: Seq<u8>, c: Seq<u8>)
    requires
        spec_lex_cmp(a, b) != Ordering::Greater,
        spec_lex_cmp(b, c) != Ordering::Greater,
    ensures
        spec_lex_cmp(a, c) != Ordering::Greater,
    decreases a.len(),
{
    if a.len() > 0 && b.len() > 0 && c.len() > 0 && a[0] == b[0] && b[0] == c[0] {
        lemma_lex_transitive(
            a.subrange(1, a.len() as int),
            b.subrange(1, b.len() as int),
            c.subrange(1, c.len() as int),
        );
    }
}

pub open spec fn spec_cmp_u64(a: u64, b: u64) -> Ordering {
    if a < b {
        Ordering::Less
    } else if a > b {
        Ordering::Greater
    } else {
        Ordering::Equal
    }
}

/// The order of records in a report: start, then end, then strand symbol, then name.
pub open spec fn spec_output_cmp(x: ROISummary, y: ROISummary) -> Ordering {
    if x.interval.start != y.interval.start {
        spec_cmp_u64(x.interval.start, y.interval.start)
    } else if x.interval.end != y.interval.end {
        spec_cmp_u64(x.interval.end, y.interval.end)
    } else if x.strand.spec_symbol() != y.strand.spec_symbol() {
        if x.strand.spec_symbol() < y.strand.spec_symbol() {
            Ordering::Less
        } else {
            Ordering::Greater
        }
    } else {
        spec_lex_cmp(encode_utf8(x.name@), encode_utf8(y.name@))
    }
}

/// The report order is a total order: comparing the other way round flips the
/// result, only equal keys compare equal, and it is transitive.
pub proof fn lemma_output_order_total(x: ROISummary, y: ROISummary, z: ROISummary)
    ensures
        spec_output_cmp(x, y) == Ordering::Less <==> spec_output_cmp(y, x) == Ordering::Greater,
        spec_output_cmp(x, y) == Ordering::Equal <==> (x.interval.start == y.interval.start
            && x.interval.end == y.interval.end && x.strand.spec_symbol() == y.strand.spec_symbol()
            && encode_utf8(x.name@) == encode_utf8(y.name@)),
        spec_output_cmp(x, y) != Ordering::Greater && spec_output_cmp(y, z) != Ordering::Greater
            ==> spec_output_cmp(x, z) != Ordering::Greater,
{
    lemma_lex_flip(encode_utf8(x.name@), encode_utf8(y.name@));
    if spec_output_cmp(x, y) != Ordering::Greater && spec_output_cmp(y, z) != Ordering::Greater {
        if x.interval.start == y.interval.start && y.interval.start == z.interval.start
            && x.interval.end == y.interval.end && y.interval.end == z.interval.end
            && x.strand.spec_symbol() == y.strand.spec_symbol() && y.strand.spec_symbol()
            == z.strand.spec_symbol() {
            lemma_lex_transitive(encode_utf8(x.name@), encode_utf8(y.name@), encode_utf8(z.name@));
        }
    }
}

fn lex_cmp(a: &[u8], b: &[u8]) -> (r: Ordering)
    ensures
        r == spec_lex_cmp(a@, b@),
{
    let mut i: usize = 0;
    assert(a@.subrange(0, a@.len() as int) =~= a@);
    assert(b@.subrange(0, b@.len() as int) =~= b@);
    while i < a.len() && i < b.len()
        invariant
            i <= a@.len(),
            i <= b@.len(),
            spec_lex_cmp(a@, b@) == spec_lex_cmp(
                a@.subrange(i as int, a@.len() as int),
                b@.subrange(i as int, b@.len() as int),
            ),
        decreases a@.len() - i,
    {
        let ghost sa = a@.subrange(i as int, a@.len() as int);
        let ghost sb = b@.subrange(i as int, b@.len() as int);
        if a[i] < b[i] {
            return Ordering::Less;
        } else if a[i] > b[i] {
            return Ordering::Greater;
        }
        proof {
            assert(sa.subrange(1, sa.len() as int) =~= a@.subrange(i + 1, a@.len() as int));
            assert(sb.subrange(1, sb.len() as int) =~= b@.subrange(i + 1, b@.len() as int));
        }
        i += 1;
    }
    if i < a.len() {
        Ordering::Greater
    } else if i < b.len() {
        Ordering::Less
    } else {
        Ordering::Equal
    }
}

fn cmp_u64(a: u64, b: u64) -> (r: Ordering)
    ensures
        r == spec_cmp_u64(a, b),
{
    if a < b {
        Ordering::Less
    } else if a > b {
        Ordering::Greater
    } else {
        Ordering::Equal
    }
}

/// Compares two records in report order.
pub fn pos_then_strand_then_name(x: &ROISummary, y: &ROISummary) -> (r: Ordering)
    ensures
        r == spec_output_cmp(*x, *y),
{
    if x.interval.start != y.interval.start {
        cmp_u64(x.interval.start, y.interval.start)
    } else if x.interval.end != y.interval.end {
        cmp_u64(x.interval.end, y.interval.end)
    } else {
        let (sx, sy) = (x.strand.strand_symbol(), y.strand.strand_symbol());
        if sx != sy {
            if sx < sy {
                Ordering::Less
            } else {
                Ordering::Greater
            }
        } else {
            lex_cmp(x.name.as_str().as_bytes(), y.name.as_str().as_bytes())
        }
    }
}

/// Relies on `Itertools::sorted_by`, which sorts with `slice::sort_by`: the same
/// records, ascending in the given order, which the comparator keeps total.
#[verifier::external_body]
fn sorted_by_output_order(items: Vec<ROISummary>) -> (r: Vec<ROISummary>)
    ensures
        r@.to_multiset() == items@.to_multiset(),
        forall|i: int, j: int|
            0 <= i < j < r@.len() ==> spec_output_cmp(r@[i], r@[j]) != Ordering::Greater,
{
    items.into_iter().sorted_by(|a, b| pos_then_strand_then_name(a, b)).collect()
}

/// The records in report order: start, then end, then strand symbol, then name.
pub fn sort_for_output(items: Vec<ROISummary>) -> (r: Vec<ROISummary>)
    ensures
        r@.to_multiset() == items@.to_multiset(),
        forall|i: int, j: int|
            0 <= i < j < r@.len() ==> spec_output_cmp(r@[i], r@[j]) != Ordering::Greater,
{
    sorted_by_output_order(items)
}

} // verus!
