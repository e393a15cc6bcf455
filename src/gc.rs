//! Choosing the record with the highest GC content.
use crate::io::{gc_count_of, Record, RecordView};
use vstd::prelude::*;

verus! {

/// Whether `a` has a strictly higher GC fraction than `b`. A record with an
/// empty sequence has no fraction and is never higher nor lower.
pub open spec fn gc_higher(a: RecordView, b: RecordView) -> bool {
    &&& a.seq.len() > 0
    &&& b.seq.len() > 0
    &&& gc_count_of(a.seq) * b.seq.len() > gc_count_of(b.seq) * a.seq.len()
}

/// The index of the best of the first `n` records, scanning in order: a later
/// record takes the place of the best so far unless the best so far is
/// strictly higher, so the last of equal records wins.
pub open spec fn best_gc_among(rs: Seq<RecordView>, n: nat) -> int
    decreases n,
{
    if n <= 1 {
        0
    } else {
        let b = best_gc_among(rs, (n - 1) as nat);
        if gc_higher(rs[b], rs[n - 1]) {
            b
        } else {
            n - 1
        }
    }
}

/// The views of a list of records.
pub open spec fn record_views(records: Seq<Record>) -> Seq<RecordView> {
    records.map_values(|r: Record| r@)
}

proof fn lemma_product_fits(a: usize, b: usize)
    ensures
        (a as u128) * (b as u128) <= u128::MAX,
{
    let x = a as u128;
    let y = b as u128;
    assert(x <= 0xffff_ffff_ffff_ffff && y <= 0xffff_ffff_ffff_ffff);
    assert(x * y <= 0xffff_ffff_ffff_ffff * 0xffff_ffff_ffff_ffffu128) by (nonlinear_arith)
        requires
            x <= 0xffff_ffff_ffff_ffff,
            y <= 0xffff_ffff_ffff_ffff,
    ;
}

/// The record with the highest GC fraction (the last one among equals), or
/// `None` for an empty list.
pub fn highest_gc(records: &Vec<Record>) -> (r: Option<usize>)
    ensures
        records@.len() == 0 ==> r is None,
        records@.len() > 0 ==> r == Some(
            best_gc_among(record_views(records@), records@.len() as nat) as usize,
        ),
{
    if records.len() == 0 {
        return None;
    }
    let ghost rs = record_views(records@);
    let mut best: usize = 0;
    let mut best_gc: usize = records[0].gc_count();
    let mut best_len: usize = records[0].seq().as_str().unicode_len();
    let mut i: usize = 1;
    while i < records.len()
        invariant
            1 <= i <= records@.len(),
            rs == record_views(records@),
            best == best_gc_among(rs, i as nat),
            best < i,
            best_gc == gc_count_of(rs[best as int].seq),
            best_len == rs[best as int].seq.len(),
        decreases records.len() - i,
    {
        let gc = records[i].gc_count();
        let len = records[i].seq().as_str().unicode_len();
        assert(rs[i as int] == records@[i as int]@);
        proof {
            lemma_product_fits(best_gc, len);
            lemma_product_fits(gc, best_len);
        }
        let higher = best_len > 0 && len > 0 && (best_gc as u128) * (len as u128) > (gc as u128)
            * (best_len as u128);
        if !higher {
            best = i;
            best_gc = gc;
            best_len = len;
        }
        i = i + 1;
    }
    Some(best)
}

} // verus!
