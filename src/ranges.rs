use vstd::prelude::*;

use crate::category::Category;

verus! {

/// One line of the character database: a code point and its category.
#[derive(Debug, Clone, Copy, PartialEq, Eq, Structural)]
pub struct Record {
    pub code_point: u32,
    pub category: Category,
}

/// The code points `start..=end`, all of one category.
#[derive(Debug, Clone, Copy, PartialEq, Eq, Structural)]
pub struct Range {
    pub start: u32,
    pub end: u32,
    pub category: Category,
}

impl Range {
    pub open spec fn contains(self, cp: u32) -> bool {
        self.start <= cp <= self.end
    }
}

/// The records that a range stands for: one per code point, in ascending order.
pub open spec fn range_records(r: Range) -> Seq<Record> {
    Seq::new(
        (r.end - r.start + 1) as nat,
        |k: int| Record { code_point: (r.start + k) as u32, category: r.category },
    )
}

/// The records that a list of ranges stands for, range after range.
pub open spec fn expand(rs: Seq<Range>) -> Seq<Record>
    decreases rs.len(),
{
    if rs.len() == 0 {
        Seq::empty()
    } else {
        range_records(rs[0]) + expand(rs.drop_first())
    }
}

/// Every range starts no later than it ends.
pub open spec fn well_formed(rs: Seq<Range>) -> bool {
    forall|i: int| 0 <= i < rs.len() ==> #[trigger] rs[i].start <= rs[i].end
}

/// No range continues the one before it with the same category.
pub open spec fn coalesced(rs: Seq<Range>) -> bool {
    forall|i: int|
        0 <= i < rs.len() - 1 ==> !(#[trigger] rs[i].end + 1 == rs[i + 1].start && rs[i].category
            == rs[i + 1].category)
}

/// Ranges are strictly increasing and pairwise disjoint.
pub open spec fn ordered(rs: Seq<Range>) -> bool {
    forall|i: int, j: int| 0 <= i < j < rs.len() ==> #[trigger] rs[i].end < #[trigger] rs[j].start
}

/// Code points increase strictly from one record to the next.
pub open spec fn strictly_ascending(records: Seq<Record>) -> bool {
    forall|i: int|
        0 <= i < records.len() - 1 ==> #[trigger] records[i].code_point < records[i
            + 1].code_point
}

/// `ranges` is the exact, maximally merged form of `records`.
pub open spec fn compresses(records: Seq<Record>, ranges: Seq<Range>) -> bool {
    &&& well_formed(ranges)
    &&& coalesced(ranges)
    &&& expand(ranges) == records
}

/// The category of the first range that holds `cp`, or `None` where none does.
pub open spec fn first_match(rs: Seq<Range>, cp: u32) -> Option<Category>
    decreases rs.len(),
{
    if rs.len() == 0 {
        None
    } else if rs[0].contains(cp) {
        Some(rs[0].category)
    } else {
        first_match(rs.drop_first(), cp)
    }
}

proof fn lemma_expand_push(rs: Seq<Range>, r: Range)
    ensures
        expand(rs.push(r)) == expand(rs) + range_records(r),
    decreases rs.len(),
{
    if rs.len() == 0 {
        assert(rs.push(r).drop_first() =~= Seq::<Range>::empty());
        assert(expand(rs.push(r).drop_first()) == Seq::<Record>::empty());
        assert(rs.push(r)[0] == r);
        assert(expand(rs.push(r)) =~= range_records(r));
    } else {
        assert(rs.push(r).drop_first() =~= rs.drop_first().push(r));
        lemma_expand_push(rs.drop_first(), r);
        assert(expand(rs.push(r)) =~= expand(rs) + range_records(r));
    }
}

proof fn lemma_range_records_has(r: Range, cp: u32, c: Category)
    requires
        r.start <= r.end,
    ensures
        range_records(r).contains(Record { code_point: cp, category: c }) <==> (r.contains(cp)
            && r.category == c),
{
    let rr = range_records(r);
    let rec = Record { code_point: cp, category: c };
    if r.contains(cp) && r.category == c {
        assert(rr[cp - r.start] == rec);
    }
    if rr.contains(rec) {
        let k = choose|k: int| 0 <= k < rr.len() && rr[k] == rec;
        assert(rr[k] == rec);
    }
}

proof fn lemma_expand_has(rs: Seq<Range>, cp: u32, c: Category)
    requires
        well_formed(rs),
    ensures
        expand(rs).contains(Record { code_point: cp, category: c }) <==> exists|j: int|
            0 <= j < rs.len() && #[trigger] rs[j].contains(cp) && rs[j].category == c,
    decreases rs.len(),
{
    let rec = Record { code_point: cp, category: c };
    if rs.len() > 0 {
        let head = range_records(rs[0]);
        let tail = rs.drop_first();
        assert(rs[0].start <= rs[0].end);
        assert(well_formed(tail)) by {
            assert forall|i: int| 0 <= i < tail.len() implies #[trigger] tail[i].start
                <= tail[i].end by {
                assert(tail[i] == rs[i + 1]);
            }
        }
        lemma_range_records_has(rs[0], cp, c);
        lemma_expand_has(tail, cp, c);
        let all = head + expand(tail);
        if all.contains(rec) {
            let k = choose|k: int| 0 <= k < all.len() && all[k] == rec;
            if k < head.len() {
                assert(head[k] == rec);
                assert(rs[0].contains(cp) && rs[0].category == c);
            } else {
                assert(expand(tail)[k - head.len()] == rec);
                let j = choose|j: int|
                    0 <= j < tail.len() && #[trigger] tail[j].contains(cp) && tail[j].category == c;
                assert(rs[j + 1] == tail[j]);
            }
        }
        if exists|j: int| 0 <= j < rs.len() && #[trigger] rs[j].contains(cp) && rs[j].category == c {
            let j = choose|j: int|
                0 <= j < rs.len() && #[trigger] rs[j].contains(cp) && rs[j].category == c;
            if j == 0 {
                let k = choose|k: int| 0 <= k < head.len() && head[k] == rec;
                assert(all[k] == rec);
            } else {
                assert(tail[j - 1] == rs[j]);
                let k = choose|k: int| 0 <= k < expand(tail).len() && expand(tail)[k] == rec;
                assert(all[head.len() + k] == rec);
            }
        }
    }
}

proof fn lemma_first_match(rs: Seq<Range>, cp: u32)
    ensures
        first_match(rs, cp) is None <==> !exists|j: int|
            0 <= j < rs.len() && #[trigger] rs[j].contains(cp),
        ordered(rs) ==> forall|j: int|
            0 <= j < rs.len() && #[trigger] rs[j].contains(cp) ==> first_match(rs, cp) == Some(
                rs[j].category,
            ),
    decreases rs.len(),
{
    if rs.len() > 0 {
        let tail = rs.drop_first();
        lemma_first_match(tail, cp);
        assert forall|j: int| 0 < j < rs.len() implies #[trigger] rs[j] == tail[j - 1] by {}
        if ordered(rs) {
            assert(ordered(tail)) by {
                assert forall|i: int, j: int| 0 <= i < j < tail.len() implies #[trigger] tail[i].end
                    < #[trigger] tail[j].start by {
                    assert(tail[i] == rs[i + 1] && tail[j] == rs[j + 1]);
                }
            }
            assert forall|j: int|
                0 <= j < rs.len() && #[trigger] rs[j].contains(cp) implies first_match(rs, cp)
                == Some(rs[j].category) by {
                if j > 0 {
                    assert(rs[0].end < rs[j].start);
                    assert(tail[j - 1].contains(cp));
                }
            }
        }
        if !rs[0].contains(cp) && exists|j: int| 0 <= j < rs.len() && #[trigger] rs[j].contains(cp) {
            let j = choose|j: int| 0 <= j < rs.len() && #[trigger] rs[j].contains(cp);
            assert(tail[j - 1].contains(cp));
        }
    }
}

/// Merges records into ranges: a run of records whose code points follow one
/// another with no gap and which share a category becomes one range.
#[verifier::rlimit(60)]
pub fn compress(records: &[Record]) -> (ranges: Vec<Range>)
    ensures
        compresses(records@, ranges@),
        strictly_ascending(records@) ==> ordered(ranges@),
{
    let mut ranges: Vec<Range> = Vec::new();
    if records.len() == 0 {
        assert(expand(ranges@) =~= records@);
        return ranges;
    }
    let mut run_start: u32 = records[0].code_point;
    let mut i: usize = 1;
    assert(range_records(
        Range { start: run_start, end: records[0].code_point, category: records[0].category },
    ) =~= records@.subrange(0, 1));
    assert(expand(ranges@) =~= Seq::<Record>::empty());
    while i < records.len()
        invariant
            1 <= i <= records.len(),
            run_start <= records[i - 1].code_point,
            well_formed(ranges@),
            coalesced(ranges@),
            ranges@.len() > 0 ==> !(ranges@.last().end + 1 == run_start
                && ranges@.last().category == records[i - 1].category),
            expand(ranges@) + range_records(
                Range {
                    start: run_start,
                    end: records[i - 1].code_point,
                    category: records[i - 1].category,
                },
            ) == records@.subrange(0, i as int),
            strictly_ascending(records@) ==> ordered(ranges@) && forall|k: int|
                0 <= k < ranges@.len() ==> #[trigger] ranges@[k].end < run_start,
        decreases records.len() - i,
    {
        let prev = records[i - 1];
        let next = records[i];
        let ghost old_ranges = ranges@;
        let run = Range { start: run_start, end: prev.code_point, category: prev.category };
        assert(records@.subrange(0, i + 1) =~= records@.subrange(0, i as int).push(next));
        if prev.code_point < u32::MAX && next.code_point == prev.code_point + 1 && next.category
            == prev.category {
            proof {
                let longer = Range {
                    start: run_start,
                    end: next.code_point,
                    category: next.category,
                };
                assert(range_records(longer) =~= range_records(run).push(next));
                assert(expand(ranges@) + range_records(longer) =~= (expand(ranges@)
                    + range_records(run)).push(next));
            }
        } else {
            ranges.push(run);
            proof {
                lemma_expand_push(old_ranges, run);
                let fresh = Range {
                    start: next.code_point,
                    end: next.code_point,
                    category: next.category,
                };
                assert(range_records(fresh) =~= seq![next]);
                assert(expand(ranges@) + range_records(fresh) =~= (expand(old_ranges)
                    + range_records(run)).push(next));
                assert(coalesced(ranges@)) by {
                    assert forall|k: int| 0 <= k < ranges@.len() - 1 implies !(
                    #[trigger] ranges@[k].end + 1 == ranges@[k + 1].start && ranges@[k].category
                        == ranges@[k + 1].category) by {
                        assert(ranges@[k] == old_ranges[k]);
                        if k + 1 < old_ranges.len() {
                            assert(ranges@[k + 1] == old_ranges[k + 1]);
                        }
                    }
                }
                if strictly_ascending(records@) {
                    assert(records@[i - 1].code_point < records@[i as int].code_point);
                    assert(ordered(ranges@)) by {
                        assert forall|a: int, b: int| 0 <= a < b < ranges@.len() implies #[trigger] ranges@[a].end
                            < #[trigger] ranges@[b].start by {
                            assert(ranges@[a] == old_ranges[a]);
                            if b < old_ranges.len() {
                                assert(ranges@[b] == old_ranges[b]);
                            }
                        }
                    }
                }
            }
            run_start = next.code_point;
        }
        i = i + 1;
    }
    let last = records[records.len() - 1];
    let ghost before = ranges@;
    let run = Range { start: run_start, end: last.code_point, category: last.category };
    ranges.push(run);
    proof {
        lemma_expand_push(before, run);
        assert(records@.subrange(0, records@.len() as int) =~= records@);
        assert(coalesced(ranges@)) by {
            assert forall|k: int| 0 <= k < ranges@.len() - 1 implies !(
            #[trigger] ranges@[k].end + 1 == ranges@[k + 1].start && ranges@[k].category
                == ranges@[k + 1].category) by {
                assert(ranges@[k] == before[k]);
                if k + 1 < before.len() {
                    assert(ranges@[k + 1] == before[k + 1]);
                }
            }
        }
        if strictly_ascending(records@) {
            assert(ordered(ranges@)) by {
                assert forall|a: int, b: int| 0 <= a < b < ranges@.len() implies #[trigger] ranges@[a].end
                    < #[trigger] ranges@[b].start by {
                    assert(ranges@[a] == before[a]);
                    if b < before.len() {
                        assert(ranges@[b] == before[b]);
                    }
                }
            }
        }
    }
    ranges
}

/// Finds the category of `cp` by testing the ranges in order; the first range
/// that holds it decides.
pub fn resolve(ranges: &[Range], cp: u32) -> (r: Option<Category>)
    ensures
        r == first_match(ranges@, cp),
{
    let mut i: usize = 0;
    assert(ranges@.subrange(0, ranges@.len() as int) =~= ranges@);
    while i < ranges.len()
        invariant
            0 <= i <= ranges@.len(),
            first_match(ranges@, cp) == first_match(ranges@.subrange(i as int, ranges@.len() as int), cp),
        decreases ranges@.len() - i,
    {
        let r = ranges[i];
        assert(ranges@.subrange(i as int, ranges@.len() as int).drop_first() =~= ranges@.subrange(
            i + 1,
            ranges@.len() as int,
        ));
        if r.start <= cp && cp <= r.end {
            return Some(r.category);
        }
        i = i + 1;
    }
    None
}

/// Finds the category of `cp` by binary search, which ordered ranges allow;
/// the result is the one that testing the ranges in order gives.
pub fn resolve_ordered(ranges: &[Range], cp: u32) -> (r: Option<Category>)
    requires
        well_formed(ranges@),
        ordered(ranges@),
    ensures
        r == first_match(ranges@, cp),
{
    let mut lo: usize = 0;
    let mut hi: usize = ranges.len();
    while lo < hi
        invariant
            lo <= hi <= ranges@.len(),
            well_formed(ranges@),
            ordered(ranges@),
            forall|j: int| 0 <= j < lo ==> #[trigger] ranges@[j].start <= cp,
            forall|j: int| hi <= j < ranges@.len() ==> #[trigger] ranges@[j].start > cp,
        decreases hi - lo,
    {
        let mid = lo + (hi - lo) / 2;
        if ranges[mid].start <= cp {
            assert forall|j: int| 0 <= j <= mid implies #[trigger] ranges@[j].start <= cp by {
                if j < mid {
                    assert(ranges@[j].end < ranges@[mid as int].start);
                }
            }
            lo = mid + 1;
        } else {
            assert forall|j: int| mid <= j < ranges@.len() implies #[trigger] ranges@[j].start
                > cp by {
                if j > mid {
                    assert(ranges@[mid as int].end < ranges@[j].start);
                }
            }
            hi = mid;
        }
    }
    proof {
        lemma_first_match(ranges@, cp);
    }
    if lo > 0 && cp <= ranges[lo - 1].end {
        assert(ranges@[lo - 1].contains(cp));
        Some(ranges[lo - 1].category)
    } else {
        proof {
            assert forall|j: int| 0 <= j < ranges@.len() implies !#[trigger] ranges@[j].contains(
                cp,
            ) by {
                if j + 1 < lo {
                    assert(ranges@[j].end < ranges@[lo - 1].start);
                }
            }
        }
        None
    }
}

/// Every record of an ascending list of records resolves, in the table that
/// compressing it gives, to its own category.
pub proof fn lemma_every_record_resolves(records: Seq<Record>, ranges: Seq<Range>, k: int)
    requires
        strictly_ascending(records),
        compresses(records, ranges),
        ordered(ranges),
        0 <= k < records.len(),
    ensures
        first_match(ranges, records[k].code_point) == Some(records[k].category),
{
    let rec = records[k];
    assert(expand(ranges)[k] == rec);
    assert(expand(ranges).contains(Record { code_point: rec.code_point, category: rec.category }));
    lemma_expand_has(ranges, rec.code_point, rec.category);
    lemma_first_match(ranges, rec.code_point);
}

/// A code point that no record names resolves to `None` in the table that
/// compressing the records gives.
pub proof fn lemma_gaps_resolve_to_none(records: Seq<Record>, ranges: Seq<Range>, cp: u32)
    requires
        strictly_ascending(records),
        compresses(records, ranges),
        ordered(ranges),
        forall|k: int| 0 <= k < records.len() ==> #[trigger] records[k].code_point != cp,
    ensures
        first_match(ranges, cp) is None,
{
    lemma_first_match(ranges, cp);
    if exists|j: int| 0 <= j < ranges.len() && #[trigger] ranges[j].contains(cp) {
        let j = choose|j: int| 0 <= j < ranges.len() && #[trigger] ranges[j].contains(cp);
        let c = ranges[j].category;
        lemma_expand_has(ranges, cp, c);
        let k = choose|k: int|
            0 <= k < records.len() && records[k] == Record { code_point: cp, category: c };
        assert(records[k].code_point == cp);
    }
}

} // verus!
