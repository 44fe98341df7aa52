use vstd::prelude::*;

use crate::emit::{encode_ranges, encode_table, lemma_encoded_lookup};
use crate::lookup::table_lookup;
use crate::parse::{dataset_records, parse_dataset};
use crate::ranges::{
    Range,
    Record,
    compress,
    compresses,
    lemma_every_record_resolves,
    lemma_gaps_resolve_to_none,
    ordered,
    strictly_ascending,
};

verus! {

/// Whether looking up in table `t` gives every record's code point its
/// record's category, and every other code point nothing.
pub open spec fn table_matches_records(t: Seq<u8>, records: Seq<Record>) -> bool {
    &&& forall|k: int|
        0 <= k < records.len() ==> table_lookup(t, #[trigger] records[k].code_point) == Some(
            records[k].category,
        )
    &&& forall|cp: u32|
        (forall|k: int| 0 <= k < records.len() ==> #[trigger] records[k].code_point != cp)
            ==> #[trigger] table_lookup(t, cp) is None
}

/// Reads a character database and merges its records into ranges.
pub fn build_ranges(data: &[u8]) -> (ranges: Vec<Range>)
    ensures
        compresses(dataset_records(data@, 0), ranges@),
        strictly_ascending(dataset_records(data@, 0)) ==> ordered(ranges@),
{
    let records = parse_dataset(data);
    compress(records.as_slice())
}

/// Builds the encoded table of a character database: its records, merged into
/// ranges, written entry by entry. Where the database lists its code points in
/// ascending order, the table gives each listed code point its category and
/// every other code point none.
pub fn generate_table(data: &[u8]) -> (t: Vec<u8>)
    ensures
        exists|rs: Seq<Range>|
            compresses(dataset_records(data@, 0), rs) && t@ == #[trigger] encode_ranges(rs),
        strictly_ascending(dataset_records(data@, 0)) ==> table_matches_records(
            t@,
            dataset_records(data@, 0),
        ),
{
    let ranges = build_ranges(data);
    let t = encode_table(ranges.as_slice());
    proof {
        let records = dataset_records(data@, 0);
        let rs = ranges@;
        assert(compresses(records, rs) && t@ == encode_ranges(rs));
        if strictly_ascending(records) {
            assert forall|k: int| 0 <= k < records.len() implies table_lookup(
                t@,
                #[trigger] records[k].code_point,
            ) == Some(records[k].category) by {
                lemma_every_record_resolves(records, rs, k);
                lemma_encoded_lookup(rs, records[k].code_point);
            }
            assert forall|cp: u32|
                (forall|k: int| 0 <= k < records.len() ==> #[trigger] records[k].code_point != cp)
                    implies #[trigger] table_lookup(t@, cp) is None by {
                lemma_gaps_resolve_to_none(records, rs, cp);
                lemma_encoded_lookup(rs, cp);
            }
        }
    }
    t
}

} // verus!
