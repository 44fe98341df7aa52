use vstd::prelude::*;

use crate::category::{Category, code_category};
use crate::ranges::Record;

verus! {

/// The byte that separates the fields of a line.
pub const FIELD_SEPARATOR: u8 = 0x3B;

/// The byte that ends a line.
pub const LINE_END: u8 = 0x0A;

/// The index of the first `b` at or after `from`, or the length of `s` where
/// there is none.
pub open spec fn find_byte(s: Seq<u8>, from: int, b: u8) -> int
    decreases s.len() - from,
{
    if from >= s.len() {
        s.len() as int
    } else if s[from] == b {
        from
    } else {
        find_byte(s, from + 1, b)
    }
}

/// `0`-`9`, `a`-`f` or `A`-`F` in ASCII.
pub open spec fn is_hex_digit(b: u8) -> bool {
    (0x30 <= b <= 0x39) || (0x61 <= b <= 0x66) || (0x41 <= b <= 0x46)
}

pub open spec fn hex_digit_value(b: u8) -> nat {
    if 0x30 <= b <= 0x39 {
        (b - 0x30) as nat
    } else if 0x61 <= b <= 0x66 {
        (b - 0x61 + 10) as nat
    } else if 0x41 <= b <= 0x46 {
        (b - 0x41 + 10) as nat
    } else {
        0
    }
}

/// The number that a string of hexadecimal digits writes, most significant first.
pub open spec fn hex_value(s: Seq<u8>) -> nat
    decreases s.len(),
{
    if s.len() == 0 {
        0
    } else {
        hex_value(s.drop_last()) * 16 + hex_digit_value(s.last())
    }
}

/// The code point that a field writes in hexadecimal: at least one digit, no
/// other byte, and a value that fits in 32 bits.
pub open spec fn parse_hex(s: Seq<u8>) -> Option<u32> {
    if s.len() > 0 && (forall|i: int| 0 <= i < s.len() ==> is_hex_digit(#[trigger] s[i]))
        && hex_value(s) <= u32::MAX {
        Some(hex_value(s) as u32)
    } else {
        None
    }
}

/// The category that a field names: exactly one of the two-letter codes.
pub open spec fn category_field(s: Seq<u8>) -> Option<Category> {
    if s.len() == 2 {
        code_category(s[0] as char, s[1] as char)
    } else {
        None
    }
}

/// The record of one line: its first field is the code point, its third the
/// category. A line with fewer than three fields, or with either field
/// unreadable, gives none.
pub open spec fn parse_record(line: Seq<u8>) -> Option<Record> {
    let e0 = find_byte(line, 0, FIELD_SEPARATOR);
    let e1 = find_byte(line, e0 + 1, FIELD_SEPARATOR);
    let e2 = find_byte(line, e1 + 1, FIELD_SEPARATOR);
    if e1 >= line.len() {
        None
    } else {
        match (parse_hex(line.subrange(0, e0)), category_field(line.subrange(e1 + 1, e2))) {
            (Some(cp), Some(c)) => Some(Record { code_point: cp, category: c }),
            _ => None,
        }
    }
}

proof fn lemma_find_byte_bounds(s: Seq<u8>, from: int, b: u8)
    requires
        0 <= from,
    ensures
        from <= s.len() ==> from <= find_byte(s, from, b) <= s.len(),
        from > s.len() ==> find_byte(s, from, b) == s.len(),
        find_byte(s, from, b) < s.len() ==> s[find_byte(s, from, b)] == b,
    decreases s.len() - from,
{
    if from < s.len() && s[from] != b {
        lemma_find_byte_bounds(s, from + 1, b);
    }
}

#[via_fn]
proof fn dataset_records_decreases(data: Seq<u8>, from: int) {
    if 0 <= from <= data.len() {
        lemma_find_byte_bounds(data, from, LINE_END);
    }
}

/// The records of the lines of `data` from the line that starts at `from` on,
/// in order; lines without a record are left out.
pub open spec fn dataset_records(data: Seq<u8>, from: int) -> Seq<Record>
    decreases data.len() - from,
    via dataset_records_decreases
{
    if from < 0 || from > data.len() {
        Seq::empty()
    } else {
        let e = find_byte(data, from, LINE_END);
        let here = match parse_record(data.subrange(from, e)) {
            Some(r) => seq![r],
            None => Seq::empty(),
        };
        if e < data.len() {
            here + dataset_records(data, e + 1)
        } else {
            here
        }
    }
}

/// Finds the first `b` at or after `from`.
pub fn find(s: &[u8], from: usize, b: u8) -> (r: usize)
    requires
        from <= s@.len(),
    ensures
        r == find_byte(s@, from as int, b),
        from <= r <= s@.len(),
{
    let mut i = from;
    while i < s.len()
        invariant
            from <= i <= s@.len(),
            find_byte(s@, from as int, b) == find_byte(s@, i as int, b),
        decreases s@.len() - i,
    {
        if s[i] == b {
            return i;
        }
        i = i + 1;
    }
    i
}

/// Reads `s[from..to]` as a hexadecimal code point.
pub fn parse_hex_field(s: &[u8], from: usize, to: usize) -> (r: Option<u32>)
    requires
        from <= to <= s@.len(),
    ensures
        r == parse_hex(s@.subrange(from as int, to as int)),
{
    let ghost field = s@.subrange(from as int, to as int);
    if from == to {
        return None;
    }
    let mut acc: u32 = 0;
    let mut too_big = false;
    let mut i = from;
    assert(field.subrange(0, 0) =~= Seq::<u8>::empty());
    while i < to
        invariant
            from <= i <= to <= s@.len(),
            field == s@.subrange(from as int, to as int),
            forall|k: int| 0 <= k < i - from ==> is_hex_digit(#[trigger] field[k]),
            too_big ==> hex_value(field.subrange(0, i - from)) > u32::MAX,
            !too_big ==> hex_value(field.subrange(0, i - from)) == acc,
        decreases to - i,
    {
        let b = s[i];
        let d: u32 = if 0x30 <= b && b <= 0x39 {
            (b - 0x30) as u32
        } else if 0x61 <= b && b <= 0x66 {
            (b - 0x61 + 10) as u32
        } else if 0x41 <= b && b <= 0x46 {
            (b - 0x41 + 10) as u32
        } else {
            assert(!is_hex_digit(field[i - from]));
            return None;
        };
        assert(field.subrange(0, i + 1 - from).drop_last() =~= field.subrange(0, i - from));
        assert(field[i - from] == b);
        if too_big || acc > 0x0FFF_FFFF {
            too_big = true;
        } else {
            acc = acc * 16 + d;
        }
        i = i + 1;
    }
    assert(field.subrange(0, to - from) =~= field);
    if too_big {
        None
    } else {
        Some(acc)
    }
}

/// Reads `s[from..to]` as a two-letter category code.
pub fn category_field_of(s: &[u8], from: usize, to: usize) -> (r: Option<Category>)
    requires
        from <= to <= s@.len(),
    ensures
        r == category_field(s@.subrange(from as int, to as int)),
{
    if to - from != 2 {
        return None;
    }
    Category::from_code_chars(s[from] as char, s[from + 1] as char)
}

/// Reads one line of the character database into a record, or gives `None`
/// where the line holds none.
pub fn parse_line(line: &[u8]) -> (r: Option<Record>)
    ensures
        r == parse_record(line@),
{
    let n = line.len();
    let e0 = find(line, 0, FIELD_SEPARATOR);
    if e0 == n {
        proof {
            lemma_find_byte_bounds(line@, e0 + 1, FIELD_SEPARATOR);
        }
        return None;
    }
    let e1 = find(line, e0 + 1, FIELD_SEPARATOR);
    if e1 == n {
        return None;
    }
    let e2 = find(line, e1 + 1, FIELD_SEPARATOR);
    let cp = parse_hex_field(line, 0, e0);
    let category = category_field_of(line, e1 + 1, e2);
    match (cp, category) {
        (Some(cp), Some(c)) => Some(Record { code_point: cp, category: c }),
        _ => None,
    }
}

/// Reads the character database, one record per line, keeping file order and
/// leaving out every line that holds no record.
pub fn parse_dataset(data: &[u8]) -> (records: Vec<Record>)
    ensures
        records@ == dataset_records(data@, 0),
{
    let mut records: Vec<Record> = Vec::new();
    let mut pos: usize = 0;
    loop
        invariant
            pos <= data@.len(),
            dataset_records(data@, 0) == records@ + dataset_records(data@, pos as int),
        decreases data@.len() - pos,
    {
        let e = find(data, pos, LINE_END);
        let mut line: Vec<u8> = Vec::new();
        let mut k = pos;
        while k < e
            invariant
                pos <= k <= e <= data@.len(),
                line@ == data@.subrange(pos as int, k as int),
            decreases e - k,
        {
            line.push(data[k]);
            k = k + 1;
            assert(line@ =~= data@.subrange(pos as int, k as int));
        }
        let ghost before = records@;
        match parse_line(line.as_slice()) {
            Some(r) => {
                records.push(r);
            },
            None => {},
        }
        proof {
            let here = match parse_record(data@.subrange(pos as int, e as int)) {
                Some(r) => seq![r],
                None => Seq::<Record>::empty(),
            };
            assert(records@ =~= before + here);
            if e < data@.len() {
                assert(dataset_records(data@, pos as int) == here + dataset_records(data@, e + 1));
                assert(before + (here + dataset_records(data@, e + 1)) =~= records@ + dataset_records(data@, e + 1));
            } else {
                assert(dataset_records(data@, pos as int) == here);
                assert(dataset_records(data@, e + 1) =~= Seq::<Record>::empty());
            }
        }
        if e == data.len() {
            assert(records@ =~= records@ + dataset_records(data@, e + 1));
            return records;
        }
        pos = e + 1;
    }
}

} // verus!
