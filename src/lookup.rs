use vstd::prelude::*;

use crate::category::Category;
use crate::parse::{category_field, category_field_of, parse_hex, parse_hex_field};
use crate::table::{UNICODE_TABLE_PARTS, unicode_table_part, unicode_table_part_bytes};

verus! {

/// The length in bytes of one entry of an encoded table.
pub const ENTRY_LEN: usize = 18;

/// Whether the entry of `t` at byte `at` holds `cp`.
pub open spec fn entry_holds(t: Seq<u8>, at: int, cp: u32) -> bool {
    match (parse_hex(t.subrange(at, at + 8)), parse_hex(t.subrange(at + 8, at + 16))) {
        (Some(start), Some(end)) => start <= cp <= end,
        _ => false,
    }
}

/// The byte at which the first entry of `t` from byte `at` on that holds `cp`
/// begins; an incomplete entry at the end is no entry.
pub open spec fn first_entry(t: Seq<u8>, at: int, cp: u32) -> Option<int>
    decreases t.len() - at,
{
    if at < 0 || at + ENTRY_LEN > t.len() {
        None
    } else if entry_holds(t, at, cp) {
        Some(at)
    } else {
        first_entry(t, at + ENTRY_LEN, cp)
    }
}

/// The category of the entry at byte `at`.
pub open spec fn entry_category(t: Seq<u8>, at: int) -> Option<Category> {
    category_field(t.subrange(at + 16, at + 18))
}

/// The category that an encoded table gives `cp`: the first entry that holds
/// it decides, and where none does there is no category.
pub open spec fn table_lookup(t: Seq<u8>, cp: u32) -> Option<Category> {
    match first_entry(t, 0, cp) {
        Some(at) => entry_category(t, at),
        None => None,
    }
}

/// The category that the built-in table gives `cp`, trying its parts in order
/// from part `i` on.
pub open spec fn unicode_lookup_from(i: int, cp: u32) -> Option<Category>
    decreases UNICODE_TABLE_PARTS - i,
{
    if i < 0 || i >= UNICODE_TABLE_PARTS {
        None
    } else {
        match first_entry(unicode_table_part(i), 0, cp) {
            Some(at) => entry_category(unicode_table_part(i), at),
            None => unicode_lookup_from(i + 1, cp),
        }
    }
}

/// The category that the built-in table gives `cp`.
pub open spec fn unicode_lookup(cp: u32) -> Option<Category> {
    unicode_lookup_from(0, cp)
}

/// Finds the first entry of an encoded table that holds `cp`.
pub fn find_entry(t: &[u8], cp: u32) -> (r: Option<usize>)
    ensures
        r matches Some(at) ==> first_entry(t@, 0, cp) == Some(at as int) && at + 18 <= t@.len(),
        r is None ==> first_entry(t@, 0, cp) is None,
{
    let mut at: usize = 0;
    while t.len() - at >= ENTRY_LEN
        invariant
            at <= t@.len(),
            first_entry(t@, 0, cp) == first_entry(t@, at as int, cp),
        decreases t@.len() - at,
    {
        let start = parse_hex_field(t, at, at + 8);
        let end = parse_hex_field(t, at + 8, at + 16);
        match (start, end) {
            (Some(s), Some(e)) => {
                if s <= cp && cp <= e {
                    return Some(at);
                }
            },
            _ => {},
        }
        at = at + ENTRY_LEN;
    }
    None
}

/// Looks `cp` up in an encoded table, entry by entry in order.
pub fn lookup_encoded(t: &[u8], cp: u32) -> (r: Option<Category>)
    ensures
        r == table_lookup(t@, cp),
{
    let _ = t.len();
    match find_entry(t, cp) {
        Some(at) => category_field_of(t, at + 16, at + 18),
        None => None,
    }
}

/// The General Category of a character, or `None` where the database gives it
/// none.
pub fn unicode_category_from_char(c: char) -> (r: Option<Category>)
    ensures
        r == unicode_lookup(c as u32),
{
    let cp = c as u32;
    let mut i: usize = 0;
    while i < UNICODE_TABLE_PARTS
        invariant
            i <= UNICODE_TABLE_PARTS,
            cp == c as u32,
            unicode_lookup(cp) == unicode_lookup_from(i as int, cp),
        decreases UNICODE_TABLE_PARTS - i,
    {
        let part = unicode_table_part_bytes(i);
        let _ = part.len();
        match find_entry(part, cp) {
            Some(at) => {
                assert(unicode_lookup_from(i as int, cp) == entry_category(part@, at as int));
                return category_field_of(part, at + 16, at + 18);
            },
            None => {},
        }
        i = i + 1;
    }
    None
}

/// Types whose values have a Unicode General Category.
pub trait UnicodeCategorizable {
    /// The General Category of this value, or `None` where it has none.
    fn unicode_category(&self) -> Option<Category>;
}

impl UnicodeCategorizable for char {
    fn unicode_category(&self) -> (r: Option<Category>)
        ensures
            r == unicode_lookup(*self as u32),
    {
        unicode_category_from_char(*self)
    }
}

} // verus!
