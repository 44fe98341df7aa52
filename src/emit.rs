use vstd::prelude::*;

use crate::category::{Category, code_of, lemma_code_round_trip};
use crate::lookup::{ENTRY_LEN, entry_category, entry_holds, first_entry, table_lookup};
use crate::parse::{category_field, hex_digit_value, hex_value, is_hex_digit, parse_hex};
use crate::ranges::{Range, first_match};

verus! {

/// The upper-case ASCII hexadecimal digit of `d`, for `d` below 16.
pub open spec fn hex_char(d: nat) -> u8 {
    if d < 10 {
        (0x30 + d) as u8
    } else {
        (0x41 + d - 10) as u8
    }
}

/// The last `n` hexadecimal digits of `v`, most significant first.
pub open spec fn hex_digits(v: nat, n: nat) -> Seq<u8>
    decreases n,
{
    if n == 0 {
        Seq::empty()
    } else {
        hex_digits(v / 16, (n - 1) as nat).push(hex_char(v % 16))
    }
}

/// The two ASCII bytes of a category's code.
pub open spec fn code_ascii(c: Category) -> Seq<u8> {
    seq![code_of(c)[0] as u8, code_of(c)[1] as u8]
}

/// The entry of a range: its first and its last code point in eight
/// hexadecimal digits, then its category's code.
pub open spec fn encode_entry(r: Range) -> Seq<u8> {
    hex_digits(r.start as nat, 8) + hex_digits(r.end as nat, 8) + code_ascii(r.category)
}

/// The encoded table of a list of ranges: their entries one after another.
pub open spec fn encode_ranges(rs: Seq<Range>) -> Seq<u8>
    decreases rs.len(),
{
    if rs.len() == 0 {
        Seq::empty()
    } else {
        encode_entry(rs[0]) + encode_ranges(rs.drop_first())
    }
}

pub open spec fn pow16(n: nat) -> nat
    decreases n,
{
    if n == 0 {
        1
    } else {
        16 * pow16((n - 1) as nat)
    }
}

proof fn lemma_hex_digits(v: nat, n: nat)
    requires
        v < pow16(n),
    ensures
        hex_digits(v, n).len() == n,
        forall|i: int| 0 <= i < n ==> is_hex_digit(#[trigger] hex_digits(v, n)[i]),
        hex_value(hex_digits(v, n)) == v,
    decreases n,
{
    if n > 0 {
        let p = pow16((n - 1) as nat);
        assert(v / 16 < p) by (nonlinear_arith)
            requires
                v < 16 * p,
        ;
        lemma_hex_digits(v / 16, (n - 1) as nat);
        let s = hex_digits(v, n);
        assert(s.drop_last() =~= hex_digits(v / 16, (n - 1) as nat));
        assert(hex_digit_value(hex_char(v % 16)) == v % 16);
        assert(v == (v / 16) * 16 + v % 16) by (nonlinear_arith);
        assert forall|i: int| 0 <= i < n implies is_hex_digit(#[trigger] s[i]) by {
            if i < n - 1 {
                assert(s[i] == hex_digits(v / 16, (n - 1) as nat)[i]);
            }
        }
    }
}

proof fn lemma_hex8_round_trip(v: u32)
    ensures
        hex_digits(v as nat, 8).len() == 8,
        parse_hex(hex_digits(v as nat, 8)) == Some(v),
{
    reveal_with_fuel(pow16, 9);
    assert(pow16(8) == 0x1_0000_0000);
    lemma_hex_digits(v as nat, 8);
}

proof fn lemma_encode_ranges_push(rs: Seq<Range>, r: Range)
    ensures
        encode_ranges(rs.push(r)) == encode_ranges(rs) + encode_entry(r),
    decreases rs.len(),
{
    if rs.len() == 0 {
        assert(rs.push(r).drop_first() =~= Seq::<Range>::empty());
        assert(encode_ranges(rs.push(r).drop_first()) == Seq::<u8>::empty());
        assert(rs.push(r)[0] == r);
        assert(encode_ranges(rs.push(r)) =~= encode_entry(r));
    } else {
        assert(rs.push(r).drop_first() =~= rs.drop_first().push(r));
        lemma_encode_ranges_push(rs.drop_first(), r);
        assert(encode_ranges(rs.push(r)) =~= encode_ranges(rs) + encode_entry(r));
    }
}

proof fn lemma_first_entry_shift(p: Seq<u8>, t: Seq<u8>, k: int, cp: u32)
    requires
        0 <= k,
    ensures
        first_entry(p + t, p.len() + k, cp) == (match first_entry(t, k, cp) {
            Some(x) => Some(x + p.len()),
            None => None,
        }),
    decreases t.len() - k,
{
    let a = p + t;
    let at = p.len() + k;
    if k + ENTRY_LEN <= t.len() {
        assert(a.subrange(at, at + 8) =~= t.subrange(k, k + 8));
        assert(a.subrange(at + 8, at + 16) =~= t.subrange(k + 8, k + 16));
        lemma_first_entry_shift(p, t, k + ENTRY_LEN, cp);
    }
}

/// Looking a code point up in the encoded table of a list of ranges gives what
/// testing the ranges in order gives.
pub proof fn lemma_encoded_lookup(rs: Seq<Range>, cp: u32)
    ensures
        table_lookup(encode_ranges(rs), cp) == first_match(rs, cp),
    decreases rs.len(),
{
    if rs.len() > 0 {
        let r = rs[0];
        let e = encode_entry(r);
        let rest = encode_ranges(rs.drop_first());
        let t = e + rest;
        lemma_hex8_round_trip(r.start);
        lemma_hex8_round_trip(r.end);
        assert(e.len() == 18);
        assert(t.subrange(0, 8) =~= hex_digits(r.start as nat, 8));
        assert(t.subrange(8, 16) =~= hex_digits(r.end as nat, 8));
        assert(t.subrange(16, 18) =~= code_ascii(r.category));
        lemma_code_round_trip(r.category);
        assert(category_field(code_ascii(r.category)) == Some(r.category));
        assert(entry_holds(t, 0, cp) == r.contains(cp));
        if !r.contains(cp) {
            lemma_first_entry_shift(e, rest, 0, cp);
            lemma_encoded_lookup(rs.drop_first(), cp);
            if let Some(x) = first_entry(rest, 0, cp) {
                lemma_first_entry_bounds(rest, 0, cp);
                assert(t.subrange(x + 18 + 16, x + 18 + 18) =~= rest.subrange(x + 16, x + 18));
                assert(entry_category(t, x + 18) == entry_category(rest, x));
            }
        }
    }
}

proof fn lemma_first_entry_bounds(t: Seq<u8>, k: int, cp: u32)
    requires
        0 <= k,
    ensures
        first_entry(t, k, cp) matches Some(x) ==> k <= x && x + ENTRY_LEN <= t.len(),
    decreases t.len() - k,
{
    if k + ENTRY_LEN <= t.len() && !entry_holds(t, k, cp) {
        lemma_first_entry_bounds(t, k + ENTRY_LEN, cp);
    }
}

/// Appends the eight hexadecimal digits of `v`.
fn push_hex8(out: &mut Vec<u8>, v: u32)
    ensures
        final(out)@ == old(out)@ + hex_digits(v as nat, 8),
{
    let mut digits: Vec<u8> = vec![0u8; 8];
    let mut x: u32 = v;
    let mut k: usize = 0;
    assert(digits@.subrange(8, 8) =~= Seq::<u8>::empty());
    assert(hex_digits(v as nat, 8) =~= hex_digits(x as nat, 8) + digits@.subrange(8, 8));
    while k < 8
        invariant
            k <= 8,
            digits@.len() == 8,
            hex_digits(v as nat, 8) == hex_digits(x as nat, (8 - k) as nat) + digits@.subrange(
                8 - k,
                8,
            ),
        decreases 8 - k,
    {
        let d = (x % 16) as u8;
        let c = if d < 10 {
            0x30 + d
        } else {
            0x41 + d - 10
        };
        let ghost before = digits@;
        digits.set(7 - k, c);
        proof {
            let m = (8 - k) as nat;
            assert(hex_digits(x as nat, m) == hex_digits((x / 16) as nat, (m - 1) as nat).push(
                hex_char((x % 16) as nat),
            ));
            assert(digits@.subrange(7 - k, 8) =~= seq![c] + before.subrange(8 - k, 8));
            assert(hex_digits(v as nat, 8) =~= hex_digits((x / 16) as nat, (m - 1) as nat)
                + digits@.subrange(7 - k, 8));
        }
        x = x / 16;
        k = k + 1;
    }
    assert(hex_digits(x as nat, 0) =~= Seq::<u8>::empty());
    assert(digits@.subrange(0, 8) =~= digits@);
    let mut j: usize = 0;
    let ghost start = out@;
    while j < 8
        invariant
            j <= 8,
            digits@.len() == 8,
            hex_digits(v as nat, 8) == digits@,
            out@ == start + digits@.subrange(0, j as int),
        decreases 8 - j,
    {
        out.push(digits[j]);
        j = j + 1;
        assert(out@ =~= start + digits@.subrange(0, j as int));
    }
}

/// Writes the encoded table of a list of ranges, which the built-in table
/// and `lookup_encoded` read.
pub fn encode_table(ranges: &[Range]) -> (out: Vec<u8>)
    ensures
        out@ == encode_ranges(ranges@),
{
    let mut out: Vec<u8> = Vec::new();
    let mut i: usize = 0;
    assert(encode_ranges(ranges@.subrange(0, 0)) =~= Seq::<u8>::empty());
    while i < ranges.len()
        invariant
            i <= ranges@.len(),
            out@ == encode_ranges(ranges@.subrange(0, i as int)),
        decreases ranges@.len() - i,
    {
        let r = ranges[i];
        let ghost before = out@;
        push_hex8(&mut out, r.start);
        push_hex8(&mut out, r.end);
        let (a, b) = r.category.code_bytes();
        out.push(a);
        out.push(b);
        proof {
            assert(ranges@.subrange(0, i + 1) =~= ranges@.subrange(0, i as int).push(r));
            lemma_encode_ranges_push(ranges@.subrange(0, i as int), r);
            assert(out@ =~= before + encode_entry(r));
        }
        i = i + 1;
    }
    assert(ranges@.subrange(0, ranges@.len() as int) =~= ranges@);
    out
}

} // verus!
