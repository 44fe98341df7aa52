use unicode_categories::{
    Category, Range, Record, build_ranges, compress, encode_table, generate_table, lookup_encoded, parse_dataset,
    parse_line, resolve, resolve_ordered,
};

fn rec(code_point: u32, category: Category) -> Record {
    Record { code_point, category }
}

fn range(start: u32, end: u32, category: Category) -> Range {
    Range { start, end, category }
}

#[test]
fn parses_a_database_line() {
    let line = "0041;LATIN CAPITAL LETTER A;Lu;0;L;;;;;N;;;;;";
    assert_eq!(Some(rec(0x41, Category::Lu)), parse_line(line.as_bytes()));
    let line = "0061;LATIN SMALL LETTER A;Ll;0;L;;;;;N;;;;0041;;0041";
    assert_eq!(Some(rec(0x61, Category::Ll)), parse_line(line.as_bytes()));
    assert_eq!(Some(rec(0x10FFFD, Category::Co)), parse_line(b"10FFFD;<Plane 16 Private Use, Last>;Co;0;L;;;;;N;;;;;"));
    assert_eq!(Some(rec(0xabc, Category::Nd)), parse_line(b"abc;x;Nd"));
}

#[test]
fn drops_malformed_lines() {
    assert_eq!(None, parse_line(b"00G1;BAD;Lu;0;L;;;;;N;;;;;"));
    assert_eq!(None, parse_line(b";EMPTY CODE POINT;Lu"));
    assert_eq!(None, parse_line(b"0041;LATIN CAPITAL LETTER A;Qq;0;L"));
    assert_eq!(None, parse_line(b"0041;LATIN CAPITAL LETTER A;Lux"));
    assert_eq!(None, parse_line(b"0041;LATIN CAPITAL LETTER A"));
    assert_eq!(None, parse_line(b"0041"));
    assert_eq!(None, parse_line(b""));
    assert_eq!(None, parse_line(b"100000000;TOO LARGE;Lu"));
    assert_eq!(Some(rec(0xFFFF_FFFF, Category::Lu)), parse_line(b"FFFFFFFF;LARGEST;Lu"));
}

#[test]
fn parses_a_database_in_file_order() {
    let data = b"0041;A;Lu;0\n0042;B;Lu\nzz;BAD;Lu\n0043;C;Qq\n0061;a;Ll;;\n";
    assert_eq!(
        vec![rec(0x41, Category::Lu), rec(0x42, Category::Lu), rec(0x61, Category::Ll)],
        parse_dataset(data)
    );
    assert_eq!(Vec::<Record>::new(), parse_dataset(b""));
    assert_eq!(vec![rec(0x30, Category::Nd)], parse_dataset(b"0030;DIGIT ZERO;Nd"));
}

#[test]
fn compresses_runs_and_keeps_gaps() {
    let records = vec![
        rec(0xAA, Category::Lo),
        rec(0xAB, Category::Lo),
        rec(0xAD, Category::Lo),
    ];
    assert_eq!(
        vec![range(0xAA, 0xAB, Category::Lo), range(0xAD, 0xAD, Category::Lo)],
        compress(&records)
    );
}

#[test]
fn compresses_category_changes_into_new_ranges() {
    let records = vec![
        rec(0x41, Category::Lu),
        rec(0x42, Category::Lu),
        rec(0x43, Category::Ll),
        rec(0x44, Category::Lu),
    ];
    assert_eq!(
        vec![range(0x41, 0x42, Category::Lu), range(0x43, 0x43, Category::Ll), range(0x44, 0x44, Category::Lu)],
        compress(&records)
    );
    assert_eq!(Vec::<Range>::new(), compress(&[]));
    assert_eq!(vec![range(7, 7, Category::Cc)], compress(&[rec(7, Category::Cc)]));
}

#[test]
fn resolves_in_compressed_ranges() {
    let data = b"0041;A;Lu\n0042;B;Lu\n0044;D;Lu\nxyz;bad;Lu\n0045;E;Ll\n";
    let ranges = compress(&parse_dataset(data));
    assert_eq!(Some(Category::Lu), resolve(&ranges, 0x41));
    assert_eq!(Some(Category::Lu), resolve(&ranges, 0x42));
    assert_eq!(None, resolve(&ranges, 0x43));
    assert_eq!(Some(Category::Lu), resolve(&ranges, 0x44));
    assert_eq!(Some(Category::Ll), resolve(&ranges, 0x45));
    assert_eq!(None, resolve(&ranges, 0x46));
    assert_eq!(None, resolve(&ranges, 0));
}

#[test]
fn encodes_ranges_as_fixed_entries() {
    let ranges = vec![range(0x41, 0x5A, Category::Lu), range(0x10FFFD, 0xFFFF_FFFF, Category::Co)];
    assert_eq!(b"000000410000005ALu0010FFFDFFFFFFFFCo".to_vec(), encode_table(&ranges));
    assert_eq!(Vec::<u8>::new(), encode_table(&[]));
}

#[test]
fn encoded_table_looks_up_like_the_ranges() {
    let data = b"0000;NULL;Cc\n0001;SOH;Cc\n0030;ZERO;Nd\n0031;ONE;Nd\n0041;A;Lu\n00E000;PUA;Co\n00F8FF;PUA;Co\n";
    let ranges = compress(&parse_dataset(data));
    let table = encode_table(&ranges);
    for cp in [0u32, 1, 2, 0x2F, 0x30, 0x31, 0x32, 0x41, 0x42, 0xE000, 0xE001, 0xF8FF, 0x10FFFF] {
        assert_eq!(resolve(&ranges, cp), lookup_encoded(&table, cp));
    }
    assert_eq!(Some(Category::Nd), lookup_encoded(&table, 0x31));
    assert_eq!(None, lookup_encoded(&table, 0xE001));
}

#[test]
fn encoded_lookup_reads_entries_in_order() {
    assert_eq!(Some(Category::Lu), lookup_encoded(b"000000410000005ALu", 0x41));
    assert_eq!(None, lookup_encoded(b"000000410000005ALu", 0x5B));
    // an incomplete entry is no entry
    assert_eq!(None, lookup_encoded(b"000000410000005AL", 0x41));
    // the first entry that holds the code point decides
    assert_eq!(Some(Category::Ll), lookup_encoded(b"000000410000005ALl000000410000005ALu", 0x41));
    // an entry whose category is unknown gives none
    assert_eq!(None, lookup_encoded(b"000000410000005AQq", 0x41));
}

#[test]
fn binary_search_agrees_with_the_scan() {
    let data = b"0000;NULL;Cc\n0001;SOH;Cc\n0030;ZERO;Nd\n0031;ONE;Nd\n0041;A;Lu\n0042;B;Lu\n0043;C;Ll\n00E000;PUA;Co\n00F8FF;PUA;Co\n";
    let ranges = build_ranges(data);
    assert_eq!(6, ranges.len());
    for cp in 0u32..0x100 {
        assert_eq!(resolve(&ranges, cp), resolve_ordered(&ranges, cp));
    }
    for cp in [0xDFFFu32, 0xE000, 0xE001, 0xF8FE, 0xF8FF, 0xF900, 0xFFFF_FFFF] {
        assert_eq!(resolve(&ranges, cp), resolve_ordered(&ranges, cp));
    }
    assert_eq!(Some(Category::Ll), resolve_ordered(&ranges, 0x43));
    assert_eq!(None, resolve_ordered(&ranges, 0x44));
    assert_eq!(None, resolve_ordered(&[], 0x44));
}

#[test]
fn generated_table_resolves_listed_code_points_only() {
    let data = b"0041;LATIN CAPITAL LETTER A;Lu;0;L;;;;;N;;;;;\n0042;LATIN CAPITAL LETTER B;Lu;0;L;;;;;N;;;;;\n0060;GRAVE ACCENT;Sk;0;ON;;;;;N;;;;;\n0061;LATIN SMALL LETTER A;Ll;0;L;;;;;N;;;;0041;;0041\n";
    let table = generate_table(data);
    assert_eq!(b"0000004100000042Lu0000006000000060Sk0000006100000061Ll".to_vec(), table);
    assert_eq!(Some(Category::Lu), lookup_encoded(&table, 0x41));
    assert_eq!(Some(Category::Ll), lookup_encoded(&table, 0x61));
    assert_eq!(None, lookup_encoded(&table, 0x43));
    assert_eq!(None, lookup_encoded(&table, 0x62));
}
