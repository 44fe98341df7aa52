use unicode_categories::table::{
    UNICODE_TABLE_0, UNICODE_TABLE_1, UNICODE_TABLE_2, UNICODE_TABLE_3, UNICODE_TABLE_4, UNICODE_TABLE_5,
    UNICODE_TABLE_6, UNICODE_TABLE_7, UNICODE_TABLE_8,
};
use unicode_categories::{Category, HumanReadableCategory, UnicodeCategorizable, unicode_category_from_char};

const ALL: [Category; 30] = [
    Category::Lu,
    Category::Ll,
    Category::Lt,
    Category::Lm,
    Category::Lo,
    Category::Mn,
    Category::Mc,
    Category::Me,
    Category::Nd,
    Category::Nl,
    Category::No,
    Category::Pc,
    Category::Pd,
    Category::Ps,
    Category::Pe,
    Category::Pi,
    Category::Pf,
    Category::Po,
    Category::Sm,
    Category::Sc,
    Category::Sk,
    Category::So,
    Category::Zs,
    Category::Zl,
    Category::Zp,
    Category::Cc,
    Category::Cf,
    Category::Cs,
    Category::Co,
    Category::Cn,
];

#[test]
fn should_map_letter_characters_to_letter_category() {
    let upper = 'A';
    let upper_cat = unicode_category_from_char(upper);
    let lower = 'a';
    let lower_cat = unicode_category_from_char(lower);

    assert_eq!(Some(Category::Lu), upper_cat);
    assert_eq!(
        Some(HumanReadableCategory::LetterUppercase),
        upper_cat.map(HumanReadableCategory::from)
    );
    assert_eq!(Some(Category::Ll), lower_cat);
    assert_eq!(
        Some(HumanReadableCategory::LetterLowercase),
        lower_cat.map(HumanReadableCategory::from)
    );
}

#[test]
fn should_map_letter_category_for_extention_trait() {
    assert_eq!(Some(Category::Lu), 'A'.unicode_category());
    assert_eq!(Some(Category::Ll), 'a'.unicode_category());
}

#[test]
fn built_in_table_covers_other_categories() {
    assert_eq!(Some(Category::Nd), unicode_category_from_char('7'));
    assert_eq!(Some(Category::Zs), unicode_category_from_char(' '));
    assert_eq!(Some(Category::Cc), unicode_category_from_char('\n'));
    assert_eq!(Some(Category::Po), unicode_category_from_char('!'));
    assert_eq!(Some(Category::Sc), unicode_category_from_char('$'));
    assert_eq!(Some(Category::Lu), unicode_category_from_char('\u{0394}'));
    assert_eq!(Some(Category::Mn), unicode_category_from_char('\u{0301}'));
    assert_eq!(Some(Category::So), unicode_category_from_char('\u{1F600}'));
}

#[test]
fn built_in_table_leaves_unlisted_code_points_out() {
    // unassigned
    assert_eq!(None, unicode_category_from_char('\u{0378}'));
    assert_eq!(None, unicode_category_from_char('\u{10FFFF}'));
    // a private-use range is listed by its first and last code point only
    assert_eq!(Some(Category::Co), unicode_category_from_char('\u{E000}'));
    assert_eq!(None, unicode_category_from_char('\u{E001}'));
    assert_eq!(Some(Category::Co), unicode_category_from_char('\u{F8FF}'));
    assert_eq!(Some(Category::Lo), unicode_category_from_char('\u{4E00}'));
    assert_eq!(None, unicode_category_from_char('\u{4E01}'));
}

#[test]
fn category_codes_round_trip() {
    for c in ALL {
        assert_eq!(Some(c), Category::from_category_str(c.as_str()));
        assert_eq!(2, c.as_str().len());
    }
    assert_eq!("Lu", Category::Lu.as_str());
    assert_eq!("Nd", Category::Nd.as_str());
    assert_eq!("Cn", Category::Cn.as_str());
}

#[test]
fn unknown_codes_read_as_none() {
    assert_eq!(None, Category::from_category_str(""));
    assert_eq!(None, Category::from_category_str("L"));
    assert_eq!(None, Category::from_category_str("Lux"));
    assert_eq!(None, Category::from_category_str("lu"));
    assert_eq!(None, Category::from_category_str("Xx"));
    assert_eq!(None, Category::from_category_str("LC"));
    assert_eq!(Some(Category::Zp), Category::from_category_str("Zp"));
}

#[test]
fn human_readable_names_round_trip() {
    for c in ALL {
        assert_eq!(c, Category::from(HumanReadableCategory::from(c)));
    }
    assert_eq!(Category::Lu, Category::from(HumanReadableCategory::LetterUppercase));
    assert_eq!(HumanReadableCategory::OtherNotAssigned, HumanReadableCategory::from(Category::Cn));
    assert_eq!(HumanReadableCategory::NumberDecimalDigit, HumanReadableCategory::from(Category::Nd));
}

#[test]
fn code_bytes_are_the_code() {
    for c in ALL {
        let (a, b) = c.code_bytes();
        assert_eq!(c.as_str().as_bytes(), &[a, b]);
    }
}

#[test]
fn built_in_table_is_ordered_and_coalesced() {
    let parts = [
        UNICODE_TABLE_0,
        UNICODE_TABLE_1,
        UNICODE_TABLE_2,
        UNICODE_TABLE_3,
        UNICODE_TABLE_4,
        UNICODE_TABLE_5,
        UNICODE_TABLE_6,
        UNICODE_TABLE_7,
        UNICODE_TABLE_8,
    ];
    let mut previous: Option<(u32, Category)> = None;
    let mut entries = 0;
    for part in parts {
        assert_eq!(0, part.len() % 18);
        for entry in part.as_bytes().chunks(18) {
            let entry = std::str::from_utf8(entry).unwrap();
            let start = u32::from_str_radix(&entry[0..8], 16).unwrap();
            let end = u32::from_str_radix(&entry[8..16], 16).unwrap();
            let category = Category::from_category_str(&entry[16..18]).unwrap();
            assert!(start <= end);
            if let Some((last_end, last_category)) = previous {
                assert!(last_end < start);
                assert!(!(last_end + 1 == start && last_category == category));
            }
            if entries % 16 == 0 {
                if let Some(ch) = char::from_u32(end) {
                    assert_eq!(Some(category), unicode_category_from_char(ch));
                }
            }
            previous = Some((end, category));
            entries += 1;
        }
    }
    assert_eq!(3321, entries);
}
