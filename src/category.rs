use vstd::prelude::*;

verus! {

/// A Unicode General Category, named by its two-letter code.
#[derive(Debug, Clone, Copy, PartialEq, Eq, Structural)]
pub enum Category {
    // Letters
    /// Uppercase letter.
    Lu,
    /// Lowercase letter.
    Ll,
    /// Titlecase letter.
    Lt,
    /// Modifier letter.
    Lm,
    /// Other letter.
    Lo,

    // Marks
    /// Nonspacing mark.
    Mn,
    /// Spacing combining mark.
    Mc,
    /// Enclosing mark.
    Me,

    // Numbers
    /// Decimal digit number.
    Nd,
    /// Letter number.
    Nl,
    /// Other number.
    No,

    // Punctuation
    /// Connector punctuation.
    Pc,
    /// Dash punctuation.
    Pd,
    /// Open punctuation.
    Ps,
    /// Close punctuation.
    Pe,
    /// Initial quote punctuation.
    Pi,
    /// Final quote punctuation.
    Pf,
    /// Other punctuation.
    Po,

    // Symbols
    /// Math symbol.
    Sm,
    /// Currency symbol.
    Sc,
    /// Modifier symbol.
    Sk,
    /// Other symbol.
    So,

    // Separators
    /// Space separator.
    Zs,
    /// Line separator.
    Zl,
    /// Paragraph separator.
    Zp,

    // Other
    /// Control.
    Cc,
    /// Format.
    Cf,
    /// Surrogate.
    Cs,
    /// Private use.
    Co,
    /// Not assigned.
    Cn,
}

/// The same General Categories under descriptive names.
#[derive(Debug, Clone, Copy, PartialEq, Eq, Structural)]
pub enum HumanReadableCategory {
    // Letters
    /// `Lu`
    LetterUppercase,
    /// `Ll`
    LetterLowercase,
    /// `Lt`
    LetterTitlecase,
    /// `Lm`
    LetterModifier,
    /// `Lo`
    LetterOther,

    // Marks
    /// `Mn`
    MarkNonspacing,
    /// `Mc`
    MarkSpacingCombining,
    /// `Me`
    MarkEnclosing,

    // Numbers
    /// `Nd`
    NumberDecimalDigit,
    /// `Nl`
    NumberLetter,
    /// `No`
    NumberOther,

    // Punctuation
    /// `Pc`
    PunctuationConnector,
    /// `Pd`
    PunctuationDash,
    /// `Ps`
    PunctuationOpen,
    /// `Pe`
    PunctuationClose,
    /// `Pi`
    PunctuationInnerQuote,
    /// `Pf`
    PunctuationFinalQuote,
    /// `Po`
    PunctuationOther,

    // Symbols
    /// `Sm`
    SymbolMath,
    /// `Sc`
    SymbolCurrency,
    /// `Sk`
    SymbolModifier,
    /// `So`
    SymbolOther,

    // Separators
    /// `Zs`
    SeperatorSpace,
    /// `Zl`
    SeperatorLine,
    /// `Zp`
    SeperatorParagraph,

    // Other
    /// `Cc`
    OtherControl,
    /// `Cf`
    OtherFormat,
    /// `Cs`
    OtherSurrogate,
    /// `Co`
    OtherPrivateUse,
    /// `Cn`
    OtherNotAssigned,
}

/// The category that a two-letter code names, if it names one.
pub open spec fn code_category(a: char, b: char) -> Option<Category> {
    match (a, b) {
        ('L', 'u') => Some(Category::Lu),
        ('L', 'l') => Some(Category::Ll),
        ('L', 't') => Some(Category::Lt),
        ('L', 'm') => Some(Category::Lm),
        ('L', 'o') => Some(Category::Lo),
        ('M', 'n') => Some(Category::Mn),
        ('M', 'c') => Some(Category::Mc),
        ('M', 'e') => Some(Category::Me),
        ('N', 'd') => Some(Category::Nd),
        ('N', 'l') => Some(Category::Nl),
        ('N', 'o') => Some(Category::No),
        ('P', 'c') => Some(Category::Pc),
        ('P', 'd') => Some(Category::Pd),
        ('P', 's') => Some(Category::Ps),
        ('P', 'e') => Some(Category::Pe),
        ('P', 'i') => Some(Category::Pi),
        ('P', 'f') => Some(Category::Pf),
        ('P', 'o') => Some(Category::Po),
        ('S', 'm') => Some(Category::Sm),
        ('S', 'c') => Some(Category::Sc),
        ('S', 'k') => Some(Category::Sk),
        ('S', 'o') => Some(Category::So),
        ('Z', 's') => Some(Category::Zs),
        ('Z', 'l') => Some(Category::Zl),
        ('Z', 'p') => Some(Category::Zp),
        ('C', 'c') => Some(Category::Cc),
        ('C', 'f') => Some(Category::Cf),
        ('C', 's') => Some(Category::Cs),
        ('C', 'o') => Some(Category::Co),
        ('C', 'n') => Some(Category::Cn),
        _ => None,
    }
}

/// The category that a string names, if it is one of the two-letter codes.
pub open spec fn category_from_code(s: Seq<char>) -> Option<Category> {
    if s.len() == 2 {
        code_category(s[0], s[1])
    } else {
        None
    }
}

/// The two-letter code of a category.
pub open spec fn code_of(c: Category) -> Seq<char> {
    match c {
        Category::Lu => seq!['L', 'u'],
        Category::Ll => seq!['L', 'l'],
        Category::Lt => seq!['L', 't'],
        Category::Lm => seq!['L', 'm'],
        Category::Lo => seq!['L', 'o'],
        Category::Mn => seq!['M', 'n'],
        Category::Mc => seq!['M', 'c'],
        Category::Me => seq!['M', 'e'],
        Category::Nd => seq!['N', 'd'],
        Category::Nl => seq!['N', 'l'],
        Category::No => seq!['N', 'o'],
        Category::Pc => seq!['P', 'c'],
        Category::Pd => seq!['P', 'd'],
        Category::Ps => seq!['P', 's'],
        Category::Pe => seq!['P', 'e'],
        Category::Pi => seq!['P', 'i'],
        Category::Pf => seq!['P', 'f'],
        Category::Po => seq!['P', 'o'],
        Category::Sm => seq!['S', 'm'],
        Category::Sc => seq!['S', 'c'],
        Category::Sk => seq!['S', 'k'],
        Category::So => seq!['S', 'o'],
        Category::Zs => seq!['Z', 's'],
        Category::Zl => seq!['Z', 'l'],
        Category::Zp => seq!['Z', 'p'],
        Category::Cc => seq!['C', 'c'],
        Category::Cf => seq!['C', 'f'],
        Category::Cs => seq!['C', 's'],
        Category::Co => seq!['C', 'o'],
        Category::Cn => seq!['C', 'n'],
    }
}

/// The descriptive name of a category.
pub open spec fn human_of(c: Category) -> HumanReadableCategory {
    match c {
        Category::Lu => HumanReadableCategory::LetterUppercase,
        Category::Ll => HumanReadableCategory::LetterLowercase,
        Category::Lt => HumanReadableCategory::LetterTitlecase,
        Category::Lm => HumanReadableCategory::LetterModifier,
        Category::Lo => HumanReadableCategory::LetterOther,
        Category::Mn => HumanReadableCategory::MarkNonspacing,
        Category::Mc => HumanReadableCategory::MarkSpacingCombining,
        Category::Me => HumanReadableCategory::MarkEnclosing,
        Category::Nd => HumanReadableCategory::NumberDecimalDigit,
        Category::Nl => HumanReadableCategory::NumberLetter,
        Category::No => HumanReadableCategory::NumberOther,
        Category::Pc => HumanReadableCategory::PunctuationConnector,
        Category::Pd => HumanReadableCategory::PunctuationDash,
        Category::Ps => HumanReadableCategory::PunctuationOpen,
        Category::Pe => HumanReadableCategory::PunctuationClose,
        Category::Pi => HumanReadableCategory::PunctuationInnerQuote,
        Category::Pf => HumanReadableCategory::PunctuationFinalQuote,
        Category::Po => HumanReadableCategory::PunctuationOther,
        Category::Sm => HumanReadableCategory::SymbolMath,
        Category::Sc => HumanReadableCategory::SymbolCurrency,
        Category::Sk => HumanReadableCategory::SymbolModifier,
        Category::So => HumanReadableCategory::SymbolOther,
        Category::Zs => HumanReadableCategory::SeperatorSpace,
        Category::Zl => HumanReadableCategory::SeperatorLine,
        Category::Zp => HumanReadableCategory::SeperatorParagraph,
        Category::Cc => HumanReadableCategory::OtherControl,
        Category::Cf => HumanReadableCategory::OtherFormat,
        Category::Cs => HumanReadableCategory::OtherSurrogate,
        Category::Co => HumanReadableCategory::OtherPrivateUse,
        Category::Cn => HumanReadableCategory::OtherNotAssigned,
    }
}

/// The category that a descriptive name stands for.
pub open spec fn category_of_human(h: HumanReadableCategory) -> Category {
    match h {
        HumanReadableCategory::LetterUppercase => Category::Lu,
        HumanReadableCategory::LetterLowercase => Category::Ll,
        HumanReadableCategory::LetterTitlecase => Category::Lt,
        HumanReadableCategory::LetterModifier => Category::Lm,
        HumanReadableCategory::LetterOther => Category::Lo,
        HumanReadableCategory::MarkNonspacing => Category::Mn,
        HumanReadableCategory::MarkSpacingCombining => Category::Mc,
        HumanReadableCategory::MarkEnclosing => Category::Me,
        HumanReadableCategory::NumberDecimalDigit => Category::Nd,
        HumanReadableCategory::NumberLetter => Category::Nl,
        HumanReadableCategory::NumberOther => Category::No,
        HumanReadableCategory::PunctuationConnector => Category::Pc,
        HumanReadableCategory::PunctuationDash => Category::Pd,
        HumanReadableCategory::PunctuationOpen => Category::Ps,
        HumanReadableCategory::PunctuationClose => Category::Pe,
        HumanReadableCategory::PunctuationInnerQuote => Category::Pi,
        HumanReadableCategory::PunctuationFinalQuote => Category::Pf,
        HumanReadableCategory::PunctuationOther => Category::Po,
        HumanReadableCategory::SymbolMath => Category::Sm,
        HumanReadableCategory::SymbolCurrency => Category::Sc,
        HumanReadableCategory::SymbolModifier => Category::Sk,
        HumanReadableCategory::SymbolOther => Category::So,
        HumanReadableCategory::SeperatorSpace => Category::Zs,
        HumanReadableCategory::SeperatorLine => Category::Zl,
        HumanReadableCategory::SeperatorParagraph => Category::Zp,
        HumanReadableCategory::OtherControl => Category::Cc,
        HumanReadableCategory::OtherFormat => Category::Cf,
        HumanReadableCategory::OtherSurrogate => Category::Cs,
        HumanReadableCategory::OtherPrivateUse => Category::Co,
        HumanReadableCategory::OtherNotAssigned => Category::Cn,
    }
}

impl Category {
    /// The category named by the code `a` followed by `b`.
    pub fn from_code_chars(a: char, b: char) -> (r: Option<Category>)
        ensures
            r == code_category(a, b),
    {
        match (a, b) {
            ('L', 'u') => Some(Category::Lu),
            ('L', 'l') => Some(Category::Ll),
            ('L', 't') => Some(Category::Lt),
            ('L', 'm') => Some(Category::Lm),
            ('L', 'o') => Some(Category::Lo),
            ('M', 'n') => Some(Category::Mn),
            ('M', 'c') => Some(Category::Mc),
            ('M', 'e') => Some(Category::Me),
            ('N', 'd') => Some(Category::Nd),
            ('N', 'l') => Some(Category::Nl),
            ('N', 'o') => Some(Category::No),
            ('P', 'c') => Some(Category::Pc),
            ('P', 'd') => Some(Category::Pd),
            ('P', 's') => Some(Category::Ps),
            ('P', 'e') => Some(Category::Pe),
            ('P', 'i') => Some(Category::Pi),
            ('P', 'f') => Some(Category::Pf),
            ('P', 'o') => Some(Category::Po),
            ('S', 'm') => Some(Category::Sm),
            ('S', 'c') => Some(Category::Sc),
            ('S', 'k') => Some(Category::Sk),
            ('S', 'o') => Some(Category::So),
            ('Z', 's') => Some(Category::Zs),
            ('Z', 'l') => Some(Category::Zl),
            ('Z', 'p') => Some(Category::Zp),
            ('C', 'c') => Some(Category::Cc),
            ('C', 'f') => Some(Category::Cf),
            ('C', 's') => Some(Category::Cs),
            ('C', 'o') => Some(Category::Co),
            ('C', 'n') => Some(Category::Cn),
            _ => None,
        }
    }

    /// Reads a two-letter category code; any other string gives `None`.
    pub fn from_category_str(category: &str) -> (r: Option<Category>)
        ensures
            r == category_from_code(category@),
    {
        if category.unicode_len() != 2 {
            return None;
        }
        let a = category.get_char(0);
        let b = category.get_char(1);
        Category::from_code_chars(a, b)
    }

    /// The two-letter code of this category.
    pub fn as_str(&self) -> (r: &'static str)
        ensures
            r@ == code_of(*self),
    {
        match self {
            Category::Lu => {
                proof {
                    reveal_strlit("Lu");
                }
                "Lu"
            },
            Category::Ll => {
                proof {
                    reveal_strlit("Ll");
                }
                "Ll"
            },
            Category::Lt => {
                proof {
                    reveal_strlit("Lt");
                }
                "Lt"
            },
            Category::Lm => {
                proof {
                    reveal_strlit("Lm");
                }
                "Lm"
            },
            Category::Lo => {
                proof {
                    reveal_strlit("Lo");
                }
                "Lo"
            },
            Category::Mn => {
                proof {
                    reveal_strlit("Mn");
                }
                "Mn"
            },
            Category::Mc => {
                proof {
                    reveal_strlit("Mc");
                }
                "Mc"
            },
            Category::Me => {
                proof {
                    reveal_strlit("Me");
                }
                "Me"
            },
            Category::Nd => {
                proof {
                    reveal_strlit("Nd");
                }
                "Nd"
            },
            Category::Nl => {
                proof {
                    reveal_strlit("Nl");
                }
                "Nl"
            },
            Category::No => {
                proof {
                    reveal_strlit("No");
                }
                "No"
            },
            Category::Pc => {
                proof {
                    reveal_strlit("Pc");
                }
                "Pc"
            },
            Category::Pd => {
                proof {
                    reveal_strlit("Pd");
                }
                "Pd"
            },
            Category::Ps => {
                proof {
                    reveal_strlit("Ps");
                }
                "Ps"
            },
            Category::Pe => {
                proof {
                    reveal_strlit("Pe");
                }
                "Pe"
            },
            Category::Pi => {
                proof {
                    reveal_strlit("Pi");
                }
                "Pi"
            },
            Category::Pf => {
                proof {
                    reveal_strlit("Pf");
                }
                "Pf"
            },
            Category::Po => {
                proof {
                    reveal_strlit("Po");
                }
                "Po"
            },
            Category::Sm => {
                proof {
                    reveal_strlit("Sm");
                }
                "Sm"
            },
            Category::Sc => {
                proof {
                    reveal_strlit("Sc");
                }
                "Sc"
            },
            Category::Sk => {
                proof {
                    reveal_strlit("Sk");
                }
                "Sk"
            },
            Category::So => {
                proof {
                    reveal_strlit("So");
                }
                "So"
            },
            Category::Zs => {
                proof {
                    reveal_strlit("Zs");
                }
                "Zs"
            },
            Category::Zl => {
                proof {
                    reveal_strlit("Zl");
                }
                "Zl"
            },
            Category::Zp => {
                proof {
                    reveal_strlit("Zp");
                }
                "Zp"
            },
            Category::Cc => {
                proof {
                    reveal_strlit("Cc");
                }
                "Cc"
            },
            Category::Cf => {
                proof {
                    reveal_strlit("Cf");
                }
                "Cf"
            },
            Category::Cs => {
                proof {
                    reveal_strlit("Cs");
                }
                "Cs"
            },
            Category::Co => {
                proof {
                    reveal_strlit("Co");
                }
                "Co"
            },
            Category::Cn => {
                proof {
                    reveal_strlit("Cn");
                }
                "Cn"
            },
        }
    }

    /// The two ASCII bytes of this category's code.
    pub fn code_bytes(&self) -> (r: (u8, u8))
        ensures
            r.0 == code_of(*self)[0] as u8,
            r.1 == code_of(*self)[1] as u8,
    {
        match self {
            Category::Lu => ('L' as u8, 'u' as u8),
            Category::Ll => ('L' as u8, 'l' as u8),
            Category::Lt => ('L' as u8, 't' as u8),
            Category::Lm => ('L' as u8, 'm' as u8),
            Category::Lo => ('L' as u8, 'o' as u8),
            Category::Mn => ('M' as u8, 'n' as u8),
            Category::Mc => ('M' as u8, 'c' as u8),
            Category::Me => ('M' as u8, 'e' as u8),
            Category::Nd => ('N' as u8, 'd' as u8),
            Category::Nl => ('N' as u8, 'l' as u8),
            Category::No => ('N' as u8, 'o' as u8),
            Category::Pc => ('P' as u8, 'c' as u8),
            Category::Pd => ('P' as u8, 'd' as u8),
            Category::Ps => ('P' as u8, 's' as u8),
            Category::Pe => ('P' as u8, 'e' as u8),
            Category::Pi => ('P' as u8, 'i' as u8),
            Category::Pf => ('P' as u8, 'f' as u8),
            Category::Po => ('P' as u8, 'o' as u8),
            Category::Sm => ('S' as u8, 'm' as u8),
            Category::Sc => ('S' as u8, 'c' as u8),
            Category::Sk => ('S' as u8, 'k' as u8),
            Category::So => ('S' as u8, 'o' as u8),
            Category::Zs => ('Z' as u8, 's' as u8),
            Category::Zl => ('Z' as u8, 'l' as u8),
            Category::Zp => ('Z' as u8, 'p' as u8),
            Category::Cc => ('C' as u8, 'c' as u8),
            Category::Cf => ('C' as u8, 'f' as u8),
            Category::Cs => ('C' as u8, 's' as u8),
            Category::Co => ('C' as u8, 'o' as u8),
            Category::Cn => ('C' as u8, 'n' as u8),
        }
    }
}

impl From<HumanReadableCategory> for Category {
    fn from(hrc: HumanReadableCategory) -> (r: Category)
        ensures
            r == category_of_human(hrc),
    {
        match hrc {
            HumanReadableCategory::LetterUppercase => Category::Lu,
            HumanReadableCategory::LetterLowercase => Category::Ll,
            HumanReadableCategory::LetterTitlecase => Category::Lt,
            HumanReadableCategory::LetterModifier => Category::Lm,
            HumanReadableCategory::LetterOther => Category::Lo,
            HumanReadableCategory::MarkNonspacing => Category::Mn,
            HumanReadableCategory::MarkSpacingCombining => Category::Mc,
            HumanReadableCategory::MarkEnclosing => Category::Me,
            HumanReadableCategory::NumberDecimalDigit => Category::Nd,
            HumanReadableCategory::NumberLetter => Category::Nl,
            HumanReadableCategory::NumberOther => Category::No,
            HumanReadableCategory::PunctuationConnector => Category::Pc,
            HumanReadableCategory::PunctuationDash => Category::Pd,
            HumanReadableCategory::PunctuationOpen => Category::Ps,
            HumanReadableCategory::PunctuationClose => Category::Pe,
            HumanReadableCategory::PunctuationInnerQuote => Category::Pi,
            HumanReadableCategory::PunctuationFinalQuote => Category::Pf,
            HumanReadableCategory::PunctuationOther => Category::Po,
            HumanReadableCategory::SymbolMath => Category::Sm,
            HumanReadableCategory::SymbolCurrency => Category::Sc,
            HumanReadableCategory::SymbolModifier => Category::Sk,
            HumanReadableCategory::SymbolOther => Category::So,
            HumanReadableCategory::SeperatorSpace => Category::Zs,
            HumanReadableCategory::SeperatorLine => Category::Zl,
            HumanReadableCategory::SeperatorParagraph => Category::Zp,
            HumanReadableCategory::OtherControl => Category::Cc,
            HumanReadableCategory::OtherFormat => Category::Cf,
            HumanReadableCategory::OtherSurrogate => Category::Cs,
            HumanReadableCategory::OtherPrivateUse => Category::Co,
            HumanReadableCategory::OtherNotAssigned => Category::Cn,
        }
    }
}

impl vstd::std_specs::convert::FromSpecImpl<HumanReadableCategory> for Category {
    open spec fn obeys_from_spec() -> bool {
        true
    }

    open spec fn from_spec(v: HumanReadableCategory) -> Category {
        category_of_human(v)
    }
}

impl From<Category> for HumanReadableCategory {
    fn from(cat: Category) -> (r: HumanReadableCategory)
        ensures
            r == human_of(cat),
    {
        match cat {
            Category::Lu => HumanReadableCategory::LetterUppercase,
            Category::Ll => HumanReadableCategory::LetterLowercase,
            Category::Lt => HumanReadableCategory::LetterTitlecase,
            Category::Lm => HumanReadableCategory::LetterModifier,
            Category::Lo => HumanReadableCategory::LetterOther,
            Category::Mn => HumanReadableCategory::MarkNonspacing,
            Category::Mc => HumanReadableCategory::MarkSpacingCombining,
            Category::Me => HumanReadableCategory::MarkEnclosing,
            Category::Nd => HumanReadableCategory::NumberDecimalDigit,
            Category::Nl => HumanReadableCategory::NumberLetter,
            Category::No => HumanReadableCategory::NumberOther,
            Category::Pc => HumanReadableCategory::PunctuationConnector,
            Category::Pd => HumanReadableCategory::PunctuationDash,
            Category::Ps => HumanReadableCategory::PunctuationOpen,
            Category::Pe => HumanReadableCategory::PunctuationClose,
            Category::Pi => HumanReadableCategory::PunctuationInnerQuote,
            Category::Pf => HumanReadableCategory::PunctuationFinalQuote,
            Category::Po => HumanReadableCategory::PunctuationOther,
            Category::Sm => HumanReadableCategory::SymbolMath,
            Category::Sc => HumanReadableCategory::SymbolCurrency,
            Category::Sk => HumanReadableCategory::SymbolModifier,
            Category::So => HumanReadableCategory::SymbolOther,
            Category::Zs => HumanReadableCategory::SeperatorSpace,
            Category::Zl => HumanReadableCategory::SeperatorLine,
            Category::Zp => HumanReadableCategory::SeperatorParagraph,
            Category::Cc => HumanReadableCategory::OtherControl,
            Category::Cf => HumanReadableCategory::OtherFormat,
            Category::Cs => HumanReadableCategory::OtherSurrogate,
            Category::Co => HumanReadableCategory::OtherPrivateUse,
            Category::Cn => HumanReadableCategory::OtherNotAssigned,
        }
    }
}

impl vstd::std_specs::convert::FromSpecImpl<Category> for HumanReadableCategory {
    open spec fn obeys_from_spec() -> bool {
        true
    }

    open spec fn from_spec(v: Category) -> HumanReadableCategory {
        human_of(v)
    }
}

/// Turning a category into its descriptive name and back gives the category again.
pub proof fn lemma_category_human_round_trip(c: Category)
    ensures
        category_of_human(human_of(c)) == c,
{
}

/// Turning a descriptive name into its category and back gives the name again.
pub proof fn lemma_human_category_round_trip(h: HumanReadableCategory)
    ensures
        human_of(category_of_human(h)) == h,
{
}

/// Reading the code of a category gives that category back.
pub proof fn lemma_code_round_trip(c: Category)
    ensures
        category_from_code(code_of(c)) == Some(c),
{
}

/// A string reads as a category only when it is that category's code, so every
/// string outside the codes reads as `None`.
pub proof fn lemma_only_codes_read(s: Seq<char>)
    ensures
        category_from_code(s) matches Some(c) ==> s == code_of(c),
        (forall|c: Category| s != #[trigger] code_of(c)) ==> category_from_code(s) is None,
{
    if let Some(c) = category_from_code(s) {
        assert(s =~= code_of(c));
    }
}

} // verus!
