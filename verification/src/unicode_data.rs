//! The embedded character property dataset and its typed decoding.
//!
//! The dataset is a fixed, build-time table derived from one reference
//! character database release: a list of disjoint code-point ranges, each mapping to
//! one shared [`Record`] of decoded properties, plus the sorted pair tables
//! for brackets, bidi mirrors, canonical/compatibility decompositions,
//! pairwise composition and OpenType script tags. Code points outside every
//! range resolve to the default record at index 0.

use vstd::prelude::*;

use crate::search::adjacent_ranges_wf;
use crate::search::adjacent_sorted_by_key;
use crate::search::adjacent_sorted_by_key64;
use crate::search::adjacent_sorted_by_second;
use crate::search::lemma_adjacent_ranges_wf;
use crate::search::lemma_adjacent_sorted_by_key;
use crate::search::lemma_adjacent_sorted_by_key64;
use crate::search::lemma_adjacent_sorted_by_second;
use crate::search::ranges_wf;
use crate::search::sorted_by_key;
use crate::search::sorted_by_key64;
use crate::search::sorted_by_second;
use crate::search::spec_find_range;
use crate::search::spec_lookup64;
use crate::search::lemma_lookup64_is_entry;
use crate::search::lemma_find_range_is_entry;
use crate::search::find_range;
use crate::valid_scalar;

verus! {

/// General category of a character.
#[derive(Clone, Copy, PartialEq, Eq, Structural, Debug)]
pub enum Category {
    Lu,
    Ll,
    Lt,
    Lm,
    Lo,
    Mn,
    Mc,
    Me,
    Nd,
    Nl,
    No,
    Pc,
    Pd,
    Ps,
    Pe,
    Pi,
    Pf,
    Po,
    Sm,
    Sc,
    Sk,
    So,
    Zs,
    Zl,
    Zp,
    Cc,
    Cf,
    Cs,
    Co,
    Cn,
}

/// The block of the dataset that contains a character.
#[derive(Clone, Copy, PartialEq, Eq, Structural, Debug)]
pub enum Block {
    Unknown,
    BasicLatin,
    Latin1Supplement,
    LatinExtended,
    CombiningDiacriticalMarks,
    GreekAndCoptic,
    Hebrew,
    Arabic,
    Devanagari,
    Myanmar,
    HangulJamo,
    GeneralPunctuation,
    LetterlikeSymbols,
    MiscellaneousTechnical,
    CjkSymbolsAndPunctuation,
    HangulSyllables,
    VariationSelectors,
    HalfwidthAndFullwidthForms,
    Emoticons,
}

/// Script to which a character belongs.
#[derive(Clone, Copy, PartialEq, Eq, Structural, Debug)]
pub enum Script {
    Adlam,
    Arabic,
    Bengali,
    Common,
    Cyrillic,
    Devanagari,
    Greek,
    Han,
    Hangul,
    Hebrew,
    Hiragana,
    Inherited,
    Katakana,
    Latin,
    Mandaic,
    Manichaean,
    Mongolian,
    Myanmar,
    Nko,
    PhagsPa,
    PsalterPahlavi,
    Syriac,
    Thai,
    Unknown,
}

/// Bidirectional class of a character.
#[derive(Clone, Copy, PartialEq, Eq, Structural, Debug)]
pub enum BidiClass {
    AL,
    AN,
    B,
    BN,
    CS,
    EN,
    ES,
    ET,
    FSI,
    L,
    LRE,
    LRI,
    LRO,
    NSM,
    ON,
    PDF,
    PDI,
    R,
    RLE,
    RLI,
    RLO,
    S,
    WS,
}

/// Cursive joining type of a character.
#[derive(Clone, Copy, PartialEq, Eq, Structural, Debug)]
pub enum JoiningType {
    U,
    C,
    D,
    L,
    R,
    T,
}

/// Cluster break property of a character.
#[derive(Clone, Copy, PartialEq, Eq, Structural, Debug)]
pub enum ClusterBreak {
    Any,
    Cr,
    Lf,
    Control,
    Extend,
    Zwj,
    RegionalIndicator,
    Prepend,
    SpacingMark,
    L,
    V,
    T,
    LV,
    LVT,
}

/// Word break property of a character.
#[derive(Clone, Copy, PartialEq, Eq, Structural, Debug)]
pub enum WordBreak {
    Other,
    Cr,
    Lf,
    Newline,
    Extend,
    Zwj,
    RegionalIndicator,
    Format,
    Katakana,
    HebrewLetter,
    ALetter,
    SingleQuote,
    DoubleQuote,
    MidNumLet,
    MidLetter,
    MidNum,
    Numeric,
    ExtendNumLet,
    WSegSpace,
}

/// Line break property of a character.
#[derive(Clone, Copy, PartialEq, Eq, Structural, Debug)]
pub enum LineBreak {
    AL,
    BA,
    BK,
    CL,
    CM,
    CP,
    CR,
    EX,
    GL,
    HY,
    ID,
    IS,
    LF,
    NU,
    OP,
    PO,
    PR,
    QU,
    SA,
    SP,
    ZW,
    ZWJ,
}

/// Universal shaping engine class of a character.
#[derive(Clone, Copy, PartialEq, Eq, Structural, Debug)]
pub enum UseClass {
    O,
    B,
    H,
    Zwj,
}

/// Myanmar shaping class of a character.
#[derive(Clone, Copy, PartialEq, Eq, Structural, Debug)]
pub enum MyanmarClass {
    O,
    C,
    V,
}

/// Flag bit: the character is an emoji.
pub const FLAG_EMOJI: u16 = 0x01;

/// Flag bit: the character is an extended pictographic symbol.
pub const FLAG_EXTENDED_PICTOGRAPHIC: u16 = 0x02;

/// Flag bit: the character is an opening bracket.
pub const FLAG_OPEN_BRACKET: u16 = 0x04;

/// Flag bit: the character is a closing bracket.
pub const FLAG_CLOSE_BRACKET: u16 = 0x08;

/// Flag bit: the character is default-ignorable.
pub const FLAG_IGNORABLE: u16 = 0x10;

/// Flag bit: the character is a variation selector.
pub const FLAG_VARIATION_SELECTOR: u16 = 0x20;

/// Flag bit: the character takes part in shape selection.
pub const FLAG_CONTRIBUTES_TO_SHAPING: u16 = 0x40;

/// Flag bit: the character should be decomposed before shaping.
pub const FLAG_NEEDS_DECOMP: u16 = 0x80;

/// True when `mask` is set in the flag bitset `flags`.
pub open spec fn spec_flag(flags: u16, mask: u16) -> bool {
    flags & mask != 0
}

/// Decoded property record shared by every code point with one behavior.
#[derive(Clone, Copy, PartialEq, Eq, Structural, Debug)]
pub struct Record {
    /// General category.
    pub category: Category,
    /// Containing block.
    pub block: Block,
    /// Script.
    pub script: Script,
    /// Canonical combining class.
    pub combining_class: u8,
    /// Bidirectional class.
    pub bidi_class: BidiClass,
    /// Cursive joining type.
    pub joining_type: JoiningType,
    /// Cluster break property.
    pub cluster_break: ClusterBreak,
    /// Word break property.
    pub word_break: WordBreak,
    /// Line break property.
    pub line_break: LineBreak,
    /// Universal shaping engine class.
    pub use_class: UseClass,
    /// Myanmar shaping class.
    pub myanmar_class: MyanmarClass,
    /// Flag bitset (`FLAG_*`).
    pub flags: u16,
}

impl Record {
    /// True when the emoji flag is set.
    pub fn is_emoji(&self) -> (r: bool)
        ensures
            r == spec_flag(self.flags, FLAG_EMOJI),
    {
        self.flags & FLAG_EMOJI != 0
    }

    /// True when the extended pictographic flag is set.
    pub fn is_extended_pictographic(&self) -> (r: bool)
        ensures
            r == spec_flag(self.flags, FLAG_EXTENDED_PICTOGRAPHIC),
    {
        self.flags & FLAG_EXTENDED_PICTOGRAPHIC != 0
    }

    /// True when the opening bracket flag is set.
    pub fn is_open_bracket(&self) -> (r: bool)
        ensures
            r == spec_flag(self.flags, FLAG_OPEN_BRACKET),
    {
        self.flags & FLAG_OPEN_BRACKET != 0
    }

    /// True when the closing bracket flag is set.
    pub fn is_close_bracket(&self) -> (r: bool)
        ensures
            r == spec_flag(self.flags, FLAG_CLOSE_BRACKET),
    {
        self.flags & FLAG_CLOSE_BRACKET != 0
    }

    /// True when the default-ignorable flag is set.
    pub fn is_ignorable(&self) -> (r: bool)
        ensures
            r == spec_flag(self.flags, FLAG_IGNORABLE),
    {
        self.flags & FLAG_IGNORABLE != 0
    }

    /// True when the variation selector flag is set.
    pub fn is_variation_selector(&self) -> (r: bool)
        ensures
            r == spec_flag(self.flags, FLAG_VARIATION_SELECTOR),
    {
        self.flags & FLAG_VARIATION_SELECTOR != 0
    }

    /// True when the shaping contribution flag is set.
    pub fn contributes_to_shaping(&self) -> (r: bool)
        ensures
            r == spec_flag(self.flags, FLAG_CONTRIBUTES_TO_SHAPING),
    {
        self.flags & FLAG_CONTRIBUTES_TO_SHAPING != 0
    }

    /// True when the decomposition-before-shaping flag is set.
    pub fn needs_decomp(&self) -> (r: bool)
        ensures
            r == spec_flag(self.flags, FLAG_NEEDS_DECOMP),
    {
        self.flags & FLAG_NEEDS_DECOMP != 0
    }
}

/// Number of records in the dataset.
pub const RECORD_COUNT: usize = 38;

/// The record table: one decoded property record per behavior class.
pub open spec fn records_spec() -> Seq<Record> {
    seq![
        Record {
            category: Category::Cn,
            block: Block::Unknown,
            script: Script::Unknown,
            combining_class: 0,
            bidi_class: BidiClass::L,
            joining_type: JoiningType::U,
            cluster_break: ClusterBreak::Any,
            word_break: WordBreak::Other,
            line_break: LineBreak::AL,
            use_class: UseClass::O,
            myanmar_class: MyanmarClass::O,
            flags: 0,
        },
        Record {
            category: Category::Cc,
            block: Block::BasicLatin,
            script: Script::Common,
            combining_class: 0,
            bidi_class: BidiClass::BN,
            joining_type: JoiningType::U,
            cluster_break: ClusterBreak::Control,
            word_break: WordBreak::Other,
            line_break: LineBreak::CM,
            use_class: UseClass::O,
            myanmar_class: MyanmarClass::O,
            flags: 0,
        },
        Record {
            category: Category::Cc,
            block: Block::BasicLatin,
            script: Script::Common,
            combining_class: 0,
            bidi_class: BidiClass::B,
            joining_type: JoiningType::U,
            cluster_break: ClusterBreak::Lf,
            word_break: WordBreak::Lf,
            line_break: LineBreak::LF,
            use_class: UseClass::O,
            myanmar_class: MyanmarClass::O,
            flags: 0,
        },
        Record {
            category: Category::Cc,
            block: Block::BasicLatin,
            script: Script::Common,
            combining_class: 0,
            bidi_class: BidiClass::B,
            joining_type: JoiningType::U,
            cluster_break: ClusterBreak::Cr,
            word_break: WordBreak::Cr,
            line_break: LineBreak::CR,
            use_class: UseClass::O,
            myanmar_class: MyanmarClass::O,
            flags: 0,
        },
        Record {
            category: Category::Zs,
            block: Block::BasicLatin,
            script: Script::Common,
            combining_class: 0,
            bidi_class: BidiClass::WS,
            joining_type: JoiningType::U,
            cluster_break: ClusterBreak::Any,
            word_break: WordBreak::WSegSpace,
            line_break: LineBreak::SP,
            use_class: UseClass::O,
            myanmar_class: MyanmarClass::O,
            flags: 0,
        },
        Record {
            category: Category::Ps,
            block: Block::BasicLatin,
            script: Script::Common,
            combining_class: 0,
            bidi_class: BidiClass::ON,
            joining_type: JoiningType::U,
            cluster_break: ClusterBreak::Any,
            word_break: WordBreak::Other,
            line_break: LineBreak::OP,
            use_class: UseClass::O,
            myanmar_class: MyanmarClass::O,
            flags: 4,
        },
        Record {
            category: Category::Pe,
            block: Block::BasicLatin,
            script: Script::Common,
            combining_class: 0,
            bidi_class: BidiClass::ON,
            joining_type: JoiningType::U,
            cluster_break: ClusterBreak::Any,
            word_break: WordBreak::Other,
            line_break: LineBreak::CP,
            use_class: UseClass::O,
            myanmar_class: MyanmarClass::O,
            flags: 8,
        },
        Record {
            category: Category::Nd,
            block: Block::BasicLatin,
            script: Script::Common,
            combining_class: 0,
            bidi_class: BidiClass::EN,
            joining_type: JoiningType::U,
            cluster_break: ClusterBreak::Any,
            word_break: WordBreak::Numeric,
            line_break: LineBreak::NU,
            use_class: UseClass::O,
            myanmar_class: MyanmarClass::O,
            flags: 0,
        },
        Record {
            category: Category::Lu,
            block: Block::BasicLatin,
            script: Script::Latin,
            combining_class: 0,
            bidi_class: BidiClass::L,
            joining_type: JoiningType::U,
            cluster_break: ClusterBreak::Any,
            word_break: WordBreak::ALetter,
            line_break: LineBreak::AL,
            use_class: UseClass::O,
            myanmar_class: MyanmarClass::O,
            flags: 0,
        },
        Record {
            category: Category::Ll,
            block: Block::BasicLatin,
            script: Script::Latin,
            combining_class: 0,
            bidi_class: BidiClass::L,
            joining_type: JoiningType::U,
            cluster_break: ClusterBreak::Any,
            word_break: WordBreak::ALetter,
            line_break: LineBreak::AL,
            use_class: UseClass::O,
            myanmar_class: MyanmarClass::O,
            flags: 0,
        },
        Record {
            category: Category::Sm,
            block: Block::BasicLatin,
            script: Script::Common,
            combining_class: 0,
            bidi_class: BidiClass::ON,
            joining_type: JoiningType::U,
            cluster_break: ClusterBreak::Any,
            word_break: WordBreak::Other,
            line_break: LineBreak::AL,
            use_class: UseClass::O,
            myanmar_class: MyanmarClass::O,
            flags: 0,
        },
        Record {
            category: Category::Lu,
            block: Block::Latin1Supplement,
            script: Script::Latin,
            combining_class: 0,
            bidi_class: BidiClass::L,
            joining_type: JoiningType::U,
            cluster_break: ClusterBreak::Any,
            word_break: WordBreak::ALetter,
            line_break: LineBreak::AL,
            use_class: UseClass::O,
            myanmar_class: MyanmarClass::O,
            flags: 128,
        },
        Record {
            category: Category::Ll,
            block: Block::Latin1Supplement,
            script: Script::Latin,
            combining_class: 0,
            bidi_class: BidiClass::L,
            joining_type: JoiningType::U,
            cluster_break: ClusterBreak::Any,
            word_break: WordBreak::ALetter,
            line_break: LineBreak::AL,
            use_class: UseClass::O,
            myanmar_class: MyanmarClass::O,
            flags: 128,
        },
        Record {
            category: Category::Lu,
            block: Block::LatinExtended,
            script: Script::Latin,
            combining_class: 0,
            bidi_class: BidiClass::L,
            joining_type: JoiningType::U,
            cluster_break: ClusterBreak::Any,
            word_break: WordBreak::ALetter,
            line_break: LineBreak::AL,
            use_class: UseClass::O,
            myanmar_class: MyanmarClass::O,
            flags: 128,
        },
        Record {
            category: Category::Mn,
            block: Block::CombiningDiacriticalMarks,
            script: Script::Inherited,
            combining_class: 230,
            bidi_class: BidiClass::NSM,
            joining_type: JoiningType::T,
            cluster_break: ClusterBreak::Extend,
            word_break: WordBreak::Extend,
            line_break: LineBreak::CM,
            use_class: UseClass::O,
            myanmar_class: MyanmarClass::O,
            flags: 64,
        },
        Record {
            category: Category::Lu,
            block: Block::GreekAndCoptic,
            script: Script::Greek,
            combining_class: 0,
            bidi_class: BidiClass::L,
            joining_type: JoiningType::U,
            cluster_break: ClusterBreak::Any,
            word_break: WordBreak::ALetter,
            line_break: LineBreak::AL,
            use_class: UseClass::O,
            myanmar_class: MyanmarClass::O,
            flags: 0,
        },
        Record {
            category: Category::Ll,
            block: Block::GreekAndCoptic,
            script: Script::Greek,
            combining_class: 0,
            bidi_class: BidiClass::L,
            joining_type: JoiningType::U,
            cluster_break: ClusterBreak::Any,
            word_break: WordBreak::ALetter,
            line_break: LineBreak::AL,
            use_class: UseClass::O,
            myanmar_class: MyanmarClass::O,
            flags: 0,
        },
        Record {
            category: Category::Lo,
            block: Block::Hebrew,
            script: Script::Hebrew,
            combining_class: 0,
            bidi_class: BidiClass::R,
            joining_type: JoiningType::U,
            cluster_break: ClusterBreak::Any,
            word_break: WordBreak::HebrewLetter,
            line_break: LineBreak::AL,
            use_class: UseClass::O,
            myanmar_class: MyanmarClass::O,
            flags: 0,
        },
        Record {
            category: Category::Lo,
            block: Block::Arabic,
            script: Script::Arabic,
            combining_class: 0,
            bidi_class: BidiClass::AL,
            joining_type: JoiningType::D,
            cluster_break: ClusterBreak::Any,
            word_break: WordBreak::ALetter,
            line_break: LineBreak::AL,
            use_class: UseClass::B,
            myanmar_class: MyanmarClass::O,
            flags: 64,
        },
        Record {
            category: Category::Nd,
            block: Block::Arabic,
            script: Script::Arabic,
            combining_class: 0,
            bidi_class: BidiClass::AN,
            joining_type: JoiningType::U,
            cluster_break: ClusterBreak::Any,
            word_break: WordBreak::Numeric,
            line_break: LineBreak::NU,
            use_class: UseClass::O,
            myanmar_class: MyanmarClass::O,
            flags: 0,
        },
        Record {
            category: Category::Lo,
            block: Block::Devanagari,
            script: Script::Devanagari,
            combining_class: 0,
            bidi_class: BidiClass::L,
            joining_type: JoiningType::U,
            cluster_break: ClusterBreak::Any,
            word_break: WordBreak::ALetter,
            line_break: LineBreak::SA,
            use_class: UseClass::B,
            myanmar_class: MyanmarClass::O,
            flags: 64,
        },
        Record {
            category: Category::Mn,
            block: Block::Devanagari,
            script: Script::Devanagari,
            combining_class: 7,
            bidi_class: BidiClass::NSM,
            joining_type: JoiningType::T,
            cluster_break: ClusterBreak::Extend,
            word_break: WordBreak::Extend,
            line_break: LineBreak::CM,
            use_class: UseClass::O,
            myanmar_class: MyanmarClass::O,
            flags: 64,
        },
        Record {
            category: Category::Lo,
            block: Block::Devanagari,
            script: Script::Devanagari,
            combining_class: 0,
            bidi_class: BidiClass::L,
            joining_type: JoiningType::U,
            cluster_break: ClusterBreak::Any,
            word_break: WordBreak::ALetter,
            line_break: LineBreak::SA,
            use_class: UseClass::B,
            myanmar_class: MyanmarClass::O,
            flags: 192,
        },
        Record {
            category: Category::Lo,
            block: Block::Myanmar,
            script: Script::Myanmar,
            combining_class: 0,
            bidi_class: BidiClass::L,
            joining_type: JoiningType::U,
            cluster_break: ClusterBreak::Any,
            word_break: WordBreak::ALetter,
            line_break: LineBreak::SA,
            use_class: UseClass::B,
            myanmar_class: MyanmarClass::C,
            flags: 64,
        },
        Record {
            category: Category::Lo,
            block: Block::HangulJamo,
            script: Script::Hangul,
            combining_class: 0,
            bidi_class: BidiClass::L,
            joining_type: JoiningType::U,
            cluster_break: ClusterBreak::L,
            word_break: WordBreak::ALetter,
            line_break: LineBreak::ID,
            use_class: UseClass::O,
            myanmar_class: MyanmarClass::O,
            flags: 0,
        },
        Record {
            category: Category::Lo,
            block: Block::HangulJamo,
            script: Script::Hangul,
            combining_class: 0,
            bidi_class: BidiClass::L,
            joining_type: JoiningType::U,
            cluster_break: ClusterBreak::V,
            word_break: WordBreak::ALetter,
            line_break: LineBreak::ID,
            use_class: UseClass::O,
            myanmar_class: MyanmarClass::O,
            flags: 0,
        },
        Record {
            category: Category::Lo,
            block: Block::HangulJamo,
            script: Script::Hangul,
            combining_class: 0,
            bidi_class: BidiClass::L,
            joining_type: JoiningType::U,
            cluster_break: ClusterBreak::T,
            word_break: WordBreak::ALetter,
            line_break: LineBreak::ID,
            use_class: UseClass::O,
            myanmar_class: MyanmarClass::O,
            flags: 0,
        },
        Record {
            category: Category::Cf,
            block: Block::GeneralPunctuation,
            script: Script::Common,
            combining_class: 0,
            bidi_class: BidiClass::BN,
            joining_type: JoiningType::U,
            cluster_break: ClusterBreak::Extend,
            word_break: WordBreak::Extend,
            line_break: LineBreak::CM,
            use_class: UseClass::O,
            myanmar_class: MyanmarClass::O,
            flags: 16,
        },
        Record {
            category: Category::Cf,
            block: Block::GeneralPunctuation,
            script: Script::Inherited,
            combining_class: 0,
            bidi_class: BidiClass::BN,
            joining_type: JoiningType::T,
            cluster_break: ClusterBreak::Zwj,
            word_break: WordBreak::Zwj,
            line_break: LineBreak::ZWJ,
            use_class: UseClass::Zwj,
            myanmar_class: MyanmarClass::O,
            flags: 80,
        },
        Record {
            category: Category::Lu,
            block: Block::LetterlikeSymbols,
            script: Script::Greek,
            combining_class: 0,
            bidi_class: BidiClass::L,
            joining_type: JoiningType::U,
            cluster_break: ClusterBreak::Any,
            word_break: WordBreak::ALetter,
            line_break: LineBreak::AL,
            use_class: UseClass::O,
            myanmar_class: MyanmarClass::O,
            flags: 128,
        },
        Record {
            category: Category::Ps,
            block: Block::MiscellaneousTechnical,
            script: Script::Common,
            combining_class: 0,
            bidi_class: BidiClass::ON,
            joining_type: JoiningType::U,
            cluster_break: ClusterBreak::Any,
            word_break: WordBreak::Other,
            line_break: LineBreak::OP,
            use_class: UseClass::O,
            myanmar_class: MyanmarClass::O,
            flags: 4,
        },
        Record {
            category: Category::Pe,
            block: Block::MiscellaneousTechnical,
            script: Script::Common,
            combining_class: 0,
            bidi_class: BidiClass::ON,
            joining_type: JoiningType::U,
            cluster_break: ClusterBreak::Any,
            word_break: WordBreak::Other,
            line_break: LineBreak::CP,
            use_class: UseClass::O,
            myanmar_class: MyanmarClass::O,
            flags: 8,
        },
        Record {
            category: Category::Ps,
            block: Block::CjkSymbolsAndPunctuation,
            script: Script::Common,
            combining_class: 0,
            bidi_class: BidiClass::ON,
            joining_type: JoiningType::U,
            cluster_break: ClusterBreak::Any,
            word_break: WordBreak::Other,
            line_break: LineBreak::OP,
            use_class: UseClass::O,
            myanmar_class: MyanmarClass::O,
            flags: 4,
        },
        Record {
            category: Category::Pe,
            block: Block::CjkSymbolsAndPunctuation,
            script: Script::Common,
            combining_class: 0,
            bidi_class: BidiClass::ON,
            joining_type: JoiningType::U,
            cluster_break: ClusterBreak::Any,
            word_break: WordBreak::Other,
            line_break: LineBreak::CP,
            use_class: UseClass::O,
            myanmar_class: MyanmarClass::O,
            flags: 8,
        },
        Record {
            category: Category::Lo,
            block: Block::HangulSyllables,
            script: Script::Hangul,
            combining_class: 0,
            bidi_class: BidiClass::L,
            joining_type: JoiningType::U,
            cluster_break: ClusterBreak::LV,
            word_break: WordBreak::ALetter,
            line_break: LineBreak::ID,
            use_class: UseClass::O,
            myanmar_class: MyanmarClass::O,
            flags: 128,
        },
        Record {
            category: Category::Mn,
            block: Block::VariationSelectors,
            script: Script::Inherited,
            combining_class: 0,
            bidi_class: BidiClass::NSM,
            joining_type: JoiningType::T,
            cluster_break: ClusterBreak::Extend,
            word_break: WordBreak::Extend,
            line_break: LineBreak::CM,
            use_class: UseClass::O,
            myanmar_class: MyanmarClass::O,
            flags: 48,
        },
        Record {
            category: Category::Lu,
            block: Block::HalfwidthAndFullwidthForms,
            script: Script::Latin,
            combining_class: 0,
            bidi_class: BidiClass::L,
            joining_type: JoiningType::U,
            cluster_break: ClusterBreak::Any,
            word_break: WordBreak::ALetter,
            line_break: LineBreak::ID,
            use_class: UseClass::O,
            myanmar_class: MyanmarClass::O,
            flags: 128,
        },
        Record {
            category: Category::So,
            block: Block::Emoticons,
            script: Script::Common,
            combining_class: 0,
            bidi_class: BidiClass::ON,
            joining_type: JoiningType::U,
            cluster_break: ClusterBreak::Any,
            word_break: WordBreak::Other,
            line_break: LineBreak::ID,
            use_class: UseClass::O,
            myanmar_class: MyanmarClass::O,
            flags: 3,
        },
    ]
}

/// Builds the record table.
pub fn records() -> (r: Vec<Record>)
    ensures
        r@ == records_spec(),
        r@.len() == RECORD_COUNT,
{
    let v: Vec<Record> = vec![
        Record {
            category: Category::Cn,
            block: Block::Unknown,
            script: Script::Unknown,
            combining_class: 0,
            bidi_class: BidiClass::L,
            joining_type: JoiningType::U,
            cluster_break: ClusterBreak::Any,
            word_break: WordBreak::Other,
            line_break: LineBreak::AL,
            use_class: UseClass::O,
            myanmar_class: MyanmarClass::O,
            flags: 0,
        },
        Record {
            category: Category::Cc,
            block: Block::BasicLatin,
            script: Script::Common,
            combining_class: 0,
            bidi_class: BidiClass::BN,
            joining_type: JoiningType::U,
            cluster_break: ClusterBreak::Control,
            word_break: WordBreak::Other,
            line_break: LineBreak::CM,
            use_class: UseClass::O,
            myanmar_class: MyanmarClass::O,
            flags: 0,
        },
        Record {
            category: Category::Cc,
            block: Block::BasicLatin,
            script: Script::Common,
            combining_class: 0,
            bidi_class: BidiClass::B,
            joining_type: JoiningType::U,
            cluster_break: ClusterBreak::Lf,
            word_break: WordBreak::Lf,
            line_break: LineBreak::LF,
            use_class: UseClass::O,
            myanmar_class: MyanmarClass::O,
            flags: 0,
        },
        Record {
            category: Category::Cc,
            block: Block::BasicLatin,
            script: Script::Common,
            combining_class: 0,
            bidi_class: BidiClass::B,
            joining_type: JoiningType::U,
            cluster_break: ClusterBreak::Cr,
            word_break: WordBreak::Cr,
            line_break: LineBreak::CR,
            use_class: UseClass::O,
            myanmar_class: MyanmarClass::O,
            flags: 0,
        },
        Record {
            category: Category::Zs,
            block: Block::BasicLatin,
            script: Script::Common,
            combining_class: 0,
            bidi_class: BidiClass::WS,
            joining_type: JoiningType::U,
            cluster_break: ClusterBreak::Any,
            word_break: WordBreak::WSegSpace,
            line_break: LineBreak::SP,
            use_class: UseClass::O,
            myanmar_class: MyanmarClass::O,
            flags: 0,
        },
        Record {
            category: Category::Ps,
            block: Block::BasicLatin,
            script: Script::Common,
            combining_class: 0,
            bidi_class: BidiClass::ON,
            joining_type: JoiningType::U,
            cluster_break: ClusterBreak::Any,
            word_break: WordBreak::Other,
            line_break: LineBreak::OP,
            use_class: UseClass::O,
            myanmar_class: MyanmarClass::O,
            flags: 4,
        },
        Record {
            category: Category::Pe,
            block: Block::BasicLatin,
            script: Script::Common,
            combining_class: 0,
            bidi_class: BidiClass::ON,
            joining_type: JoiningType::U,
            cluster_break: ClusterBreak::Any,
            word_break: WordBreak::Other,
            line_break: LineBreak::CP,
            use_class: UseClass::O,
            myanmar_class: MyanmarClass::O,
            flags: 8,
        },
        Record {
            category: Category::Nd,
            block: Block::BasicLatin,
            script: Script::Common,
            combining_class: 0,
            bidi_class: BidiClass::EN,
            joining_type: JoiningType::U,
            cluster_break: ClusterBreak::Any,
            word_break: WordBreak::Numeric,
            line_break: LineBreak::NU,
            use_class: UseClass::O,
            myanmar_class: MyanmarClass::O,
            flags: 0,
        },
        Record {
            category: Category::Lu,
            block: Block::BasicLatin,
            script: Script::Latin,
            combining_class: 0,
            bidi_class: BidiClass::L,
            joining_type: JoiningType::U,
            cluster_break: ClusterBreak::Any,
            word_break: WordBreak::ALetter,
            line_break: LineBreak::AL,
            use_class: UseClass::O,
            myanmar_class: MyanmarClass::O,
            flags: 0,
        },
        Record {
            category: Category::Ll,
            block: Block::BasicLatin,
            script: Script::Latin,
            combining_class: 0,
            bidi_class: BidiClass::L,
            joining_type: JoiningType::U,
            cluster_break: ClusterBreak::Any,
            word_break: WordBreak::ALetter,
            line_break: LineBreak::AL,
            use_class: UseClass::O,
            myanmar_class: MyanmarClass::O,
            flags: 0,
        },
        Record {
            category: Category::Sm,
            block: Block::BasicLatin,
            script: Script::Common,
            combining_class: 0,
            bidi_class: BidiClass::ON,
            joining_type: JoiningType::U,
            cluster_break: ClusterBreak::Any,
            word_break: WordBreak::Other,
            line_break: LineBreak::AL,
            use_class: UseClass::O,
            myanmar_class: MyanmarClass::O,
            flags: 0,
        },
        Record {
            category: Category::Lu,
            block: Block::Latin1Supplement,
            script: Script::Latin,
            combining_class: 0,
            bidi_class: BidiClass::L,
            joining_type: JoiningType::U,
            cluster_break: ClusterBreak::Any,
            word_break: WordBreak::ALetter,
            line_break: LineBreak::AL,
            use_class: UseClass::O,
            myanmar_class: MyanmarClass::O,
            flags: 128,
        },
        Record {
            category: Category::Ll,
            block: Block::Latin1Supplement,
            script: Script::Latin,
            combining_class: 0,
            bidi_class: BidiClass::L,
            joining_type: JoiningType::U,
            cluster_break: ClusterBreak::Any,
            word_break: WordBreak::ALetter,
            line_break: LineBreak::AL,
            use_class: UseClass::O,
            myanmar_class: MyanmarClass::O,
            flags: 128,
        },
        Record {
            category: Category::Lu,
            block: Block::LatinExtended,
            script: Script::Latin,
            combining_class: 0,
            bidi_class: BidiClass::L,
            joining_type: JoiningType::U,
            cluster_break: ClusterBreak::Any,
            word_break: WordBreak::ALetter,
            line_break: LineBreak::AL,
            use_class: UseClass::O,
            myanmar_class: MyanmarClass::O,
            flags: 128,
        },
        Record {
            category: Category::Mn,
            block: Block::CombiningDiacriticalMarks,
            script: Script::Inherited,
            combining_class: 230,
            bidi_class: BidiClass::NSM,
            joining_type: JoiningType::T,
            cluster_break: ClusterBreak::Extend,
            word_break: WordBreak::Extend,
            line_break: LineBreak::CM,
            use_class: UseClass::O,
            myanmar_class: MyanmarClass::O,
            flags: 64,
        },
        Record {
            category: Category::Lu,
            block: Block::GreekAndCoptic,
            script: Script::Greek,
            combining_class: 0,
            bidi_class: BidiClass::L,
            joining_type: JoiningType::U,
            cluster_break: ClusterBreak::Any,
            word_break: WordBreak::ALetter,
            line_break: LineBreak::AL,
            use_class: UseClass::O,
            myanmar_class: MyanmarClass::O,
            flags: 0,
        },
        Record {
            category: Category::Ll,
            block: Block::GreekAndCoptic,
            script: Script::Greek,
            combining_class: 0,
            bidi_class: BidiClass::L,
            joining_type: JoiningType::U,
            cluster_break: ClusterBreak::Any,
            word_break: WordBreak::ALetter,
            line_break: LineBreak::AL,
            use_class: UseClass::O,
            myanmar_class: MyanmarClass::O,
            flags: 0,
        },
        Record {
            category: Category::Lo,
            block: Block::Hebrew,
            script: Script::Hebrew,
            combining_class: 0,
            bidi_class: BidiClass::R,
            joining_type: JoiningType::U,
            cluster_break: ClusterBreak::Any,
            word_break: WordBreak::HebrewLetter,
            line_break: LineBreak::AL,
            use_class: UseClass::O,
            myanmar_class: MyanmarClass::O,
            flags: 0,
        },
        Record {
            category: Category::Lo,
            block: Block::Arabic,
            script: Script::Arabic,
            combining_class: 0,
            bidi_class: BidiClass::AL,
            joining_type: JoiningType::D,
            cluster_break: ClusterBreak::Any,
            word_break: WordBreak::ALetter,
            line_break: LineBreak::AL,
            use_class: UseClass::B,
            myanmar_class: MyanmarClass::O,
            flags: 64,
        },
        Record {
            category: Category::Nd,
            block: Block::Arabic,
            script: Script::Arabic,
            combining_class: 0,
            bidi_class: BidiClass::AN,
            joining_type: JoiningType::U,
            cluster_break: ClusterBreak::Any,
            word_break: WordBreak::Numeric,
            line_break: LineBreak::NU,
            use_class: UseClass::O,
            myanmar_class: MyanmarClass::O,
            flags: 0,
        },
        Record {
            category: Category::Lo,
            block: Block::Devanagari,
            script: Script::Devanagari,
            combining_class: 0,
            bidi_class: BidiClass::L,
            joining_type: JoiningType::U,
            cluster_break: ClusterBreak::Any,
            word_break: WordBreak::ALetter,
            line_break: LineBreak::SA,
            use_class: UseClass::B,
            myanmar_class: MyanmarClass::O,
            flags: 64,
        },
        Record {
            category: Category::Mn,
            block: Block::Devanagari,
            script: Script::Devanagari,
            combining_class: 7,
            bidi_class: BidiClass::NSM,
            joining_type: JoiningType::T,
            cluster_break: ClusterBreak::Extend,
            word_break: WordBreak::Extend,
            line_break: LineBreak::CM,
            use_class: UseClass::O,
            myanmar_class: MyanmarClass::O,
            flags: 64,
        },
        Record {
            category: Category::Lo,
            block: Block::Devanagari,
            script: Script::Devanagari,
            combining_class: 0,
            bidi_class: BidiClass::L,
            joining_type: JoiningType::U,
            cluster_break: ClusterBreak::Any,
            word_break: WordBreak::ALetter,
            line_break: LineBreak::SA,
            use_class: UseClass::B,
            myanmar_class: MyanmarClass::O,
            flags: 192,
        },
        Record {
            category: Category::Lo,
            block: Block::Myanmar,
            script: Script::Myanmar,
            combining_class: 0,
            bidi_class: BidiClass::L,
            joining_type: JoiningType::U,
            cluster_break: ClusterBreak::Any,
            word_break: WordBreak::ALetter,
            line_break: LineBreak::SA,
            use_class: UseClass::B,
            myanmar_class: MyanmarClass::C,
            flags: 64,
        },
        Record {
            category: Category::Lo,
            block: Block::HangulJamo,
            script: Script::Hangul,
            combining_class: 0,
            bidi_class: BidiClass::L,
            joining_type: JoiningType::U,
            cluster_break: ClusterBreak::L,
            word_break: WordBreak::ALetter,
            line_break: LineBreak::ID,
            use_class: UseClass::O,
            myanmar_class: MyanmarClass::O,
            flags: 0,
        },
        Record {
            category: Category::Lo,
            block: Block::HangulJamo,
            script: Script::Hangul,
            combining_class: 0,
            bidi_class: BidiClass::L,
            joining_type: JoiningType::U,
            cluster_break: ClusterBreak::V,
            word_break: WordBreak::ALetter,
            line_break: LineBreak::ID,
            use_class: UseClass::O,
            myanmar_class: MyanmarClass::O,
            flags: 0,
        },
        Record {
            category: Category::Lo,
            block: Block::HangulJamo,
            script: Script::Hangul,
            combining_class: 0,
            bidi_class: BidiClass::L,
            joining_type: JoiningType::U,
            cluster_break: ClusterBreak::T,
            word_break: WordBreak::ALetter,
            line_break: LineBreak::ID,
            use_class: UseClass::O,
            myanmar_class: MyanmarClass::O,
            flags: 0,
        },
        Record {
            category: Category::Cf,
            block: Block::GeneralPunctuation,
            script: Script::Common,
            combining_class: 0,
            bidi_class: BidiClass::BN,
            joining_type: JoiningType::U,
            cluster_break: ClusterBreak::Extend,
            word_break: WordBreak::Extend,
            line_break: LineBreak::CM,
            use_class: UseClass::O,
            myanmar_class: MyanmarClass::O,
            flags: 16,
        },
        Record {
            category: Category::Cf,
            block: Block::GeneralPunctuation,
            script: Script::Inherited,
            combining_class: 0,
            bidi_class: BidiClass::BN,
            joining_type: JoiningType::T,
            cluster_break: ClusterBreak::Zwj,
            word_break: WordBreak::Zwj,
            line_break: LineBreak::ZWJ,
            use_class: UseClass::Zwj,
            myanmar_class: MyanmarClass::O,
            flags: 80,
        },
        Record {
            category: Category::Lu,
            block: Block::LetterlikeSymbols,
            script: Script::Greek,
            combining_class: 0,
            bidi_class: BidiClass::L,
            joining_type: JoiningType::U,
            cluster_break: ClusterBreak::Any,
            word_break: WordBreak::ALetter,
            line_break: LineBreak::AL,
            use_class: UseClass::O,
            myanmar_class: MyanmarClass::O,
            flags: 128,
        },
        Record {
            category: Category::Ps,
            block: Block::MiscellaneousTechnical,
            script: Script::Common,
            combining_class: 0,
            bidi_class: BidiClass::ON,
            joining_type: JoiningType::U,
            cluster_break: ClusterBreak::Any,
            word_break: WordBreak::Other,
            line_break: LineBreak::OP,
            use_class: UseClass::O,
            myanmar_class: MyanmarClass::O,
            flags: 4,
        },
        Record {
            category: Category::Pe,
            block: Block::MiscellaneousTechnical,
            script: Script::Common,
            combining_class: 0,
            bidi_class: BidiClass::ON,
            joining_type: JoiningType::U,
            cluster_break: ClusterBreak::Any,
            word_break: WordBreak::Other,
            line_break: LineBreak::CP,
            use_class: UseClass::O,
            myanmar_class: MyanmarClass::O,
            flags: 8,
        },
        Record {
            category: Category::Ps,
            block: Block::CjkSymbolsAndPunctuation,
            script: Script::Common,
            combining_class: 0,
            bidi_class: BidiClass::ON,
            joining_type: JoiningType::U,
            cluster_break: ClusterBreak::Any,
            word_break: WordBreak::Other,
            line_break: LineBreak::OP,
            use_class: UseClass::O,
            myanmar_class: MyanmarClass::O,
            flags: 4,
        },
        Record {
            category: Category::Pe,
            block: Block::CjkSymbolsAndPunctuation,
            script: Script::Common,
            combining_class: 0,
            bidi_class: BidiClass::ON,
            joining_type: JoiningType::U,
            cluster_break: ClusterBreak::Any,
            word_break: WordBreak::Other,
            line_break: LineBreak::CP,
            use_class: UseClass::O,
            myanmar_class: MyanmarClass::O,
            flags: 8,
        },
        Record {
            category: Category::Lo,
            block: Block::HangulSyllables,
            script: Script::Hangul,
            combining_class: 0,
            bidi_class: BidiClass::L,
            joining_type: JoiningType::U,
            cluster_break: ClusterBreak::LV,
            word_break: WordBreak::ALetter,
            line_break: LineBreak::ID,
            use_class: UseClass::O,
            myanmar_class: MyanmarClass::O,
            flags: 128,
        },
        Record {
            category: Category::Mn,
            block: Block::VariationSelectors,
            script: Script::Inherited,
            combining_class: 0,
            bidi_class: BidiClass::NSM,
            joining_type: JoiningType::T,
            cluster_break: ClusterBreak::Extend,
            word_break: WordBreak::Extend,
            line_break: LineBreak::CM,
            use_class: UseClass::O,
            myanmar_class: MyanmarClass::O,
            flags: 48,
        },
        Record {
            category: Category::Lu,
            block: Block::HalfwidthAndFullwidthForms,
            script: Script::Latin,
            combining_class: 0,
            bidi_class: BidiClass::L,
            joining_type: JoiningType::U,
            cluster_break: ClusterBreak::Any,
            word_break: WordBreak::ALetter,
            line_break: LineBreak::ID,
            use_class: UseClass::O,
            myanmar_class: MyanmarClass::O,
            flags: 128,
        },
        Record {
            category: Category::So,
            block: Block::Emoticons,
            script: Script::Common,
            combining_class: 0,
            bidi_class: BidiClass::ON,
            joining_type: JoiningType::U,
            cluster_break: ClusterBreak::Any,
            word_break: WordBreak::Other,
            line_break: LineBreak::ID,
            use_class: UseClass::O,
            myanmar_class: MyanmarClass::O,
            flags: 3,
        },
    ];
    proof {
        assert(v@ =~= records_spec());
    }
    v
}

/// The range table: disjoint, sorted code-point intervals, each mapping to
/// an index into the record table.
pub open spec fn range_table_spec() -> Seq<(u32, u32, u16)> {
    seq![
        (0x0000u32, 0x0009u32, 1u16),
        (0x000Au32, 0x000Au32, 2u16),
        (0x000Bu32, 0x000Cu32, 1u16),
        (0x000Du32, 0x000Du32, 3u16),
        (0x000Eu32, 0x001Fu32, 1u16),
        (0x0020u32, 0x0020u32, 4u16),
        (0x0028u32, 0x0028u32, 5u16),
        (0x0029u32, 0x0029u32, 6u16),
        (0x0030u32, 0x0039u32, 7u16),
        (0x003Cu32, 0x003Eu32, 10u16),
        (0x0041u32, 0x005Au32, 8u16),
        (0x005Bu32, 0x005Bu32, 5u16),
        (0x005Du32, 0x005Du32, 6u16),
        (0x0061u32, 0x007Au32, 9u16),
        (0x007Bu32, 0x007Bu32, 5u16),
        (0x007Du32, 0x007Du32, 6u16),
        (0x007Fu32, 0x009Fu32, 1u16),
        (0x00C0u32, 0x00D6u32, 11u16),
        (0x00D8u32, 0x00DEu32, 11u16),
        (0x00DFu32, 0x00F6u32, 12u16),
        (0x00F8u32, 0x00FFu32, 12u16),
        (0x0100u32, 0x017Fu32, 13u16),
        (0x0300u32, 0x036Fu32, 14u16),
        (0x0391u32, 0x03A9u32, 15u16),
        (0x03B1u32, 0x03C9u32, 16u16),
        (0x05D0u32, 0x05EAu32, 17u16),
        (0x0620u32, 0x064Au32, 18u16),
        (0x0660u32, 0x0669u32, 19u16),
        (0x0915u32, 0x0939u32, 20u16),
        (0x093Cu32, 0x093Cu32, 21u16),
        (0x0958u32, 0x095Fu32, 22u16),
        (0x1000u32, 0x102Au32, 23u16),
        (0x1100u32, 0x115Fu32, 24u16),
        (0x1160u32, 0x11A7u32, 25u16),
        (0x11A8u32, 0x11FFu32, 26u16),
        (0x1E00u32, 0x1EFFu32, 13u16),
        (0x200Bu32, 0x200Cu32, 27u16),
        (0x200Du32, 0x200Du32, 28u16),
        (0x2126u32, 0x212Bu32, 29u16),
        (0x2308u32, 0x2308u32, 30u16),
        (0x2309u32, 0x2309u32, 31u16),
        (0x230Au32, 0x230Au32, 30u16),
        (0x230Bu32, 0x230Bu32, 31u16),
        (0x2329u32, 0x2329u32, 30u16),
        (0x232Au32, 0x232Au32, 31u16),
        (0x3008u32, 0x3008u32, 32u16),
        (0x3009u32, 0x3009u32, 33u16),
        (0x300Au32, 0x300Au32, 32u16),
        (0x300Bu32, 0x300Bu32, 33u16),
        (0x300Cu32, 0x300Cu32, 32u16),
        (0x300Du32, 0x300Du32, 33u16),
        (0x300Eu32, 0x300Eu32, 32u16),
        (0x300Fu32, 0x300Fu32, 33u16),
        (0xAC00u32, 0xD7A3u32, 34u16),
        (0xFE00u32, 0xFE0Fu32, 35u16),
        (0xFF21u32, 0xFF3Au32, 36u16),
        (0x1F600u32, 0x1F64Fu32, 37u16),
    ]
}

/// The rows of the range table are non-empty, ordered, disjoint intervals
/// and every payload is a valid record index.
#[verifier::rlimit(100)]
pub proof fn lemma_range_table_wf()
    ensures
        ranges_wf(range_table_spec()),
        forall|i: int|
            0 <= i < range_table_spec().len() ==> (#[trigger] range_table_spec()[i].2 as int)
                < RECORD_COUNT,
{
    let t = range_table_spec();
    assert(adjacent_ranges_wf(t));
    assert forall|i: int|
        0 <= i < t.len() implies (#[trigger] t[i].2 as int) < RECORD_COUNT by {}
    lemma_adjacent_ranges_wf(t);
}

/// Builds the range table.
pub fn range_table() -> (r: Vec<(u32, u32, u16)>)
    ensures
        r@ == range_table_spec(),
        ranges_wf(r@),
{
    let v: Vec<(u32, u32, u16)> = vec![
        (0x0000u32, 0x0009u32, 1u16),
        (0x000Au32, 0x000Au32, 2u16),
        (0x000Bu32, 0x000Cu32, 1u16),
        (0x000Du32, 0x000Du32, 3u16),
        (0x000Eu32, 0x001Fu32, 1u16),
        (0x0020u32, 0x0020u32, 4u16),
        (0x0028u32, 0x0028u32, 5u16),
        (0x0029u32, 0x0029u32, 6u16),
        (0x0030u32, 0x0039u32, 7u16),
        (0x003Cu32, 0x003Eu32, 10u16),
        (0x0041u32, 0x005Au32, 8u16),
        (0x005Bu32, 0x005Bu32, 5u16),
        (0x005Du32, 0x005Du32, 6u16),
        (0x0061u32, 0x007Au32, 9u16),
        (0x007Bu32, 0x007Bu32, 5u16),
        (0x007Du32, 0x007Du32, 6u16),
        (0x007Fu32, 0x009Fu32, 1u16),
        (0x00C0u32, 0x00D6u32, 11u16),
        (0x00D8u32, 0x00DEu32, 11u16),
        (0x00DFu32, 0x00F6u32, 12u16),
        (0x00F8u32, 0x00FFu32, 12u16),
        (0x0100u32, 0x017Fu32, 13u16),
        (0x0300u32, 0x036Fu32, 14u16),
        (0x0391u32, 0x03A9u32, 15u16),
        (0x03B1u32, 0x03C9u32, 16u16),
        (0x05D0u32, 0x05EAu32, 17u16),
        (0x0620u32, 0x064Au32, 18u16),
        (0x0660u32, 0x0669u32, 19u16),
        (0x0915u32, 0x0939u32, 20u16),
        (0x093Cu32, 0x093Cu32, 21u16),
        (0x0958u32, 0x095Fu32, 22u16),
        (0x1000u32, 0x102Au32, 23u16),
        (0x1100u32, 0x115Fu32, 24u16),
        (0x1160u32, 0x11A7u32, 25u16),
        (0x11A8u32, 0x11FFu32, 26u16),
        (0x1E00u32, 0x1EFFu32, 13u16),
        (0x200Bu32, 0x200Cu32, 27u16),
        (0x200Du32, 0x200Du32, 28u16),
        (0x2126u32, 0x212Bu32, 29u16),
        (0x2308u32, 0x2308u32, 30u16),
        (0x2309u32, 0x2309u32, 31u16),
        (0x230Au32, 0x230Au32, 30u16),
        (0x230Bu32, 0x230Bu32, 31u16),
        (0x2329u32, 0x2329u32, 30u16),
        (0x232Au32, 0x232Au32, 31u16),
        (0x3008u32, 0x3008u32, 32u16),
        (0x3009u32, 0x3009u32, 33u16),
        (0x300Au32, 0x300Au32, 32u16),
        (0x300Bu32, 0x300Bu32, 33u16),
        (0x300Cu32, 0x300Cu32, 32u16),
        (0x300Du32, 0x300Du32, 33u16),
        (0x300Eu32, 0x300Eu32, 32u16),
        (0x300Fu32, 0x300Fu32, 33u16),
        (0xAC00u32, 0xD7A3u32, 34u16),
        (0xFE00u32, 0xFE0Fu32, 35u16),
        (0xFF21u32, 0xFF3Au32, 36u16),
        (0x1F600u32, 0x1F64Fu32, 37u16),
    ];
    proof {
        assert(v@ =~= range_table_spec());
        lemma_range_table_wf();
    }
    v
}

/// Index into the record table of the range that contains `c`, or 0 (the
/// default record) when no range does.
pub open spec fn record_index_spec(c: u32) -> int {
    match spec_find_range(range_table_spec(), c) {
        Some(i) => i as int,
        None => 0,
    }
}

/// Looks up the record index of code point `c` in the range table.
pub fn get_record_index(c: u32) -> (r: u16)
    ensures
        r as int == record_index_spec(c),
        (r as int) < RECORD_COUNT,
{
    let ranges = range_table();
    proof {
        lemma_range_table_wf();
    }
    match find_range(&ranges, c) {
        Some(i) => {
            proof {
                lemma_find_range_is_entry(ranges@, c, 0);
            }
            i
        },
        None => 0,
    }
}

/// The record describing code point `c`.
pub open spec fn record_of(c: u32) -> Record {
    records_spec()[record_index_spec(c)]
}

/// Bracket pairs `(open, close)`, sorted by both columns.
pub open spec fn bracket_table_spec() -> Seq<(u32, u32)> {
    seq![
        (0x0028u32, 0x0029u32),
        (0x005Bu32, 0x005Du32),
        (0x007Bu32, 0x007Du32),
        (0x2308u32, 0x2309u32),
        (0x230Au32, 0x230Bu32),
        (0x2329u32, 0x232Au32),
        (0x3008u32, 0x3009u32),
        (0x300Au32, 0x300Bu32),
        (0x300Cu32, 0x300Du32),
        (0x300Eu32, 0x300Fu32),
    ]
}

/// The bracket table is sorted.
#[verifier::rlimit(100)]
pub proof fn lemma_bracket_table_sorted()
    ensures
        sorted_by_key(bracket_table_spec()),
        sorted_by_second(bracket_table_spec()),
{
    let t = bracket_table_spec();
    assert(adjacent_sorted_by_key(t));
    assert(adjacent_sorted_by_second(t));
    lemma_adjacent_sorted_by_key(t);
    lemma_adjacent_sorted_by_second(t);
}

/// Builds the bracket table.
pub fn bracket_table() -> (r: Vec<(u32, u32)>)
    ensures
        r@ == bracket_table_spec(),
        sorted_by_key(r@),
        sorted_by_second(r@),
{
    let v: Vec<(u32, u32)> = vec![
        (0x0028u32, 0x0029u32),
        (0x005Bu32, 0x005Du32),
        (0x007Bu32, 0x007Du32),
        (0x2308u32, 0x2309u32),
        (0x230Au32, 0x230Bu32),
        (0x2329u32, 0x232Au32),
        (0x3008u32, 0x3009u32),
        (0x300Au32, 0x300Bu32),
        (0x300Cu32, 0x300Du32),
        (0x300Eu32, 0x300Fu32),
    ];
    proof {
        assert(v@ =~= bracket_table_spec());
        lemma_bracket_table_sorted();
    }
    v
}

/// Bidi mirror pairs `(char, mirror)`, sorted by the first column.
pub open spec fn mirror_table_spec() -> Seq<(u32, u32)> {
    seq![
        (0x0028u32, 0x0029u32),
        (0x0029u32, 0x0028u32),
        (0x003Cu32, 0x003Eu32),
        (0x003Eu32, 0x003Cu32),
        (0x005Bu32, 0x005Du32),
        (0x005Du32, 0x005Bu32),
        (0x007Bu32, 0x007Du32),
        (0x007Du32, 0x007Bu32),
        (0x2308u32, 0x2309u32),
        (0x2309u32, 0x2308u32),
        (0x230Au32, 0x230Bu32),
        (0x230Bu32, 0x230Au32),
        (0x2329u32, 0x232Au32),
        (0x232Au32, 0x2329u32),
        (0x3008u32, 0x3009u32),
        (0x3009u32, 0x3008u32),
        (0x300Au32, 0x300Bu32),
        (0x300Bu32, 0x300Au32),
    ]
}

/// The mirror table is sorted.
#[verifier::rlimit(100)]
pub proof fn lemma_mirror_table_sorted()
    ensures
        sorted_by_key(mirror_table_spec()),
{
    let t = mirror_table_spec();
    assert(adjacent_sorted_by_key(t));
    lemma_adjacent_sorted_by_key(t);
}

/// Builds the mirror table.
pub fn mirror_table() -> (r: Vec<(u32, u32)>)
    ensures
        r@ == mirror_table_spec(),
        sorted_by_key(r@),
{
    let v: Vec<(u32, u32)> = vec![
        (0x0028u32, 0x0029u32),
        (0x0029u32, 0x0028u32),
        (0x003Cu32, 0x003Eu32),
        (0x003Eu32, 0x003Cu32),
        (0x005Bu32, 0x005Du32),
        (0x005Du32, 0x005Bu32),
        (0x007Bu32, 0x007Du32),
        (0x007Du32, 0x007Bu32),
        (0x2308u32, 0x2309u32),
        (0x2309u32, 0x2308u32),
        (0x230Au32, 0x230Bu32),
        (0x230Bu32, 0x230Au32),
        (0x2329u32, 0x232Au32),
        (0x232Au32, 0x2329u32),
        (0x3008u32, 0x3009u32),
        (0x3009u32, 0x3008u32),
        (0x300Au32, 0x300Bu32),
        (0x300Bu32, 0x300Au32),
    ];
    proof {
        assert(v@ =~= mirror_table_spec());
        lemma_mirror_table_sorted();
    }
    v
}

/// Every mapping of a decomposition table sends a code point to one or two
/// nonzero valid scalars; a zero second element marks a one-element mapping.
pub open spec fn decomp_payload_wf(s: Seq<(u32, (u32, u32))>) -> bool {
    forall|i: int|
        0 <= i < s.len() ==> valid_scalar(#[trigger] s[i].1.0) && s[i].1.0 != 0 && (s[i].1.1 != 0
            ==> valid_scalar(s[i].1.1))
}

/// Tabulated canonical decompositions `(char, (first, second))`.
pub open spec fn canonical_table_spec() -> Seq<(u32, (u32, u32))> {
    seq![
        (0x00C0u32, (0x0041u32, 0x0300u32)),
        (0x00C1u32, (0x0041u32, 0x0301u32)),
        (0x00C2u32, (0x0041u32, 0x0302u32)),
        (0x00C5u32, (0x0041u32, 0x030Au32)),
        (0x00C8u32, (0x0045u32, 0x0300u32)),
        (0x00C9u32, (0x0045u32, 0x0301u32)),
        (0x00E0u32, (0x0061u32, 0x0300u32)),
        (0x00E8u32, (0x0065u32, 0x0300u32)),
        (0x00E9u32, (0x0065u32, 0x0301u32)),
        (0x0100u32, (0x0041u32, 0x0304u32)),
        (0x0101u32, (0x0061u32, 0x0304u32)),
        (0x0958u32, (0x0915u32, 0x093Cu32)),
        (0x1E0Au32, (0x0044u32, 0x0307u32)),
        (0x1EA4u32, (0x00C2u32, 0x0301u32)),
        (0x2126u32, (0x03A9u32, 0x0000u32)),
        (0x212Au32, (0x004Bu32, 0x0000u32)),
        (0x212Bu32, (0x00C5u32, 0x0000u32)),
    ]
}

/// The canonical table is sorted and its mapped code points are
/// nonzero valid scalars (a zero second element marks a one-element mapping).
#[verifier::rlimit(100)]
pub proof fn lemma_canonical_table_wf()
    ensures
        sorted_by_key(canonical_table_spec()),
        decomp_payload_wf(canonical_table_spec()),
{
    let t = canonical_table_spec();
    assert(adjacent_sorted_by_key(t));
    assert(decomp_payload_wf(t));
    lemma_adjacent_sorted_by_key(t);
}

/// Builds the canonical table.
pub fn canonical_table() -> (r: Vec<(u32, (u32, u32))>)
    ensures
        r@ == canonical_table_spec(),
        sorted_by_key(r@),
        decomp_payload_wf(r@),
{
    let v: Vec<(u32, (u32, u32))> = vec![
        (0x00C0u32, (0x0041u32, 0x0300u32)),
        (0x00C1u32, (0x0041u32, 0x0301u32)),
        (0x00C2u32, (0x0041u32, 0x0302u32)),
        (0x00C5u32, (0x0041u32, 0x030Au32)),
        (0x00C8u32, (0x0045u32, 0x0300u32)),
        (0x00C9u32, (0x0045u32, 0x0301u32)),
        (0x00E0u32, (0x0061u32, 0x0300u32)),
        (0x00E8u32, (0x0065u32, 0x0300u32)),
        (0x00E9u32, (0x0065u32, 0x0301u32)),
        (0x0100u32, (0x0041u32, 0x0304u32)),
        (0x0101u32, (0x0061u32, 0x0304u32)),
        (0x0958u32, (0x0915u32, 0x093Cu32)),
        (0x1E0Au32, (0x0044u32, 0x0307u32)),
        (0x1EA4u32, (0x00C2u32, 0x0301u32)),
        (0x2126u32, (0x03A9u32, 0x0000u32)),
        (0x212Au32, (0x004Bu32, 0x0000u32)),
        (0x212Bu32, (0x00C5u32, 0x0000u32)),
    ];
    proof {
        assert(v@ =~= canonical_table_spec());
        lemma_canonical_table_wf();
    }
    v
}

/// Tabulated compatibility decompositions `(char, (first, second))`.
pub open spec fn compat_table_spec() -> Seq<(u32, (u32, u32))> {
    seq![
        (0x2460u32, (0x0031u32, 0x0000u32)),
        (0xFF21u32, (0x0041u32, 0x0000u32)),
        (0xFF22u32, (0x0042u32, 0x0000u32)),
        (0xFF23u32, (0x0043u32, 0x0000u32)),
    ]
}

/// The compat table is sorted and its mapped code points are
/// nonzero valid scalars (a zero second element marks a one-element mapping).
#[verifier::rlimit(100)]
pub proof fn lemma_compat_table_wf()
    ensures
        sorted_by_key(compat_table_spec()),
        decomp_payload_wf(compat_table_spec()),
{
    let t = compat_table_spec();
    assert(adjacent_sorted_by_key(t));
    assert(decomp_payload_wf(t));
    lemma_adjacent_sorted_by_key(t);
}

/// Builds the compat table.
pub fn compat_table() -> (r: Vec<(u32, (u32, u32))>)
    ensures
        r@ == compat_table_spec(),
        sorted_by_key(r@),
        decomp_payload_wf(r@),
{
    let v: Vec<(u32, (u32, u32))> = vec![
        (0x2460u32, (0x0031u32, 0x0000u32)),
        (0xFF21u32, (0x0041u32, 0x0000u32)),
        (0xFF22u32, (0x0042u32, 0x0000u32)),
        (0xFF23u32, (0x0043u32, 0x0000u32)),
    ];
    proof {
        assert(v@ =~= compat_table_spec());
        lemma_compat_table_wf();
    }
    v
}

/// The composition-exclusion set: characters with a tabulated canonical
/// decomposition that must never be re-composed from their parts.
pub open spec fn composition_excluded(c: u32) -> bool {
    c == 0x0958
}

/// Packs an ordered pair of code points into one 64-bit composition key.
pub open spec fn spec_pair_key(a: u32, b: u32) -> u64 {
    ((a as int) * 0x100000000 + (b as int)) as u64
}

/// Packs an ordered pair of code points into one 64-bit composition key.
pub fn pair_key(a: u32, b: u32) -> (r: u64)
    ensures
        r == spec_pair_key(a, b),
{
    (a as u64) * 0x100000000 + (b as u64)
}

/// Pairwise canonical compositions, keyed by the packed pair, excluding the
/// composition-exclusion set.
pub open spec fn compose_table_spec() -> Seq<(u64, u32)> {
    seq![
        (spec_pair_key(0x0041u32, 0x0300u32), 0x00C0u32),
        (spec_pair_key(0x0041u32, 0x0301u32), 0x00C1u32),
        (spec_pair_key(0x0041u32, 0x0302u32), 0x00C2u32),
        (spec_pair_key(0x0041u32, 0x0304u32), 0x0100u32),
        (spec_pair_key(0x0041u32, 0x030Au32), 0x00C5u32),
        (spec_pair_key(0x0044u32, 0x0307u32), 0x1E0Au32),
        (spec_pair_key(0x0045u32, 0x0300u32), 0x00C8u32),
        (spec_pair_key(0x0045u32, 0x0301u32), 0x00C9u32),
        (spec_pair_key(0x0061u32, 0x0300u32), 0x00E0u32),
        (spec_pair_key(0x0061u32, 0x0304u32), 0x0101u32),
        (spec_pair_key(0x0065u32, 0x0300u32), 0x00E8u32),
        (spec_pair_key(0x0065u32, 0x0301u32), 0x00E9u32),
        (spec_pair_key(0x00C2u32, 0x0301u32), 0x1EA4u32),
    ]
}

/// The composition table is sorted by its packed key.
#[verifier::rlimit(100)]
pub proof fn lemma_compose_table_sorted()
    ensures
        sorted_by_key64(compose_table_spec()),
{
    let t = compose_table_spec();
    assert(adjacent_sorted_by_key64(t));
    lemma_adjacent_sorted_by_key64(t);
}

/// Builds the composition table.
pub fn compose_table() -> (r: Vec<(u64, u32)>)
    ensures
        r@ == compose_table_spec(),
        sorted_by_key64(r@),
{
    let v: Vec<(u64, u32)> = vec![
        (0x4100000300u64, 0x00C0u32),
        (0x4100000301u64, 0x00C1u32),
        (0x4100000302u64, 0x00C2u32),
        (0x4100000304u64, 0x0100u32),
        (0x410000030Au64, 0x00C5u32),
        (0x4400000307u64, 0x1E0Au32),
        (0x4500000300u64, 0x00C8u32),
        (0x4500000301u64, 0x00C9u32),
        (0x6100000300u64, 0x00E0u32),
        (0x6100000304u64, 0x0101u32),
        (0x6500000300u64, 0x00E8u32),
        (0x6500000301u64, 0x00E9u32),
        (0xC200000301u64, 0x1EA4u32),
    ];
    proof {
        assert(v@ =~= compose_table_spec());
        lemma_compose_table_sorted();
    }
    v
}

/// Every composed character in the composition table is a nonzero valid
/// scalar.
pub proof fn lemma_compose_payload_valid(key: u64)
    ensures
        spec_lookup64(compose_table_spec(), key) is Some ==> valid_scalar(
            spec_lookup64(compose_table_spec(), key).unwrap(),
        ),
{
    if spec_lookup64(compose_table_spec(), key) is Some {
        lemma_lookup64_is_entry(compose_table_spec(), key, 0);
        let t = compose_table_spec();
        assert forall|i: int| 0 <= i < t.len() implies valid_scalar(#[trigger] t[i].1) by {}
    }
}

/// OpenType script tags (big-endian four-character codes) mapped to scripts,
/// sorted by tag. Hiragana and Katakana share one tag, which resolves here to
/// Katakana.
pub open spec fn scripts_by_tag_spec() -> Seq<(u32, Script)> {
    seq![
        (0x44464C54u32, Script::Common),
        (0x61646C6Du32, Script::Adlam),
        (0x61726162u32, Script::Arabic),
        (0x62656E67u32, Script::Bengali),
        (0x6379726Cu32, Script::Cyrillic),
        (0x64657661u32, Script::Devanagari),
        (0x6772656Bu32, Script::Greek),
        (0x68616E67u32, Script::Hangul),
        (0x68616E69u32, Script::Han),
        (0x68656272u32, Script::Hebrew),
        (0x6B616E61u32, Script::Katakana),
        (0x6C61746Eu32, Script::Latin),
        (0x6D616E64u32, Script::Mandaic),
        (0x6D616E69u32, Script::Manichaean),
        (0x6D6F6E67u32, Script::Mongolian),
        (0x6D796D72u32, Script::Myanmar),
        (0x6E6B6F20u32, Script::Nko),
        (0x70686167u32, Script::PhagsPa),
        (0x70686C70u32, Script::PsalterPahlavi),
        (0x73797263u32, Script::Syriac),
        (0x74686169u32, Script::Thai),
        (0x7A696E68u32, Script::Inherited),
        (0x7A7A7A7Au32, Script::Unknown),
    ]
}

/// The script tag table is sorted by tag.
#[verifier::rlimit(100)]
pub proof fn lemma_scripts_by_tag_sorted()
    ensures
        sorted_by_key(scripts_by_tag_spec()),
{
    let t = scripts_by_tag_spec();
    assert(adjacent_sorted_by_key(t));
    lemma_adjacent_sorted_by_key(t);
}

/// Builds the script tag table.
pub fn scripts_by_tag() -> (r: Vec<(u32, Script)>)
    ensures
        r@ == scripts_by_tag_spec(),
        sorted_by_key(r@),
{
    let v: Vec<(u32, Script)> = vec![
        (0x44464C54u32, Script::Common),
        (0x61646C6Du32, Script::Adlam),
        (0x61726162u32, Script::Arabic),
        (0x62656E67u32, Script::Bengali),
        (0x6379726Cu32, Script::Cyrillic),
        (0x64657661u32, Script::Devanagari),
        (0x6772656Bu32, Script::Greek),
        (0x68616E67u32, Script::Hangul),
        (0x68616E69u32, Script::Han),
        (0x68656272u32, Script::Hebrew),
        (0x6B616E61u32, Script::Katakana),
        (0x6C61746Eu32, Script::Latin),
        (0x6D616E64u32, Script::Mandaic),
        (0x6D616E69u32, Script::Manichaean),
        (0x6D6F6E67u32, Script::Mongolian),
        (0x6D796D72u32, Script::Myanmar),
        (0x6E6B6F20u32, Script::Nko),
        (0x70686167u32, Script::PhagsPa),
        (0x70686C70u32, Script::PsalterPahlavi),
        (0x73797263u32, Script::Syriac),
        (0x74686169u32, Script::Thai),
        (0x7A696E68u32, Script::Inherited),
        (0x7A7A7A7Au32, Script::Unknown),
    ];
    proof {
        assert(v@ =~= scripts_by_tag_spec());
        lemma_scripts_by_tag_sorted();
    }
    v
}

} // verus!
