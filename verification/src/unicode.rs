//! The classification surface: the `Properties` handle, the `Codepoint`
//! capability trait, bracket and mirror resolution, script metadata and bidi
//! class helpers.

use vstd::prelude::*;

use crate::compose::canonical_decomposition;
use crate::compose::code_points;
use crate::compose::compatibility_decomposition;
use crate::compose::compose_pair;
use crate::compose::compose_spec;
use crate::compose::decompose;
use crate::compose::decompose_compat;
use crate::compose::Decompose;
use crate::char_from_u32;
use crate::search::lemma_lookup_by_second_is_entry;
use crate::search::lemma_lookup_is_entry;
use crate::search::lookup_by_key;
use crate::search::lookup_by_second;
use crate::search::spec_lookup;
use crate::search::spec_lookup_by_second;
use crate::unicode_data::bracket_table;
use crate::unicode_data::bracket_table_spec;
use crate::unicode_data::get_record_index;
use crate::unicode_data::mirror_table;
use crate::unicode_data::mirror_table_spec;
use crate::unicode_data::record_index_spec;
use crate::unicode_data::record_of;
use crate::unicode_data::records;
use crate::unicode_data::records_spec;
use crate::unicode_data::scripts_by_tag;
use crate::unicode_data::scripts_by_tag_spec;
use crate::unicode_data::spec_flag;
use crate::unicode_data::BidiClass;
use crate::unicode_data::Block;
use crate::unicode_data::Category;
use crate::unicode_data::ClusterBreak;
use crate::unicode_data::JoiningType;
use crate::unicode_data::LineBreak;
use crate::unicode_data::MyanmarClass;
use crate::unicode_data::Record;
use crate::unicode_data::Script;
use crate::unicode_data::UseClass;
use crate::unicode_data::WordBreak;
use crate::unicode_data::FLAG_CLOSE_BRACKET;
use crate::unicode_data::FLAG_CONTRIBUTES_TO_SHAPING;
use crate::unicode_data::FLAG_EMOJI;
use crate::unicode_data::FLAG_EXTENDED_PICTOGRAPHIC;
use crate::unicode_data::FLAG_IGNORABLE;
use crate::unicode_data::FLAG_NEEDS_DECOMP;
use crate::unicode_data::FLAG_OPEN_BRACKET;
use crate::unicode_data::FLAG_VARIATION_SELECTOR;
use crate::unicode_data::RECORD_COUNT;
use crate::valid_scalar;

verus! {

/// A four-byte OpenType tag packed big-endian into 32 bits.
pub type Tag = u32;

/// Low bits of the packed `Properties` handle: the record index.
pub const RECORD_MASK: u16 = 0x1FFF;

/// Shift of the two transient boundary bits in the packed handle.
pub const BOUNDARY_SHIFT: u16 = 13;

/// Compact, constant-time reference to the Unicode properties of a character:
/// a validated record index packed with a two-bit transient boundary field
/// that segmentation callers own.
#[derive(Clone, Copy, PartialEq, Eq, Structural)]
pub struct Properties(u16);

impl Properties {
    /// Index into the record table held by this handle.
    pub closed spec fn record_index(self) -> int {
        (self.0 & RECORD_MASK) as int
    }

    /// The transient boundary field held by this handle.
    pub closed spec fn boundary_spec(self) -> u16 {
        self.0 >> BOUNDARY_SHIFT
    }

    /// The record this handle refers to.
    pub open spec fn record_spec(self) -> Record {
        records_spec()[self.record_index()]
    }

    /// The handle's record index is in bounds; only lookups produce handles,
    /// so this holds of every handle a caller can obtain.
    pub open spec fn wf(self) -> bool {
        self.record_index() < RECORD_COUNT
    }

    /// Looks up the properties of the code point `c`.
    pub fn new(c: u32) -> (r: Properties)
        requires
            valid_scalar(c),
        ensures
            r.wf(),
            r.record_index() == record_index_spec(c),
            r.record_spec() == record_of(c),
            r.boundary_spec() == 0,
    {
        let idx = get_record_index(c);
        proof {
            assert(idx & 0x1FFF == idx && idx >> 13 == 0) by (bit_vector)
                requires
                    idx < 0x2000u16,
            ;
        }
        Properties(idx)
    }

    /// The record of the character, decoded from the record table.
    fn record(self) -> (r: Record)
        requires
            self.wf(),
        ensures
            r == self.record_spec(),
    {
        let recs = records();
        recs[(self.0 & RECORD_MASK) as usize]
    }

    /// Returns the category of the character.
    pub fn category(self) -> (r: Category)
        requires
            self.wf(),
        ensures
            r == self.record_spec().category,
    {
        self.record().category
    }

    /// Returns the block that contains the character.
    pub fn block(self) -> (r: Block)
        requires
            self.wf(),
        ensures
            r == self.record_spec().block,
    {
        self.record().block
    }

    /// Returns the script to which the character belongs.
    pub fn script(self) -> (r: Script)
        requires
            self.wf(),
        ensures
            r == self.record_spec().script,
    {
        self.record().script
    }

    /// Returns the canonical combining class of the character.
    pub fn combining_class(self) -> (r: u8)
        requires
            self.wf(),
        ensures
            r == self.record_spec().combining_class,
    {
        self.record().combining_class
    }

    /// Returns the bidirectional class of the character.
    pub fn bidi_class(self) -> (r: BidiClass)
        requires
            self.wf(),
        ensures
            r == self.record_spec().bidi_class,
    {
        self.record().bidi_class
    }

    /// Returns the joining type of the character.
    pub fn joining_type(self) -> (r: JoiningType)
        requires
            self.wf(),
        ensures
            r == self.record_spec().joining_type,
    {
        self.record().joining_type
    }

    /// Returns the cluster break property of the character.
    pub fn cluster_break(self) -> (r: ClusterBreak)
        requires
            self.wf(),
        ensures
            r == self.record_spec().cluster_break,
    {
        self.record().cluster_break
    }

    /// Returns the word break property of the character.
    pub fn word_break(self) -> (r: WordBreak)
        requires
            self.wf(),
        ensures
            r == self.record_spec().word_break,
    {
        self.record().word_break
    }

    /// Returns the line break property of the character.
    pub fn line_break(self) -> (r: LineBreak)
        requires
            self.wf(),
        ensures
            r == self.record_spec().line_break,
    {
        self.record().line_break
    }

    /// Returns true if the character is an emoji.
    pub fn is_emoji(self) -> (r: bool)
        requires
            self.wf(),
        ensures
            r == spec_flag(self.record_spec().flags, FLAG_EMOJI),
    {
        self.record().is_emoji()
    }

    /// Returns true if the character is an extended pictographic symbol.
    pub fn is_extended_pictographic(self) -> (r: bool)
        requires
            self.wf(),
        ensures
            r == spec_flag(self.record_spec().flags, FLAG_EXTENDED_PICTOGRAPHIC),
    {
        self.record().is_extended_pictographic()
    }

    /// Returns true if the character is an opening bracket.
    pub fn is_open_bracket(self) -> (r: bool)
        requires
            self.wf(),
        ensures
            r == spec_flag(self.record_spec().flags, FLAG_OPEN_BRACKET),
    {
        self.record().is_open_bracket()
    }

    /// Returns true if the character is a closing bracket.
    pub fn is_close_bracket(self) -> (r: bool)
        requires
            self.wf(),
        ensures
            r == spec_flag(self.record_spec().flags, FLAG_CLOSE_BRACKET),
    {
        self.record().is_close_bracket()
    }

    /// Returns true if the character is default-ignorable.
    pub fn is_ignorable(self) -> (r: bool)
        requires
            self.wf(),
        ensures
            r == spec_flag(self.record_spec().flags, FLAG_IGNORABLE),
    {
        self.record().is_ignorable()
    }

    /// Returns true if the character is a variation selector.
    pub fn is_variation_selector(self) -> (r: bool)
        requires
            self.wf(),
        ensures
            r == spec_flag(self.record_spec().flags, FLAG_VARIATION_SELECTOR),
    {
        self.record().is_variation_selector()
    }

    /// Returns true if the character takes part in shape selection.
    pub fn contributes_to_shaping(self) -> (r: bool)
        requires
            self.wf(),
        ensures
            r == spec_flag(self.record_spec().flags, FLAG_CONTRIBUTES_TO_SHAPING),
    {
        self.record().contributes_to_shaping()
    }

    /// Returns a copy of this handle carrying the given boundary value.
    pub fn with_boundary(self, b: u16) -> (r: Self)
        requires
            self.wf(),
        ensures
            r.wf(),
            r.record_index() == self.record_index(),
            r.boundary_spec() == b & 3,
    {
        let mut copy = self;
        copy.set_boundary(b);
        copy
    }

    /// Returns the transient boundary field.
    pub fn boundary(self) -> (r: u16)
        ensures
            r == self.boundary_spec(),
    {
        self.0 >> BOUNDARY_SHIFT
    }

    /// Sets the transient boundary field, leaving the record index unchanged.
    /// Only the caller's copy changes; no shared state exists to mutate.
    pub fn set_boundary(&mut self, boundary: u16)
        requires
            old(self).wf(),
        ensures
            final(self).wf(),
            final(self).record_index() == old(self).record_index(),
            final(self).boundary_spec() == boundary & 3,
    {
        let x = self.0;
        let next = (x & RECORD_MASK) | (boundary & 0b11) << BOUNDARY_SHIFT;
        proof {
            let b = boundary;
            assert(((x & 0x1FFF) | (b & 0b11) << 13) & 0x1FFF == x & 0x1FFF) by (bit_vector);
            assert(((x & 0x1FFF) | (b & 0b11) << 13) >> 13 == b & 3) by (bit_vector);
        }
        self.0 = next;
    }

    /// Returns the universal shaping engine class, whether the character
    /// should be decomposed before shaping, and whether it is extended
    /// pictographic.
    pub fn use_class(self) -> (r: (UseClass, bool, bool))
        requires
            self.wf(),
        ensures
            r.0 == self.record_spec().use_class,
            r.1 == spec_flag(self.record_spec().flags, FLAG_NEEDS_DECOMP),
            r.2 == spec_flag(self.record_spec().flags, FLAG_EXTENDED_PICTOGRAPHIC),
    {
        let r = self.record();
        (r.use_class, r.needs_decomp(), r.is_extended_pictographic())
    }

    /// Returns the Myanmar shaping class and whether the character is
    /// extended pictographic.
    pub fn myanmar_class(self) -> (r: (MyanmarClass, bool))
        requires
            self.wf(),
        ensures
            r.0 == self.record_spec().myanmar_class,
            r.1 == spec_flag(self.record_spec().flags, FLAG_EXTENDED_PICTOGRAPHIC),
    {
        let r = self.record();
        (r.myanmar_class, r.is_extended_pictographic())
    }

    /// Returns the cluster break property and whether the character is
    /// extended pictographic.
    pub fn cluster_class(self) -> (r: (ClusterBreak, bool))
        requires
            self.wf(),
        ensures
            r.0 == self.record_spec().cluster_break,
            r.1 == spec_flag(self.record_spec().flags, FLAG_EXTENDED_PICTOGRAPHIC),
    {
        let r = self.record();
        (r.cluster_break, r.is_extended_pictographic())
    }
}

impl Default for Properties {
    /// The handle of the default record, with a clear boundary field.
    fn default() -> (r: Self)
        ensures
            r.wf(),
            r.record_index() == 0,
            r.boundary_spec() == 0,
    {
        proof {
            assert(0u16 & 0x1FFF == 0u16 && 0u16 >> 13 == 0u16) by (bit_vector);
        }
        Properties(0)
    }
}

/// Bracket type of a character.
#[derive(Clone, Copy, PartialEq, Eq, Structural, Debug)]
pub enum BracketType {
    /// Not a bracket.
    NoBracket,
    /// An opening bracket, with the associated closing bracket.
    Open(char),
    /// A closing bracket, with the associated opening bracket.
    Close(char),
}

/// Every code point in the bracket and mirror tables is a valid scalar.
proof fn lemma_pair_tables_valid()
    ensures
        forall|i: int|
            0 <= i < bracket_table_spec().len() ==> valid_scalar(
                #[trigger] bracket_table_spec()[i].0,
            ) && valid_scalar(bracket_table_spec()[i].1),
        forall|i: int|
            0 <= i < mirror_table_spec().len() ==> valid_scalar(
                #[trigger] mirror_table_spec()[i].0,
            ) && valid_scalar(mirror_table_spec()[i].1),
{
    assert forall|i: int|
        0 <= i < bracket_table_spec().len() implies valid_scalar(
        #[trigger] bracket_table_spec()[i].0,
    ) && valid_scalar(bracket_table_spec()[i].1) by {}
    assert forall|i: int|
        0 <= i < mirror_table_spec().len() implies valid_scalar(
        #[trigger] mirror_table_spec()[i].0,
    ) && valid_scalar(mirror_table_spec()[i].1) by {}
}

/// Trait that exposes the classification capability set for any
/// scalar-value-like type.
pub trait Codepoint: Sized + Copy {
    /// The code point of the value.
    spec fn code_point(self) -> u32;

    /// The code point is a Unicode scalar value.
    proof fn lemma_code_point_valid(self)
        ensures
            valid_scalar(self.code_point()),
    ;

    /// Returns the properties handle of the code point.
    fn properties(self) -> (r: Properties)
        ensures
            r.wf(),
            r.record_spec() == record_of(self.code_point()),
            r.boundary_spec() == 0,
    ;

    /// Returns the category of the character.
    fn category(self) -> (r: Category)
        ensures
            r == record_of(self.code_point()).category,
    ;

    /// Returns the block that contains the character.
    fn block(self) -> (r: Block)
        ensures
            r == record_of(self.code_point()).block,
    ;

    /// Returns the script to which the character belongs.
    fn script(self) -> (r: Script)
        ensures
            r == record_of(self.code_point()).script,
    ;

    /// Returns the canonical combining class of the character.
    fn combining_class(self) -> (r: u8)
        ensures
            r == record_of(self.code_point()).combining_class,
    ;

    /// Returns the bidirectional class of the character.
    fn bidi_class(self) -> (r: BidiClass)
        ensures
            r == record_of(self.code_point()).bidi_class,
    ;

    /// Returns the joining type of the character.
    fn joining_type(self) -> (r: JoiningType)
        ensures
            r == record_of(self.code_point()).joining_type,
    ;

    /// Returns the cluster break property of the character.
    fn cluster_break(self) -> (r: ClusterBreak)
        ensures
            r == record_of(self.code_point()).cluster_break,
    ;

    /// Returns the word break property of the character.
    fn word_break(self) -> (r: WordBreak)
        ensures
            r == record_of(self.code_point()).word_break,
    ;

    /// Returns the line break property of the character.
    fn line_break(self) -> (r: LineBreak)
        ensures
            r == record_of(self.code_point()).line_break,
    ;

    /// Returns true if the character is an emoji.
    fn is_emoji(self) -> (r: bool)
        ensures
            r == spec_flag(record_of(self.code_point()).flags, FLAG_EMOJI),
    ;

    /// Returns true if the character is an extended pictographic symbol.
    fn is_extended_pictographic(self) -> (r: bool)
        ensures
            r == spec_flag(record_of(self.code_point()).flags, FLAG_EXTENDED_PICTOGRAPHIC),
    ;

    /// Returns the bracket type of the character: opener first, then closer.
    fn bracket_type(self) -> (r: BracketType)
        ensures
            (match r {
                BracketType::Open(other) => spec_lookup(bracket_table_spec(), self.code_point())
                    == Some(other as u32),
                BracketType::Close(other) => spec_lookup(bracket_table_spec(), self.code_point())
                    is None && spec_lookup_by_second(bracket_table_spec(), self.code_point())
                    == Some(other as u32),
                BracketType::NoBracket => spec_lookup(bracket_table_spec(), self.code_point())
                    is None && spec_lookup_by_second(bracket_table_spec(), self.code_point())
                    is None,
            }),
    ;

    /// If the character is a closing bracket, returns its opening bracket.
    fn opening_bracket(self) -> (r: Option<char>)
        ensures
            (match r {
                Some(other) => spec_lookup_by_second(bracket_table_spec(), self.code_point())
                    == Some(other as u32),
                None => spec_lookup_by_second(bracket_table_spec(), self.code_point()) is None,
            }),
    ;

    /// If the character is an opening bracket, returns its closing bracket.
    fn closing_bracket(self) -> (r: Option<char>)
        ensures
            (match r {
                Some(other) => spec_lookup(bracket_table_spec(), self.code_point()) == Some(
                    other as u32,
                ),
                None => spec_lookup(bracket_table_spec(), self.code_point()) is None,
            }),
    ;

    /// Returns the mirror of the character, if any.
    fn mirror(self) -> (r: Option<char>)
        ensures
            (match r {
                Some(other) => spec_lookup(mirror_table_spec(), self.code_point()) == Some(
                    other as u32,
                ),
                None => spec_lookup(mirror_table_spec(), self.code_point()) is None,
            }),
    ;

    /// Returns the canonical composition of the ordered pair, if any.
    fn compose(a: char, b: char) -> (r: Option<char>)
        ensures
            (match r {
                Some(c) => compose_spec(a as u32, b as u32) == Some(c as u32),
                None => compose_spec(a as u32, b as u32) is None,
            }),
    ;

    /// Returns the canonical decomposition of the character.
    fn decompose(self) -> (r: Decompose)
        ensures
            code_points(r.chars()) == canonical_decomposition(self.code_point()),
            r.position() == 0,
            r.wf(),
    ;

    /// Returns the compatibility decomposition of the character.
    fn decompose_compatible(self) -> (r: Decompose)
        ensures
            code_points(r.chars()) == compatibility_decomposition(self.code_point()),
            r.position() == 0,
            r.wf(),
    ;
}

impl Codepoint for char {
    open spec fn code_point(self) -> u32 {
        self as u32
    }

    proof fn lemma_code_point_valid(self) {
        vstd::utf8::char_is_scalar(self);
    }

    fn properties(self) -> (r: Properties) {
        proof {
            vstd::utf8::char_is_scalar(self);
        }
        Properties::new(self as u32)
    }

    fn category(self) -> (r: Category) {
        self.properties().category()
    }

    fn block(self) -> (r: Block) {
        self.properties().block()
    }

    fn script(self) -> (r: Script) {
        self.properties().script()
    }

    fn combining_class(self) -> (r: u8) {
        self.properties().combining_class()
    }

    fn bidi_class(self) -> (r: BidiClass) {
        self.properties().bidi_class()
    }

    fn joining_type(self) -> (r: JoiningType) {
        self.properties().joining_type()
    }

    fn cluster_break(self) -> (r: ClusterBreak) {
        self.properties().cluster_break()
    }

    fn word_break(self) -> (r: WordBreak) {
        self.properties().word_break()
    }

    fn line_break(self) -> (r: LineBreak) {
        self.properties().line_break()
    }

    fn is_emoji(self) -> (r: bool) {
        self.properties().is_emoji()
    }

    fn is_extended_pictographic(self) -> (r: bool) {
        self.properties().is_extended_pictographic()
    }

    fn bracket_type(self) -> (r: BracketType) {
        match self.closing_bracket() {
            Some(other) => BracketType::Open(other),
            _ => match self.opening_bracket() {
                Some(other) => BracketType::Close(other),
                _ => BracketType::NoBracket,
            },
        }
    }

    fn opening_bracket(self) -> (r: Option<char>) {
        let c = self as u32;
        let table = bracket_table();
        match lookup_by_second(&table, c) {
            Some(open) => {
                proof {
                    lemma_lookup_by_second_is_entry(bracket_table_spec(), c, 0);
                    lemma_pair_tables_valid();
                }
                Some(char_from_u32(open).unwrap())
            },
            None => None,
        }
    }

    fn closing_bracket(self) -> (r: Option<char>) {
        let c = self as u32;
        let table = bracket_table();
        match lookup_by_key(&table, c) {
            Some(close) => {
                proof {
                    lemma_lookup_is_entry(bracket_table_spec(), c, 0);
                    lemma_pair_tables_valid();
                }
                Some(char_from_u32(close).unwrap())
            },
            None => None,
        }
    }

    fn mirror(self) -> (r: Option<char>) {
        let c = self as u32;
        let table = mirror_table();
        match lookup_by_key(&table, c) {
            Some(m) => {
                proof {
                    lemma_lookup_is_entry(mirror_table_spec(), c, 0);
                    lemma_pair_tables_valid();
                }
                Some(char_from_u32(m).unwrap())
            },
            None => None,
        }
    }

    fn compose(a: char, b: char) -> (r: Option<char>) {
        compose_pair(a, b)
    }

    fn decompose(self) -> (r: Decompose) {
        decompose(self)
    }

    fn decompose_compatible(self) -> (r: Decompose) {
        decompose_compat(self)
    }
}

/// Name of a script.
pub open spec fn script_name_spec(s: Script) -> Seq<char> {
    match s {
        Script::Adlam => "Adlam"@,
        Script::Arabic => "Arabic"@,
        Script::Bengali => "Bengali"@,
        Script::Common => "Common"@,
        Script::Cyrillic => "Cyrillic"@,
        Script::Devanagari => "Devanagari"@,
        Script::Greek => "Greek"@,
        Script::Han => "Han"@,
        Script::Hangul => "Hangul"@,
        Script::Hebrew => "Hebrew"@,
        Script::Hiragana => "Hiragana"@,
        Script::Inherited => "Inherited"@,
        Script::Katakana => "Katakana"@,
        Script::Latin => "Latin"@,
        Script::Mandaic => "Mandaic"@,
        Script::Manichaean => "Manichaean"@,
        Script::Mongolian => "Mongolian"@,
        Script::Myanmar => "Myanmar"@,
        Script::Nko => "N'Ko"@,
        Script::PhagsPa => "Phags-pa"@,
        Script::PsalterPahlavi => "Psalter Pahlavi"@,
        Script::Syriac => "Syriac"@,
        Script::Thai => "Thai"@,
        Script::Unknown => "Unknown"@,
    }
}

/// OpenType tag of a script.
pub open spec fn script_tag_spec(s: Script) -> Tag {
    match s {
        Script::Adlam => 0x61646C6Du32,
        Script::Arabic => 0x61726162u32,
        Script::Bengali => 0x62656E67u32,
        Script::Common => 0x44464C54u32,
        Script::Cyrillic => 0x6379726Cu32,
        Script::Devanagari => 0x64657661u32,
        Script::Greek => 0x6772656Bu32,
        Script::Han => 0x68616E69u32,
        Script::Hangul => 0x68616E67u32,
        Script::Hebrew => 0x68656272u32,
        Script::Hiragana => 0x6B616E61u32,
        Script::Inherited => 0x7A696E68u32,
        Script::Katakana => 0x6B616E61u32,
        Script::Latin => 0x6C61746Eu32,
        Script::Mandaic => 0x6D616E64u32,
        Script::Manichaean => 0x6D616E69u32,
        Script::Mongolian => 0x6D6F6E67u32,
        Script::Myanmar => 0x6D796D72u32,
        Script::Nko => 0x6E6B6F20u32,
        Script::PhagsPa => 0x70686167u32,
        Script::PsalterPahlavi => 0x70686C70u32,
        Script::Syriac => 0x73797263u32,
        Script::Thai => 0x74686169u32,
        Script::Unknown => 0x7A7A7A7Au32,
    }
}

/// Whether a script requires the complex shaping path.
pub open spec fn script_is_complex_spec(s: Script) -> bool {
    match s {
        Script::Adlam => true,
        Script::Arabic => true,
        Script::Bengali => true,
        Script::Common => false,
        Script::Cyrillic => false,
        Script::Devanagari => true,
        Script::Greek => false,
        Script::Han => false,
        Script::Hangul => true,
        Script::Hebrew => false,
        Script::Hiragana => false,
        Script::Inherited => false,
        Script::Katakana => false,
        Script::Latin => false,
        Script::Mandaic => true,
        Script::Manichaean => true,
        Script::Mongolian => true,
        Script::Myanmar => true,
        Script::Nko => true,
        Script::PhagsPa => true,
        Script::PsalterPahlavi => true,
        Script::Syriac => true,
        Script::Thai => true,
        Script::Unknown => false,
    }
}

/// Whether a script is in the closed set of cursive-joining scripts.
pub open spec fn script_is_joined_spec(s: Script) -> bool {
    s == Script::Arabic || s == Script::Mongolian || s == Script::Syriac || s == Script::Nko || s == Script::PhagsPa || s == Script::Mandaic || s == Script::Manichaean || s == Script::PsalterPahlavi || s == Script::Adlam
}

impl Script {
    /// Returns the script associated with the given OpenType tag, or `None`
    /// for an unrecognized tag.
    pub fn from_opentype(tag: Tag) -> (r: Option<Script>)
        ensures
            r == spec_lookup(scripts_by_tag_spec(), tag),
    {
        let table = scripts_by_tag();
        lookup_by_key(&table, tag)
    }

    /// Returns the name of the script.
    pub fn name(self) -> (r: &'static str)
        ensures
            r@ == script_name_spec(self),
    {
        match self {
            Script::Adlam => "Adlam",
            Script::Arabic => "Arabic",
            Script::Bengali => "Bengali",
            Script::Common => "Common",
            Script::Cyrillic => "Cyrillic",
            Script::Devanagari => "Devanagari",
            Script::Greek => "Greek",
            Script::Han => "Han",
            Script::Hangul => "Hangul",
            Script::Hebrew => "Hebrew",
            Script::Hiragana => "Hiragana",
            Script::Inherited => "Inherited",
            Script::Katakana => "Katakana",
            Script::Latin => "Latin",
            Script::Mandaic => "Mandaic",
            Script::Manichaean => "Manichaean",
            Script::Mongolian => "Mongolian",
            Script::Myanmar => "Myanmar",
            Script::Nko => "N'Ko",
            Script::PhagsPa => "Phags-pa",
            Script::PsalterPahlavi => "Psalter Pahlavi",
            Script::Syriac => "Syriac",
            Script::Thai => "Thai",
            Script::Unknown => "Unknown",
        }
    }

    /// Returns true if the script requires complex shaping.
    pub fn is_complex(self) -> (r: bool)
        ensures
            r == script_is_complex_spec(self),
    {
        match self {
            Script::Adlam => true,
            Script::Arabic => true,
            Script::Bengali => true,
            Script::Common => false,
            Script::Cyrillic => false,
            Script::Devanagari => true,
            Script::Greek => false,
            Script::Han => false,
            Script::Hangul => true,
            Script::Hebrew => false,
            Script::Hiragana => false,
            Script::Inherited => false,
            Script::Katakana => false,
            Script::Latin => false,
            Script::Mandaic => true,
            Script::Manichaean => true,
            Script::Mongolian => true,
            Script::Myanmar => true,
            Script::Nko => true,
            Script::PhagsPa => true,
            Script::PsalterPahlavi => true,
            Script::Syriac => true,
            Script::Thai => true,
            Script::Unknown => false,
        }
    }

    /// Returns true if the script has cursive joining.
    pub fn is_joined(self) -> (r: bool)
        ensures
            r == script_is_joined_spec(self),
    {
        matches!(
            self,
            Script::Arabic
                | Script::Mongolian
                | Script::Syriac
                | Script::Nko
                | Script::PhagsPa
                | Script::Mandaic
                | Script::Manichaean
                | Script::PsalterPahlavi
                | Script::Adlam
        )
    }

    /// Returns the script as an OpenType tag.
    pub fn to_opentype(self) -> (r: Tag)
        ensures
            r == script_tag_spec(self),
    {
        match self {
            Script::Adlam => 0x61646C6Du32,
            Script::Arabic => 0x61726162u32,
            Script::Bengali => 0x62656E67u32,
            Script::Common => 0x44464C54u32,
            Script::Cyrillic => 0x6379726Cu32,
            Script::Devanagari => 0x64657661u32,
            Script::Greek => 0x6772656Bu32,
            Script::Han => 0x68616E69u32,
            Script::Hangul => 0x68616E67u32,
            Script::Hebrew => 0x68656272u32,
            Script::Hiragana => 0x6B616E61u32,
            Script::Inherited => 0x7A696E68u32,
            Script::Katakana => 0x6B616E61u32,
            Script::Latin => 0x6C61746Eu32,
            Script::Mandaic => 0x6D616E64u32,
            Script::Manichaean => 0x6D616E69u32,
            Script::Mongolian => 0x6D6F6E67u32,
            Script::Myanmar => 0x6D796D72u32,
            Script::Nko => 0x6E6B6F20u32,
            Script::PhagsPa => 0x70686167u32,
            Script::PsalterPahlavi => 0x70686C70u32,
            Script::Syriac => 0x73797263u32,
            Script::Thai => 0x74686169u32,
            Script::Unknown => 0x7A7A7A7Au32,
        }
    }
}

/// The bit assigned to a bidi class in the 32-bit class mask.
pub open spec fn bidi_mask_spec(c: BidiClass) -> u32 {
    match c {
        BidiClass::AL => 1u32 << 0,
        BidiClass::AN => 1u32 << 1,
        BidiClass::B => 1u32 << 2,
        BidiClass::BN => 1u32 << 3,
        BidiClass::CS => 1u32 << 4,
        BidiClass::EN => 1u32 << 5,
        BidiClass::ES => 1u32 << 6,
        BidiClass::ET => 1u32 << 7,
        BidiClass::FSI => 1u32 << 8,
        BidiClass::L => 1u32 << 9,
        BidiClass::LRE => 1u32 << 10,
        BidiClass::LRI => 1u32 << 11,
        BidiClass::LRO => 1u32 << 12,
        BidiClass::NSM => 1u32 << 13,
        BidiClass::ON => 1u32 << 14,
        BidiClass::PDF => 1u32 << 15,
        BidiClass::PDI => 1u32 << 16,
        BidiClass::R => 1u32 << 17,
        BidiClass::RLE => 1u32 << 18,
        BidiClass::RLI => 1u32 << 19,
        BidiClass::RLO => 1u32 << 20,
        BidiClass::S => 1u32 << 21,
        BidiClass::WS => 1u32 << 22,
    }
}

/// The bidi classes whose presence requires running bidi resolution: the
/// explicit directional overrides, the explicit directional isolates, and the
/// strong right-to-left, Arabic letter and Arabic number classes.
pub open spec fn needs_resolution_spec(c: BidiClass) -> bool {
    ||| c == BidiClass::RLE
    ||| c == BidiClass::LRE
    ||| c == BidiClass::RLO
    ||| c == BidiClass::LRO
    ||| c == BidiClass::RLI
    ||| c == BidiClass::LRI
    ||| c == BidiClass::FSI
    ||| c == BidiClass::R
    ||| c == BidiClass::AL
    ||| c == BidiClass::AN
}

/// Mask of the directional override control classes.
pub const OVERRIDE_MASK: u32 = 0x141400;

/// Mask of the directional isolate classes.
pub const ISOLATE_MASK: u32 = 0x80900;

/// Mask of every class that requires bidi resolution: the override controls,
/// the isolates, and the strong R, AL and AN classes.
pub const RESOLUTION_MASK: u32 = 0x1E1D03;

impl BidiClass {
    /// Returns the bidi class as a 32-bit bitmask.
    pub fn mask(self) -> (r: u32)
        ensures
            r == bidi_mask_spec(self),
    {
        match self {
            BidiClass::AL => 1u32 << 0,
            BidiClass::AN => 1u32 << 1,
            BidiClass::B => 1u32 << 2,
            BidiClass::BN => 1u32 << 3,
            BidiClass::CS => 1u32 << 4,
            BidiClass::EN => 1u32 << 5,
            BidiClass::ES => 1u32 << 6,
            BidiClass::ET => 1u32 << 7,
            BidiClass::FSI => 1u32 << 8,
            BidiClass::L => 1u32 << 9,
            BidiClass::LRE => 1u32 << 10,
            BidiClass::LRI => 1u32 << 11,
            BidiClass::LRO => 1u32 << 12,
            BidiClass::NSM => 1u32 << 13,
            BidiClass::ON => 1u32 << 14,
            BidiClass::PDF => 1u32 << 15,
            BidiClass::PDI => 1u32 << 16,
            BidiClass::R => 1u32 << 17,
            BidiClass::RLE => 1u32 << 18,
            BidiClass::RLI => 1u32 << 19,
            BidiClass::RLO => 1u32 << 20,
            BidiClass::S => 1u32 << 21,
            BidiClass::WS => 1u32 << 22,
        }
    }

    /// Returns true if the presence of this bidi class requires running the
    /// bidirectional algorithm; runs of other classes may skip it entirely.
    pub fn needs_resolution(self) -> (r: bool)
        ensures
            r == needs_resolution_spec(self),
    {
        proof {
            assert(((1u32 << 0) & 0x1E1D03u32 != 0)
                && ((1u32 << 1) & 0x1E1D03u32 != 0)
                && ((1u32 << 2) & 0x1E1D03u32 == 0)
                && ((1u32 << 3) & 0x1E1D03u32 == 0)
                && ((1u32 << 4) & 0x1E1D03u32 == 0)
                && ((1u32 << 5) & 0x1E1D03u32 == 0)
                && ((1u32 << 6) & 0x1E1D03u32 == 0)
                && ((1u32 << 7) & 0x1E1D03u32 == 0)
                && ((1u32 << 8) & 0x1E1D03u32 != 0)
                && ((1u32 << 9) & 0x1E1D03u32 == 0)
                && ((1u32 << 10) & 0x1E1D03u32 != 0)
                && ((1u32 << 11) & 0x1E1D03u32 != 0)
                && ((1u32 << 12) & 0x1E1D03u32 != 0)
                && ((1u32 << 13) & 0x1E1D03u32 == 0)
                && ((1u32 << 14) & 0x1E1D03u32 == 0)
                && ((1u32 << 15) & 0x1E1D03u32 == 0)
                && ((1u32 << 16) & 0x1E1D03u32 == 0)
                && ((1u32 << 17) & 0x1E1D03u32 != 0)
                && ((1u32 << 18) & 0x1E1D03u32 != 0)
                && ((1u32 << 19) & 0x1E1D03u32 != 0)
                && ((1u32 << 20) & 0x1E1D03u32 != 0)
                && ((1u32 << 21) & 0x1E1D03u32 == 0)
                && ((1u32 << 22) & 0x1E1D03u32 == 0)) by (bit_vector);
        }
        self.mask() & RESOLUTION_MASK != 0
    }
}

/// The bit assigned to a word break class in the 32-bit class mask.
pub open spec fn word_break_mask_spec(w: WordBreak) -> u32 {
    match w {
        WordBreak::Other => 1u32 << 0,
        WordBreak::Cr => 1u32 << 1,
        WordBreak::Lf => 1u32 << 2,
        WordBreak::Newline => 1u32 << 3,
        WordBreak::Extend => 1u32 << 4,
        WordBreak::Zwj => 1u32 << 5,
        WordBreak::RegionalIndicator => 1u32 << 6,
        WordBreak::Format => 1u32 << 7,
        WordBreak::Katakana => 1u32 << 8,
        WordBreak::HebrewLetter => 1u32 << 9,
        WordBreak::ALetter => 1u32 << 10,
        WordBreak::SingleQuote => 1u32 << 11,
        WordBreak::DoubleQuote => 1u32 << 12,
        WordBreak::MidNumLet => 1u32 << 13,
        WordBreak::MidLetter => 1u32 << 14,
        WordBreak::MidNum => 1u32 << 15,
        WordBreak::Numeric => 1u32 << 16,
        WordBreak::ExtendNumLet => 1u32 << 17,
        WordBreak::WSegSpace => 1u32 << 18,
    }
}

impl WordBreak {
    /// Returns the word break class as a 32-bit bitmask.
    pub fn mask(self) -> (r: u32)
        ensures
            r == word_break_mask_spec(self),
    {
        match self {
            WordBreak::Other => 1u32 << 0,
            WordBreak::Cr => 1u32 << 1,
            WordBreak::Lf => 1u32 << 2,
            WordBreak::Newline => 1u32 << 3,
            WordBreak::Extend => 1u32 << 4,
            WordBreak::Zwj => 1u32 << 5,
            WordBreak::RegionalIndicator => 1u32 << 6,
            WordBreak::Format => 1u32 << 7,
            WordBreak::Katakana => 1u32 << 8,
            WordBreak::HebrewLetter => 1u32 << 9,
            WordBreak::ALetter => 1u32 << 10,
            WordBreak::SingleQuote => 1u32 << 11,
            WordBreak::DoubleQuote => 1u32 << 12,
            WordBreak::MidNumLet => 1u32 << 13,
            WordBreak::MidLetter => 1u32 << 14,
            WordBreak::MidNum => 1u32 << 15,
            WordBreak::Numeric => 1u32 << 16,
            WordBreak::ExtendNumLet => 1u32 << 17,
            WordBreak::WSegSpace => 1u32 << 18,
        }
    }
}

} // verus!
