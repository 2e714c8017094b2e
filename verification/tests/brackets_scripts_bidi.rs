use unicode_props::unicode::BracketType;
use unicode_props::unicode::Codepoint;
use unicode_props::unicode_data::BidiClass;
use unicode_props::unicode_data::Script;
use unicode_props::unicode_data::WordBreak;

fn tag(s: &str) -> u32 {
    let b = s.as_bytes();
    ((b[0] as u32) << 24) | ((b[1] as u32) << 16) | ((b[2] as u32) << 8) | (b[3] as u32)
}

#[test]
fn bracket_type_of_parentheses() {
    assert_eq!('('.bracket_type(), BracketType::Open(')'));
    assert_eq!(')'.bracket_type(), BracketType::Close('('));
    assert_eq!('a'.bracket_type(), BracketType::NoBracket);
}

#[test]
fn bracket_type_of_other_pairs() {
    assert_eq!('['.bracket_type(), BracketType::Open(']'));
    assert_eq!('}'.bracket_type(), BracketType::Close('{'));
    assert_eq!('\u{3008}'.bracket_type(), BracketType::Open('\u{3009}'));
    assert_eq!('\u{300F}'.bracket_type(), BracketType::Close('\u{300E}'));
    assert_eq!('\u{2308}'.bracket_type(), BracketType::Open('\u{2309}'));
}

#[test]
fn opening_and_closing_bracket_lookups() {
    assert_eq!('('.closing_bracket(), Some(')'));
    assert_eq!('('.opening_bracket(), None);
    assert_eq!(')'.opening_bracket(), Some('('));
    assert_eq!(')'.closing_bracket(), None);
    assert_eq!('a'.opening_bracket(), None);
    assert_eq!('a'.closing_bracket(), None);
    assert_eq!('\u{230A}'.closing_bracket(), Some('\u{230B}'));
}

#[test]
fn mirror_lookups() {
    assert_eq!('<'.mirror(), Some('>'));
    assert_eq!('>'.mirror(), Some('<'));
    assert_eq!('('.mirror(), Some(')'));
    assert_eq!('a'.mirror(), None);
    assert_eq!('\u{3008}'.mirror(), Some('\u{3009}'));
}

#[test]
fn script_from_opentype_tags() {
    assert_eq!(Script::from_opentype(tag("arab")), Some(Script::Arabic));
    assert_eq!(Script::from_opentype(tag("latn")), Some(Script::Latin));
    assert_eq!(Script::from_opentype(tag("hebr")), Some(Script::Hebrew));
    assert_eq!(Script::from_opentype(tag("kana")), Some(Script::Katakana));
    assert_eq!(Script::from_opentype(tag("qqqq")), None);
    assert_eq!(Script::from_opentype(0), None);
}

#[test]
fn script_to_opentype_tags() {
    assert_eq!(Script::Arabic.to_opentype(), tag("arab"));
    assert_eq!(Script::Latin.to_opentype(), tag("latn"));
    assert_eq!(Script::Nko.to_opentype(), tag("nko "));
    assert_eq!(Script::Hiragana.to_opentype(), tag("kana"));
}

#[test]
fn script_complexity() {
    assert!(Script::Arabic.is_complex());
    assert!(Script::Devanagari.is_complex());
    assert!(Script::Myanmar.is_complex());
    assert!(!Script::Latin.is_complex());
    assert!(!Script::Cyrillic.is_complex());
    assert!(!Script::Greek.is_complex());
}

#[test]
fn script_joining() {
    for s in [
        Script::Arabic,
        Script::Mongolian,
        Script::Syriac,
        Script::Nko,
        Script::PhagsPa,
        Script::Mandaic,
        Script::Manichaean,
        Script::PsalterPahlavi,
        Script::Adlam,
    ] {
        assert!(s.is_joined());
    }
    assert!(!Script::Latin.is_joined());
    assert!(!Script::Hebrew.is_joined());
    assert!(!Script::Thai.is_joined());
}

#[test]
fn script_names() {
    assert_eq!(Script::Latin.name(), "Latin");
    assert_eq!(Script::Arabic.name(), "Arabic");
    assert_eq!(Script::PhagsPa.name(), "Phags-pa");
    assert_eq!(Script::Nko.name(), "N'Ko");
}

#[test]
fn bidi_class_masks_are_distinct_bits() {
    let classes = [
        BidiClass::AL,
        BidiClass::AN,
        BidiClass::B,
        BidiClass::BN,
        BidiClass::CS,
        BidiClass::EN,
        BidiClass::ES,
        BidiClass::ET,
        BidiClass::FSI,
        BidiClass::L,
        BidiClass::LRE,
        BidiClass::LRI,
        BidiClass::LRO,
        BidiClass::NSM,
        BidiClass::ON,
        BidiClass::PDF,
        BidiClass::PDI,
        BidiClass::R,
        BidiClass::RLE,
        BidiClass::RLI,
        BidiClass::RLO,
        BidiClass::S,
        BidiClass::WS,
    ];
    let mut seen: u32 = 0;
    for c in classes {
        let m = c.mask();
        assert_eq!(m.count_ones(), 1);
        assert_eq!(seen & m, 0);
        seen |= m;
    }
}

#[test]
fn bidi_needs_resolution() {
    assert!(BidiClass::R.needs_resolution());
    assert!(BidiClass::AL.needs_resolution());
    assert!(BidiClass::AN.needs_resolution());
    assert!(BidiClass::RLE.needs_resolution());
    assert!(BidiClass::LRO.needs_resolution());
    assert!(BidiClass::FSI.needs_resolution());
    assert!(BidiClass::RLI.needs_resolution());
    assert!(!BidiClass::L.needs_resolution());
    assert!(!BidiClass::EN.needs_resolution());
    assert!(!BidiClass::WS.needs_resolution());
    assert!(!BidiClass::ON.needs_resolution());
    assert!(!BidiClass::NSM.needs_resolution());
}

#[test]
fn word_break_mask_bits() {
    assert_eq!(WordBreak::Other.mask(), 1);
    assert_ne!(WordBreak::ALetter.mask(), WordBreak::Numeric.mask());
    assert_eq!(WordBreak::ALetter.mask().count_ones(), 1);
}
