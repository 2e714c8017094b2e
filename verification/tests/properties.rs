use unicode_props::unicode::Codepoint;
use unicode_props::unicode::Properties;
use unicode_props::unicode_data::BidiClass;
use unicode_props::unicode_data::Block;
use unicode_props::unicode_data::Category;
use unicode_props::unicode_data::ClusterBreak;
use unicode_props::unicode_data::JoiningType;
use unicode_props::unicode_data::LineBreak;
use unicode_props::unicode_data::MyanmarClass;
use unicode_props::unicode_data::Script;
use unicode_props::unicode_data::UseClass;
use unicode_props::unicode_data::WordBreak;

#[test]
fn latin_letter_classification() {
    let p = 'A'.properties();
    assert_eq!(p.category(), Category::Lu);
    assert_eq!(p.block(), Block::BasicLatin);
    assert_eq!(p.script(), Script::Latin);
    assert_eq!(p.combining_class(), 0);
    assert_eq!(p.bidi_class(), BidiClass::L);
    assert_eq!(p.joining_type(), JoiningType::U);
    assert_eq!(p.cluster_break(), ClusterBreak::Any);
    assert_eq!(p.word_break(), WordBreak::ALetter);
    assert_eq!(p.line_break(), LineBreak::AL);
    assert!(!p.is_emoji());
    assert!(!p.is_extended_pictographic());
    assert!(!p.is_open_bracket());
    assert!(!p.is_close_bracket());
    assert_eq!('a'.category(), Category::Ll);
    assert_eq!('5'.category(), Category::Nd);
    assert_eq!('5'.bidi_class(), BidiClass::EN);
}

#[test]
fn arabic_letter_classification() {
    let p = '\u{0627}'.properties();
    assert_eq!(p.category(), Category::Lo);
    assert_eq!(p.block(), Block::Arabic);
    assert_eq!(p.script(), Script::Arabic);
    assert_eq!(p.bidi_class(), BidiClass::AL);
    assert_eq!(p.joining_type(), JoiningType::D);
    assert!(p.contributes_to_shaping());
    assert_eq!('\u{0661}'.bidi_class(), BidiClass::AN);
    assert_eq!('\u{05D0}'.bidi_class(), BidiClass::R);
    assert_eq!('\u{05D0}'.script(), Script::Hebrew);
    assert_eq!('\u{05D0}'.word_break(), WordBreak::HebrewLetter);
}

#[test]
fn combining_mark_classification() {
    let p = '\u{0301}'.properties();
    assert_eq!(p.category(), Category::Mn);
    assert_eq!(p.combining_class(), 230);
    assert_eq!(p.bidi_class(), BidiClass::NSM);
    assert_eq!(p.joining_type(), JoiningType::T);
    assert_eq!(p.cluster_break(), ClusterBreak::Extend);
    assert_eq!(p.script(), Script::Inherited);
}

#[test]
fn emoji_flags() {
    let p = '\u{1F600}'.properties();
    assert!(p.is_emoji());
    assert!(p.is_extended_pictographic());
    assert_eq!(p.block(), Block::Emoticons);
    assert!(!'A'.is_emoji());
    assert!(!'A'.is_extended_pictographic());
    assert!('\u{1F600}'.is_emoji());
    assert!('\u{1F600}'.is_extended_pictographic());
}

#[test]
fn ignorable_and_variation_selector_flags() {
    assert!('\u{200B}'.properties().is_ignorable());
    assert!('\u{200D}'.properties().is_ignorable());
    assert!(!'A'.properties().is_ignorable());
    assert!('\u{FE00}'.properties().is_variation_selector());
    assert!(!'A'.properties().is_variation_selector());
    assert_eq!('\u{200D}'.properties().cluster_break(), ClusterBreak::Zwj);
}

#[test]
fn bracket_flags() {
    assert!('('.properties().is_open_bracket());
    assert!(!'('.properties().is_close_bracket());
    assert!(')'.properties().is_close_bracket());
    assert!(!')'.properties().is_open_bracket());
    assert!('\u{3008}'.properties().is_open_bracket());
    assert!('\u{3009}'.properties().is_close_bracket());
}

#[test]
fn unassigned_resolves_to_default_record() {
    let p = '\u{0378}'.properties();
    assert_eq!(p.category(), Category::Cn);
    assert_eq!(p.block(), Block::Unknown);
    assert_eq!(p.script(), Script::Unknown);
    let q = '\u{10FFFF}'.properties();
    assert_eq!(q.category(), Category::Cn);
}

#[test]
fn boundary_field_roundtrip() {
    let p = 'A'.properties();
    assert_eq!(p.boundary(), 0);
    let mut q = p;
    q.set_boundary(2);
    assert_eq!(q.boundary(), 2);
    assert_eq!(q.category(), Category::Lu);
    q.set_boundary(7);
    assert_eq!(q.boundary(), 3);
    let r = p.with_boundary(1);
    assert_eq!(r.boundary(), 1);
    assert_eq!(p.boundary(), 0);
    assert_eq!(r.category(), Category::Lu);
}

#[test]
fn default_handle_is_default_record() {
    let p = Properties::default();
    assert_eq!(p.category(), Category::Cn);
    assert_eq!(p.boundary(), 0);
}

#[test]
fn shaping_class_accessors() {
    let (u, needs_decomp, ext_pict) = '\u{0915}'.properties().use_class();
    assert_eq!(u, UseClass::B);
    assert!(!needs_decomp);
    assert!(!ext_pict);
    let (u2, needs_decomp2, _) = '\u{0958}'.properties().use_class();
    assert_eq!(u2, UseClass::B);
    assert!(needs_decomp2);
    let (m, _) = '\u{1000}'.properties().myanmar_class();
    assert_eq!(m, MyanmarClass::C);
    let (cb, ep) = '\u{1F600}'.properties().cluster_class();
    assert_eq!(cb, ClusterBreak::Any);
    assert!(ep);
    let (cb2, _) = '\u{AC00}'.properties().cluster_class();
    assert_eq!(cb2, ClusterBreak::LV);
}

#[test]
fn hangul_jamo_cluster_breaks() {
    assert_eq!('\u{1100}'.cluster_break(), ClusterBreak::L);
    assert_eq!('\u{1161}'.cluster_break(), ClusterBreak::V);
    assert_eq!('\u{11A8}'.cluster_break(), ClusterBreak::T);
}

#[test]
fn deterministic_repeated_lookups() {
    for _ in 0..3 {
        assert_eq!('A'.category(), Category::Lu);
        assert_eq!('A'.properties().category(), Category::Lu);
        let a = '\u{0627}'.properties();
        let b = '\u{0627}'.properties();
        assert!(a == b);
        assert_eq!(a.script(), b.script());
    }
}
