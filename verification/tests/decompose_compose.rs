use unicode_props::unicode::Codepoint;

fn collected(d: &unicode_props::compose::Decompose) -> Vec<char> {
    let mut out = Vec::new();
    let mut i = 0;
    while i < d.len() {
        out.push(d.get(i));
        i += 1;
    }
    out
}

#[test]
fn no_decomposition_yields_self() {
    assert_eq!(collected(&'x'.decompose()), vec!['x']);
    assert_eq!(collected(&'\u{0627}'.decompose()), vec!['\u{0627}']);
    assert_eq!(collected(&' '.decompose()), vec![' ']);
}

#[test]
fn tabulated_canonical_decomposition() {
    assert_eq!(collected(&'\u{00E9}'.decompose()), vec!['e', '\u{0301}']);
    assert_eq!(collected(&'\u{00C0}'.decompose()), vec!['A', '\u{0300}']);
    assert_eq!(collected(&'\u{0100}'.decompose()), vec!['A', '\u{0304}']);
}

#[test]
fn recursive_canonical_decomposition() {
    // One mapping step produces a character that itself decomposes.
    assert_eq!(
        collected(&'\u{1EA4}'.decompose()),
        vec!['A', '\u{0302}', '\u{0301}']
    );
    // A one-element mapping chains into a two-element one.
    assert_eq!(collected(&'\u{212B}'.decompose()), vec!['A', '\u{030A}']);
    assert_eq!(collected(&'\u{2126}'.decompose()), vec!['\u{03A9}']);
}

#[test]
fn hangul_lv_decomposition() {
    assert_eq!(
        collected(&'\u{AC00}'.decompose()),
        vec!['\u{1100}', '\u{1161}']
    );
}

#[test]
fn hangul_lvt_decomposition() {
    assert_eq!(
        collected(&'\u{AC01}'.decompose()),
        vec!['\u{1100}', '\u{1161}', '\u{11A8}']
    );
    assert_eq!(
        collected(&'\u{D7A3}'.decompose()),
        vec!['\u{1112}', '\u{1175}', '\u{11C2}']
    );
}

#[test]
fn compatibility_decomposition() {
    assert_eq!(collected(&'\u{FF21}'.decompose_compatible()), vec!['A']);
    assert_eq!(collected(&'\u{2460}'.decompose_compatible()), vec!['1']);
    // Canonical decomposition ignores compatibility mappings.
    assert_eq!(collected(&'\u{FF21}'.decompose()), vec!['\u{FF21}']);
    // Compatibility decomposition still applies canonical mappings.
    assert_eq!(
        collected(&'\u{00E9}'.decompose_compatible()),
        vec!['e', '\u{0301}']
    );
}

#[test]
fn decompose_sequence_cursor() {
    let mut d = '\u{00E9}'.decompose();
    assert_eq!(d.len(), 2);
    assert_eq!(d.get(0), 'e');
    assert_eq!(d.get(1), '\u{0301}');
    assert_eq!(d.next(), Some('e'));
    assert_eq!(d.next(), Some('\u{0301}'));
    assert_eq!(d.next(), None);
    d.reset();
    assert_eq!(d.next(), Some('e'));
}

#[test]
fn compose_tabulated_pairs() {
    assert_eq!(<char as Codepoint>::compose('e', '\u{0301}'), Some('\u{00E9}'));
    assert_eq!(<char as Codepoint>::compose('A', '\u{0300}'), Some('\u{00C0}'));
    assert_eq!(<char as Codepoint>::compose('A', '\u{0304}'), Some('\u{0100}'));
    assert_eq!(<char as Codepoint>::compose('x', 'y'), None);
    assert_eq!(<char as Codepoint>::compose('e', '\u{0300}'), Some('\u{00E8}'));
}

#[test]
fn compose_respects_exclusions() {
    // This pair has a tabulated canonical decomposition but is excluded from
    // composition.
    assert_eq!(<char as Codepoint>::compose('\u{0915}', '\u{093C}'), None);
}

#[test]
fn compose_hangul_pairs() {
    assert_eq!(
        <char as Codepoint>::compose('\u{1100}', '\u{1161}'),
        Some('\u{AC00}')
    );
    assert_eq!(
        <char as Codepoint>::compose('\u{AC00}', '\u{11A8}'),
        Some('\u{AC01}')
    );
    assert_eq!(
        <char as Codepoint>::compose('\u{1112}', '\u{1175}'),
        Some('\u{D788}')
    );
    // An LVT syllable takes no further trailing consonant.
    assert_eq!(<char as Codepoint>::compose('\u{AC01}', '\u{11A8}'), None);
    // A lone vowel jamo composes with nothing on the left.
    assert_eq!(<char as Codepoint>::compose('\u{1161}', '\u{11A8}'), None);
}

#[test]
fn compose_roundtrip_of_decomposition() {
    for c in ['\u{00E9}', '\u{00C5}', '\u{1E0A}', '\u{AC00}'] {
        let d = c.decompose();
        assert_eq!(d.len(), 2);
        assert_eq!(
            <char as Codepoint>::compose(d.get(0), d.get(1)),
            Some(c)
        );
    }
}

#[test]
fn decomposition_is_restartable() {
    let a = collected(&'\u{1EA4}'.decompose());
    let b = collected(&'\u{1EA4}'.decompose());
    assert_eq!(a, b);
}
