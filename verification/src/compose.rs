//! Canonical and compatibility decomposition, and pairwise composition.
//!
//! Decomposition expands a character through the tabulated mappings until no
//! mapping applies, under an explicit depth bound rather than relying on the
//! tables being acyclic. Hangul syllables are not tabulated: they decompose by
//! formula into two or three jamo computed from the syllable's offset within
//! the Hangul syllable block. Composition is the single pairwise step only.

use vstd::prelude::*;

use crate::char_from_u32;
use crate::search::lemma_lookup64_characterizes;
use crate::search::lemma_lookup_is_entry;
use crate::search::lookup_by_key;
use crate::search::lookup_by_key64;
use crate::search::spec_lookup;
use crate::search::spec_lookup64;
use crate::unicode_data::canonical_table;
use crate::unicode_data::canonical_table_spec;
use crate::unicode_data::compat_table;
use crate::unicode_data::compat_table_spec;
use crate::unicode_data::compose_table;
use crate::unicode_data::compose_table_spec;
use crate::unicode_data::composition_excluded;
use crate::unicode_data::lemma_compose_table_sorted;
use crate::unicode_data::pair_key;
use crate::unicode_data::spec_pair_key;
use crate::valid_scalar;

verus! {

/// Maximum expansion depth of a decomposition. The dataset's longest chain of
/// mappings is far shorter, so expansion always runs to completion.
pub const MAX_DECOMP_DEPTH: u32 = 8;

/// True when `c` lies in the Hangul syllable block.
pub open spec fn hangul_syllable(c: u32) -> bool {
    0xAC00 <= c && c <= 0xD7A3
}

/// True when `c` is a Hangul leading consonant jamo.
pub open spec fn hangul_l(c: u32) -> bool {
    0x1100 <= c && c <= 0x1112
}

/// True when `c` is a Hangul vowel jamo.
pub open spec fn hangul_v(c: u32) -> bool {
    0x1161 <= c && c <= 0x1175
}

/// True when `c` is a Hangul trailing consonant jamo.
pub open spec fn hangul_t(c: u32) -> bool {
    0x11A8 <= c && c <= 0x11C2
}

/// The two- or three-jamo decomposition of the Hangul syllable `c`, computed
/// arithmetically from its offset within the syllable block.
pub open spec fn hangul_decomp(c: u32) -> Seq<u32>
    recommends
        hangul_syllable(c),
{
    let si = c - 0xAC00;
    let l = (0x1100 + si / 588) as u32;
    let v = (0x1161 + (si % 588) / 28) as u32;
    let t = (0x11A7 + si % 28) as u32;
    if si % 28 == 0 {
        seq![l, v]
    } else {
        seq![l, v, t]
    }
}

/// The tabulated single-step mapping of `c`: its canonical mapping, or, in
/// compatibility mode, its compatibility mapping when it has no canonical one.
/// A zero second element marks a one-element mapping.
pub open spec fn decomp_mapping(c: u32, compat: bool) -> Option<(u32, u32)> {
    match spec_lookup(canonical_table_spec(), c) {
        Some(p) => Some(p),
        None => if compat {
            spec_lookup(compat_table_spec(), c)
        } else {
            None
        },
    }
}

/// Full decomposition of `c`: recursively expand the single-step mappings
/// (and the algorithmic Hangul case) until no mapping applies or the depth
/// bound is exhausted. A character with no mapping yields exactly `[c]`.
pub open spec fn full_decomp(c: u32, compat: bool, depth: nat) -> Seq<u32>
    decreases depth,
{
    if depth == 0 {
        seq![c]
    } else if hangul_syllable(c) {
        hangul_decomp(c)
    } else {
        match decomp_mapping(c, compat) {
            Some(p) => if p.1 == 0 {
                full_decomp(p.0, compat, (depth - 1) as nat)
            } else {
                full_decomp(p.0, compat, (depth - 1) as nat) + full_decomp(
                    p.1,
                    compat,
                    (depth - 1) as nat,
                )
            },
            None => seq![c],
        }
    }
}

/// The canonical decomposition of `c`.
pub open spec fn canonical_decomposition(c: u32) -> Seq<u32> {
    full_decomp(c, false, MAX_DECOMP_DEPTH as nat)
}

/// The compatibility decomposition of `c`.
pub open spec fn compatibility_decomposition(c: u32) -> Seq<u32> {
    full_decomp(c, true, MAX_DECOMP_DEPTH as nat)
}

/// The code points of a character sequence.
pub open spec fn code_points(s: Seq<char>) -> Seq<u32> {
    Seq::new(s.len(), |i: int| s[i] as u32)
}

proof fn lemma_code_points_push(s: Seq<char>, c: char)
    ensures
        code_points(s.push(c)) == code_points(s).push(c as u32),
{
    assert(code_points(s.push(c)) =~= code_points(s).push(c as u32));
}

/// The single canonical composition of the ordered pair `(a, b)`: the
/// algorithmic Hangul cases, then the composition table, which omits the
/// composition-exclusion set.
pub open spec fn compose_spec(a: u32, b: u32) -> Option<u32> {
    if hangul_l(a) && hangul_v(b) {
        Some((0xAC00 + (a - 0x1100) * 588 + (b - 0x1161) * 28) as u32)
    } else if hangul_syllable(a) && (a - 0xAC00) % 28 == 0 && hangul_t(b) {
        Some((a + (b - 0x11A7)) as u32)
    } else {
        spec_lookup64(compose_table_spec(), spec_pair_key(a, b))
    }
}

/// Looks up the tabulated single-step mapping of `c`.
fn decomp_lookup(c: u32, compat: bool) -> (r: Option<(u32, u32)>)
    ensures
        r == decomp_mapping(c, compat),
        match r {
            Some(p) => valid_scalar(p.0) && p.0 != 0 && (p.1 != 0 ==> valid_scalar(p.1)),
            None => true,
        },
{
    let canon = canonical_table();
    let first = lookup_by_key(&canon, c);
    proof {
        if spec_lookup(canonical_table_spec(), c) is Some {
            lemma_lookup_is_entry(canonical_table_spec(), c, 0);
        }
    }
    match first {
        Some(p) => Some(p),
        None => {
            if compat {
                let ct = compat_table();
                let second = lookup_by_key(&ct, c);
                proof {
                    if spec_lookup(compat_table_spec(), c) is Some {
                        lemma_lookup_is_entry(compat_table_spec(), c, 0);
                    }
                }
                second
            } else {
                None
            }
        },
    }
}

/// Appends the full decomposition of `c` at the given remaining depth.
fn push_decomp(c: char, compat: bool, depth: u32, out: &mut Vec<char>)
    ensures
        code_points(final(out)@) == code_points(old(out)@) + full_decomp(
            c as u32,
            compat,
            depth as nat,
        ),
    decreases depth,
{
    proof {
        vstd::utf8::char_is_scalar(c);
    }
    let cp = c as u32;
    if depth == 0 {
        out.push(c);
        proof {
            lemma_code_points_push(old(out)@, c);
            assert(code_points(old(out)@).push(cp) =~= code_points(old(out)@) + seq![cp]);
        }
        return ;
    }
    if 0xAC00 <= cp && cp <= 0xD7A3 {
        let si = cp - 0xAC00;
        let l = 0x1100 + si / 588;
        let v = 0x1161 + (si % 588) / 28;
        let t = 0x11A7 + si % 28;
        let lc = char_from_u32(l).unwrap();
        let vc = char_from_u32(v).unwrap();
        out.push(lc);
        proof {
            lemma_code_points_push(old(out)@, lc);
        }
        out.push(vc);
        proof {
            lemma_code_points_push(old(out)@.push(lc), vc);
        }
        if si % 28 != 0 {
            let tc = char_from_u32(t).unwrap();
            out.push(tc);
            proof {
                lemma_code_points_push(old(out)@.push(lc).push(vc), tc);
                assert(code_points(out@) =~= code_points(old(out)@) + hangul_decomp(cp));
            }
        } else {
            proof {
                assert(code_points(out@) =~= code_points(old(out)@) + hangul_decomp(cp));
            }
        }
        return ;
    }
    match decomp_lookup(cp, compat) {
        Some(p) => {
            let a = char_from_u32(p.0).unwrap();
            push_decomp(a, compat, depth - 1, out);
            if p.1 != 0 {
                let b = char_from_u32(p.1).unwrap();
                push_decomp(b, compat, depth - 1, out);
                proof {
                    assert(code_points(out@) =~= code_points(old(out)@) + full_decomp(
                        cp,
                        compat,
                        depth as nat,
                    ));
                }
            }
        },
        None => {
            out.push(c);
            proof {
                lemma_code_points_push(old(out)@, c);
                assert(code_points(old(out)@).push(cp) =~= code_points(old(out)@) + seq![cp]);
            }
        },
    }
}

/// One decomposition pass over a source character: an ordered, finite,
/// restartable sequence of the decomposed characters with a cursor.
pub struct Decompose {
    items: Vec<char>,
    pos: usize,
}

impl Decompose {
    /// The decomposed characters, in order.
    pub closed spec fn chars(self) -> Seq<char> {
        self.items@
    }

    /// The cursor: how many characters have been yielded since the last
    /// restart.
    pub closed spec fn position(self) -> int {
        self.pos as int
    }

    /// The cursor never runs past the end of the sequence.
    pub closed spec fn wf(self) -> bool {
        self.pos as int <= self.items@.len()
    }

    /// Number of characters in the sequence.
    pub fn len(&self) -> (r: usize)
        ensures
            r == self.chars().len(),
    {
        self.items.len()
    }

    /// The character at index `i`.
    pub fn get(&self, i: usize) -> (r: char)
        requires
            i < self.chars().len(),
        ensures
            r == self.chars()[i as int],
    {
        self.items[i]
    }

    /// Yields the next character of the sequence and advances the cursor.
    pub fn next(&mut self) -> (r: Option<char>)
        requires
            old(self).wf(),
        ensures
            final(self).wf(),
            final(self).chars() == old(self).chars(),
            match r {
                Some(c) => old(self).position() < old(self).chars().len() && c == old(
                    self,
                ).chars()[old(self).position()] && final(self).position() == old(self).position()
                    + 1,
                None => old(self).position() == old(self).chars().len() && final(self).position()
                    == old(self).position(),
            },
    {
        if self.pos < self.items.len() {
            let c = self.items[self.pos];
            self.pos = self.pos + 1;
            Some(c)
        } else {
            None
        }
    }

    /// Restarts the sequence from its source character.
    pub fn reset(&mut self)
        ensures
            final(self).wf(),
            final(self).chars() == old(self).chars(),
            final(self).position() == 0,
    {
        self.pos = 0;
    }
}

/// The canonical decomposition sequence of `c`. A character with no canonical
/// decomposition yields exactly the one-element sequence `[c]`.
pub fn decompose(c: char) -> (r: Decompose)
    ensures
        code_points(r.chars()) == canonical_decomposition(c as u32),
        r.position() == 0,
        r.wf(),
{
    let mut items: Vec<char> = Vec::new();
    push_decomp(c, false, MAX_DECOMP_DEPTH, &mut items);
    proof {
        assert(code_points(items@) =~= canonical_decomposition(c as u32));
    }
    Decompose { items, pos: 0 }
}

/// The compatibility decomposition sequence of `c`: the canonical policy
/// extended with the tabulated compatibility mappings.
pub fn decompose_compat(c: char) -> (r: Decompose)
    ensures
        code_points(r.chars()) == compatibility_decomposition(c as u32),
        r.position() == 0,
        r.wf(),
{
    let mut items: Vec<char> = Vec::new();
    push_decomp(c, true, MAX_DECOMP_DEPTH, &mut items);
    proof {
        assert(code_points(items@) =~= compatibility_decomposition(c as u32));
    }
    Decompose { items, pos: 0 }
}

/// The single character that is the canonical composition of the ordered pair
/// `(a, b)`, or `None` when no composition is registered or the composed
/// character is in the composition-exclusion set.
pub fn compose_pair(a: char, b: char) -> (r: Option<char>)
    ensures
        match r {
            Some(c) => compose_spec(a as u32, b as u32) == Some(c as u32),
            None => compose_spec(a as u32, b as u32) is None,
        },
{
    proof {
        vstd::utf8::char_is_scalar(a);
        vstd::utf8::char_is_scalar(b);
    }
    let ca = a as u32;
    let cb = b as u32;
    if 0x1100 <= ca && ca <= 0x1112 && 0x1161 <= cb && cb <= 0x1175 {
        let s = 0xAC00 + (ca - 0x1100) * 588 + (cb - 0x1161) * 28;
        char_from_u32(s)
    } else if 0xAC00 <= ca && ca <= 0xD7A3 && (ca - 0xAC00) % 28 == 0 && 0x11A8 <= cb && cb
        <= 0x11C2 {
        let s = ca + (cb - 0x11A7);
        char_from_u32(s)
    } else {
        let table = compose_table();
        match lookup_by_key64(&table, pair_key(ca, cb)) {
            Some(composed) => {
                proof {
                    crate::unicode_data::lemma_compose_payload_valid(
                        spec_pair_key(ca, cb),
                    );
                }
                char_from_u32(composed)
            },
            None => None,
        }
    }
}


/// A character that is not a Hangul syllable and has no tabulated canonical
/// mapping decomposes canonically to exactly the one-element sequence of
/// itself.
pub proof fn lemma_no_mapping_decomposes_to_self(c: u32)
    requires
        !hangul_syllable(c),
        spec_lookup(canonical_table_spec(), c) is None,
    ensures
        canonical_decomposition(c) == seq![c],
{
}

/// A Hangul syllable without a trailing consonant decomposes to exactly its
/// leading consonant jamo followed by its vowel jamo.
pub proof fn lemma_hangul_lv_decomposition(c: u32)
    requires
        hangul_syllable(c),
        (c - 0xAC00) % 28 == 0,
    ensures
        canonical_decomposition(c).len() == 2,
        canonical_decomposition(c)[0] == (0x1100 + (c - 0xAC00) / 588) as u32,
        canonical_decomposition(c)[1] == (0x1161 + ((c - 0xAC00) % 588) / 28) as u32,
{
}

/// A Hangul syllable with a trailing consonant decomposes to exactly three
/// jamo: leading consonant, vowel, trailing consonant.
pub proof fn lemma_hangul_lvt_decomposition(c: u32)
    requires
        hangul_syllable(c),
        (c - 0xAC00) % 28 != 0,
    ensures
        canonical_decomposition(c).len() == 3,
        canonical_decomposition(c)[0] == (0x1100 + (c - 0xAC00) / 588) as u32,
        canonical_decomposition(c)[1] == (0x1161 + ((c - 0xAC00) % 588) / 28) as u32,
        canonical_decomposition(c)[2] == (0x11A7 + (c - 0xAC00) % 28) as u32,
{
}

/// The single-step canonical pair of `c`, where one exists: the algorithmic
/// Hangul step (a syllable splits off its trailing consonant, or splits into
/// leading consonant and vowel), or the tabulated two-element mapping.
pub open spec fn canonical_pair(c: u32) -> Option<(u32, u32)> {
    if hangul_syllable(c) {
        let si = c - 0xAC00;
        if si % 28 == 0 {
            Some(((0x1100 + si / 588) as u32, (0x1161 + (si % 588) / 28) as u32))
        } else {
            Some(((c - si % 28) as u32, (0x11A7 + si % 28) as u32))
        }
    } else {
        match spec_lookup(canonical_table_spec(), c) {
            Some(p) => if p.1 != 0 {
                Some(p)
            } else {
                None
            },
            None => None,
        }
    }
}

/// Round-trip: for a character with a canonical pair decomposition that is
/// not in the composition-exclusion set, composing the two elements of that
/// pair returns the original character.
#[verifier::rlimit(100)]
pub proof fn lemma_compose_roundtrip(c: u32)
    requires
        canonical_pair(c) is Some,
        !composition_excluded(c),
    ensures
        compose_spec(canonical_pair(c).unwrap().0, canonical_pair(c).unwrap().1) == Some(c),
{
    let p = canonical_pair(c).unwrap();
    let a = p.0;
    let b = p.1;
    if hangul_syllable(c) {
        let si = c - 0xAC00;
        let q = si / 588;
        let r = si % 588;
        assert(si == 588 * q + r) by {
            vstd::arithmetic::div_mod::lemma_fundamental_div_mod(si as int, 588);
        }
        if si % 28 == 0 {
            assert(588 * q == 28 * (21 * q)) by (nonlinear_arith);
            assert((28 * (21 * q) + r) % 28 == r % 28) by {
                vstd::arithmetic::div_mod::lemma_mod_multiples_vanish(21 * q, r, 28);
            }
            assert(r == 28 * (r / 28)) by {
                vstd::arithmetic::div_mod::lemma_fundamental_div_mod(r, 28);
            }
            assert(hangul_l(a) && hangul_v(b));
            assert(0xAC00 + (a - 0x1100) * 588 + (b - 0x1161) * 28 == c);
        } else {
            let t = si % 28;
            assert(si - t == 28 * (si / 28)) by {
                vstd::arithmetic::div_mod::lemma_fundamental_div_mod(si as int, 28);
            }
            assert((28 * (si / 28) + 0int) % 28 == 0int % 28) by {
                vstd::arithmetic::div_mod::lemma_mod_multiples_vanish(si / 28, 0int, 28);
            }
            assert(!hangul_l(a));
            assert(hangul_syllable(a) && (a - 0xAC00) % 28 == 0 && hangul_t(b));
            assert(a + (b - 0x11A7) == c);
        }
    } else {
        lemma_lookup_is_entry(canonical_table_spec(), c, 0);
        let at = choose|at: int|
            0 <= at < canonical_table_spec().len() && canonical_table_spec()[at] == (c, (a, b));
        lemma_compose_table_sorted();
        lemma_lookup64_characterizes(compose_table_spec(), spec_pair_key(a, b));
        assert(compose_table_spec()[0] == (spec_pair_key(0x0041u32, 0x0300u32), 0x00C0u32));
        assert(compose_table_spec()[1] == (spec_pair_key(0x0041u32, 0x0301u32), 0x00C1u32));
        assert(compose_table_spec()[2] == (spec_pair_key(0x0041u32, 0x0302u32), 0x00C2u32));
        assert(compose_table_spec()[3] == (spec_pair_key(0x0041u32, 0x0304u32), 0x0100u32));
        assert(compose_table_spec()[4] == (spec_pair_key(0x0041u32, 0x030Au32), 0x00C5u32));
        assert(compose_table_spec()[5] == (spec_pair_key(0x0044u32, 0x0307u32), 0x1E0Au32));
        assert(compose_table_spec()[6] == (spec_pair_key(0x0045u32, 0x0300u32), 0x00C8u32));
        assert(compose_table_spec()[7] == (spec_pair_key(0x0045u32, 0x0301u32), 0x00C9u32));
        assert(compose_table_spec()[8] == (spec_pair_key(0x0061u32, 0x0300u32), 0x00E0u32));
        assert(compose_table_spec()[9] == (spec_pair_key(0x0061u32, 0x0304u32), 0x0101u32));
        assert(compose_table_spec()[10] == (spec_pair_key(0x0065u32, 0x0300u32), 0x00E8u32));
        assert(compose_table_spec()[11] == (spec_pair_key(0x0065u32, 0x0301u32), 0x00E9u32));
        assert(compose_table_spec()[12] == (spec_pair_key(0x00C2u32, 0x0301u32), 0x1EA4u32));
        assert(!hangul_l(a));
        assert(!hangul_syllable(a));
        assert(spec_lookup64(compose_table_spec(), spec_pair_key(a, b)) == Some(c));
    }
}

} // verus!
