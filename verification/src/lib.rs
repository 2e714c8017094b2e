//! Unicode character properties and canonical decomposition/composition.
//!
//! Every code point maps in constant time to a compact [`unicode::Properties`]
//! handle; typed accessors then read the decoded record fields. The crate also
//! provides canonical and compatibility decomposition (including the
//! algorithmic Hangul case), single-step canonical composition, and
//! binary-search lookup of bracket pairs, bidi mirrors and OpenType script
//! tags over embedded sorted tables.

pub mod compose;
pub mod search;
pub mod unicode;
pub mod unicode_data;

pub use compose::Decompose;
pub use unicode::BracketType;
pub use unicode::Codepoint;
pub use unicode::Properties;
pub use unicode::Tag;
pub use unicode_data::BidiClass;
pub use unicode_data::Block;
pub use unicode_data::Category;
pub use unicode_data::ClusterBreak;
pub use unicode_data::JoiningType;
pub use unicode_data::LineBreak;
pub use unicode_data::Script;
pub use unicode_data::WordBreak;

use vstd::prelude::*;

verus! {

/// True when `v` is a Unicode scalar value: at most U+10FFFF and not a
/// surrogate code point.
pub open spec fn valid_scalar(v: u32) -> bool {
    v <= 0x10FFFF && !(0xD800 <= v && v <= 0xDFFF)
}

/// Relies on `char::from_u32`: returns the character with the given code
/// point when the value is a Unicode scalar, and `None` otherwise.
#[verifier::external_body]
fn char_from_u32(v: u32) -> (r: Option<char>)
    ensures
        match r {
            Some(c) => valid_scalar(v) && c as u32 == v,
            None => !valid_scalar(v),
        },
{
    char::from_u32(v)
}

} // verus!
