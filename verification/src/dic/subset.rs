//! A bit set naming which parts of word info a consumer needs.

use vstd::prelude::*;

verus! {

/// Bit for the normalized form of a word.
pub const NORMALIZED_FORM_BIT: u32 = 1;

/// Bit for the reading form of a word.
pub const READING_FORM_BIT: u32 = 2;

/// Bit for the dictionary-form word id.
pub const DIC_FORM_WORD_ID_BIT: u32 = 4;

/// A set of word-info fields, one bit per field.
#[derive(Clone, Copy, Debug, PartialEq, Eq, Structural)]
pub struct InfoSubset {
    pub bits: u32,
}

impl InfoSubset {
    /// The empty subset: no field is needed.
    pub fn empty() -> (r: InfoSubset)
        ensures
            r.bits == 0,
    {
        InfoSubset { bits: 0 }
    }

    /// The subset holding only the normalized form.
    pub fn normalized_form() -> (r: InfoSubset)
        ensures
            r.bits == NORMALIZED_FORM_BIT,
    {
        InfoSubset { bits: NORMALIZED_FORM_BIT }
    }

    /// The subset holding only the reading form.
    pub fn reading_form() -> (r: InfoSubset)
        ensures
            r.bits == READING_FORM_BIT,
    {
        InfoSubset { bits: READING_FORM_BIT }
    }

    /// The subset holding only the dictionary-form word id.
    pub fn dic_form_word_id() -> (r: InfoSubset)
        ensures
            r.bits == DIC_FORM_WORD_ID_BIT,
    {
        InfoSubset { bits: DIC_FORM_WORD_ID_BIT }
    }
}

} // verus!
