//! The textual representation mode used when reporting a matched word.

use vstd::prelude::*;

use crate::config::error::ConfigError;
use crate::config::paths::str_eq;
use crate::dic::subset::{
    InfoSubset, DIC_FORM_WORD_ID_BIT, NORMALIZED_FORM_BIT, READING_FORM_BIT,
};

verus! {

/// How a matched word is projected to text: its surface form, normalized
/// form, reading, dictionary form, or a combination.
#[derive(Clone, Copy, Debug, Eq, PartialEq, Structural, Default)]
pub enum SurfaceProjection {
    #[default]
    Surface,
    Normalized,
    Reading,
    Dictionary,
    DictionaryAndSurface,
    NormalizedAndSurface,
    NormalizedNouns,
}

/// The word-info bits a projection needs from the dictionary.
pub open spec fn required_subset_bits(p: SurfaceProjection) -> u32 {
    match p {
        SurfaceProjection::Surface => 0,
        SurfaceProjection::Normalized => NORMALIZED_FORM_BIT,
        SurfaceProjection::Reading => READING_FORM_BIT,
        SurfaceProjection::Dictionary => DIC_FORM_WORD_ID_BIT,
        SurfaceProjection::DictionaryAndSurface => DIC_FORM_WORD_ID_BIT,
        SurfaceProjection::NormalizedAndSurface => NORMALIZED_FORM_BIT,
        SurfaceProjection::NormalizedNouns => NORMALIZED_FORM_BIT,
    }
}

/// The projection a token names, for exactly the seven recognized tokens,
/// case-sensitively; any other text names none.
pub open spec fn parse_projection(s: Seq<char>) -> Option<SurfaceProjection> {
    if s == "surface"@ {
        Some(SurfaceProjection::Surface)
    } else if s == "normalized"@ {
        Some(SurfaceProjection::Normalized)
    } else if s == "reading"@ {
        Some(SurfaceProjection::Reading)
    } else if s == "dictionary"@ {
        Some(SurfaceProjection::Dictionary)
    } else if s == "dictionary_and_surface"@ {
        Some(SurfaceProjection::DictionaryAndSurface)
    } else if s == "normalized_and_surface"@ {
        Some(SurfaceProjection::NormalizedAndSurface)
    } else if s == "normalized_nouns"@ {
        Some(SurfaceProjection::NormalizedNouns)
    } else {
        None
    }
}

impl SurfaceProjection {
    /// The word-info subset needed for this projection, as
    /// [`required_subset_bits`] describes.
    pub fn required_subset(&self) -> (r: InfoSubset)
        ensures
            r.bits == required_subset_bits(*self),
    {
        match *self {
            SurfaceProjection::Surface => InfoSubset::empty(),
            SurfaceProjection::Normalized => InfoSubset::normalized_form(),
            SurfaceProjection::Reading => InfoSubset::reading_form(),
            SurfaceProjection::Dictionary => InfoSubset::dic_form_word_id(),
            SurfaceProjection::DictionaryAndSurface => InfoSubset::dic_form_word_id(),
            SurfaceProjection::NormalizedAndSurface => InfoSubset::normalized_form(),
            SurfaceProjection::NormalizedNouns => InfoSubset::normalized_form(),
        }
    }

    /// Parse a projection token.  Succeeds for exactly the seven tokens that
    /// [`parse_projection`] recognizes, case-sensitively, and fails with an
    /// [`ConfigError::InvalidFormat`] for any other text.
    pub fn try_from(value: &str) -> (r: Result<SurfaceProjection, ConfigError>)
        ensures
            match r {
                Ok(p) => parse_projection(value@) == Some(p),
                Err(e) => parse_projection(value@) is None && (e
                    matches ConfigError::InvalidFormat(m) && m@ == "unknown projection: "@
                    + value@),
            },
    {
        if str_eq(value, "surface") {
            Ok(SurfaceProjection::Surface)
        } else if str_eq(value, "normalized") {
            Ok(SurfaceProjection::Normalized)
        } else if str_eq(value, "reading") {
            Ok(SurfaceProjection::Reading)
        } else if str_eq(value, "dictionary") {
            Ok(SurfaceProjection::Dictionary)
        } else if str_eq(value, "dictionary_and_surface") {
            Ok(SurfaceProjection::DictionaryAndSurface)
        } else if str_eq(value, "normalized_and_surface") {
            Ok(SurfaceProjection::NormalizedAndSurface)
        } else if str_eq(value, "normalized_nouns") {
            Ok(SurfaceProjection::NormalizedNouns)
        } else {
            let mut msg = String::from_str("unknown projection: ");
            msg.append(value);
            Err(ConfigError::InvalidFormat(msg))
        }
    }
}

} // verus!
