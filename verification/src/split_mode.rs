//! How input text is split into sentences before analysis.

use vstd::prelude::*;

use crate::config::paths::str_eq;

verus! {

/// Whether to split sentences, analyze them, or both.
#[derive(Clone, Copy, Debug, Eq, PartialEq, Structural, Default)]
pub enum SentenceSplitMode {
    /// Split sentences and analyze each.
    #[default]
    Default,
    /// Only split sentences, without analysis.
    Only,
    /// Only analyze, without splitting sentences.
    NoSplit,
}

/// The mode a token names: `yes`/`default`, `no`/`none`, or `only`; any
/// other text names none.
pub open spec fn parse_split_mode(s: Seq<char>) -> Option<SentenceSplitMode> {
    if s == "yes"@ || s == "default"@ {
        Some(SentenceSplitMode::Default)
    } else if s == "no"@ || s == "none"@ {
        Some(SentenceSplitMode::NoSplit)
    } else if s == "only"@ {
        Some(SentenceSplitMode::Only)
    } else {
        None
    }
}

impl SentenceSplitMode {
    /// Parse a split-mode token, as [`parse_split_mode`] describes.
    pub fn parse_mode(s: &str) -> (r: Result<SentenceSplitMode, &'static str>)
        ensures
            match r {
                Ok(m) => parse_split_mode(s@) == Some(m),
                Err(msg) => parse_split_mode(s@) is None && msg@
                    == "invalid sentence split mode: allowed values - yes, default, no, none, only"@,
            },
    {
        if str_eq(s, "yes") || str_eq(s, "default") {
            Ok(SentenceSplitMode::Default)
        } else if str_eq(s, "no") || str_eq(s, "none") {
            Ok(SentenceSplitMode::NoSplit)
        } else if str_eq(s, "only") {
            Ok(SentenceSplitMode::Only)
        } else {
            Err("invalid sentence split mode: allowed values - yes, default, no, none, only")
        }
    }
}

impl std::str::FromStr for SentenceSplitMode {
    type Err = &'static str;

    fn from_str(s: &str) -> Result<Self, Self::Err> {
        SentenceSplitMode::parse_mode(s)
    }
}

} // verus!
