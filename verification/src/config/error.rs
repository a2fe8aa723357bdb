//! Typed errors surfaced by configuration loading and path resolution.

use vstd::prelude::*;

verus! {

/// An error from configuration loading or path resolution.
///
/// - `Io`: a file could not be read or mapped; carries the offending path.
/// - `JsonParse`: a configuration document was not valid JSON; carries the
///   parser's message.
/// - `PathResolution`: no candidate in the anchor chain existed; carries the
///   original query and a rendered description of every candidate considered.
/// - `InvalidFormat`: a document was valid JSON but a field held an
///   unexpected value.
#[derive(Debug, PartialEq, Eq)]
pub enum ConfigError {
    Io(String),
    JsonParse(String),
    PathResolution(String, Vec<String>),
    InvalidFormat(String),
}

} // verus!
