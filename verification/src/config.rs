//! The options of one run of the transform.

use vstd::prelude::*;

verus! {

/// What the transform is told: which imports bring in the tag, and how the
/// text of a tagged template is prepared.
#[derive(Clone, Debug, PartialEq, Eq)]
pub struct GraphQLTagConfig {
    /// The module specifiers from which an import of the tag counts.
    pub import_sources: Vec<String>,
    /// The exported names that are the tag function.
    pub gql_tag_identifiers: Vec<String>,
    /// Whether insignificant characters are stripped from the text before
    /// it is parsed.
    pub strip: bool,
    /// The name kept for a helper function; the conversion does not read it.
    pub unique_fn_name: String,
}

} // verus!
