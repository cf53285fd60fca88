//! The resolver: which local name an import declaration binds to the tag
//! function.
//!
//! The specifiers of a declaration are read in order. A named specifier
//! whose exported name is one of the tag names gives its local name; a
//! default specifier gives its local name whatever it is called; a namespace
//! specifier ends the search without a name. The first name found is the
//! only one taken, and it counts only if the declaration imports from one of
//! the accepted sources.

use vstd::prelude::*;
use crate::config::GraphQLTagConfig;
use crate::text::{contains_text, optional_text, texts};

verus! {

/// One specifier of an import declaration.
#[derive(Clone, Debug, PartialEq, Eq)]
pub enum ImportSpecifier {
    /// `{ imported as local }`, or `{ local }` where `imported` is absent.
    Named { local: String, imported: Option<String> },
    /// `local`, bound to the default export.
    Default { local: String },
    /// `* as local`.
    Namespace { local: String },
}

/// `import <specifiers> from "<src>"`.
#[derive(Clone, Debug, PartialEq, Eq)]
pub struct ImportDecl {
    pub specifiers: Vec<ImportSpecifier>,
    pub src: String,
}

/// The name under which the module exports what a named specifier imports:
/// the name before `as`, or the local name where there is no `as`.
pub open spec fn exported_name(local: String, imported: Option<String>) -> Seq<char> {
    match imported {
        Some(name) => name@,
        None => local@,
    }
}

/// The local name that the specifiers bind to the tag function, if any.
pub open spec fn candidate(specifiers: Seq<ImportSpecifier>, tags: Seq<Seq<char>>) -> Option<
    Seq<char>,
>
    decreases specifiers.len(),
{
    if specifiers.len() == 0 {
        None
    } else {
        match specifiers[0] {
            ImportSpecifier::Named { local, imported } => {
                if tags.contains(exported_name(local, imported)) {
                    Some(local@)
                } else {
                    candidate(specifiers.skip(1), tags)
                }
            },
            ImportSpecifier::Default { local } => Some(local@),
            ImportSpecifier::Namespace { local } => None,
        }
    }
}

/// The local name that a declaration makes active: its candidate, if the
/// declaration imports from an accepted source.
pub open spec fn activated(declaration: ImportDecl, config: GraphQLTagConfig) -> Option<
    Seq<char>,
> {
    if texts(config.import_sources@).contains(declaration.src@) {
        candidate(declaration.specifiers@, texts(config.gql_tag_identifiers@))
    } else {
        None
    }
}

/// The first local name that the specifiers bind to the tag function: that
/// of the first specifier that is a default specifier or a named specifier
/// exporting one of `tags`, unless a namespace specifier comes before it.
pub fn tag_local_name(specifiers: &Vec<ImportSpecifier>, tags: &Vec<String>) -> (name: Option<
    String,
>)
    ensures
        optional_text(name) == candidate(specifiers@, texts(tags@)),
{
    let mut i: usize = 0;
    assert(specifiers@.skip(0) == specifiers@);
    while i < specifiers.len()
        invariant
            i <= specifiers.len(),
            candidate(specifiers@, texts(tags@)) == candidate(
                specifiers@.skip(i as int),
                texts(tags@),
            ),
        decreases specifiers.len() - i,
    {
        proof {
            let rest = specifiers@.skip(i as int);
            assert(rest[0] == specifiers@[i as int]);
            assert(rest.skip(1) == specifiers@.skip(i + 1));
        }
        match &specifiers[i] {
            ImportSpecifier::Named { local, imported } => {
                let import_name = match imported {
                    Some(name) => name,
                    None => local,
                };
                if contains_text(tags, import_name) {
                    return Some(local.clone());
                }
            },
            ImportSpecifier::Default { local } => {
                return Some(local.clone());
            },
            ImportSpecifier::Namespace { local } => {
                return None;
            },
        }
        i += 1;
    }
    None
}

} // verus!
