//! The traversal context of one compilation unit, and what the visitor
//! decides at each node that it is shown.
//!
//! The host walks its tree and shows the visitor each import declaration and
//! each expression, as plain data. At an import declaration the visitor
//! learns which local name is the tag function. At an expression it says
//! whether the host goes on into the children, leaves the expression as it
//! stands, or has the template's text parsed; what the parser found then
//! decides whether a literal replaces the expression.

use vstd::prelude::*;
use vstd::string::StringExecFns;
use crate::binder::{optional_texts, Binder, Keys};
use crate::config::GraphQLTagConfig;
use crate::document::Document;
use crate::error::ConvertError;
use crate::literal::{Literal, Tree};
use crate::resolver::{activated, tag_local_name, ImportDecl};
use crate::serializer::create_document;
use crate::shape::document_tree;
use crate::text::{contains_text, optional_text, texts};

verus! {

/// A tag applied to a template literal.
#[derive(Clone, Debug, PartialEq, Eq)]
pub struct TaggedTemplate {
    /// The name of the tag, where the tag is a plain identifier.
    pub tag: Option<String>,
    /// The literal chunks of the template, as written, in order.
    pub quasis: Vec<String>,
    /// Of each interpolated expression, in order: its name where it is a
    /// plain identifier.
    pub exprs: Vec<Option<String>>,
}

/// What the visitor reads of an expression of the host.
#[derive(Clone, Debug, PartialEq, Eq)]
pub enum HostExpr {
    TaggedTemplate(TaggedTemplate),
    /// Any other expression.
    Other,
}

/// The text of a template that is to be parsed, and what goes with it.
#[derive(Debug, PartialEq, Eq)]
pub struct Extracted {
    /// The literal chunks, joined.
    pub text: String,
    /// Whether insignificant characters are to be stripped from the text
    /// before it is parsed.
    pub strip: bool,
    /// The binder of the template's interpolated expressions.
    pub binder: Binder,
}

/// What the host does with an expression that it has shown to the visitor.
#[derive(Debug, PartialEq, Eq)]
pub enum Visit {
    /// The expression is no tagged template: the walk goes on into its
    /// children.
    Descend,
    /// The expression stays as it is, and the walk does not enter it.
    Skip,
    /// The text is parsed, and `convert_parsed` decides on the outcome.
    Convert(Extracted),
}

/// The context of the traversal of one compilation unit.
#[derive(Debug, PartialEq, Eq)]
pub struct TransformVisitor {
    /// The local names that denote the tag function, in the order in which
    /// their imports were seen.
    pub active_gql_tag_identifiers: Vec<String>,
    pub config: GraphQLTagConfig,
}

/// The chunks of a template, joined in order.
pub open spec fn joined(chunks: Seq<Seq<char>>) -> Seq<char>
    decreases chunks.len(),
{
    if chunks.len() == 0 {
        Seq::empty()
    } else {
        joined(chunks.drop_last()) + chunks.last()
    }
}

/// Whether a tagged template is one that the visitor converts: its tag is an
/// identifier that is active, and it has at least one literal chunk.
pub open spec fn is_tagged_query(active: Seq<Seq<char>>, template: TaggedTemplate) -> bool {
    &&& template.tag matches Some(tag)
    &&& active.contains(tag@)
    &&& template.quasis@.len() > 0
}

/// What the parser's findings make of a tagged template: nothing where it
/// reported diagnostics, else the document's tree or the failure of the
/// conversion.
pub open spec fn replacement(diagnostics: nat, document: Document, keys: Keys) -> Result<
    Option<Tree>,
    ConvertError,
> {
    if diagnostics > 0 {
        Ok(None)
    } else {
        match document_tree(document, keys) {
            Ok(tree) => Ok(Some(tree)),
            Err(e) => Err(e),
        }
    }
}

/// The model of a replacement.
pub open spec fn replacement_view(r: Result<Option<Literal>, ConvertError>) -> Result<
    Option<Tree>,
    ConvertError,
> {
    match r {
        Ok(Some(literal)) => Ok(Some(literal@)),
        Ok(None) => Ok(None),
        Err(e) => Err(e),
    }
}

/// A list without repetition stays one when a name that it does not hold is
/// put at its end.
pub proof fn pushing_a_new_name_keeps_the_set(names: Seq<Seq<char>>, name: Seq<char>)
    requires
        names.no_duplicates(),
        !names.contains(name),
    ensures
        names.push(name).no_duplicates(),
{
    let longer = names.push(name);
    assert forall|i: int, j: int|
        0 <= i < longer.len() && 0 <= j < longer.len() && i != j implies longer[i] != longer[j] by {
        if i < names.len() && j < names.len() {
            assert(names[i] != names[j]);
        } else if i < names.len() {
            assert(names.contains(names[i]));
        } else {
            assert(names.contains(names[j]));
        }
    }
}

/// The literal chunks of a template, joined in order into one text.
pub fn join_chunks(quasis: &Vec<String>) -> (data: String)
    ensures
        data@ == joined(texts(quasis@)),
{
    let mut data = String::new();
    let mut i: usize = 0;
    assert(texts(quasis@).take(0) == Seq::<Seq<char>>::empty());
    while i < quasis.len()
        invariant
            i <= quasis.len(),
            data@ == joined(texts(quasis@).take(i as int)),
        decreases quasis.len() - i,
    {
        proof {
            let longer = texts(quasis@).take(i + 1);
            assert(longer.drop_last() == texts(quasis@).take(i as int));
            assert(longer.last() == quasis@[i as int]@);
        }
        data.append(quasis[i].as_str());
        i += 1;
    }
    assert(texts(quasis@).take(i as int) == texts(quasis@));
    data
}

/// A copy of the keys of a template's interpolated expressions.
pub fn copy_keys(list: &Vec<Option<String>>) -> (copy: Vec<Option<String>>)
    ensures
        optional_texts(copy@) == optional_texts(list@),
{
    let mut copy: Vec<Option<String>> = Vec::new();
    let mut i: usize = 0;
    while i < list.len()
        invariant
            i <= list.len(),
            copy@.len() == i,
            forall|j: int| 0 <= j < i ==> optional_text(copy@[j]) == optional_text(list@[j]),
        decreases list.len() - i,
    {
        let key = match &list[i] {
            Some(name) => Some(name.clone()),
            None => None,
        };
        copy.push(key);
        i += 1;
    }
    assert(optional_texts(copy@) =~= optional_texts(list@));
    copy
}

/// What becomes of a tagged template once its text is parsed. Where the
/// parser reported diagnostics the expression stays unconverted (`None`).
/// Where it reported none, the document is converted: its literal replaces
/// the expression, or the conversion's failure ends the unit.
pub fn convert_parsed(diagnostics: usize, document: &Document, binder: &Binder) -> (r: Result<
    Option<Literal>,
    ConvertError,
>)
    ensures
        replacement_view(r) == replacement(diagnostics as nat, *document, binder@),
{
    if diagnostics > 0 {
        return Ok(None);
    }
    match create_document(document, binder) {
        Ok(literal) => Ok(Some(literal)),
        Err(e) => Err(e),
    }
}

impl TransformVisitor {
    /// The names that are active, as texts.
    pub open spec fn active(&self) -> Seq<Seq<char>> {
        texts(self.active_gql_tag_identifiers@)
    }

    /// The active names form an ordered set: none occurs twice.
    pub open spec fn well_formed(&self) -> bool {
        self.active().no_duplicates()
    }

    /// The context at the start of a unit: no name is active.
    pub fn new(config: GraphQLTagConfig) -> (visitor: Self)
        ensures
            visitor.config == config,
            visitor.active() == Seq::<Seq<char>>::empty(),
            visitor.well_formed(),
    {
        let visitor = TransformVisitor { active_gql_tag_identifiers: Vec::new(), config };
        assert(visitor.active() =~= Seq::<Seq<char>>::empty());
        visitor
    }

    /// The end of a unit: forgets every active name, so that none is carried
    /// into the next unit.
    pub fn visit_mut_program(&mut self)
        ensures
            final(self).config == old(self).config,
            final(self).active() == Seq::<Seq<char>>::empty(),
            final(self).well_formed(),
    {
        self.active_gql_tag_identifiers.clear();
        assert(self.active() =~= Seq::<Seq<char>>::empty());
    }

    /// An import declaration: the local name that it binds to the tag
    /// function becomes active, after those that are active already, if the
    /// declaration imports from an accepted source. A name that is active
    /// already is not taken a second time. Nothing else changes: the list
    /// grows exactly when the declaration gives a name that was not active,
    /// and the names that were active stay so, in their order.
    pub fn visit_mut_import_decl(&mut self, node: &ImportDecl)
        ensures
            final(self).config == old(self).config,
            final(self).active() == match activated(*node, old(self).config) {
                Some(local) => if old(self).active().contains(local) {
                    old(self).active()
                } else {
                    old(self).active().push(local)
                },
                None => old(self).active(),
            },
            final(self).active() != old(self).active() <==> (activated(*node, old(self).config)
                matches Some(local) && !old(self).active().contains(local)),
            old(self).active().is_prefix_of(final(self).active()),
            old(self).well_formed() ==> final(self).well_formed(),
    {
        let gql_tag_local_name = match tag_local_name(
            &node.specifiers,
            &self.config.gql_tag_identifiers,
        ) {
            Some(name) => name,
            None => {
                return ;
            },
        };
        let valid_import_source = contains_text(&self.config.import_sources, &node.src);
        if valid_import_source && !contains_text(
            &self.active_gql_tag_identifiers,
            &gql_tag_local_name,
        ) {
            let ghost before = self.active();
            self.active_gql_tag_identifiers.push(gql_tag_local_name);
            assert(self.active() =~= before.push(gql_tag_local_name@));
            proof {
                if before.no_duplicates() {
                    pushing_a_new_name_keeps_the_set(before, gql_tag_local_name@);
                }
            }
        }
    }

    /// An expression. One that is no tagged template is entered. A tagged
    /// template is converted if its tag is an identifier that is active and
    /// it has a literal chunk: its chunks are joined as they are written,
    /// and the interpolated expressions are bound in order, each under its
    /// name if it has one. Any other tagged template stays as it is.
    pub fn visit_mut_expr(&self, node: &HostExpr) -> (visit: Visit)
        ensures
            match *node {
                HostExpr::Other => visit is Descend,
                HostExpr::TaggedTemplate(template) => if is_tagged_query(self.active(), template) {
                    &&& visit matches Visit::Convert(extracted)
                    &&& extracted.text@ == joined(texts(template.quasis@))
                    &&& extracted.strip == self.config.strip
                    &&& extracted.binder@ == optional_texts(template.exprs@)
                } else {
                    visit is Skip
                },
            },
    {
        let tag_tpl = match node {
            HostExpr::TaggedTemplate(template) => template,
            HostExpr::Other => {
                return Visit::Descend;
            },
        };
        let tag = match &tag_tpl.tag {
            Some(name) => name,
            None => {
                return Visit::Skip;
            },
        };
        if !contains_text(&self.active_gql_tag_identifiers, tag) {
            return Visit::Skip;
        }
        if tag_tpl.quasis.len() == 0 {
            return Visit::Skip;
        }
        let expressions = copy_keys(&tag_tpl.exprs);
        let data = join_chunks(&tag_tpl.quasis);
        Visit::Convert(
            Extracted { text: data, strip: self.config.strip, binder: Binder::new(expressions) },
        )
    }
}

} // verus!
