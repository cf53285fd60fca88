//! The literal tree that replaces a tagged template: nested object and array
//! literals, text and boolean leaves, and references to interpolated host
//! expressions that stay live.

use vstd::prelude::*;

verus! {

/// Mathematical model of a literal tree.
pub enum Tree {
    /// An object literal: its properties, in written order.
    Object(Seq<(Seq<char>, Tree)>),
    /// An array literal: its elements, in written order.
    Array(Seq<Tree>),
    /// A string literal.
    Text(Seq<char>),
    /// A boolean literal.
    Flag(bool),
    /// The interpolated host expression at this position of the template,
    /// used as it stands.
    Host(nat),
}

/// A literal tree as the transform hands it to the host.
#[derive(Debug, PartialEq, Eq)]
pub enum Literal {
    Object(Vec<Property>),
    Array(Vec<Literal>),
    Text(String),
    Flag(bool),
    Host(usize),
}

/// One `key: value` property of an object literal.
#[derive(Debug, PartialEq, Eq)]
pub struct Property {
    pub key: String,
    pub value: Literal,
}

/// The model of a literal.
pub open spec fn tree_of(literal: Literal) -> Tree
    decreases literal,
{
    match literal {
        Literal::Object(props) => Tree::Object(
            Seq::new(
                props@.len(),
                |i: int|
                    if 0 <= i < props@.len() {
                        (props@[i].key@, tree_of(props@[i].value))
                    } else {
                        arbitrary()
                    },
            ),
        ),
        Literal::Array(items) => Tree::Array(
            Seq::new(
                items@.len(),
                |i: int|
                    if 0 <= i < items@.len() {
                        tree_of(items@[i])
                    } else {
                        arbitrary()
                    },
            ),
        ),
        Literal::Text(s) => Tree::Text(s@),
        Literal::Flag(b) => Tree::Flag(b),
        Literal::Host(i) => Tree::Host(i as nat),
    }
}

impl View for Literal {
    type V = Tree;

    open spec fn view(&self) -> Tree {
        tree_of(*self)
    }
}

impl View for Property {
    type V = (Seq<char>, Tree);

    open spec fn view(&self) -> (Seq<char>, Tree) {
        (self.key@, self.value@)
    }
}

/// The models of a run of properties.
pub open spec fn entries(props: Seq<Property>) -> Seq<(Seq<char>, Tree)> {
    Seq::new(props.len(), |i: int| props[i]@)
}

/// The models of a run of literals.
pub open spec fn trees(items: Seq<Literal>) -> Seq<Tree> {
    Seq::new(items.len(), |i: int| items[i]@)
}

/// The empty object literal `{}`.
pub open spec fn empty_object() -> Tree {
    Tree::Object(Seq::empty())
}

/// The empty array literal `[]`.
pub open spec fn empty_array() -> Tree {
    Tree::Array(Seq::empty())
}

impl Literal {
    /// An object literal with the given properties, in order.
    pub fn object(props: Vec<Property>) -> (r: Literal)
        ensures
            r@ == Tree::Object(entries(props@)),
    {
        let r = Literal::Object(props);
        assert(r@->Object_0 =~= entries(props@));
        r
    }

    /// An array literal with the given elements, in order.
    pub fn array(items: Vec<Literal>) -> (r: Literal)
        ensures
            r@ == Tree::Array(trees(items@)),
    {
        let r = Literal::Array(items);
        assert(r@->Array_0 =~= trees(items@));
        r
    }

    /// A string literal holding `s`.
    pub fn text(s: &str) -> (r: Literal)
        ensures
            r@ == Tree::Text(s@),
    {
        Literal::Text(s.to_owned())
    }
}

/// A `key: value` property of an object literal.
pub fn create_key_value_prop(key: String, value: Literal) -> (p: Property)
    ensures
        p@ == (key@, value@),
{
    Property { key, value }
}

} // verus!
