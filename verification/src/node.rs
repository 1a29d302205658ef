//! The document tree: attributes, nodes, and the owning document wrapper.
//!
//! All values are immutable once constructed; trees are built bottom-up and
//! construction can never fail. Tag and attribute names are trusted as
//! supplied: the model stays generic over arbitrary strings and leaves name
//! validity to the caller.

use vstd::prelude::*;

verus! {

/// One attribute of an element: a name, and optionally a double-quoted
/// value. An attribute without a value renders as a bare boolean attribute.
pub struct Attribute {
    /// The attribute name, emitted verbatim.
    pub name: String,
    /// The attribute value, escaped on rendering; `None` for a boolean
    /// attribute.
    pub value: Option<String>,
}

/// One point in a document tree: a closed set of variants whose identity
/// fully determines how the node serializes.
pub enum Node {
    /// Renders to nothing. Useful for conditional omission.
    Empty,
    /// Character data, markup-escaped on rendering.
    Text(String),
    /// Verbatim markup, emitted without any escaping. The caller asserts
    /// that the string is already valid, trusted markup; passing untrusted
    /// input here reintroduces injection vulnerabilities.
    RawMarkup(String),
    /// A normal element: opening tag, attributes, children, closing tag.
    Element { tag: String, attributes: Vec<Attribute>, children: Vec<Node> },
    /// A void element: attributes but structurally no children, rendered as
    /// a single tag with no closing tag.
    VoidElement { tag: String, attributes: Vec<Attribute> },
}

/// Says that `a` is an attribute with this name and this value.
pub open spec fn attr_is(a: Attribute, name: Seq<char>, value: Seq<char>) -> bool {
    &&& a.name@ == name
    &&& a.value matches Some(v) && v@ == value
}

/// Says that `a` is a boolean attribute with this name and no value.
pub open spec fn attr_is_flag(a: Attribute, name: Seq<char>) -> bool {
    &&& a.name@ == name
    &&& a.value is None
}

/// Says that `n` is a normal element with exactly this tag, these
/// attributes, and these children.
pub open spec fn is_element(
    n: Node,
    tag: Seq<char>,
    attrs: Seq<Attribute>,
    kids: Seq<Node>,
) -> bool {
    &&& n matches Node::Element { tag: t, attributes: a, children: c }
    &&& t@ == tag
    &&& a@ == attrs
    &&& c@ == kids
}

/// Says that `n` is a void element with exactly this tag and these
/// attributes.
pub open spec fn is_void_element(n: Node, tag: Seq<char>, attrs: Seq<Attribute>) -> bool {
    &&& n matches Node::VoidElement { tag: t, attributes: a }
    &&& t@ == tag
    &&& a@ == attrs
}

/// Says that `n` is a text node with this content.
pub open spec fn is_text(n: Node, value: Seq<char>) -> bool {
    n matches Node::Text(v) && v@ == value
}

/// Says that `n` is a raw markup node with this content.
pub open spec fn is_raw_markup(n: Node, value: Seq<char>) -> bool {
    n matches Node::RawMarkup(v) && v@ == value
}

impl Attribute {
    /// An attribute with a value, rendered as `name="value"` with the value
    /// escaped.
    pub fn new(name: String, value: String) -> (r: Attribute)
        ensures
            r == (Attribute { name, value: Some(value) }),
    {
        Attribute { name, value: Some(value) }
    }

    /// A boolean attribute, rendered as the bare name.
    pub fn new_flag(name: String) -> (r: Attribute)
        ensures
            r == (Attribute { name, value: None::<String> }),
    {
        Attribute { name, value: None }
    }
}

impl Node {
    /// A normal element with the given tag, attributes, and children. The
    /// tag is passed through unchanged; its legality is the caller's
    /// responsibility.
    pub fn new_element(tag: String, attributes: Vec<Attribute>, children: Vec<Node>) -> (r: Node)
        ensures
            r == (Node::Element { tag, attributes, children }),
    {
        Node::Element { tag, attributes, children }
    }

    /// A void element with the given tag and attributes: it can hold no
    /// children and renders without a closing tag.
    pub fn new_void_element(tag: String, attributes: Vec<Attribute>) -> (r: Node)
        ensures
            r == (Node::VoidElement { tag, attributes }),
    {
        Node::VoidElement { tag, attributes }
    }

    /// A text node; its content is escaped on rendering.
    pub fn text(value: String) -> (r: Node)
        ensures
            r == Node::Text(value),
    {
        Node::Text(value)
    }

    /// A raw markup node; its content is rendered verbatim, with no
    /// escaping. The caller asserts the string is already safe markup.
    pub fn raw_markup(value: String) -> (r: Node)
        ensures
            r == Node::RawMarkup(value),
    {
        Node::RawMarkup(value)
    }

    /// The node that renders to nothing.
    pub fn empty() -> (r: Node)
        ensures
            r == Node::Empty,
    {
        Node::Empty
    }
}

/// A complete renderable unit: an owning wrapper around one root node,
/// immutable after construction.
pub struct Document {
    /// The root node of the document.
    pub root: Node,
}

impl Document {
    /// A document owning the given root node.
    pub fn new(root: Node) -> (d: Document)
        ensures
            d == (Document { root }),
    {
        Document { root }
    }
}

} // verus!
