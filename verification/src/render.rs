//! Serialization of a document tree to an escaped markup string.
//!
//! Rendering is a pure, total, depth-first walk: every node value produces
//! output, there is no failure path, and the output is fixed character by
//! character by the specification functions below.

use crate::escape::escape_attr_value;
use crate::escape::escape_text;
use crate::escape::escaped_attr_value;
use crate::escape::escaped_text;
use crate::node::Attribute;
use crate::node::Document;
use crate::node::Node;
use vstd::prelude::*;
use vstd::string::StringExecFns;

verus! {

/// The output of one attribute: a leading space, the name verbatim, and for
/// a valued attribute `="` plus the escaped value plus `"`.
pub open spec fn rendered_attr(a: Attribute) -> Seq<char> {
    seq![' '] + a.name@ + (match a.value {
        Some(v) => seq!['=', '"'] + escaped_attr_value(v@) + seq!['"'],
        None => Seq::<char>::empty(),
    })
}

/// The output of a sequence of attributes, in order.
pub open spec fn rendered_attrs(attrs: Seq<Attribute>) -> Seq<char>
    decreases attrs.len(),
{
    if attrs.len() == 0 {
        Seq::empty()
    } else {
        rendered_attr(attrs[0]) + rendered_attrs(attrs.drop_first())
    }
}

/// The output of one node:
/// the empty node renders to nothing; text renders escaped; raw markup
/// renders verbatim; a void element renders as a single tag; a normal
/// element renders its opening tag, its children in order, and its closing
/// tag.
pub open spec fn rendered(n: Node) -> Seq<char>
    decreases n,
{
    match n {
        Node::Empty => Seq::empty(),
        Node::Text(v) => escaped_text(v@),
        Node::RawMarkup(v) => v@,
        Node::VoidElement { tag, attributes } => seq!['<'] + tag@ + rendered_attrs(attributes@)
            + seq!['>'],
        Node::Element { tag, attributes, children } => seq!['<'] + tag@ + rendered_attrs(
            attributes@,
        ) + seq!['>'] + rendered_seq(children@) + seq!['<', '/'] + tag@ + seq!['>'],
    }
}

/// The output of a sequence of sibling nodes, in order.
pub open spec fn rendered_seq(ns: Seq<Node>) -> Seq<char>
    decreases ns,
{
    if ns.len() == 0 {
        Seq::empty()
    } else {
        rendered(ns[0]) + rendered_seq(ns.drop_first())
    }
}

/// Attribute output follows construction order: the output of two attribute
/// sequences in a row is the two outputs in a row.
pub proof fn lemma_rendered_attrs_concat(a: Seq<Attribute>, b: Seq<Attribute>)
    ensures
        rendered_attrs(a + b) == rendered_attrs(a) + rendered_attrs(b),
    decreases a.len(),
{
    if a.len() == 0 {
        assert(a + b =~= b);
        assert(rendered_attrs(a) + rendered_attrs(b) =~= rendered_attrs(b));
    } else {
        lemma_rendered_attrs_concat(a.drop_first(), b);
        assert((a + b).drop_first() =~= a.drop_first() + b);
        assert((a + b)[0] == a[0]);
        assert(rendered_attrs(a + b) =~= rendered_attrs(a) + rendered_attrs(b));
    }
}

/// A single attribute renders to exactly its own output.
pub proof fn lemma_rendered_attrs_singleton(a: Attribute)
    ensures
        rendered_attrs(seq![a]) == rendered_attr(a),
{
    assert(seq![a].drop_first() =~= Seq::<Attribute>::empty());
    assert(rendered_attrs(Seq::<Attribute>::empty()) == Seq::<char>::empty());
    assert(rendered_attr(a) + Seq::<char>::empty() =~= rendered_attr(a));
}

proof fn lemma_rendered_attrs_take_step(attrs: Seq<Attribute>, i: int)
    requires
        0 <= i < attrs.len(),
    ensures
        rendered_attrs(attrs.take(i + 1)) == rendered_attrs(attrs.take(i)) + rendered_attr(
            attrs[i],
        ),
{
    assert(attrs.take(i + 1) =~= attrs.take(i) + seq![attrs[i]]);
    lemma_rendered_attrs_concat(attrs.take(i), seq![attrs[i]]);
    lemma_rendered_attrs_singleton(attrs[i]);
}

/// Child output follows construction order: the output of two sibling
/// sequences in a row is the two outputs in a row.
pub proof fn lemma_rendered_seq_concat(a: Seq<Node>, b: Seq<Node>)
    ensures
        rendered_seq(a + b) == rendered_seq(a) + rendered_seq(b),
    decreases a.len(),
{
    if a.len() == 0 {
        assert(a + b =~= b);
        assert(rendered_seq(a) + rendered_seq(b) =~= rendered_seq(b));
    } else {
        lemma_rendered_seq_concat(a.drop_first(), b);
        assert((a + b).drop_first() =~= a.drop_first() + b);
        assert((a + b)[0] == a[0]);
        assert(rendered_seq(a + b) =~= rendered_seq(a) + rendered_seq(b));
    }
}

/// A single sibling renders to exactly its own output.
pub proof fn lemma_rendered_seq_singleton(n: Node)
    ensures
        rendered_seq(seq![n]) == rendered(n),
{
    assert(seq![n].drop_first() =~= Seq::<Node>::empty());
    assert(rendered_seq(Seq::<Node>::empty()) == Seq::<char>::empty());
    assert(rendered(n) + Seq::<char>::empty() =~= rendered(n));
}

proof fn lemma_rendered_seq_take_step(ns: Seq<Node>, i: int)
    requires
        0 <= i < ns.len(),
    ensures
        rendered_seq(ns.take(i + 1)) == rendered_seq(ns.take(i)) + rendered(ns[i]),
{
    assert(ns.take(i + 1) =~= ns.take(i) + seq![ns[i]]);
    lemma_rendered_seq_concat(ns.take(i), seq![ns[i]]);
    lemma_rendered_seq_singleton(ns[i]);
}

/// An empty node nested among siblings contributes nothing to the output:
/// inserting it anywhere leaves the rendered sequence unchanged.
pub proof fn lemma_empty_child_contributes_nothing(ns: Seq<Node>, i: int)
    requires
        0 <= i <= ns.len(),
    ensures
        rendered_seq(ns.insert(i, Node::Empty)) == rendered_seq(ns),
{
    assert(ns.insert(i, Node::Empty) =~= ns.take(i) + seq![Node::Empty] + ns.skip(i));
    lemma_rendered_seq_concat(ns.take(i) + seq![Node::Empty], ns.skip(i));
    lemma_rendered_seq_concat(ns.take(i), seq![Node::Empty]);
    lemma_rendered_seq_singleton(Node::Empty);
    assert(rendered(Node::Empty) == Seq::<char>::empty());
    lemma_rendered_seq_concat(ns.take(i), ns.skip(i));
    assert(ns.take(i) + ns.skip(i) =~= ns);
    assert(rendered_seq(ns.take(i)) + Seq::<char>::empty() =~= rendered_seq(ns.take(i)));
}

/// Rendering is a pure function of the tree: any two renderings of the same
/// document are identical.
pub proof fn lemma_rendering_deterministic(d: Document, first: Seq<char>, second: Seq<char>)
    requires
        first == rendered(d.root),
        second == rendered(d.root),
    ensures
        first == second,
{
}

fn append_attr(out: &mut String, a: &Attribute)
    ensures
        final (out)@ == old(out)@ + rendered_attr(*a),
{
    out.append(" ");
    out.append(a.name.as_str());
    match &a.value {
        Some(v) => {
            out.append("=\"");
            let ev = escape_attr_value(v.as_str());
            out.append(ev.as_str());
            out.append("\"");
        },
        None => {},
    }
    proof {
        reveal_strlit(" ");
        reveal_strlit("=\"");
        reveal_strlit("\"");
        assert(" "@ =~= seq![' ']);
        assert("=\""@ =~= seq!['=', '"']);
        assert("\""@ =~= seq!['"']);
        assert(out@ =~= old(out)@ + rendered_attr(*a));
    }
}

fn append_attrs(out: &mut String, attrs: &Vec<Attribute>)
    ensures
        final (out)@ == old(out)@ + rendered_attrs(attrs@),
{
    proof {
        assert(attrs@.take(0) =~= Seq::<Attribute>::empty());
        assert(old(out)@ + rendered_attrs(attrs@.take(0)) =~= old(out)@);
    }
    let mut i: usize = 0;
    while i < attrs.len()
        invariant
            i <= attrs.len(),
            out@ == old(out)@ + rendered_attrs(attrs@.take(i as int)),
        decreases attrs.len() - i,
    {
        append_attr(out, &attrs[i]);
        proof {
            lemma_rendered_attrs_take_step(attrs@, i as int);
            assert(out@ =~= old(out)@ + rendered_attrs(attrs@.take(i as int + 1)));
        }
        i = i + 1;
    }
    proof {
        assert(attrs@.take(attrs.len() as int) =~= attrs@);
    }
}

fn append_open_tag(out: &mut String, tag: &String, attributes: &Vec<Attribute>)
    ensures
        final (out)@ == old(out)@ + seq!['<'] + tag@ + rendered_attrs(attributes@) + seq!['>'],
{
    out.append("<");
    out.append(tag.as_str());
    append_attrs(out, attributes);
    out.append(">");
    proof {
        reveal_strlit("<");
        reveal_strlit(">");
        assert("<"@ =~= seq!['<']);
        assert(">"@ =~= seq!['>']);
        assert(out@ =~= old(out)@ + seq!['<'] + tag@ + rendered_attrs(attributes@) + seq!['>']);
    }
}

/// Serialize one node to its markup string. Total: every node value renders,
/// with no failure path and no side effects.
pub fn render(n: &Node) -> (r: String)
    ensures
        r@ == rendered(*n),
    decreases *n,
{
    match n {
        Node::Empty => String::new(),
        Node::Text(v) => escape_text(v.as_str()),
        Node::RawMarkup(v) => v.clone(),
        Node::VoidElement { tag, attributes } => {
            let mut out = String::new();
            append_open_tag(&mut out, tag, attributes);
            proof {
                assert(out@ =~= rendered(*n));
            }
            out
        },
        Node::Element { tag, attributes, children } => {
            let mut out = String::new();
            append_open_tag(&mut out, tag, attributes);
            proof {
                assert(children@.take(0) =~= Seq::<Node>::empty());
                assert(out@ =~= seq!['<'] + tag@ + rendered_attrs(attributes@) + seq!['>']
                    + rendered_seq(children@.take(0)));
            }
            let mut i: usize = 0;
            #[verifier::loop_isolation(false)]
            while i < children.len()
                invariant
                    i <= children.len(),
                    out@ == seq!['<'] + tag@ + rendered_attrs(attributes@) + seq!['>']
                        + rendered_seq(children@.take(i as int)),
                decreases children.len() - i,
            {
                let piece = render(&children[i]);
                out.append(piece.as_str());
                proof {
                    lemma_rendered_seq_take_step(children@, i as int);
                    assert(out@ =~= seq!['<'] + tag@ + rendered_attrs(attributes@) + seq!['>']
                        + rendered_seq(children@.take(i as int + 1)));
                }
                i = i + 1;
            }
            out.append("</");
            out.append(tag.as_str());
            out.append(">");
            proof {
                reveal_strlit("</");
                reveal_strlit(">");
                assert("</"@ =~= seq!['<', '/']);
                assert(">"@ =~= seq!['>']);
                assert(children@.take(children.len() as int) =~= children@);
                assert(out@ =~= rendered(*n));
            }
            out
        },
    }
}

impl Document {
    /// Serialize the document: exactly the rendering of its root node.
    pub fn render(&self) -> (r: String)
        ensures
            r@ == rendered(self.root),
    {
        render(&self.root)
    }
}

} // verus!

