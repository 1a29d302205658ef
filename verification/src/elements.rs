//! Common HTML elements.
//!
//! Each function builds one node with a fixed tag. An element not covered
//! here can be built directly with [`Node::new_element`] or
//! [`Node::new_void_element`], and raw markup can be inlined with
//! [`Node::raw_markup`].

use crate::node::attr_is;
use crate::node::is_element;
use crate::node::is_raw_markup;
use crate::node::is_text;
use crate::node::is_void_element;
use crate::node::Attribute;
use crate::node::Node;
use vstd::prelude::*;
use vstd::string::StringExecFns;

verus! {

/// Renders nothing. Useful for conditional rendering: both branches of a
/// condition can produce a node, and this one leaves no trace in the output.
pub fn none() -> (r: Node)
    ensures
        r == Node::Empty,
{
    Node::empty()
}

/// HTML escaped text.
pub fn text(value: String) -> (r: Node)
    ensures
        is_text(r, value@),
{
    Node::text(value)
}

/// `<div>`
pub fn div(children: Vec<Node>) -> (r: Node)
    ensures
        is_element(r, "div"@, Seq::<Attribute>::empty(), children@),
{
    Node::new_element(String::from_str("div"), Vec::new(), children)
}

/// `<head>`
pub fn head(children: Vec<Node>) -> (r: Node)
    ensures
        is_element(r, "head"@, Seq::<Attribute>::empty(), children@),
{
    Node::new_element(String::from_str("head"), Vec::new(), children)
}

/// `<legend>`
pub fn legend(children: Vec<Node>) -> (r: Node)
    ensures
        is_element(r, "legend"@, Seq::<Attribute>::empty(), children@),
{
    Node::new_element(String::from_str("legend"), Vec::new(), children)
}

/// `<meta>`
pub fn meta(attributes: Vec<Attribute>) -> (r: Node)
    ensures
        is_void_element(r, "meta"@, attributes@),
{
    Node::new_void_element(String::from_str("meta"), attributes)
}

/// `<meta charset="UTF-8">`
///
/// Kept under its older name; [`meta_charset_utf8`] builds the same node.
pub fn meta_charset_utf_8() -> (r: Node)
    ensures
        is_raw_markup(r, "<meta charset=\"UTF-8\">"@),
{
    Node::raw_markup(String::from_str("<meta charset=\"UTF-8\">"))
}

/// `<meta charset="UTF-8">`
pub fn meta_charset_utf8() -> (r: Node)
    ensures
        is_raw_markup(r, "<meta charset=\"UTF-8\">"@),
{
    Node::raw_markup(String::from_str("<meta charset=\"UTF-8\">"))
}

/// `<meta name="viewport" content="width=device-width, initial-scale=1.0">`
pub fn meta_viewport() -> (r: Node)
    ensures
        is_raw_markup(
            r,
            "<meta name=\"viewport\" content=\"width=device-width, initial-scale=1.0\">"@,
        ),
{
    Node::raw_markup(
        String::from_str(
            "<meta name=\"viewport\" content=\"width=device-width, initial-scale=1.0\">",
        ),
    )
}

/// `<meta name="color-scheme" content="{scheme}">`
pub fn meta_color_scheme(scheme: String) -> (r: Node)
    ensures
        r matches Node::VoidElement { tag, attributes } && tag@ == "meta"@ && attributes@.len()
            == 2 && attr_is(attributes@[0], "name"@, "color-scheme"@) && attr_is(
            attributes@[1],
            "content"@,
            scheme@,
        ),
{
    let mut attributes: Vec<Attribute> = Vec::new();
    attributes.push(Attribute::new(String::from_str("name"), String::from_str("color-scheme")));
    attributes.push(Attribute::new(String::from_str("content"), scheme));
    Node::new_void_element(String::from_str("meta"), attributes)
}

/// `<link>`
pub fn link(attributes: Vec<Attribute>) -> (r: Node)
    ensures
        is_void_element(r, "link"@, attributes@),
{
    Node::new_void_element(String::from_str("link"), attributes)
}

/// `<link rel="stylesheet" href="{url}">`
pub fn link_stylesheet(url: String) -> (r: Node)
    ensures
        r matches Node::VoidElement { tag, attributes } && tag@ == "link"@ && attributes@.len()
            == 2 && attr_is(attributes@[0], "rel"@, "stylesheet"@) && attr_is(
            attributes@[1],
            "href"@,
            url@,
        ),
{
    let mut attributes: Vec<Attribute> = Vec::new();
    attributes.push(Attribute::new(String::from_str("rel"), String::from_str("stylesheet")));
    attributes.push(Attribute::new(String::from_str("href"), url));
    Node::new_void_element(String::from_str("link"), attributes)
}

/// `<script>`
pub fn script(url: String) -> (r: Node)
    ensures
        r matches Node::Element { tag, attributes, children } && tag@ == "script"@
            && attributes@.len() == 1 && attr_is(attributes@[0], "href"@, url@)
            && children@.len() == 0,
{
    let mut attributes: Vec<Attribute> = Vec::new();
    attributes.push(Attribute::new(String::from_str("href"), url));
    Node::new_element(String::from_str("script"), attributes, Vec::new())
}

/// `<title>`
pub fn title(value: String) -> (r: Node)
    ensures
        r matches Node::Element { tag, attributes, children } && tag@ == "title"@
            && attributes@.len() == 0 && children@.len() == 1 && is_text(children@[0], value@),
{
    let mut children: Vec<Node> = Vec::new();
    children.push(Node::text(value));
    Node::new_element(String::from_str("title"), Vec::new(), children)
}

/// `<body>`
pub fn body(children: Vec<Node>) -> (r: Node)
    ensures
        is_element(r, "body"@, Seq::<Attribute>::empty(), children@),
{
    Node::new_element(String::from_str("body"), Vec::new(), children)
}

/// `<hgroup>`
pub fn hgroup(children: Vec<Node>) -> (r: Node)
    ensures
        is_element(r, "hgroup"@, Seq::<Attribute>::empty(), children@),
{
    Node::new_element(String::from_str("hgroup"), Vec::new(), children)
}

/// `<h1>`
pub fn h1(children: Vec<Node>) -> (r: Node)
    ensures
        is_element(r, "h1"@, Seq::<Attribute>::empty(), children@),
{
    Node::new_element(String::from_str("h1"), Vec::new(), children)
}

/// `<h2>`
pub fn h2(children: Vec<Node>) -> (r: Node)
    ensures
        is_element(r, "h2"@, Seq::<Attribute>::empty(), children@),
{
    Node::new_element(String::from_str("h2"), Vec::new(), children)
}

/// `<h3>`
pub fn h3(children: Vec<Node>) -> (r: Node)
    ensures
        is_element(r, "h3"@, Seq::<Attribute>::empty(), children@),
{
    Node::new_element(String::from_str("h3"), Vec::new(), children)
}

/// `<h4>`
pub fn h4(children: Vec<Node>) -> (r: Node)
    ensures
        is_element(r, "h4"@, Seq::<Attribute>::empty(), children@),
{
    Node::new_element(String::from_str("h4"), Vec::new(), children)
}

/// `<h5>`
pub fn h5(children: Vec<Node>) -> (r: Node)
    ensures
        is_element(r, "h5"@, Seq::<Attribute>::empty(), children@),
{
    Node::new_element(String::from_str("h5"), Vec::new(), children)
}

/// `<h6>`
pub fn h6(children: Vec<Node>) -> (r: Node)
    ensures
        is_element(r, "h6"@, Seq::<Attribute>::empty(), children@),
{
    Node::new_element(String::from_str("h6"), Vec::new(), children)
}

/// `<p>`
pub fn p(children: Vec<Node>) -> (r: Node)
    ensures
        is_element(r, "p"@, Seq::<Attribute>::empty(), children@),
{
    Node::new_element(String::from_str("p"), Vec::new(), children)
}

/// `<br>`
pub fn br() -> (r: Node)
    ensures
        is_void_element(r, "br"@, Seq::<Attribute>::empty()),
{
    Node::new_void_element(String::from_str("br"), Vec::new())
}

/// `<hr>`
pub fn hr() -> (r: Node)
    ensures
        is_void_element(r, "hr"@, Seq::<Attribute>::empty()),
{
    Node::new_void_element(String::from_str("hr"), Vec::new())
}

/// `<small>`
pub fn small(children: Vec<Node>) -> (r: Node)
    ensures
        is_element(r, "small"@, Seq::<Attribute>::empty(), children@),
{
    Node::new_element(String::from_str("small"), Vec::new(), children)
}

/// `<span>`
pub fn span(children: Vec<Node>) -> (r: Node)
    ensures
        is_element(r, "span"@, Seq::<Attribute>::empty(), children@),
{
    Node::new_element(String::from_str("span"), Vec::new(), children)
}

/// `<table>`
pub fn table(children: Vec<Node>) -> (r: Node)
    ensures
        is_element(r, "table"@, Seq::<Attribute>::empty(), children@),
{
    Node::new_element(String::from_str("table"), Vec::new(), children)
}

/// `<tr>`
pub fn tr(children: Vec<Node>) -> (r: Node)
    ensures
        is_element(r, "tr"@, Seq::<Attribute>::empty(), children@),
{
    Node::new_element(String::from_str("tr"), Vec::new(), children)
}

/// `<td>`
pub fn td(children: Vec<Node>) -> (r: Node)
    ensures
        is_element(r, "td"@, Seq::<Attribute>::empty(), children@),
{
    Node::new_element(String::from_str("td"), Vec::new(), children)
}

/// `<th>`
pub fn th(children: Vec<Node>) -> (r: Node)
    ensures
        is_element(r, "th"@, Seq::<Attribute>::empty(), children@),
{
    Node::new_element(String::from_str("th"), Vec::new(), children)
}

/// `<thead>`
pub fn thead(children: Vec<Node>) -> (r: Node)
    ensures
        is_element(r, "thead"@, Seq::<Attribute>::empty(), children@),
{
    Node::new_element(String::from_str("thead"), Vec::new(), children)
}

/// `<tbody>`
pub fn tbody(children: Vec<Node>) -> (r: Node)
    ensures
        is_element(r, "tbody"@, Seq::<Attribute>::empty(), children@),
{
    Node::new_element(String::from_str("tbody"), Vec::new(), children)
}

/// `<tfoot>`
pub fn tfoot(children: Vec<Node>) -> (r: Node)
    ensures
        is_element(r, "tfoot"@, Seq::<Attribute>::empty(), children@),
{
    Node::new_element(String::from_str("tfoot"), Vec::new(), children)
}

/// `<section>`
pub fn section(children: Vec<Node>) -> (r: Node)
    ensures
        is_element(r, "section"@, Seq::<Attribute>::empty(), children@),
{
    Node::new_element(String::from_str("section"), Vec::new(), children)
}

/// `<article>`
pub fn article(children: Vec<Node>) -> (r: Node)
    ensures
        is_element(r, "article"@, Seq::<Attribute>::empty(), children@),
{
    Node::new_element(String::from_str("article"), Vec::new(), children)
}

/// `<header>`
pub fn header(children: Vec<Node>) -> (r: Node)
    ensures
        is_element(r, "header"@, Seq::<Attribute>::empty(), children@),
{
    Node::new_element(String::from_str("header"), Vec::new(), children)
}

/// `<main>`
pub fn main(children: Vec<Node>) -> (r: Node)
    ensures
        is_element(r, "main"@, Seq::<Attribute>::empty(), children@),
{
    Node::new_element(String::from_str("main"), Vec::new(), children)
}

/// `<footer>`
pub fn footer(children: Vec<Node>) -> (r: Node)
    ensures
        is_element(r, "footer"@, Seq::<Attribute>::empty(), children@),
{
    Node::new_element(String::from_str("footer"), Vec::new(), children)
}

/// `<a>`
pub fn a(href: String, children: Vec<Node>) -> (r: Node)
    ensures
        r matches Node::Element { tag, attributes, children: kids } && tag@ == "a"@
            && attributes@.len() == 1 && attr_is(attributes@[0], "href"@, href@) && kids@
            == children@,
{
    let mut attributes: Vec<Attribute> = Vec::new();
    attributes.push(Attribute::new(String::from_str("href"), href));
    Node::new_element(String::from_str("a"), attributes, children)
}

/// `<img>`
pub fn img(attributes: Vec<Attribute>) -> (r: Node)
    ensures
        is_void_element(r, "img"@, attributes@),
{
    Node::new_void_element(String::from_str("img"), attributes)
}

/// `<ul>`
pub fn ul(children: Vec<Node>) -> (r: Node)
    ensures
        is_element(r, "ul"@, Seq::<Attribute>::empty(), children@),
{
    Node::new_element(String::from_str("ul"), Vec::new(), children)
}

/// `<ol>`
pub fn ol(children: Vec<Node>) -> (r: Node)
    ensures
        is_element(r, "ol"@, Seq::<Attribute>::empty(), children@),
{
    Node::new_element(String::from_str("ol"), Vec::new(), children)
}

/// `<li>`
pub fn li(children: Vec<Node>) -> (r: Node)
    ensures
        is_element(r, "li"@, Seq::<Attribute>::empty(), children@),
{
    Node::new_element(String::from_str("li"), Vec::new(), children)
}

/// `<form>`
pub fn form(attributes: Vec<Attribute>, children: Vec<Node>) -> (r: Node)
    ensures
        is_element(r, "form"@, attributes@, children@),
{
    Node::new_element(String::from_str("form"), attributes, children)
}

/// `<fieldset>`
pub fn fieldset(attributes: Vec<Attribute>, children: Vec<Node>) -> (r: Node)
    ensures
        is_element(r, "fieldset"@, attributes@, children@),
{
    Node::new_element(String::from_str("fieldset"), attributes, children)
}

/// `<input>`
pub fn input(attributes: Vec<Attribute>) -> (r: Node)
    ensures
        is_void_element(r, "input"@, attributes@),
{
    Node::new_void_element(String::from_str("input"), attributes)
}

/// `<textarea>`
pub fn textarea(attributes: Vec<Attribute>, value: String) -> (r: Node)
    ensures
        r matches Node::Element { tag, attributes: attrs, children } && tag@ == "textarea"@
            && attrs@ == attributes@ && children@.len() == 1 && is_text(children@[0], value@),
{
    let mut children: Vec<Node> = Vec::new();
    children.push(Node::text(value));
    Node::new_element(String::from_str("textarea"), attributes, children)
}

/// `<select>`
pub fn select(attributes: Vec<Attribute>, children: Vec<Node>) -> (r: Node)
    ensures
        is_element(r, "select"@, attributes@, children@),
{
    Node::new_element(String::from_str("select"), attributes, children)
}

/// `<option>`
pub fn option(attributes: Vec<Attribute>, children: Vec<Node>) -> (r: Node)
    ensures
        is_element(r, "option"@, attributes@, children@),
{
    Node::new_element(String::from_str("option"), attributes, children)
}

/// `<button>`
pub fn button(attributes: Vec<Attribute>, children: Vec<Node>) -> (r: Node)
    ensures
        is_element(r, "button"@, attributes@, children@),
{
    Node::new_element(String::from_str("button"), attributes, children)
}

/// `<label>`
pub fn label(attributes: Vec<Attribute>, children: Vec<Node>) -> (r: Node)
    ensures
        is_element(r, "label"@, attributes@, children@),
{
    Node::new_element(String::from_str("label"), attributes, children)
}

} // verus!
