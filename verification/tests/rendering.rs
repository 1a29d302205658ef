use fun_html::elements::{a, div, none, span, text};
use fun_html::escape::{escape_attr_value, escape_text};
use fun_html::node::{Attribute, Document, Node};
use fun_html::render::render;

#[test]
fn renders_empty_div() {
    let node = div(vec![]);
    assert_eq!(render(&node), "<div></div>");
}

#[test]
fn renders_void_br_without_closing_tag() {
    let node = Node::new_void_element(String::from("br"), vec![]);
    assert_eq!(render(&node), "<br>");
}

#[test]
fn escapes_text_content() {
    let node = Node::text(String::from("<script>"));
    assert_eq!(render(&node), "&lt;script&gt;");
}

#[test]
fn raw_markup_is_emitted_verbatim() {
    let node = Node::raw_markup(String::from("<b>hi</b>"));
    assert_eq!(render(&node), "<b>hi</b>");
}

#[test]
fn escapes_quotes_in_attribute_values_only() {
    let node = a(String::from("\"quote\""), vec![text(String::from("go"))]);
    assert_eq!(render(&node), "<a href=\"&quot;quote&quot;\">go</a>");
}

#[test]
fn empty_renders_to_nothing() {
    assert_eq!(render(&Node::empty()), "");
}

#[test]
fn empty_child_contributes_nothing() {
    let node = div(vec![text(String::from("x")), none(), text(String::from("y"))]);
    assert_eq!(render(&node), "<div>xy</div>");
    let without = div(vec![text(String::from("x")), text(String::from("y"))]);
    assert_eq!(render(&node), render(&without));
}

#[test]
fn rendering_twice_yields_identical_output() {
    let doc = Document::new(div(vec![
        span(vec![text(String::from("a & b"))]),
        Node::raw_markup(String::from("<i>t</i>")),
    ]));
    let first = doc.render();
    let second = doc.render();
    assert_eq!(first, second);
}

#[test]
fn attribute_order_matches_construction_order() {
    let forward = Node::new_element(
        String::from("div"),
        vec![
            Attribute::new(String::from("id"), String::from("x")),
            Attribute::new(String::from("class"), String::from("y")),
        ],
        vec![],
    );
    assert_eq!(render(&forward), "<div id=\"x\" class=\"y\"></div>");
    let backward = Node::new_element(
        String::from("div"),
        vec![
            Attribute::new(String::from("class"), String::from("y")),
            Attribute::new(String::from("id"), String::from("x")),
        ],
        vec![],
    );
    assert_eq!(render(&backward), "<div class=\"y\" id=\"x\"></div>");
}

#[test]
fn child_order_matches_construction_order() {
    let node = div(vec![
        span(vec![text(String::from("one"))]),
        span(vec![text(String::from("two"))]),
        text(String::from("three")),
    ]);
    assert_eq!(
        render(&node),
        "<div><span>one</span><span>two</span>three</div>"
    );
}

#[test]
fn escape_text_replaces_metacharacters() {
    assert_eq!(escape_text("a&b<c>d"), "a&amp;b&lt;c&gt;d");
}

#[test]
fn escape_text_leaves_no_angle_brackets() {
    let escaped = escape_text("<<>>&<x>");
    assert!(!escaped.contains('<'));
    assert!(!escaped.contains('>'));
    assert!(escaped.contains("&amp;"));
}

#[test]
fn escape_text_leaves_quotes_alone() {
    assert_eq!(escape_text("say \"hi\""), "say \"hi\"");
}

#[test]
fn escape_text_on_empty_string() {
    assert_eq!(escape_text(""), "");
}

#[test]
fn escape_text_passes_non_ascii_through() {
    assert_eq!(escape_text("héllo wörld ✓"), "héllo wörld ✓");
}

#[test]
fn escape_text_passes_null_bytes_through() {
    assert_eq!(escape_text("a\0b"), "a\0b");
}

#[test]
fn escape_text_does_not_double_escape() {
    assert_eq!(escape_text("&amp;"), "&amp;amp;");
}

#[test]
fn escape_attr_value_replaces_metacharacters() {
    assert_eq!(escape_attr_value("a&b\"c<d>e"), "a&amp;b&quot;c&lt;d&gt;e");
}

#[test]
fn boolean_attribute_renders_bare_name() {
    let node = Node::new_void_element(
        String::from("input"),
        vec![Attribute::new_flag(String::from("disabled"))],
    );
    assert_eq!(render(&node), "<input disabled>");
}

#[test]
fn empty_valued_attribute_still_renders_quotes() {
    let node = Node::new_void_element(
        String::from("input"),
        vec![Attribute::new(String::from("value"), String::from(""))],
    );
    assert_eq!(render(&node), "<input value=\"\">");
}

#[test]
fn attribute_names_are_emitted_verbatim() {
    let node = Node::new_void_element(
        String::from("input"),
        vec![Attribute::new(String::from("data-x"), String::from("1"))],
    );
    assert_eq!(render(&node), "<input data-x=\"1\">");
}

#[test]
fn arbitrary_tags_pass_through_unchanged() {
    let node = Node::new_element(String::from("my-widget"), vec![], vec![]);
    assert_eq!(render(&node), "<my-widget></my-widget>");
}

#[test]
fn nested_tree_renders_depth_first() {
    let node = div(vec![div(vec![div(vec![text(String::from("deep"))])])]);
    assert_eq!(render(&node), "<div><div><div>deep</div></div></div>");
}

#[test]
fn document_renders_its_root() {
    let doc = Document::new(div(vec![text(String::from("hello"))]));
    assert_eq!(doc.render(), "<div>hello</div>");
}

#[test]
fn raw_markup_is_not_reescaped_when_nested() {
    let node = div(vec![Node::raw_markup(String::from("<b>&amp;</b>"))]);
    assert_eq!(render(&node), "<div><b>&amp;</b></div>");
}
