use fun_html::elements::{
    a, article, body, br, button, div, fieldset, footer, form, h1, h2, h3, h4, h5, h6, head,
    header, hgroup, hr, img, input, label, legend, li, link, link_stylesheet, main, meta,
    meta_charset_utf8, meta_charset_utf_8, meta_color_scheme, meta_viewport, ol, option, p,
    script, section, select, small, span, table, tbody, td, text, textarea, tfoot, th, thead,
    title, tr, ul,
};
use fun_html::node::Attribute;
use fun_html::render::render;

#[test]
fn simple_containers_render_their_tag() {
    assert_eq!(render(&head(vec![])), "<head></head>");
    assert_eq!(render(&legend(vec![])), "<legend></legend>");
    assert_eq!(render(&body(vec![])), "<body></body>");
    assert_eq!(render(&hgroup(vec![])), "<hgroup></hgroup>");
    assert_eq!(render(&p(vec![])), "<p></p>");
    assert_eq!(render(&small(vec![])), "<small></small>");
    assert_eq!(render(&span(vec![])), "<span></span>");
    assert_eq!(render(&section(vec![])), "<section></section>");
    assert_eq!(render(&article(vec![])), "<article></article>");
    assert_eq!(render(&header(vec![])), "<header></header>");
    assert_eq!(render(&main(vec![])), "<main></main>");
    assert_eq!(render(&footer(vec![])), "<footer></footer>");
}

#[test]
fn headings_render_their_level() {
    assert_eq!(render(&h1(vec![])), "<h1></h1>");
    assert_eq!(render(&h2(vec![])), "<h2></h2>");
    assert_eq!(render(&h3(vec![])), "<h3></h3>");
    assert_eq!(render(&h4(vec![])), "<h4></h4>");
    assert_eq!(render(&h5(vec![])), "<h5></h5>");
    assert_eq!(render(&h6(vec![])), "<h6></h6>");
}

#[test]
fn table_parts_render_their_tag() {
    assert_eq!(render(&table(vec![])), "<table></table>");
    assert_eq!(render(&tr(vec![])), "<tr></tr>");
    assert_eq!(render(&td(vec![])), "<td></td>");
    assert_eq!(render(&th(vec![])), "<th></th>");
    assert_eq!(render(&thead(vec![])), "<thead></thead>");
    assert_eq!(render(&tbody(vec![])), "<tbody></tbody>");
    assert_eq!(render(&tfoot(vec![])), "<tfoot></tfoot>");
}

#[test]
fn lists_render_their_tag() {
    assert_eq!(render(&ul(vec![])), "<ul></ul>");
    assert_eq!(render(&ol(vec![])), "<ol></ol>");
    assert_eq!(render(&li(vec![])), "<li></li>");
}

#[test]
fn void_elements_render_single_tags() {
    assert_eq!(render(&br()), "<br>");
    assert_eq!(render(&hr()), "<hr>");
    assert_eq!(render(&meta(vec![])), "<meta>");
    assert_eq!(render(&link(vec![])), "<link>");
    assert_eq!(render(&img(vec![])), "<img>");
    assert_eq!(render(&input(vec![])), "<input>");
}

#[test]
fn form_family_takes_attributes_and_children() {
    let attrs = || {
        vec![Attribute::new(
            String::from("name"),
            String::from("field"),
        )]
    };
    assert_eq!(
        render(&form(attrs(), vec![])),
        "<form name=\"field\"></form>"
    );
    assert_eq!(
        render(&fieldset(attrs(), vec![])),
        "<fieldset name=\"field\"></fieldset>"
    );
    assert_eq!(
        render(&select(attrs(), vec![])),
        "<select name=\"field\"></select>"
    );
    assert_eq!(
        render(&option(attrs(), vec![])),
        "<option name=\"field\"></option>"
    );
    assert_eq!(
        render(&button(attrs(), vec![])),
        "<button name=\"field\"></button>"
    );
    assert_eq!(
        render(&label(attrs(), vec![])),
        "<label name=\"field\"></label>"
    );
}

#[test]
fn meta_shortcuts_render_fixed_markup() {
    assert_eq!(render(&meta_charset_utf8()), "<meta charset=\"UTF-8\">");
    assert_eq!(render(&meta_charset_utf_8()), "<meta charset=\"UTF-8\">");
    assert_eq!(
        render(&meta_viewport()),
        "<meta name=\"viewport\" content=\"width=device-width, initial-scale=1.0\">"
    );
}

#[test]
fn meta_color_scheme_renders_both_attributes() {
    assert_eq!(
        render(&meta_color_scheme(String::from("dark light"))),
        "<meta name=\"color-scheme\" content=\"dark light\">"
    );
}

#[test]
fn link_stylesheet_renders_rel_and_href() {
    assert_eq!(
        render(&link_stylesheet(String::from("/main.css"))),
        "<link rel=\"stylesheet\" href=\"/main.css\">"
    );
}

#[test]
fn script_renders_href_attribute() {
    assert_eq!(
        render(&script(String::from("app.js"))),
        "<script href=\"app.js\"></script>"
    );
}

#[test]
fn title_wraps_escaped_text() {
    assert_eq!(
        render(&title(String::from("a < b"))),
        "<title>a &lt; b</title>"
    );
}

#[test]
fn textarea_wraps_escaped_text() {
    assert_eq!(
        render(&textarea(
            vec![Attribute::new(String::from("rows"), String::from("3"))],
            String::from("a & b")
        )),
        "<textarea rows=\"3\">a &amp; b</textarea>"
    );
}

#[test]
fn anchor_renders_href_then_children() {
    assert_eq!(
        render(&a(String::from("/home"), vec![text(String::from("go"))])),
        "<a href=\"/home\">go</a>"
    );
}

#[test]
fn div_nests_catalogue_children() {
    let node = div(vec![h1(vec![text(String::from("t"))]), br()]);
    assert_eq!(render(&node), "<div><h1>t</h1><br></div>");
}
