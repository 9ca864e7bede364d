use html_render::{
    format_attributes, render, render_element, render_element_self_closing,
    render_element_with_children, render_node, render_nodes, Attribute, Document, Element, Node,
    RenderError, Tag,
};

fn text(s: &str) -> Node {
    Node::Text(s.to_string())
}

fn attr(name: &str, value: &str) -> Attribute {
    Attribute::new(name.to_string(), value.to_string())
}

fn element(tag: Tag, attributes: Vec<Attribute>, children: Vec<Node>) -> Element {
    Element::new(tag, attributes, children)
}

#[test]
fn end_to_end_page_with_lang() {
    let page = Document::new(
        Some("en".to_string()),
        vec![Node::Element(element(Tag::Meta, vec![], vec![]))],
        vec![text("hi")],
    );
    assert_eq!(
        render(page).unwrap(),
        "<!DOCTYPE html><html lang=\"en\"><head><meta></head><body>hi</body></html>"
    );
}

#[test]
fn page_without_lang_has_bare_html() {
    let page = Document::new(None, vec![], vec![text("x")]);
    let out = render(page).unwrap();
    assert!(out.starts_with("<!DOCTYPE html><html>"));
    assert_eq!(out, "<!DOCTYPE html><html><head></head><body>x</body></html>");
}

#[test]
fn empty_page() {
    let page = Document::new(None, vec![], vec![]);
    assert_eq!(render(page).unwrap(), "<!DOCTYPE html><html><head></head><body></body></html>");
}

#[test]
fn lang_follows_doctype_once() {
    let page = Document::new(Some("en".to_string()), vec![], vec![text("a")]);
    let out = render(page).unwrap();
    assert!(out.starts_with("<!DOCTYPE html><html lang=\"en\">"));
    assert_eq!(out.matches("<html lang=\"en\">").count(), 1);
}

#[test]
fn other_lang_code() {
    let page = Document::new(Some("fr-CA".to_string()), vec![], vec![]);
    assert_eq!(
        render(page).unwrap(),
        "<!DOCTYPE html><html lang=\"fr-CA\"><head></head><body></body></html>"
    );
}

#[test]
fn void_tags_render_bare() {
    for (tag, name) in [
        (Tag::Meta, "meta"),
        (Tag::Link, "link"),
        (Tag::Img, "img"),
        (Tag::Input, "input"),
        (Tag::Br, "br"),
        (Tag::Hr, "hr"),
    ] {
        assert!(tag.is_self_closing());
        assert!(tag.is_void());
        let out = render_element(element(tag, vec![], vec![])).unwrap();
        assert_eq!(out, format!("<{}>", name));
    }
}

#[test]
fn content_tags_wrap_text() {
    for (tag, name) in [(Tag::Div, "div"), (Tag::P, "p"), (Tag::Span, "span"), (Tag::Title, "title")] {
        assert!(!tag.is_self_closing());
        let out = render_element(element(tag, vec![], vec![text("x")])).unwrap();
        assert_eq!(out, format!("<{}>x</{}>", name, name));
    }
}

#[test]
fn attributes_keep_order() {
    let out = format_attributes(vec![attr("a", "1"), attr("b", "2")]);
    assert_eq!(out, " a=\"1\" b=\"2\"");
    let swapped = format_attributes(vec![attr("b", "2"), attr("a", "1")]);
    assert_eq!(swapped, " b=\"2\" a=\"1\"");
}

#[test]
fn single_attribute() {
    assert_eq!(format_attributes(vec![attr("id", "main")]), " id=\"main\"");
}

#[test]
fn empty_inputs_render_empty() {
    assert_eq!(render_nodes(vec![]).unwrap(), "");
    assert_eq!(format_attributes(vec![]), "");
}

#[test]
fn values_are_not_escaped() {
    let out = render_element(element(
        Tag::A,
        vec![attr("title", "say \"hi\"")],
        vec![text("<b>&</b>")],
    ))
    .unwrap();
    assert_eq!(out, "<a title=\"say \"hi\"\"><b>&</b></a>");
}

#[test]
fn head_attributes_refused() {
    let mut page = Document::new(None, vec![], vec![text("x")]);
    page.head.attributes.push(attr("class", "c"));
    assert_eq!(render(page), Err(RenderError::InvalidStructuralAttributes));
}

#[test]
fn body_attributes_refused() {
    let mut page = Document::new(None, vec![], vec![]);
    page.body.attributes.push(attr("class", "c"));
    assert_eq!(render(page), Err(RenderError::InvalidStructuralAttributes));
}

#[test]
fn structural_check_comes_first() {
    let bad_br = Node::Element(element(Tag::Br, vec![], vec![text("x")]));
    let mut page = Document::new(None, vec![], vec![bad_br]);
    page.head.attributes.push(attr("a", "b"));
    assert_eq!(render(page), Err(RenderError::InvalidStructuralAttributes));
}

#[test]
fn br_with_child_refused() {
    let br = element(Tag::Br, vec![], vec![text("x")]);
    assert_eq!(render_element(br), Err(RenderError::SelfClosingTagHasChildren));
}

#[test]
fn nested_self_closing_with_children_refused() {
    let img = Node::Element(element(Tag::Img, vec![], vec![text("x")]));
    let div = Node::Element(element(Tag::Div, vec![], vec![text("a"), img]));
    let page = Document::new(None, vec![], vec![div]);
    assert_eq!(render(page), Err(RenderError::SelfClosingTagHasChildren));
}

#[test]
fn nested_elements_in_order() {
    let li1 = Node::Element(element(Tag::Li, vec![], vec![text("one")]));
    let li2 = Node::Element(element(Tag::Li, vec![attr("class", "b")], vec![text("two")]));
    let ul = Node::Element(element(Tag::Ul, vec![attr("id", "l")], vec![li1, li2]));
    assert_eq!(
        render_nodes(vec![text("<"), ul, text(">")]).unwrap(),
        "<<ul id=\"l\"><li>one</li><li class=\"b\">two</li></ul>>"
    );
}

#[test]
fn self_closing_with_attributes() {
    let input = element(Tag::Input, vec![attr("type", "text"), attr("name", "q")], vec![]);
    assert_eq!(
        render_element_self_closing(input).unwrap(),
        "<input type=\"text\" name=\"q\">"
    );
}

#[test]
fn with_children_renders_content() {
    let h1 = element(Tag::H1, vec![], vec![text("T"), text("itle")]);
    assert_eq!(render_element_with_children(h1).unwrap(), "<h1>Title</h1>");
}

#[test]
fn text_node_verbatim() {
    assert_eq!(render_node(text(" a & b ")).unwrap(), " a & b ");
}

#[test]
fn tag_names() {
    assert_eq!(Tag::Blockquote.name(), "blockquote");
    assert_eq!(Tag::H6.name(), "h6");
    assert!(!Tag::Div.is_void());
    assert!(!Tag::Html.is_self_closing());
}
