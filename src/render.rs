//! Serialisation of a document tree into HTML5 text.

use vstd::prelude::*;
use vstd::string::*;

use crate::dom::{Attribute, Document, Element, Node};

verus! {

/// Why a tree cannot be rendered. Both are mistakes of whoever built the
/// tree; the input must be corrected before rendering again.
#[derive(Clone, Copy, PartialEq, Eq, Structural, Debug)]
pub enum RenderError {
    /// `head` or `body` carries attributes, for which the page has no slot.
    InvalidStructuralAttributes,
    /// An element whose tag forbids children has some.
    SelfClosingTagHasChildren,
}

/// ` name="value"`: one attribute with its leading separator.
pub open spec fn attribute_html(a: Attribute) -> Seq<char> {
    " "@ + a.name@ + "=\""@ + a.value@ + "\""@
}

/// The attributes in order, each preceded by one space: empty for no
/// attributes, else a leading space and the pairs joined by single spaces.
pub open spec fn attributes_html(attrs: Seq<Attribute>) -> Seq<char>
    decreases attrs.len(),
{
    if attrs.len() == 0 {
        Seq::empty()
    } else {
        attributes_html(attrs.drop_last()) + attribute_html(attrs.last())
    }
}

/// The rendering of a node, or `None` where some element inside it has a
/// self-closing tag and children.
pub open spec fn node_html(n: Node) -> Option<Seq<char>>
    decreases n,
{
    match n {
        Node::Text(t) => Some(t@),
        Node::Element(e) => element_html(e),
    }
}

/// The renderings of the nodes in order, with no separator; `None` where
/// any of them cannot be rendered.
pub open spec fn nodes_html(ns: Seq<Node>) -> Option<Seq<char>>
    decreases ns,
{
    if ns.len() == 0 {
        Some(Seq::empty())
    } else {
        match (nodes_html(ns.subrange(0, ns.len() - 1)), node_html(ns[ns.len() - 1])) {
            (Some(a), Some(b)) => Some(a + b),
            _ => None,
        }
    }
}

/// `<name attrs>` for a void tag, `<name attrs/>` for another childless one.
pub open spec fn childless_html(e: Element) -> Seq<char> {
    "<"@ + e.tag.spec_name() + attributes_html(e.attributes@) + if e.tag.spec_void() {
        ">"@
    } else {
        "/>"@
    }
}

/// `<name attrs>content</name>`.
pub open spec fn enclosing_html(e: Element, content: Seq<char>) -> Seq<char> {
    "<"@ + e.tag.spec_name() + attributes_html(e.attributes@) + ">"@ + content + "</"@
        + e.tag.spec_name() + ">"@
}

/// The rendering of an element, or `None` where it or an element inside it
/// has a self-closing tag and children.
pub open spec fn element_html(e: Element) -> Option<Seq<char>>
    decreases e,
{
    if e.tag.spec_self_closing() {
        if e.children@.len() == 0 {
            Some(childless_html(e))
        } else {
            None
        }
    } else {
        match nodes_html(e.children@) {
            Some(c) => Some(enclosing_html(e, c)),
            None => None,
        }
    }
}

/// ` lang="code"` where a code is given, else nothing.
pub open spec fn lang_html(lang: Option<String>) -> Seq<char> {
    match lang {
        Some(l) => " lang=\""@ + l@ + "\""@,
        None => Seq::empty(),
    }
}

/// The fixed page skeleton around the two rendered containers.
pub open spec fn page_html(lang: Option<String>, head: Seq<char>, body: Seq<char>) -> Seq<char> {
    "<!DOCTYPE html>"@ + "<html"@ + lang_html(lang) + ">"@ + "<head>"@ + head + "</head>"@
        + "<body>"@ + body + "</body>"@ + "</html>"@
}

/// What rendering a page gives: an error where a container has attributes,
/// else an error where an element inside has a self-closing tag and
/// children, else the page text.
pub open spec fn document_html(page: Document) -> Result<Seq<char>, RenderError> {
    if page.head.attributes@.len() > 0 || page.body.attributes@.len() > 0 {
        Err(RenderError::InvalidStructuralAttributes)
    } else {
        match (nodes_html(page.head.children@), nodes_html(page.body.children@)) {
            (Some(h), Some(b)) => Ok(page_html(page.lang, h, b)),
            _ => Err(RenderError::SelfClosingTagHasChildren),
        }
    }
}

/// Whether `r` is the run-time form of `expected`: the text where there is
/// one, else the error for a self-closing tag with children.
pub open spec fn reports(r: Result<String, RenderError>, expected: Option<Seq<char>>) -> bool {
    match expected {
        Some(s) => r matches Ok(out) && out@ == s,
        None => r == Err::<String, RenderError>(RenderError::SelfClosingTagHasChildren),
    }
}

/// Renders a whole page: the doctype, `<html>` with the language code if
/// any, then `head` and `body` with their rendered children. Refuses a page
/// whose containers carry attributes before looking at anything else, then
/// one holding an element with a self-closing tag and children.
pub fn render(page: Document) -> (r: Result<String, RenderError>)
    ensures
        match document_html(page) {
            Ok(s) => reports(r, Some(s)),
            Err(e) => r == Err::<String, RenderError>(e),
        },
{
    if page.head.attributes.len() > 0 || page.body.attributes.len() > 0 {
        return Err(RenderError::InvalidStructuralAttributes);
    }
    let Document { lang, head, body } = page;
    let head_html = match render_nodes(head.children) {
        Ok(s) => s,
        Err(e) => return Err(e),
    };
    let body_html = match render_nodes(body.children) {
        Ok(s) => s,
        Err(e) => return Err(e),
    };
    let mut out = String::from_str("<!DOCTYPE html>");
    out.append("<html");
    match lang {
        Some(l) => {
            out.append(" lang=\"");
            out.append(l.as_str());
            out.append("\"");
        },
        None => {},
    }
    out.append(">");
    out.append("<head>");
    out.append(head_html.as_str());
    out.append("</head>");
    out.append("<body>");
    out.append(body_html.as_str());
    out.append("</body>");
    out.append("</html>");
    assert(out@ =~= page_html(page.lang, head_html@, body_html@));
    Ok(out)
}

/// Renders the nodes in order and concatenates the results.
pub fn render_nodes(nodes: Vec<Node>) -> (r: Result<String, RenderError>)
    ensures
        reports(r, nodes_html(nodes@)),
    decreases nodes@, 0nat,
{
    let ghost all = nodes@;
    let mut rest = nodes;
    let mut out = String::new();
    while rest.len() > 0
        invariant
            rest@.len() <= all.len(),
            rest@ == all.subrange(0, rest@.len() as int),
            nodes@ == all,
            nodes_html(all) == match nodes_html(rest@) {
                Some(p) => Some(p + out@),
                None => None,
            },
        decreases rest@.len(),
    {
        let ghost before = rest@;
        let ghost earlier = out@;
        let node = rest.pop().unwrap();
        assert(before.subrange(0, before.len() - 1) =~= rest@);
        assert(decreases_to!(all => all[rest@.len() as int]));
        let piece = match render_node(node) {
            Ok(s) => s,
            Err(e) => return Err(e),
        };
        let mut next = piece;
        next.append(out.as_str());
        out = next;
        proof {
            if let Some(p) = nodes_html(rest@) {
                assert(p + piece@ + earlier =~= p + (piece@ + earlier));
            }
        }
    }
    assert(rest@ =~= Seq::<Node>::empty());
    Ok(out)
}

/// Renders one node: text verbatim, an element by its tag's rules.
pub fn render_node(node: Node) -> (r: Result<String, RenderError>)
    ensures
        reports(r, node_html(node)),
    decreases node, 0nat,
{
    match node {
        Node::Element(element) => render_element(element),
        Node::Text(text) => Ok(text),
    }
}

/// Renders an element, choosing the form by whether its tag forbids
/// children.
pub fn render_element(element: Element) -> (r: Result<String, RenderError>)
    ensures
        reports(r, element_html(element)),
    decreases element, 1nat,
{
    if element.tag.is_self_closing() {
        render_element_self_closing(element)
    } else {
        render_element_with_children(element)
    }
}

/// Renders an element that may hold no children: `<name attrs>` where the
/// tag is void, else `<name attrs/>`; an error where it has children.
pub fn render_element_self_closing(element: Element) -> (r: Result<String, RenderError>)
    ensures
        element.children@.len() == 0 ==> reports(r, Some(childless_html(element))),
        element.children@.len() > 0 ==> r == Err::<String, RenderError>(
            RenderError::SelfClosingTagHasChildren,
        ),
{
    if element.children.len() > 0 {
        return Err(RenderError::SelfClosingTagHasChildren);
    }
    let tag = element.tag;
    let mut out = String::from_str("<");
    out.append(tag.name());
    let attrs = format_attributes(element.attributes);
    out.append(attrs.as_str());
    if tag.is_void() {
        out.append(">");
    } else {
        out.append("/>");
    }
    Ok(out)
}

/// Renders an element with its content: `<name attrs>content</name>`.
pub fn render_element_with_children(element: Element) -> (r: Result<String, RenderError>)
    ensures
        reports(
            r,
            match nodes_html(element.children@) {
                Some(c) => Some(enclosing_html(element, c)),
                None => None,
            },
        ),
    decreases element, 0nat,
{
    let tag = element.tag;
    let Element { tag: _, attributes, children } = element;
    assert(decreases_to!(element => element.children@));
    let content = match render_nodes(children) {
        Ok(s) => s,
        Err(e) => return Err(e),
    };
    let mut out = String::from_str("<");
    out.append(tag.name());
    let attrs = format_attributes(attributes);
    out.append(attrs.as_str());
    out.append(">");
    out.append(content.as_str());
    out.append("</");
    out.append(tag.name());
    out.append(">");
    Ok(out)
}

/// Renders attributes as ` name="value"` pairs in order: empty for none,
/// else one leading space and single spaces between pairs. Names and values
/// are written verbatim.
pub fn format_attributes(attributes: Vec<Attribute>) -> (r: String)
    ensures
        r@ == attributes_html(attributes@),
{
    let mut out = String::new();
    let mut i: usize = 0;
    while i < attributes.len()
        invariant
            i <= attributes@.len(),
            out@ == attributes_html(attributes@.subrange(0, i as int)),
        decreases attributes@.len() - i,
    {
        let attribute = &attributes[i];
        out.append(" ");
        out.append(attribute.name.as_str());
        out.append("=\"");
        out.append(attribute.value.as_str());
        out.append("\"");
        assert(attributes@.subrange(0, i + 1).drop_last() =~= attributes@.subrange(0, i as int));
        i = i + 1;
    }
    assert(attributes@.subrange(0, i as int) =~= attributes@);
    out
}

} // verus!
