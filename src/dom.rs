//! The document tree: a page, its elements, their attributes and children.

use vstd::prelude::*;

use crate::tag::Tag;

verus! {

/// One `name="value"` pair. Both parts are written verbatim.
#[derive(Clone, Debug)]
pub struct Attribute {
    pub name: String,
    pub value: String,
}

/// One element: its tag, its attributes in order and its children in order.
#[derive(Debug)]
pub struct Element {
    pub tag: Tag,
    pub attributes: Vec<Attribute>,
    pub children: Vec<Node>,
}

/// One child slot of an element.
#[derive(Debug)]
pub enum Node {
    Element(Element),
    /// Literal text, written verbatim.
    Text(String),
}

/// A whole page: an optional language code and the `head` and `body`
/// containers. Neither container may carry attributes; the renderer refuses
/// a page whose containers do.
#[derive(Debug)]
pub struct Document {
    pub lang: Option<String>,
    pub head: Element,
    pub body: Element,
}

impl Attribute {
    pub fn new(name: String, value: String) -> (r: Attribute)
        ensures
            r.name@ == name@,
            r.value@ == value@,
    {
        Attribute { name, value }
    }
}

impl Element {
    pub fn new(tag: Tag, attributes: Vec<Attribute>, children: Vec<Node>) -> (r: Element)
        ensures
            r.tag == tag,
            r.attributes@ == attributes@,
            r.children@ == children@,
    {
        Element { tag, attributes, children }
    }
}

impl Document {
    /// The page's containers are a `head` and a `body` element, neither
    /// carrying attributes.
    pub open spec fn wf(self) -> bool {
        &&& self.head.tag == Tag::Head
        &&& self.body.tag == Tag::Body
        &&& self.head.attributes@.len() == 0
        &&& self.body.attributes@.len() == 0
    }

    /// A page whose containers are a `head` and a `body` element without
    /// attributes, holding the given children.
    pub fn new(lang: Option<String>, head: Vec<Node>, body: Vec<Node>) -> (r: Document)
        ensures
            r.wf(),
            r.lang == lang,
            r.head.tag == Tag::Head,
            r.head.attributes@.len() == 0,
            r.head.children@ == head@,
            r.body.tag == Tag::Body,
            r.body.attributes@.len() == 0,
            r.body.children@ == body@,
    {
        Document {
            lang,
            head: Element { tag: Tag::Head, attributes: Vec::new(), children: head },
            body: Element { tag: Tag::Body, attributes: Vec::new(), children: body },
        }
    }
}

} // verus!
