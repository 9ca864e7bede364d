//! The closed set of element names the renderer knows, each with its
//! serialised name and its two rendering flags.

use vstd::prelude::*;

verus! {

/// An element name known to the renderer.
#[derive(Clone, Copy, PartialEq, Eq, Structural, Debug, Hash)]
pub enum Tag {
    Html,
    Head,
    Body,
    Title,
    Meta,
    Link,
    Script,
    Style,
    Div,
    Span,
    P,
    A,
    H1,
    H2,
    H3,
    H4,
    H5,
    H6,
    Ul,
    Ol,
    Li,
    Img,
    Input,
    Br,
    Hr,
    Button,
    Form,
    Label,
    Textarea,
    Select,
    Table,
    Thead,
    Tbody,
    Tr,
    Td,
    Th,
    Section,
    Article,
    Header,
    Footer,
    Main,
    Nav,
    Strong,
    Em,
    Pre,
    Code,
    Blockquote,
}

impl Tag {
    /// The name written between `<` and `>`.
    pub open spec fn spec_name(self) -> Seq<char> {
        match self {
            Tag::Html => "html"@,
            Tag::Head => "head"@,
            Tag::Body => "body"@,
            Tag::Title => "title"@,
            Tag::Meta => "meta"@,
            Tag::Link => "link"@,
            Tag::Script => "script"@,
            Tag::Style => "style"@,
            Tag::Div => "div"@,
            Tag::Span => "span"@,
            Tag::P => "p"@,
            Tag::A => "a"@,
            Tag::H1 => "h1"@,
            Tag::H2 => "h2"@,
            Tag::H3 => "h3"@,
            Tag::H4 => "h4"@,
            Tag::H5 => "h5"@,
            Tag::H6 => "h6"@,
            Tag::Ul => "ul"@,
            Tag::Ol => "ol"@,
            Tag::Li => "li"@,
            Tag::Img => "img"@,
            Tag::Input => "input"@,
            Tag::Br => "br"@,
            Tag::Hr => "hr"@,
            Tag::Button => "button"@,
            Tag::Form => "form"@,
            Tag::Label => "label"@,
            Tag::Textarea => "textarea"@,
            Tag::Select => "select"@,
            Tag::Table => "table"@,
            Tag::Thead => "thead"@,
            Tag::Tbody => "tbody"@,
            Tag::Tr => "tr"@,
            Tag::Td => "td"@,
            Tag::Th => "th"@,
            Tag::Section => "section"@,
            Tag::Article => "article"@,
            Tag::Header => "header"@,
            Tag::Footer => "footer"@,
            Tag::Main => "main"@,
            Tag::Nav => "nav"@,
            Tag::Strong => "strong"@,
            Tag::Em => "em"@,
            Tag::Pre => "pre"@,
            Tag::Code => "code"@,
            Tag::Blockquote => "blockquote"@,
        }
    }

    /// Whether the element's content model forbids children.
    pub open spec fn spec_self_closing(self) -> bool {
        match self {
            Tag::Meta | Tag::Link | Tag::Img | Tag::Input | Tag::Br | Tag::Hr => true,
            _ => false,
        }
    }

    /// Whether the element is void in HTML5: written without a closing slash.
    pub open spec fn spec_void(self) -> bool {
        match self {
            Tag::Meta | Tag::Link | Tag::Img | Tag::Input | Tag::Br | Tag::Hr => true,
            _ => false,
        }
    }

    /// The tag's name as written in markup.
    pub fn name(&self) -> (r: &'static str)
        ensures
            r@ == self.spec_name(),
    {
        match self {
            Tag::Html => "html",
            Tag::Head => "head",
            Tag::Body => "body",
            Tag::Title => "title",
            Tag::Meta => "meta",
            Tag::Link => "link",
            Tag::Script => "script",
            Tag::Style => "style",
            Tag::Div => "div",
            Tag::Span => "span",
            Tag::P => "p",
            Tag::A => "a",
            Tag::H1 => "h1",
            Tag::H2 => "h2",
            Tag::H3 => "h3",
            Tag::H4 => "h4",
            Tag::H5 => "h5",
            Tag::H6 => "h6",
            Tag::Ul => "ul",
            Tag::Ol => "ol",
            Tag::Li => "li",
            Tag::Img => "img",
            Tag::Input => "input",
            Tag::Br => "br",
            Tag::Hr => "hr",
            Tag::Button => "button",
            Tag::Form => "form",
            Tag::Label => "label",
            Tag::Textarea => "textarea",
            Tag::Select => "select",
            Tag::Table => "table",
            Tag::Thead => "thead",
            Tag::Tbody => "tbody",
            Tag::Tr => "tr",
            Tag::Td => "td",
            Tag::Th => "th",
            Tag::Section => "section",
            Tag::Article => "article",
            Tag::Header => "header",
            Tag::Footer => "footer",
            Tag::Main => "main",
            Tag::Nav => "nav",
            Tag::Strong => "strong",
            Tag::Em => "em",
            Tag::Pre => "pre",
            Tag::Code => "code",
            Tag::Blockquote => "blockquote",
        }
    }

    /// Whether children are forbidden: meta, link, img, input, br and hr.
    pub fn is_self_closing(&self) -> (r: bool)
        ensures
            r == self.spec_self_closing(),
    {
        match self {
            Tag::Meta | Tag::Link | Tag::Img | Tag::Input | Tag::Br | Tag::Hr => true,
            _ => false,
        }
    }

    /// Whether the element is void, and so closes with `>` rather than `/>`.
    pub fn is_void(&self) -> (r: bool)
        ensures
            r == self.spec_void(),
    {
        match self {
            Tag::Meta | Tag::Link | Tag::Img | Tag::Input | Tag::Br | Tag::Hr => true,
            _ => false,
        }
    }
}

} // verus!
