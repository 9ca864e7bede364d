//! Serialises an in-memory tree of HTML elements into HTML5 text.
//!
//! The tag taxonomy decides which elements may hold children and how the
//! childless ones close; the renderer walks the tree once and refuses trees
//! that break those rules. Text and attribute values are written verbatim:
//! nothing is escaped at this layer.

pub mod dom;
pub mod laws;
pub mod render;
pub mod tag;

pub use dom::{Attribute, Document, Element, Node};
pub use render::{
    format_attributes, render, render_element, render_element_self_closing,
    render_element_with_children, render_node, render_nodes, RenderError,
};
pub use tag::Tag;
