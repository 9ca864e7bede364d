//! Properties of rendering that hold of every tree, proved over the
//! specification functions that the renderer's contracts use.

use vstd::prelude::*;

use crate::dom::{Attribute, Document, Element, Node};
use crate::render::{attribute_html, attributes_html, document_html, element_html, node_html, nodes_html};
use crate::render::RenderError;
use crate::tag::Tag;

verus! {

/// A page without a language code renders, when it renders at all, to text
/// that begins with the doctype and a bare `<html>`.
pub proof fn lemma_no_lang_starts_with_bare_html(page: Document)
    requires
        page.lang is None,
        document_html(page) is Ok,
    ensures
        "<!DOCTYPE html><html>"@.is_prefix_of(document_html(page)->Ok_0),
{
    reveal_strlit("<!DOCTYPE html><html>");
    reveal_strlit("<!DOCTYPE html>");
    reveal_strlit("<html");
    reveal_strlit(">");
    let out = document_html(page)->Ok_0;
    assert(out.subrange(0, 21) =~= "<!DOCTYPE html><html>"@);
}

/// A page whose language code is `en` renders, when it renders at all, to
/// text in which `<html lang="en">` directly follows the doctype.
pub proof fn lemma_lang_follows_doctype(page: Document)
    requires
        page.lang matches Some(l) && l@ == "en"@,
        document_html(page) is Ok,
    ensures
        document_html(page)->Ok_0.subrange(0, 15) == "<!DOCTYPE html>"@,
        document_html(page)->Ok_0.subrange(15, 31) == "<html lang=\"en\">"@,
{
    reveal_strlit("<!DOCTYPE html>");
    reveal_strlit("<html lang=\"en\">");
    reveal_strlit("<html");
    reveal_strlit(" lang=\"");
    reveal_strlit("en");
    reveal_strlit("\"");
    reveal_strlit(">");
    let out = document_html(page)->Ok_0;
    assert(out.subrange(0, 15) =~= "<!DOCTYPE html>"@);
    assert(out.subrange(15, 31) =~= "<html lang=\"en\">"@);
}

/// A childless element without attributes whose tag is self-closing and
/// void renders as `<name>`: no slash and no closing tag.
pub proof fn lemma_void_element_renders_bare(e: Element)
    requires
        e.tag.spec_self_closing(),
        e.tag.spec_void(),
        e.attributes@.len() == 0,
        e.children@.len() == 0,
    ensures
        element_html(e) == Some("<"@ + e.tag.spec_name() + ">"@),
{
    assert(attributes_html(e.attributes@) =~= Seq::<char>::empty());
    assert("<"@ + e.tag.spec_name() + Seq::<char>::empty() + ">"@ =~= "<"@ + e.tag.spec_name()
        + ">"@);
}

/// An element without attributes whose tag allows children and whose only
/// child is a text renders as `<name>text</name>`.
pub proof fn lemma_single_text_child(e: Element, text: String)
    requires
        !e.tag.spec_self_closing(),
        e.attributes@.len() == 0,
        e.children@ == seq![Node::Text(text)],
    ensures
        element_html(e) == Some(
            "<"@ + e.tag.spec_name() + ">"@ + text@ + "</"@ + e.tag.spec_name() + ">"@,
        ),
{
    let ns = e.children@;
    assert(ns.subrange(0, 0) =~= Seq::<Node>::empty());
    assert(nodes_html(ns) == Some(Seq::<char>::empty() + text@));
    assert(Seq::<char>::empty() + text@ =~= text@);
    assert(attributes_html(e.attributes@) =~= Seq::<char>::empty());
    assert("<"@ + e.tag.spec_name() + Seq::<char>::empty() =~= "<"@ + e.tag.spec_name());
}

/// Attributes render in list order: the rendering of two lists one after
/// the other is the rendering of the first followed by that of the second.
pub proof fn lemma_attributes_concat(first: Seq<Attribute>, second: Seq<Attribute>)
    ensures
        attributes_html(first + second) == attributes_html(first) + attributes_html(second),
    decreases second.len(),
{
    if second.len() == 0 {
        assert(first + second =~= first);
        assert(attributes_html(first) + Seq::<char>::empty() =~= attributes_html(first));
    } else {
        let init = second.drop_last();
        assert((first + second).drop_last() =~= first + init);
        assert((first + second).last() == second.last());
        lemma_attributes_concat(first, init);
        assert(attributes_html(first) + attributes_html(init) + attribute_html(second.last())
            =~= attributes_html(first) + (attributes_html(init) + attribute_html(second.last())));
    }
}

/// Two attributes render as ` a="1" b="2"`: one leading space, one space
/// between the pairs, none after them.
pub proof fn lemma_two_attributes(a: Attribute, b: Attribute)
    ensures
        attributes_html(seq![a, b]) == " "@ + a.name@ + "=\""@ + a.value@ + "\""@ + " "@ + b.name@
            + "=\""@ + b.value@ + "\""@,
{
    let s = seq![a, b];
    assert(s.drop_last() =~= seq![a]);
    assert(seq![a].drop_last() =~= Seq::<Attribute>::empty());
    assert(seq![a].last() == a);
    assert(attributes_html(Seq::<Attribute>::empty()) == Seq::<char>::empty());
    assert(Seq::<char>::empty() + attribute_html(a) =~= attribute_html(a));
    assert(attributes_html(seq![a]) =~= attribute_html(a));
    assert(attributes_html(s) =~= " "@ + a.name@ + "=\""@ + a.value@ + "\""@ + " "@ + b.name@
        + "=\""@ + b.value@ + "\""@);
}

/// No nodes render to nothing, and no attributes render to nothing.
pub proof fn lemma_empty_renders_empty()
    ensures
        nodes_html(Seq::<Node>::empty()) == Some(Seq::<char>::empty()),
        attributes_html(Seq::<Attribute>::empty()) == Seq::<char>::empty(),
{
}

/// A page whose `head` carries attributes is refused as a whole with the
/// structural-attributes error, whatever its content; no text comes out.
pub proof fn lemma_head_attributes_refused(page: Document)
    requires
        page.head.attributes@.len() > 0,
    ensures
        document_html(page) == Err::<Seq<char>, RenderError>(
            RenderError::InvalidStructuralAttributes,
        ),
{
}

/// A well-formed page is refused only where an element inside it has a
/// self-closing tag and children; where none has, it renders.
pub proof fn lemma_well_formed_page_renders(page: Document)
    requires
        page.wf(),
    ensures
        document_html(page) is Ok <==> (nodes_html(page.head.children@) is Some && nodes_html(
            page.body.children@,
        ) is Some),
        document_html(page) is Err ==> document_html(page) == Err::<Seq<char>, RenderError>(
            RenderError::SelfClosingTagHasChildren,
        ),
{
}

/// A `br` element with a child cannot be rendered, nor can any tree or page
/// body that holds it.
pub proof fn lemma_br_with_child_refused(e: Element)
    requires
        e.tag == Tag::Br,
        e.children@.len() == 1,
    ensures
        element_html(e) is None,
        nodes_html(seq![Node::Element(e)]) is None,
{
    let s = seq![Node::Element(e)];
    assert(s.len() == 1);
    assert(s[0] == Node::Element(e));
    assert(node_html(s[0]) is None);
}

/// Whether `pat` occurs in `s` starting at position `p`.
pub open spec fn occurs_at(s: Seq<char>, pat: Seq<char>, p: int) -> bool {
    0 <= p && p + pat.len() <= s.len() && s.subrange(p, p + pat.len()) == pat
}

/// Whether `pat` occurs anywhere in `s`.
pub open spec fn occurs_in(s: Seq<char>, pat: Seq<char>) -> bool {
    exists|p: int| occurs_at(s, pat, p)
}

/// Inside an occurrence of a pattern whose only `<` is its first character,
/// no later position holds a `<`.
proof fn lemma_no_inner_open(s: Seq<char>, pat: Seq<char>, p: int, q: int)
    requires
        occurs_at(s, pat, p),
        p < q < p + pat.len(),
        forall|k: int| 0 < k < pat.len() ==> pat[k] != '<',
    ensures
        s[q] != '<',
{
    assert(s.subrange(p, p + pat.len())[q - p] == s[q]);
}

/// A page whose language code is `en` renders, when it renders at all, to
/// text holding `<html lang="en">` exactly once, directly after the doctype,
/// provided that the rendered `head` and `body` content does not itself hold
/// that text (text is written verbatim, so it may).
pub proof fn lemma_lang_tag_appears_once(page: Document)
    requires
        page.lang matches Some(l) && l@ == "en"@,
        document_html(page) is Ok,
        !occurs_in(nodes_html(page.head.children@)->Some_0, "<html lang=\"en\">"@),
        !occurs_in(nodes_html(page.body.children@)->Some_0, "<html lang=\"en\">"@),
    ensures
        forall|p: int|
            occurs_at(document_html(page)->Ok_0, "<html lang=\"en\">"@, p) <==> p == 15,
{
    let pat = "<html lang=\"en\">"@;
    let a = "<!DOCTYPE html><html lang=\"en\"><head>"@;
    let m = "</head><body>"@;
    let c = "</body></html>"@;
    reveal_strlit("<html lang=\"en\">");
    reveal_strlit("<!DOCTYPE html><html lang=\"en\"><head>");
    reveal_strlit("</head><body>");
    reveal_strlit("</body></html>");
    reveal_strlit("<!DOCTYPE html>");
    reveal_strlit("<html");
    reveal_strlit(" lang=\"");
    reveal_strlit("en");
    reveal_strlit("\"");
    reveal_strlit(">");
    reveal_strlit("<head>");
    reveal_strlit("</head>");
    reveal_strlit("<body>");
    reveal_strlit("</body>");
    reveal_strlit("</html>");
    let h = nodes_html(page.head.children@)->Some_0;
    let b = nodes_html(page.body.children@)->Some_0;
    let out = document_html(page)->Ok_0;
    assert(out =~= a + h + m + b + c);
    let e1: int = 37 + h.len() as int;
    let s2: int = e1 + 13;
    let e2: int = s2 + b.len() as int;
    assert(out.len() == e2 + 14);
    assert(forall|k: int| 0 < k < pat.len() ==> pat[k] != '<');
    assert(occurs_at(out, pat, 15)) by {
        assert(out.subrange(15, 31) =~= pat);
    }
    assert forall|p: int| occurs_at(out, pat, p) implies p == 15 by {
        let w = out.subrange(p, p + 16);
        assert(w[0] == out[p]);
        assert(w[1] == out[p + 1]);
        assert(w[2] == out[p + 2]);
        if p < 15 {
            assert(out[15] == '<');
            lemma_no_inner_open(out, pat, p, 15);
        } else if 15 < p < 31 {
            assert(out[31] == '<');
            lemma_no_inner_open(out, pat, p, 31);
        } else if 31 <= p < 37 {
            assert(out[p] == a[p]);
            assert(out[p + 2] == a[p + 2]);
        } else if 37 <= p < e1 {
            if p + 16 <= e1 {
                assert(h.subrange(p - 37, p - 37 + 16) =~= w);
                assert(occurs_at(h, pat, p - 37));
            } else {
                assert(out[e1] == m[0]);
                lemma_no_inner_open(out, pat, p, e1);
            }
        } else if e1 <= p < s2 {
            assert(out[p] == m[p - e1]);
            assert(out[p + 1] == m[p + 1 - e1]);
        } else if s2 <= p < e2 {
            if p + 16 <= e2 {
                assert(b.subrange(p - s2, p - s2 + 16) =~= w);
                assert(occurs_at(b, pat, p - s2));
            } else {
                assert(out[e2] == c[0]);
                lemma_no_inner_open(out, pat, p, e2);
            }
        }
    }
}

} // verus!
