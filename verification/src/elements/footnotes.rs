//! Footnotes.

use crate::markup::{
    attribute, attribute_values, element_tag, recorded_edits, set_attribute, tag_name, Edit,
    ElementHandle,
};
use crate::text::{contains, starts_with, str_contains, str_eq, str_starts_with};
use vstd::prelude::*;

verus! {

/// The address points at a footnote.
pub open spec fn is_footnote_address(href: Seq<char>) -> bool {
    starts_with(href, "#fn"@) || starts_with(href, "#cite"@) || starts_with(href, "#reference"@)
        || starts_with(href, "#footnote"@)
}

/// The class speaks of a footnote.
pub open spec fn is_footnote_class(class: Seq<char>) -> bool {
    contains(class, "footnote"@) || contains(class, "reference"@) || contains(class, "citation"@)
}

/// The class or id speaks of a list of footnotes.
pub open spec fn names_footnote_list(value: Seq<char>) -> bool {
    contains(value, "footnotes"@) || contains(value, "references"@) || contains(
        value,
        "citations"@,
    ) || contains(value, "endnotes"@)
}

/// An element with this tag and these attributes refers to a footnote: a
/// link to a footnote address, or anything with a footnote class.
pub open spec fn refers_to_footnote(tag: Seq<char>, attributes: Map<Seq<char>, Seq<char>>) -> bool {
    (tag == "a"@ && attributes.dom().contains("href"@) && is_footnote_address(attributes["href"@]))
        || (attributes.dom().contains("class"@) && is_footnote_class(attributes["class"@]))
}

/// An element with this tag and these attributes is a list of footnotes: an
/// `ol`, `ul` or `div` whose class or id says so.
pub open spec fn lists_footnotes(tag: Seq<char>, attributes: Map<Seq<char>, Seq<char>>) -> bool {
    (tag == "ol"@ || tag == "ul"@ || tag == "div"@) && ((attributes.dom().contains("class"@)
        && names_footnote_list(attributes["class"@])) || (attributes.dom().contains("id"@)
        && names_footnote_list(attributes["id"@])))
}

/// What is asked for an element: a mark for a footnote reference, a mark
/// for a footnote list.
pub open spec fn footnote_edits(tag: Seq<char>, attributes: Map<Seq<char>, Seq<char>>) -> Seq<Edit> {
    (if refers_to_footnote(tag, attributes) {
        seq![Edit::SetAttribute("data-footnote"@, "true"@)]
    } else {
        Seq::empty()
    }) + (if lists_footnotes(tag, attributes) {
        seq![Edit::SetAttribute("data-footnote-list"@, "true"@)]
    } else {
        Seq::empty()
    })
}

/// Whether `value` speaks of a list of footnotes.
fn is_list_name(value: &str) -> (r: bool)
    ensures
        r == names_footnote_list(value@),
{
    str_contains(value, "footnotes") || str_contains(value, "references") || str_contains(
        value,
        "citations",
    ) || str_contains(value, "endnotes")
}

/// Whether the element refers to a footnote.
pub fn is_footnote_reference(element: &ElementHandle) -> (r: bool)
    ensures
        r == refers_to_footnote(element_tag(element), attribute_values(element)),
{
    if str_eq(tag_name(element).as_str(), "a") {
        if let Some(href) = attribute(element, "href") {
            let h = href.as_str();
            if str_starts_with(h, "#fn") || str_starts_with(h, "#cite") || str_starts_with(
                h,
                "#reference",
            ) || str_starts_with(h, "#footnote") {
                return true;
            }
        }
    }
    if let Some(class) = attribute(element, "class") {
        let c = class.as_str();
        if str_contains(c, "footnote") || str_contains(c, "reference") || str_contains(
            c,
            "citation",
        ) {
            return true;
        }
    }
    false
}

/// Whether the element is a list of footnotes.
pub fn is_footnote_list(element: &ElementHandle) -> (r: bool)
    ensures
        r == lists_footnotes(element_tag(element), attribute_values(element)),
{
    let tag = tag_name(element);
    let t = tag.as_str();
    if str_eq(t, "ol") || str_eq(t, "ul") || str_eq(t, "div") {
        if let Some(class) = attribute(element, "class") {
            if is_list_name(class.as_str()) {
                return true;
            }
        }
        if let Some(id) = attribute(element, "id") {
            if is_list_name(id.as_str()) {
                return true;
            }
        }
    }
    false
}

/// Marks footnote references and footnote lists.
pub fn process_footnote(el: &mut ElementHandle)
    ensures
        recorded_edits(final(el)) == recorded_edits(old(el)) + footnote_edits(
            element_tag(old(el)),
            attribute_values(old(el)),
        ),
{
    let reference = is_footnote_reference(el);
    let list = is_footnote_list(el);
    if reference {
        set_attribute(el, "data-footnote", "true");
    }
    if list {
        set_attribute(el, "data-footnote-list", "true");
    }
    proof {
        assert(recorded_edits(el) =~= recorded_edits(old(el)) + footnote_edits(
            element_tag(old(el)),
            attribute_values(old(el)),
        ));
    }
}

} // verus!
