//! Headings.

use crate::elements::{remove_other_attributes, removals};
use crate::markup::{
    attribute, attribute_list, attribute_values, element_tag, recorded_edits, remove_element,
    tag_name, Edit, ElementHandle,
};
use crate::text::{
    from_chars, lowercase, squeeze_whitespace, squeeze_whitespace_chars, str_eq, texts, to_chars,
    to_lowercase,
};
use vstd::prelude::*;

verus! {

/// The tag is one of `h1` to `h6`.
pub open spec fn is_heading_tag(tag: Seq<char>) -> bool {
    tag == "h1"@ || tag == "h2"@ || tag == "h3"@ || tag == "h4"@ || tag == "h5"@ || tag == "h6"@
}

/// What is asked for a heading: every attribute but `id` and `class` goes.
pub open spec fn heading_edits(tag: Seq<char>, names: Seq<Seq<char>>) -> Seq<Edit> {
    if is_heading_tag(tag) {
        removals(names, seq!["id"@, "class"@])
    } else {
        Seq::empty()
    }
}

/// Strips a heading of every attribute but `id` and `class`.
pub fn standardize_heading(el: &mut ElementHandle)
    ensures
        recorded_edits(final(el)) == recorded_edits(old(el)) + heading_edits(
            element_tag(old(el)),
            attribute_list(old(el)),
        ),
{
    let tag = tag_name(el);
    let t = tag.as_str();
    if str_eq(t, "h1") || str_eq(t, "h2") || str_eq(t, "h3") || str_eq(t, "h4") || str_eq(t, "h5")
        || str_eq(t, "h6") {
        let kept = vec!["id", "class"];
        proof {
            assert(texts(kept@) =~= seq!["id"@, "class"@]);
        }
        remove_other_attributes(el, &kept);
    } else {
        proof {
            assert(recorded_edits(el) + Seq::<Edit>::empty() =~= recorded_edits(el));
        }
    }
}

/// A text as it is compared: its words joined by single spaces, in lower
/// case.
pub open spec fn normalized(text: Seq<char>) -> Seq<char> {
    lowercase(squeeze_whitespace(text))
}

/// The words of a text joined by single spaces, in lower case. A
/// no-break space separates words as any whitespace does.
pub fn normalize_text(text: &str) -> (r: String)
    ensures
        r@ == normalized(text@),
{
    let squeezed = from_chars(&squeeze_whitespace_chars(&to_chars(text)));
    to_lowercase(squeezed.as_str())
}

/// What is asked for a top heading: it goes where its `data-text` says
/// what the title says.
pub open spec fn top_heading_edits(
    tag: Seq<char>,
    attributes: Map<Seq<char>, Seq<char>>,
    title: Seq<char>,
) -> Seq<Edit> {
    if tag == "h1"@ && attributes.dom().contains("data-text"@) && normalized(
        attributes["data-text"@],
    ) == normalized(title) {
        seq![Edit::Remove]
    } else {
        Seq::empty()
    }
}

/// Removes an `h1` that repeats the title.
pub fn process_h1_element(el: &mut ElementHandle, title: &str)
    ensures
        recorded_edits(final(el)) == recorded_edits(old(el)) + top_heading_edits(
            element_tag(old(el)),
            attribute_values(old(el)),
            title@,
        ),
{
    if str_eq(tag_name(el).as_str(), "h1") {
        if let Some(text) = attribute(el, "data-text") {
            let a = normalize_text(text.as_str());
            let b = normalize_text(title);
            if str_eq(a.as_str(), b.as_str()) {
                remove_element(el);
                proof {
                    assert(recorded_edits(el) =~= recorded_edits(old(el)) + seq![Edit::Remove]);
                }
                return ;
            }
        }
    }
    proof {
        assert(recorded_edits(el) + Seq::<Edit>::empty() =~= recorded_edits(el));
    }
}

} // verus!
