//! Code blocks.

use crate::elements::{remove_other_attributes, removals};
use crate::markup::{
    attribute, attribute_list, attribute_values, element_tag, recorded_edits, set_attribute,
    tag_name, Edit, ElementHandle,
};
use crate::text::{has_token_prefix, str_eq, str_has_token_prefix, texts};
use vstd::prelude::*;

verus! {

/// The tag is `pre` or `code`.
pub open spec fn is_code_tag(tag: Seq<char>) -> bool {
    tag == "pre"@ || tag == "code"@
}

/// One of the classes names a language.
pub open spec fn names_language(class: Seq<char>) -> bool {
    has_token_prefix(class, "language-"@)
}

/// What is asked for a code element: every attribute but `class` goes, and
/// a `class` that names a language is set again.
pub open spec fn code_edits(
    tag: Seq<char>,
    attributes: Map<Seq<char>, Seq<char>>,
    names: Seq<Seq<char>>,
) -> Seq<Edit> {
    if is_code_tag(tag) {
        removals(names, seq!["class"@]) + (if attributes.dom().contains("class"@) && names_language(
            attributes["class"@],
        ) {
            seq![Edit::SetAttribute("class"@, attributes["class"@])]
        } else {
            Seq::empty()
        })
    } else {
        Seq::empty()
    }
}

/// Strips a `pre` or `code` element of every attribute but the `class` that
/// names its language.
pub fn process_code_element(el: &mut ElementHandle)
    ensures
        recorded_edits(final(el)) == recorded_edits(old(el)) + code_edits(
            element_tag(old(el)),
            attribute_values(old(el)),
            attribute_list(old(el)),
        ),
{
    let tag = tag_name(el);
    if str_eq(tag.as_str(), "pre") || str_eq(tag.as_str(), "code") {
        let class_value = attribute(el, "class");
        let kept = vec!["class"];
        proof {
            assert(texts(kept@) =~= seq!["class"@]);
        }
        remove_other_attributes(el, &kept);
        let ghost removed = recorded_edits(el);
        if let Some(class) = class_value {
            if str_has_token_prefix(class.as_str(), "language-") {
                set_attribute(el, "class", class.as_str());
                proof {
                    assert(recorded_edits(el) =~= recorded_edits(old(el)) + code_edits(
                        element_tag(old(el)),
                        attribute_values(old(el)),
                        attribute_list(old(el)),
                    ));
                }
                return ;
            }
        }
        proof {
            assert(removed + Seq::<Edit>::empty() =~= removed);
        }
    } else {
        proof {
            assert(recorded_edits(el) + Seq::<Edit>::empty() =~= recorded_edits(el));
        }
    }
}

/// Reserved for bringing code blocks into one form; for now the text comes
/// back as it is.
pub fn standardize_code_block(html: &str) -> (r: String)
    ensures
        r@ == html@,
{
    html.to_owned()
}

} // verus!
