//! The rules by which elements are removed or unwrapped.
//!
//! A pass over a document has a list of selectors; for each element that
//! selector number `rule` matches, `apply_rule` decides from the element's
//! attributes what is asked of the engine.

use crate::constants::{
    partial_selector_patterns, partial_selectors, test_attribute_names, test_attributes,
};
use crate::elements::code::{code_edits, process_code_element};
use crate::elements::footnotes::{footnote_edits, process_footnote};
use crate::elements::headings::{heading_edits, standardize_heading};
use crate::elements::images::{image_edits, process_image};
use crate::markup::{
    attribute, attribute_list, attribute_values, element_tag, insert_after, insert_before,
    recorded_edits, remove_element, unwrap_element, Edit, ElementHandle,
};
use crate::text::{
    contains, contains_any, has_token, lowercase, str_contains, str_contains_any, str_has_token,
    texts, to_lowercase,
};
use vstd::prelude::*;

verus! {

/// Stands in front of an element that is to go.
pub const REMOVE_OPEN: &'static str = "<!--REMOVE-->";

/// Stands behind an element that is to go.
pub const REMOVE_CLOSE: &'static str = "<!--/REMOVE-->";

/// One pass that changes a document.
#[derive(Debug, Clone, Copy, PartialEq, Eq, Structural)]
pub enum RewritePass {
    /// Clutter removal, with its two tiers switched on or off.
    RemoveClutter { exact: bool, partial: bool },
    /// Replacing wrapper elements by their content.
    FlattenWrappers,
    /// Dropping elements whose content is no text for a reader.
    DropSkipped,
    /// Tidying images, headings, code and footnotes, element by element.
    ProcessElements,
}

/// The selectors of clutter removal: the tags that always go, and the tags
/// that go by their attributes.
pub open spec fn clutter_selector_texts() -> Seq<Seq<char>> {
    seq![
        "script, style, nav, footer, header, aside, noscript"@,
        "div, section, article, main, span, p, ul, ol, li, h1, h2, h3, h4, h5, h6"@,
    ]
}

/// The selector of wrapper flattening.
pub open spec fn wrapper_selector_texts() -> Seq<Seq<char>> {
    seq!["div"@]
}

/// The selector of the elements dropped before text is read.
pub open spec fn skipped_selector_texts() -> Seq<Seq<char>> {
    seq!["script, style, noscript"@]
}

/// The selectors of element tidying: images, headings, code, and every
/// element for the sake of footnotes.
pub open spec fn element_selector_texts() -> Seq<Seq<char>> {
    seq!["img"@, "h1, h2, h3, h4, h5, h6"@, "pre, code"@, "*"@]
}

/// The selectors of a pass.
pub open spec fn pass_selector_texts(pass: RewritePass) -> Seq<Seq<char>> {
    match pass {
        RewritePass::RemoveClutter { .. } => clutter_selector_texts(),
        RewritePass::FlattenWrappers => wrapper_selector_texts(),
        RewritePass::DropSkipped => skipped_selector_texts(),
        RewritePass::ProcessElements => element_selector_texts(),
    }
}

/// The selectors of a pass.
pub fn pass_selectors(pass: RewritePass) -> (r: Vec<&'static str>)
    ensures
        texts(r@) == pass_selector_texts(pass),
{
    let r = match pass {
        RewritePass::RemoveClutter { .. } => vec![
            "script, style, nav, footer, header, aside, noscript",
            "div, section, article, main, span, p, ul, ol, li, h1, h2, h3, h4, h5, h6",
        ],
        RewritePass::FlattenWrappers => vec!["div"],
        RewritePass::DropSkipped => vec!["script, style, noscript"],
        RewritePass::ProcessElements => vec!["img", "h1, h2, h3, h4, h5, h6", "pre, code", "*"],
    };
    assert(texts(r@) =~= pass_selector_texts(pass));
    r
}

/// The `class` attribute names the element as navigation or as a sidebar.
pub open spec fn has_clutter_class(attributes: Map<Seq<char>, Seq<char>>) -> bool {
    attributes.dom().contains("class"@) && (has_token(attributes["class"@], "navigation"@)
        || has_token(attributes["class"@], "sidebar"@))
}

/// The test attribute `name` is there and, in lower case, contains a noise
/// pattern.
pub open spec fn is_noise_attribute(attributes: Map<Seq<char>, Seq<char>>, name: Seq<char>) -> bool {
    attributes.dom().contains(name) && contains_any(
        lowercase(attributes[name]),
        partial_selector_patterns(),
    )
}

/// One of the test attributes holds a noise pattern.
pub open spec fn has_noise_attribute(attributes: Map<Seq<char>, Seq<char>>) -> bool {
    exists|i: int|
        0 <= i < test_attribute_names().len() && is_noise_attribute(
            attributes,
            #[trigger] test_attribute_names()[i],
        )
}

/// An element with these attributes, of one of the tags that go by their
/// attributes, is clutter.
pub open spec fn is_clutter(attributes: Map<Seq<char>, Seq<char>>, exact: bool, partial: bool) -> bool {
    (exact && has_clutter_class(attributes)) || (partial && has_noise_attribute(attributes))
}

/// The `class` attribute, in lower case, speaks of content that a `div`
/// must keep.
pub open spec fn is_semantic_class(class: Seq<char>) -> bool {
    let lower = lowercase(class);
    contains(lower, "article"@) || contains(lower, "content"@) || contains(lower, "footnote"@)
        || contains(lower, "reference"@) || contains(lower, "bibliography"@)
}

/// A `div` with these attributes carries no meaning of its own: it has no
/// `role`, `aria-label` or `itemscope`, and no semantic class.
pub open spec fn is_wrapper(attributes: Map<Seq<char>, Seq<char>>) -> bool {
    !attributes.dom().contains("role"@) && !attributes.dom().contains("aria-label"@)
        && !attributes.dom().contains("itemscope"@) && !(attributes.dom().contains("class"@)
        && is_semantic_class(attributes["class"@]))
}

/// What is asked for an element that goes: a marker before it, a marker
/// after it, and its removal.
pub open spec fn removal_edits() -> Seq<Edit> {
    seq![Edit::Before(REMOVE_OPEN@), Edit::After(REMOVE_CLOSE@), Edit::Remove]
}

/// What a pass asks for an element that its selector number `rule`
/// matches, given the element's tag, its attributes and their names in
/// order.
pub open spec fn planned_edits(
    pass: RewritePass,
    rule: usize,
    tag: Seq<char>,
    attributes: Map<Seq<char>, Seq<char>>,
    names: Seq<Seq<char>>,
) -> Seq<Edit> {
    match pass {
        RewritePass::RemoveClutter { exact, partial } => {
            if rule == 0 {
                if exact {
                    removal_edits()
                } else {
                    Seq::empty()
                }
            } else if is_clutter(attributes, exact, partial) {
                removal_edits()
            } else {
                Seq::empty()
            }
        },
        RewritePass::FlattenWrappers => {
            if is_wrapper(attributes) {
                seq![Edit::Unwrap]
            } else {
                Seq::empty()
            }
        },
        RewritePass::DropSkipped => seq![Edit::Remove],
        RewritePass::ProcessElements => {
            if rule == 0 {
                image_edits(tag, attributes, names)
            } else if rule == 1 {
                heading_edits(tag, names)
            } else if rule == 2 {
                code_edits(tag, attributes, names)
            } else {
                footnote_edits(tag, attributes)
            }
        },
    }
}

/// A `div` without `role`, `aria-label`, `itemscope` and `class` is a
/// wrapper at every depth of nesting, and the flattening pass asks for its
/// tags to go and for nothing else.
pub proof fn lemma_plain_div_is_unwrapped(
    rule: usize,
    tag: Seq<char>,
    attributes: Map<Seq<char>, Seq<char>>,
    names: Seq<Seq<char>>,
)
    requires
        !attributes.dom().contains("role"@),
        !attributes.dom().contains("aria-label"@),
        !attributes.dom().contains("itemscope"@),
        !attributes.dom().contains("class"@),
    ensures
        is_wrapper(attributes),
        planned_edits(RewritePass::FlattenWrappers, rule, tag, attributes, names) == seq![
            Edit::Unwrap,
        ],
{
}

/// Whether the element's `class` names it as navigation or as a sidebar.
fn element_has_clutter_class(el: &ElementHandle) -> (r: bool)
    ensures
        r == has_clutter_class(attribute_values(el)),
{
    match attribute(el, "class") {
        Some(class) => str_has_token(class.as_str(), "navigation") || str_has_token(
            class.as_str(),
            "sidebar",
        ),
        None => false,
    }
}

/// Whether one of the element's test attributes holds a noise pattern.
fn element_has_noise_attribute(el: &ElementHandle) -> (r: bool)
    ensures
        r == has_noise_attribute(attribute_values(el)),
{
    let names = test_attributes();
    let patterns = partial_selectors();
    let mut i: usize = 0;
    while i < names.len()
        invariant
            i <= names@.len(),
            texts(names@) == test_attribute_names(),
            texts(patterns@) == partial_selector_patterns(),
            forall|j: int|
                0 <= j < i ==> !is_noise_attribute(
                    attribute_values(el),
                    #[trigger] test_attribute_names()[j],
                ),
        decreases names@.len() - i,
    {
        assert(texts(names@)[i as int] == names@[i as int]@);
        if let Some(value) = attribute(el, names[i]) {
            let lower = to_lowercase(value.as_str());
            if str_contains_any(lower.as_str(), &patterns) {
                assert(is_noise_attribute(attribute_values(el), test_attribute_names()[i as int]));
                return true;
            }
        }
        i += 1;
    }
    false
}

/// Whether the element, a `div`, carries no meaning of its own.
fn element_is_wrapper(el: &ElementHandle) -> (r: bool)
    ensures
        r == is_wrapper(attribute_values(el)),
{
    if attribute(el, "role").is_some() || attribute(el, "aria-label").is_some() || attribute(
        el,
        "itemscope",
    ).is_some() {
        return false;
    }
    match attribute(el, "class") {
        Some(class) => {
            let lower = to_lowercase(class.as_str());
            let l = lower.as_str();
            !(str_contains(l, "article") || str_contains(l, "content") || str_contains(
                l,
                "footnote",
            ) || str_contains(l, "reference") || str_contains(l, "bibliography"))
        },
        None => true,
    }
}

/// Asks for the element to go, between the two markers.
fn mark_for_removal(el: &mut ElementHandle)
    ensures
        recorded_edits(final(el)) == recorded_edits(old(el)) + removal_edits(),
        attribute_values(final(el)) == attribute_values(old(el)),
{
    insert_before(el, REMOVE_OPEN);
    insert_after(el, REMOVE_CLOSE);
    remove_element(el);
    assert(recorded_edits(el) =~= recorded_edits(old(el)) + removal_edits());
}

/// Handles one element that selector number `rule` of `pass` matches: asks
/// the engine for exactly the edits that `planned_edits` names.
pub(crate) fn apply_rule(pass: RewritePass, rule: usize, el: &mut ElementHandle)
    ensures
        recorded_edits(final(el)) == recorded_edits(old(el)) + planned_edits(
            pass,
            rule,
            element_tag(old(el)),
            attribute_values(old(el)),
            attribute_list(old(el)),
        ),
{
    match pass {
        RewritePass::RemoveClutter { exact, partial } => {
            let remove = if rule == 0 {
                exact
            } else {
                (exact && element_has_clutter_class(el)) || (partial
                    && element_has_noise_attribute(el))
            };
            if remove {
                mark_for_removal(el);
            } else {
                assert(recorded_edits(el) =~= recorded_edits(el) + Seq::<Edit>::empty());
            }
        },
        RewritePass::FlattenWrappers => {
            if element_is_wrapper(el) {
                unwrap_element(el);
                assert(recorded_edits(el) =~= recorded_edits(old(el)) + seq![Edit::Unwrap]);
            } else {
                assert(recorded_edits(el) =~= recorded_edits(el) + Seq::<Edit>::empty());
            }
        },
        RewritePass::DropSkipped => {
            remove_element(el);
            assert(recorded_edits(el) =~= recorded_edits(old(el)) + seq![Edit::Remove]);
        },
        RewritePass::ProcessElements => {
            if rule == 0 {
                process_image(el);
            } else if rule == 1 {
                standardize_heading(el);
            } else if rule == 2 {
                process_code_element(el);
            } else {
                process_footnote(el);
            }
        },
    }
}

} // verus!
