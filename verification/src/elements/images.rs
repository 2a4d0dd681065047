//! Images.

use crate::elements::{remove_other_attributes, removals};
use crate::markup::{
    attribute, attribute_list, attribute_values, element_tag, recorded_edits, remove_element,
    set_attribute, tag_name, Edit, ElementHandle,
};
use crate::text::{contains, parse_u32, parsed_u32, str_contains, str_eq, texts};
use crate::types::optional_text;
use vstd::prelude::*;

verus! {

/// An image with a declared width or height below this goes.
pub const MIN_DIMENSION: u32 = 50;

/// The number that an attribute declares; `fallback` where the attribute is
/// missing or is no number.
pub open spec fn dimension_or(value: Option<Seq<char>>, fallback: u32) -> u32 {
    match value {
        Some(t) => match parsed_u32(t) {
            Some(n) => n,
            None => fallback,
        },
        None => fallback,
    }
}

/// The value of an attribute, if the element has it.
pub open spec fn value_of(attributes: Map<Seq<char>, Seq<char>>, name: Seq<char>) -> Option<
    Seq<char>,
> {
    if attributes.dom().contains(name) {
        Some(attributes[name])
    } else {
        None
    }
}

/// An image of the given declared size is worth keeping: neither side is
/// declared below 50. Anything but an image is kept.
pub open spec fn is_preserved(tag: Seq<char>, width: Option<Seq<char>>, height: Option<Seq<char>>) -> bool {
    tag != "img"@ || (dimension_or(width, 100) >= MIN_DIMENSION && dimension_or(height, 100)
        >= MIN_DIMENSION)
}

/// One side of the image is declared, above zero and below 50.
pub open spec fn is_small(attributes: Map<Seq<char>, Seq<char>>) -> bool {
    let width = dimension_or(value_of(attributes, "width"@), 0);
    let height = dimension_or(value_of(attributes, "height"@), 0);
    (0 < width < MIN_DIMENSION) || (0 < height < MIN_DIMENSION)
}

/// The address is that of a tracking pixel.
pub open spec fn is_tracker(src: Seq<char>) -> bool {
    contains(src, "pixel"@) || contains(src, "tracking"@) || contains(src, "analytics"@)
        || contains(src, "1x1"@)
}

/// The attributes that an image keeps.
pub open spec fn image_attribute_names() -> Seq<Seq<char>> {
    seq!["src"@, "alt"@, "width"@, "height"@, "srcset"@]
}

/// What is asked for an image: a small image and a tracking pixel go; any
/// other image loses every attribute but the five it keeps and gets an empty
/// `alt` where it has none.
pub open spec fn image_edits(
    tag: Seq<char>,
    attributes: Map<Seq<char>, Seq<char>>,
    names: Seq<Seq<char>>,
) -> Seq<Edit> {
    if tag != "img"@ {
        Seq::empty()
    } else if is_small(attributes) || (attributes.dom().contains("src"@) && is_tracker(
        attributes["src"@],
    )) {
        seq![Edit::Remove]
    } else {
        removals(names, image_attribute_names()) + (if attributes.dom().contains("alt"@) {
            Seq::empty()
        } else {
            seq![Edit::SetAttribute("alt"@, ""@)]
        })
    }
}

/// The number that an attribute declares, or `fallback`.
fn dimension(value: &Option<String>, fallback: u32) -> (r: u32)
    ensures
        r == dimension_or(optional_text(*value), fallback),
{
    match value {
        Some(t) => match parse_u32(t.as_str()) {
            Some(n) => n,
            None => fallback,
        },
        None => fallback,
    }
}

/// Whether an element of the given tag and declared size is worth
/// keeping.
pub fn should_preserve(tag: &str, width: &Option<String>, height: &Option<String>) -> (r: bool)
    ensures
        r == is_preserved(tag@, optional_text(*width), optional_text(*height)),
{
    if !str_eq(tag, "img") {
        return true;
    }
    dimension(width, 100) >= MIN_DIMENSION && dimension(height, 100) >= MIN_DIMENSION
}

/// Whether the element is worth keeping.
pub fn should_preserve_image(el: &ElementHandle) -> (r: bool)
    ensures
        r == is_preserved(
            element_tag(el),
            value_of(attribute_values(el), "width"@),
            value_of(attribute_values(el), "height"@),
        ),
{
    let tag = tag_name(el);
    let width = attribute(el, "width");
    let height = attribute(el, "height");
    should_preserve(tag.as_str(), &width, &height)
}

/// Removes small images and tracking pixels, and strips the others down to
/// what a reader needs.
pub fn process_image(el: &mut ElementHandle)
    ensures
        recorded_edits(final(el)) == recorded_edits(old(el)) + image_edits(
            element_tag(old(el)),
            attribute_values(old(el)),
            attribute_list(old(el)),
        ),
{
    if !str_eq(tag_name(el).as_str(), "img") {
        proof {
            assert(recorded_edits(el) + Seq::<Edit>::empty() =~= recorded_edits(el));
        }
        return ;
    }
    let width = dimension(&attribute(el, "width"), 0);
    let height = dimension(&attribute(el, "height"), 0);
    let small = (width > 0 && width < MIN_DIMENSION) || (height > 0 && height < MIN_DIMENSION);
    let tracker = match attribute(el, "src") {
        Some(src) => {
            let s = src.as_str();
            str_contains(s, "pixel") || str_contains(s, "tracking") || str_contains(s, "analytics")
                || str_contains(s, "1x1")
        },
        None => false,
    };
    if small || tracker {
        remove_element(el);
        proof {
            assert(recorded_edits(el) =~= recorded_edits(old(el)) + seq![Edit::Remove]);
        }
        return ;
    }
    let has_alt = attribute(el, "alt").is_some();
    let kept = vec!["src", "alt", "width", "height", "srcset"];
    proof {
        assert(texts(kept@) =~= image_attribute_names());
    }
    remove_other_attributes(el, &kept);
    let ghost removed = recorded_edits(el);
    if !has_alt {
        set_attribute(el, "alt", "");
        proof {
            assert(recorded_edits(el) =~= removed + seq![Edit::SetAttribute("alt"@, ""@)]);
        }
    } else {
        proof {
            assert(removed + Seq::<Edit>::empty() =~= removed);
        }
    }
    proof {
        assert(recorded_edits(el) =~= recorded_edits(old(el)) + image_edits(
            element_tag(old(el)),
            attribute_values(old(el)),
            attribute_list(old(el)),
        ));
    }
}

} // verus!
