//! Processors for single elements: code, footnotes, headings and images.

pub mod code;
pub mod footnotes;
pub mod headings;
pub mod images;

use crate::error::TrekError;
use crate::markup::{
    attribute_list, attribute_names, recorded_edits, remove_attribute, rewrite_document,
    rewritten, string_texts, Edit, ElementHandle, EngineFailure,
};
use crate::rewrite::{element_selector_texts, pass_selectors, RewritePass};
use crate::text::{str_eq, texts};
use vstd::prelude::*;

verus! {

/// A processor for one kind of element.
pub trait ElementProcessor {
    /// Processes an element.
    fn process(element: &mut ElementHandle);

    /// Whether this processor is meant for the element.
    fn can_process(element: &ElementHandle) -> bool;
}

/// `name` is one of `kept`.
pub open spec fn is_kept(name: Seq<char>, kept: Seq<Seq<char>>) -> bool {
    exists|i: int| 0 <= i < kept.len() && #[trigger] kept[i] == name
}

/// The removal of every one of `names` that is not one of `kept`, in order.
pub open spec fn removals(names: Seq<Seq<char>>, kept: Seq<Seq<char>>) -> Seq<Edit>
    decreases names.len(),
{
    if names.len() == 0 {
        Seq::empty()
    } else {
        let before = removals(names.drop_last(), kept);
        if is_kept(names.last(), kept) {
            before
        } else {
            before.push(Edit::RemoveAttribute(names.last()))
        }
    }
}

/// Whether `name` is one of `kept`.
fn name_is_kept(name: &str, kept: &Vec<&'static str>) -> (r: bool)
    ensures
        r == is_kept(name@, texts(kept@)),
{
    let mut i: usize = 0;
    while i < kept.len()
        invariant
            i <= kept@.len(),
            forall|j: int| 0 <= j < i ==> #[trigger] texts(kept@)[j] != name@,
        decreases kept@.len() - i,
    {
        assert(texts(kept@)[i as int] == kept@[i as int]@);
        if str_eq(kept[i], name) {
            return true;
        }
        i += 1;
    }
    false
}

/// Asks for every attribute of the element to go that is not one of `kept`.
pub(crate) fn remove_other_attributes(el: &mut ElementHandle, kept: &Vec<&'static str>)
    ensures
        recorded_edits(final(el)) == recorded_edits(old(el)) + removals(
            attribute_list(old(el)),
            texts(kept@),
        ),
{
    let names = attribute_names(el);
    let ghost all = string_texts(names@);
    let ghost start = recorded_edits(el);
    let mut i: usize = 0;
    proof {
        assert(all.take(0) =~= Seq::<Seq<char>>::empty());
        assert(start + Seq::<Edit>::empty() =~= start);
    }
    while i < names.len()
        invariant
            i <= names@.len(),
            all == string_texts(names@),
            recorded_edits(el) == start + removals(all.take(i as int), texts(kept@)),
        decreases names@.len() - i,
    {
        proof {
            assert(all.take(i + 1).drop_last() =~= all.take(i as int));
            assert(all.take(i + 1).last() == names@[i as int]@);
        }
        if !name_is_kept(names[i].as_str(), kept) {
            remove_attribute(el, names[i].as_str());
            proof {
                assert(recorded_edits(el) =~= start + removals(all.take(i + 1), texts(kept@)));
            }
        }
        i += 1;
    }
    proof {
        assert(all.take(names@.len() as int) =~= all);
    }
}

/// A fragment after element tidying, or why the engine did not get
/// through it.
pub open spec fn elements_processed(html: Seq<char>) -> Result<Seq<char>, EngineFailure> {
    rewritten(html, element_selector_texts(), RewritePass::ProcessElements)
}

/// Tidies a fragment element by element: images by `process_image`,
/// headings by `standardize_heading`, code by `process_code_element`, and
/// every element by `process_footnote`. Fails exactly when the engine does,
/// with the error that reports its failure.
pub fn process_elements(html: &str) -> (r: Result<String, TrekError>)
    ensures
        r is Ok <==> elements_processed(html@) is Ok,
        r is Ok ==> r->Ok_0@ == elements_processed(html@)->Ok_0,
        r is Err ==> elements_processed(html@)->Err_0.is_reported_by(r->Err_0),
{
    let selectors = pass_selectors(RewritePass::ProcessElements);
    rewrite_document(html, &selectors, RewritePass::ProcessElements)
}

} // verus!
