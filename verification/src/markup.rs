//! The boundary to the streaming HTML engine, `lol_html`.
//!
//! The engine walks a document once and calls back for each element that a
//! selector matches and for each chunk of text inside such an element. Two
//! uses are made of it. `scan_document` only looks: it returns what the engine
//! reported, as plain events in document order. `rewrite_document` changes the
//! document: for each matched element it calls `apply_rule`, a verified
//! function that decides from the element's attributes which edits to make.

use crate::error::TrekError;
use crate::rewrite::{apply_rule, RewritePass};
use crate::text::texts;
use crate::types::optional_text;
use lol_html::html_content::{ContentType, Element, TextChunk};
use lol_html::{rewrite_str, ElementContentHandlers, RewriteStrSettings, Selector};
use std::borrow::Cow;
use std::cell::RefCell;
use std::fmt::Display;
use vstd::prelude::*;

verus! {

/// The texts of a sequence of optional strings.
pub open spec fn optional_texts(v: Seq<Option<String>>) -> Seq<Option<Seq<char>>> {
    Seq::new(v.len(), |i: int| optional_text(v[i]))
}

/// What the engine reported at one point of its walk.
#[derive(Debug, Clone)]
pub enum ScanEvent {
    /// The start tag of an element that selector number `rule` matches.
    /// `attributes` holds, for each attribute name that was asked for, the
    /// element's value for it.
    Element { rule: usize, attributes: Vec<Option<String>> },
    /// A chunk of text inside an element that selector number `rule`
    /// matches. One text node may arrive as several chunks; `last_in_text_node`
    /// marks the chunk that closes the node.
    Text { rule: usize, text: String, last_in_text_node: bool },
}

/// The mathematical value of a `ScanEvent`.
pub ghost enum Event {
    Element { rule: usize, attributes: Seq<Option<Seq<char>>> },
    Text { rule: usize, text: Seq<char>, last_in_text_node: bool },
}

impl View for ScanEvent {
    type V = Event;

    open spec fn view(&self) -> Event {
        match self {
            ScanEvent::Element { rule, attributes } => Event::Element {
                rule: *rule,
                attributes: optional_texts(attributes@),
            },
            ScanEvent::Text { rule, text, last_in_text_node } => Event::Text {
                rule: *rule,
                text: text@,
                last_in_text_node: *last_in_text_node,
            },
        }
    }
}

/// The values of a sequence of events.
pub open spec fn events_view(events: Seq<ScanEvent>) -> Seq<Event> {
    Seq::new(events.len(), |i: int| events[i]@)
}

/// Why the engine did not finish its work.
#[derive(Debug, Clone, Copy, PartialEq, Eq, Structural)]
pub enum EngineFailure {
    /// It does not accept a selector.
    Selector,
    /// It gave up on the document.
    Document,
}

impl EngineFailure {
    /// The error is the one that reports this failure: `SelectorError` for
    /// a selector, `HtmlParse` for the document.
    pub open spec fn is_reported_by(self, error: TrekError) -> bool {
        match self {
            EngineFailure::Selector => error is SelectorError,
            EngineFailure::Document => error is HtmlParse,
        }
    }
}

/// What one walk of the engine left behind: the events up to the point
/// where it ended, and the error where it ended before the end of the
/// document.
#[derive(Debug, Clone)]
pub struct Walk {
    pub events: Vec<ScanEvent>,
    pub failure: Option<TrekError>,
}

/// The mathematical value of a `Walk`.
pub ghost struct WalkModel {
    pub events: Seq<Event>,
    pub complete: bool,
}

impl View for Walk {
    type V = WalkModel;

    open spec fn view(&self) -> WalkModel {
        WalkModel { events: events_view(self.events@), complete: self.failure is None }
    }
}

/// What one walk of `lol_html::rewrite_str` over `html` leaves behind when
/// each of `selectors` has an element handler that calls `record_element`
/// with `attribute_names` and a text handler that calls `record_text`: the
/// events in document order, and whether the engine reached the end of the
/// document. `None` where the engine rejects a selector.
pub uninterp spec fn document_walk(
    html: Seq<char>,
    selectors: Seq<Seq<char>>,
    attribute_names: Seq<Seq<char>>,
) -> Option<WalkModel>;

/// The events of a walk that reached the end of the document.
pub open spec fn document_events(
    html: Seq<char>,
    selectors: Seq<Seq<char>>,
    attribute_names: Seq<Seq<char>>,
) -> Result<Seq<Event>, EngineFailure> {
    match document_walk(html, selectors, attribute_names) {
        Some(walk) => if walk.complete {
            Ok(walk.events)
        } else {
            Err(EngineFailure::Document)
        },
        None => Err(EngineFailure::Selector),
    }
}

/// One walk of `lol_html::rewrite_str` over `html` that changes nothing:
/// for each selector an element handler that calls `record_element` and a
/// text handler that calls `record_text` with what `TextChunk::as_str` and
/// `TextChunk::last_in_text_node` return. A selector that
/// `Selector::from_str` rejects gives `SelectorError`; a document that the
/// engine gives up on gives the events so far and `HtmlParse`, each error
/// with the engine's message.
#[verifier::external_body]
pub(crate) fn scan_document(
    html: &str,
    selectors: &Vec<&'static str>,
    attribute_names: &Vec<&'static str>,
) -> (r: Result<Walk, TrekError>)
    ensures
        r is Ok <==> document_walk(html@, texts(selectors@), texts(attribute_names@)) is Some,
        r is Ok ==> r->Ok_0@ == document_walk(
            html@,
            texts(selectors@),
            texts(attribute_names@),
        )->0,
        r is Ok && r->Ok_0.failure is Some ==> r->Ok_0.failure->0 is HtmlParse,
        r is Err ==> r->Err_0 is SelectorError,
{
    let events = &RefCell::new(Vec::new());
    let mut settings = RewriteStrSettings::new();
    for (rule, selector) in selectors.iter().enumerate() {
        let handlers = ElementContentHandlers::default()
            .element(move |el: &mut Element| {
                Ok(record_element(&mut events.borrow_mut(), rule, &ElementHandle { inner: el }, attribute_names))
            })
            .text(move |t: &mut TextChunk| {
                Ok(record_text(&mut events.borrow_mut(), rule, t.as_str(), t.last_in_text_node()))
            });
        let selector = Cow::Owned(selector.parse().map_err(selector_error)?);
        settings = settings.append_element_content_handler((selector, handlers));
    }
    let failure = rewrite_str(html, settings).map_err(parse_error).err();
    Ok(Walk { events: events.take(), failure })
}

/// An element that the engine has just matched, open for reading its
/// attributes and for asking the engine to change it.
#[verifier::external_body]
pub struct ElementHandle<'a, 'r, 't> {
    inner: &'a mut Element<'r, 't>,
}

/// One change asked of the engine for an element.
pub ghost enum Edit {
    /// Insert this HTML before the element.
    Before(Seq<char>),
    /// Insert this HTML after the element.
    After(Seq<char>),
    /// Remove the element with its content.
    Remove,
    /// Remove the element's tags and keep its content.
    Unwrap,
    /// Remove the attribute with this name.
    RemoveAttribute(Seq<char>),
    /// Set the attribute with this name to this value.
    SetAttribute(Seq<char>, Seq<char>),
}

/// For each attribute name for which `Element::get_attribute` returns a
/// value on this element, that value.
pub uninterp spec fn attribute_values(el: &ElementHandle) -> Map<Seq<char>, Seq<char>>;

/// The changes asked for through this handle so far, in order.
pub uninterp spec fn recorded_edits(el: &ElementHandle) -> Seq<Edit>;

/// The tag name that `Element::tag_name` returns for this element.
pub uninterp spec fn element_tag(el: &ElementHandle) -> Seq<char>;

/// The names of the attributes that `Element::attributes` lists for this
/// element, in its order.
pub uninterp spec fn attribute_list(el: &ElementHandle) -> Seq<Seq<char>>;

/// The texts of a sequence of strings.
pub open spec fn string_texts(v: Seq<String>) -> Seq<Seq<char>> {
    Seq::new(v.len(), |i: int| v[i]@)
}

/// `Element::tag_name`: the element's tag name, in lower case.
#[verifier::external_body]
pub(crate) fn tag_name(el: &ElementHandle) -> (r: String)
    ensures
        r@ == element_tag(el),
{
    el.inner.tag_name()
}

/// `Element::attributes`, and `Attribute::name` for each: the names of the
/// element's attributes.
#[verifier::external_body]
pub(crate) fn attribute_names(el: &ElementHandle) -> (r: Vec<String>)
    ensures
        string_texts(r@) == attribute_list(el),
{
    el.inner.attributes().iter().map(|a| a.name()).collect()
}

/// `Element::remove_attribute`: asks for the attribute `name` to go.
#[verifier::external_body]
pub(crate) fn remove_attribute(el: &mut ElementHandle, name: &str)
    ensures
        recorded_edits(final(el)) == recorded_edits(old(el)).push(Edit::RemoveAttribute(name@)),
{
    el.inner.remove_attribute(name);
}

/// `Element::set_attribute`: asks for the attribute `name` to have the
/// value `value`. A name that the engine does not accept is passed over.
#[verifier::external_body]
pub(crate) fn set_attribute(el: &mut ElementHandle, name: &str, value: &str)
    ensures
        recorded_edits(final(el)) == recorded_edits(old(el)).push(
            Edit::SetAttribute(name@, value@),
        ),
{
    let _ = el.inner.set_attribute(name, value);
}

/// `Element::get_attribute`: the value of the attribute `name`, if the
/// element has one.
#[verifier::external_body]
pub(crate) fn attribute(el: &ElementHandle, name: &str) -> (r: Option<String>)
    ensures
        optional_text(r) == (if attribute_values(el).dom().contains(name@) {
            Some(attribute_values(el)[name@])
        } else {
            None
        }),
{
    el.inner.get_attribute(name)
}

/// `Element::before` with `ContentType::Html`: asks for `html` in front of
/// the element. The attributes stay as they are.
#[verifier::external_body]
pub(crate) fn insert_before(el: &mut ElementHandle, html: &str)
    ensures
        recorded_edits(final(el)) == recorded_edits(old(el)).push(Edit::Before(html@)),
        attribute_values(final(el)) == attribute_values(old(el)),
{
    el.inner.before(html, ContentType::Html);
}

/// `Element::after` with `ContentType::Html`: asks for `html` behind the
/// element. The attributes stay as they are.
#[verifier::external_body]
pub(crate) fn insert_after(el: &mut ElementHandle, html: &str)
    ensures
        recorded_edits(final(el)) == recorded_edits(old(el)).push(Edit::After(html@)),
        attribute_values(final(el)) == attribute_values(old(el)),
{
    el.inner.after(html, ContentType::Html);
}

/// `Element::remove`: asks for the element and its content to go. The
/// attributes stay readable.
#[verifier::external_body]
pub(crate) fn remove_element(el: &mut ElementHandle)
    ensures
        recorded_edits(final(el)) == recorded_edits(old(el)).push(Edit::Remove),
        attribute_values(final(el)) == attribute_values(old(el)),
{
    el.inner.remove();
}

/// `Element::remove_and_keep_content`: asks for the element's tags to go and
/// its content to stay. The attributes stay readable.
#[verifier::external_body]
pub(crate) fn unwrap_element(el: &mut ElementHandle)
    ensures
        recorded_edits(final(el)) == recorded_edits(old(el)).push(Edit::Unwrap),
        attribute_values(final(el)) == attribute_values(old(el)),
{
    el.inner.remove_and_keep_content();
}

/// What `lol_html::rewrite_str` returns for `html` when each of `selectors`
/// has an element handler that calls `apply_rule` with `pass` and the
/// selector's number; the failure where the engine rejects a selector or
/// gives up on the document.
pub uninterp spec fn rewritten(html: Seq<char>, selectors: Seq<Seq<char>>, pass: RewritePass) -> Result<
    Seq<char>,
    EngineFailure,
>;

/// One walk of `lol_html::rewrite_str` over `html` in which `apply_rule`
/// handles every element that one of `selectors` matches. A selector that
/// `Selector::from_str` rejects gives `SelectorError`, a document that the
/// engine gives up on `HtmlParse`, each with the engine's message.
#[verifier::external_body]
pub(crate) fn rewrite_document(html: &str, selectors: &Vec<&'static str>, pass: RewritePass) -> (r:
    Result<String, TrekError>)
    ensures
        r is Ok <==> rewritten(html@, texts(selectors@), pass) is Ok,
        r is Ok ==> r->Ok_0@ == rewritten(html@, texts(selectors@), pass)->Ok_0,
        r is Err ==> rewritten(html@, texts(selectors@), pass)->Err_0.is_reported_by(r->Err_0),
{
    let mut settings = RewriteStrSettings::new();
    for (rule, selector) in selectors.iter().enumerate() {
        let handlers = ElementContentHandlers::default().element(move |el: &mut Element| {
            Ok(apply_rule(pass, rule, &mut ElementHandle { inner: el }))
        });
        let selector = Cow::Owned(selector.parse().map_err(selector_error)?);
        settings = settings.append_element_content_handler((selector, handlers));
    }
    rewrite_str(html, settings).map_err(parse_error)
}

/// The error for a selector that the engine does not accept: a
/// `SelectorError` whose detail is what `e` displays.
pub(crate) fn selector_error<E: Display>(e: E) -> (r: TrekError)
    ensures
        r is SelectorError,
        vstd::string::to_string_from_display_ensures::<E>(&e, r->SelectorError_0),
{
    TrekError::SelectorError(e.to_string())
}

/// The error for a document that the engine gives up on: an `HtmlParse`
/// whose detail is what `e` displays.
pub(crate) fn parse_error<E: Display>(e: E) -> (r: TrekError)
    ensures
        r is HtmlParse,
        vstd::string::to_string_from_display_ensures::<E>(&e, r->HtmlParse_0),
{
    TrekError::HtmlParse(e.to_string())
}

/// For each of `names`, the value that the attributes hold for it.
pub open spec fn requested_values(
    attributes: Map<Seq<char>, Seq<char>>,
    names: Seq<Seq<char>>,
) -> Seq<Option<Seq<char>>> {
    Seq::new(
        names.len(),
        |i: int|
            if attributes.dom().contains(names[i]) {
                Some(attributes[names[i]])
            } else {
                None
            },
    )
}

/// Appends the event for an element that selector number `rule` matches,
/// with the element's values for `attribute_names`.
pub(crate) fn record_element(
    events: &mut Vec<ScanEvent>,
    rule: usize,
    el: &ElementHandle,
    attribute_names: &Vec<&'static str>,
)
    ensures
        final(events)@.len() == old(events)@.len() + 1,
        final(events)@.drop_last() == old(events)@,
        final(events)@.last()@ == (Event::Element {
            rule,
            attributes: requested_values(attribute_values(el), texts(attribute_names@)),
        }),
{
    let mut attributes: Vec<Option<String>> = Vec::new();
    let mut i: usize = 0;
    while i < attribute_names.len()
        invariant
            i <= attribute_names@.len(),
            attributes@.len() == i,
            forall|k: int|
                0 <= k < i ==> optional_text(#[trigger] attributes@[k]) == requested_values(
                    attribute_values(el),
                    texts(attribute_names@),
                )[k],
        decreases attribute_names@.len() - i,
    {
        attributes.push(attribute(el, attribute_names[i]));
        i += 1;
    }
    assert(optional_texts(attributes@) =~= requested_values(
        attribute_values(el),
        texts(attribute_names@),
    ));
    events.push(ScanEvent::Element { rule, attributes });
    assert(events@.drop_last() =~= old(events)@);
}

/// Appends the event for a chunk of text inside an element that selector
/// number `rule` matches.
pub(crate) fn record_text(events: &mut Vec<ScanEvent>, rule: usize, text: &str, last_in_text_node: bool)
    ensures
        final(events)@.len() == old(events)@.len() + 1,
        final(events)@.drop_last() == old(events)@,
        final(events)@.last()@ == (Event::Text { rule, text: text@, last_in_text_node }),
{
    events.push(ScanEvent::Text { rule, text: text.to_owned(), last_in_text_node });
    assert(events@.drop_last() =~= old(events)@);
}

} // verus!
