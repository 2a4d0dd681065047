//! The metadata collector: one walk over the untouched document that gathers
//! meta tags, the title, the favicon, structured data and the embed payload.
//!
//! The engine reports elements and chunks of text in document order. The
//! collector is a state machine over those events. The title and each
//! structured-data script have a buffer; the element's start tag empties it,
//! every chunk is appended, and the chunk that closes a text node flushes it.

use crate::error::TrekError;
use crate::json::{json_document, parse_json, Json, JsonValue};
use crate::markup::{
    document_events, events_view, scan_document, EngineFailure, Event, ScanEvent,
};
use crate::text::{from_chars, str_eq, texts, to_chars, trim, trim_chars};
use crate::types::{
    copy_json_values, json_view, meta_tags_view, optional_text, MetaTag, MetaTagItem,
};
use crate::utils::{decode_html_entities, entities_decoded};
use vstd::prelude::*;
use vstd::string::StringExecFns;

verus! {

/// What the collector found in a document.
#[derive(Debug, Clone)]
pub struct CollectedData {
    /// The meta tags in document order, duplicates kept.
    pub meta_tags: Vec<MetaTagItem>,
    /// The structured-data values in document order.
    pub schema_org_data: Vec<JsonValue>,
    /// The text of the `<title>` element, trimmed.
    pub title: Option<String>,
    /// The address of the favicon.
    pub favicon: Option<String>,
    /// The raw payload of the `fc:frame` meta tag.
    pub mini_app_embed: Option<String>,
}

/// The mathematical value of a `CollectedData`.
pub ghost struct Collected {
    pub meta_tags: Seq<MetaTag>,
    pub schema_org_data: Seq<Json>,
    pub title: Option<Seq<char>>,
    pub favicon: Option<Seq<char>>,
    pub mini_app_embed: Option<Seq<char>>,
}

impl Collected {
    /// Nothing found.
    pub open spec fn empty() -> Collected {
        Collected {
            meta_tags: Seq::empty(),
            schema_org_data: Seq::empty(),
            title: None,
            favicon: None,
            mini_app_embed: None,
        }
    }
}

impl View for CollectedData {
    type V = Collected;

    open spec fn view(&self) -> Collected {
        Collected {
            meta_tags: meta_tags_view(self.meta_tags@),
            schema_org_data: json_view(self.schema_org_data@),
            title: optional_text(self.title),
            favicon: optional_text(self.favicon),
            mini_app_embed: optional_text(self.mini_app_embed),
        }
    }
}

impl Default for CollectedData {
    fn default() -> (r: Self)
        ensures
            r@ == Collected::empty(),
    {
        let r = CollectedData {
            meta_tags: Vec::new(),
            schema_org_data: Vec::new(),
            title: None,
            favicon: None,
            mini_app_embed: None,
        };
        assert(r@.meta_tags =~= Seq::<MetaTag>::empty());
        assert(r@.schema_org_data =~= Seq::<Json>::empty());
        r
    }
}

/// The selectors of the collector; an event's `rule` is an index into them.
pub open spec fn collector_selector_texts() -> Seq<Seq<char>> {
    seq![
        "meta[name], meta[property]"@,
        "link[rel~=icon], link[rel~=shortcut]"@,
        "title"@,
        "script[type=\"application/ld+json\"]"@,
    ]
}

/// The attributes the collector reads; an element event holds their values
/// in this order.
pub open spec fn collector_attribute_names() -> Seq<Seq<char>> {
    seq!["name"@, "property"@, "content"@, "rel"@, "href"@]
}

/// The selectors of the collector.
pub fn collector_selectors() -> (r: Vec<&'static str>)
    ensures
        texts(r@) == collector_selector_texts(),
{
    let r = vec![
        "meta[name], meta[property]",
        "link[rel~=icon], link[rel~=shortcut]",
        "title",
        "script[type=\"application/ld+json\"]",
    ];
    assert(texts(r@) =~= collector_selector_texts());
    r
}

/// The attributes the collector reads.
pub fn collector_attributes() -> (r: Vec<&'static str>)
    ensures
        texts(r@) == collector_attribute_names(),
{
    let r = vec!["name", "property", "content", "rel", "href"];
    assert(texts(r@) =~= collector_attribute_names());
    r
}

/// The value at index `i` of an element event's attributes.
pub open spec fn value_at(attributes: Seq<Option<Seq<char>>>, i: int) -> Option<Seq<char>> {
    if 0 <= i < attributes.len() {
        attributes[i]
    } else {
        None
    }
}

/// The data after a `meta` element. One without `content` changes nothing.
/// Otherwise the tag is appended with its content decoded; a tag named
/// `fc:frame` also sets the embed payload, to the content as it stands.
pub open spec fn with_meta(data: Collected, attributes: Seq<Option<Seq<char>>>) -> Collected {
    match value_at(attributes, 2) {
        None => data,
        Some(content) => Collected {
            meta_tags: data.meta_tags.push(
                MetaTag {
                    name: value_at(attributes, 0),
                    property: value_at(attributes, 1),
                    content: entities_decoded(content),
                },
            ),
            mini_app_embed: if value_at(attributes, 0) == Some("fc:frame"@) {
                Some(content)
            } else {
                data.mini_app_embed
            },
            ..data
        },
    }
}

/// The favicon after a `link` element with the given `rel` and `href`. The
/// first favicon stays unless a later link has `rel` exactly `icon`.
pub open spec fn favicon_after(
    favicon: Option<Seq<char>>,
    rel: Option<Seq<char>>,
    href: Option<Seq<char>>,
) -> Option<Seq<char>> {
    match href {
        None => favicon,
        Some(h) => if favicon is None || rel == Some("icon"@) {
            Some(h)
        } else {
            favicon
        },
    }
}

/// The data after a favicon `link` element.
pub open spec fn with_link(data: Collected, attributes: Seq<Option<Seq<char>>>) -> Collected {
    Collected {
        favicon: favicon_after(data.favicon, value_at(attributes, 3), value_at(attributes, 4)),
        ..data
    }
}

/// The structured-data values that one parsed script adds: the items of its
/// `@graph` array where it has one, else the value itself.
pub open spec fn structured_items(value: Json) -> Seq<Json> {
    match value.member("@graph"@) {
        Some(graph) => match graph.items() {
            Some(items) => items,
            None => seq![value],
        },
        None => seq![value],
    }
}

/// The data after a structured-data script with the given text. A text that
/// is not JSON changes nothing.
pub open spec fn with_script(data: Collected, script: Seq<char>) -> Collected {
    match json_document(script) {
        None => data,
        Some(value) => Collected {
            schema_org_data: data.schema_org_data + structured_items(value),
            ..data
        },
    }
}

/// The collector between two events.
pub ghost struct ScanState {
    pub data: Collected,
    pub title_buffer: Seq<char>,
    pub script_buffer: Seq<char>,
}

impl ScanState {
    /// The collector before the first event.
    pub open spec fn initial() -> ScanState {
        ScanState {
            data: Collected::empty(),
            title_buffer: Seq::empty(),
            script_buffer: Seq::empty(),
        }
    }
}

/// The collector after one more event.
pub open spec fn step(state: ScanState, event: Event) -> ScanState {
    match event {
        Event::Element { rule, attributes } => {
            if rule == 0 {
                ScanState { data: with_meta(state.data, attributes), ..state }
            } else if rule == 1 {
                ScanState { data: with_link(state.data, attributes), ..state }
            } else if rule == 2 {
                ScanState { title_buffer: Seq::empty(), ..state }
            } else if rule == 3 {
                ScanState { script_buffer: Seq::empty(), ..state }
            } else {
                state
            }
        },
        Event::Text { rule, text, last_in_text_node } => {
            if rule == 2 {
                let buffer = state.title_buffer + text;
                if last_in_text_node {
                    ScanState {
                        data: Collected { title: Some(trim(buffer)), ..state.data },
                        title_buffer: buffer,
                        ..state
                    }
                } else {
                    ScanState { title_buffer: buffer, ..state }
                }
            } else if rule == 3 {
                let buffer = state.script_buffer + text;
                if last_in_text_node {
                    ScanState {
                        data: with_script(state.data, buffer),
                        script_buffer: buffer,
                        ..state
                    }
                } else {
                    ScanState { script_buffer: buffer, ..state }
                }
            } else {
                state
            }
        },
    }
}

/// The collector after a sequence of events.
pub open spec fn scan(events: Seq<Event>) -> ScanState
    decreases events.len(),
{
    if events.len() == 0 {
        ScanState::initial()
    } else {
        step(scan(events.drop_last()), events.last())
    }
}

/// What the collector finds in a sequence of events.
pub open spec fn collected(events: Seq<Event>) -> Collected {
    scan(events).data
}

/// The event for a favicon link with the given `rel` and `href`.
pub open spec fn link_event(rel: Seq<char>, href: Seq<char>) -> Event {
    Event::Element { rule: 1, attributes: seq![None, None, None, Some(rel), Some(href)] }
}

/// Favicon precedence. After any events that left no favicon, a
/// `shortcut icon` followed by an `icon` leaves the icon, and so does an
/// `icon` followed by a `shortcut icon`.
pub proof fn lemma_favicon_precedence(before: Seq<Event>, shortcut: Seq<char>, icon: Seq<char>)
    requires
        collected(before).favicon is None,
    ensures
        collected(
            before.push(link_event("shortcut icon"@, shortcut)).push(link_event("icon"@, icon)),
        ).favicon == Some(icon),
        collected(
            before.push(link_event("icon"@, icon)).push(link_event("shortcut icon"@, shortcut)),
        ).favicon == Some(icon),
{
    reveal_strlit("shortcut icon");
    reveal_strlit("icon");
    assert("shortcut icon"@.len() == 13);
    assert("icon"@.len() == 4);
    let first = link_event("shortcut icon"@, shortcut);
    let second = link_event("icon"@, icon);
    lemma_scan_push(before, first);
    lemma_scan_push(before.push(first), second);
    lemma_scan_push(before, second);
    lemma_scan_push(before.push(second), first);
}

/// An `icon` link always sets the favicon; any other link leaves a favicon
/// that is there.
pub proof fn lemma_favicon_rule(
    favicon: Option<Seq<char>>,
    rel: Option<Seq<char>>,
    href: Seq<char>,
)
    ensures
        rel == Some("icon"@) ==> favicon_after(favicon, rel, Some(href)) == Some(href),
        rel != Some("icon"@) && favicon is Some ==> favicon_after(favicon, rel, Some(href))
            == favicon,
{
}

/// The collector after one more event is a step from the collector before.
pub proof fn lemma_scan_push(events: Seq<Event>, event: Event)
    ensures
        scan(events.push(event)) == step(scan(events), event),
{
    assert(events.push(event).drop_last() =~= events);
}

/// The collector at work.
pub struct Collector {
    pub data: CollectedData,
    pub title_buffer: String,
    pub script_buffer: String,
}

impl View for Collector {
    type V = ScanState;

    open spec fn view(&self) -> ScanState {
        ScanState {
            data: self.data@,
            title_buffer: self.title_buffer@,
            script_buffer: self.script_buffer@,
        }
    }
}

/// A copy of the value at index `i` of an element event's attributes.
fn attribute_at(attributes: &Vec<Option<String>>, i: usize) -> (r: Option<String>)
    ensures
        optional_text(r) == value_at(crate::markup::optional_texts(attributes@), i as int),
{
    if i < attributes.len() {
        match &attributes[i] {
            Some(v) => Some(v.clone()),
            None => None,
        }
    } else {
        None
    }
}

/// Whether an optional text is there and equal to `expected`.
pub fn is_text(value: &Option<String>, expected: &str) -> (r: bool)
    ensures
        r == (optional_text(*value) == Some(expected@)),
{
    match value {
        Some(v) => str_eq(v.as_str(), expected),
        None => false,
    }
}

impl Collector {
    /// A collector that has seen nothing.
    pub fn new() -> (r: Collector)
        ensures
            r@ == ScanState::initial(),
    {
        Collector {
            data: CollectedData::default(),
            title_buffer: String::new(),
            script_buffer: String::new(),
        }
    }

    fn add_meta(&mut self, attributes: &Vec<Option<String>>)
        ensures
            final(self)@ == (ScanState {
                data: with_meta(old(self)@.data, crate::markup::optional_texts(attributes@)),
                ..old(self)@
            }),
    {
        if let Some(content) = attribute_at(attributes, 2) {
            let name = attribute_at(attributes, 0);
            let property = attribute_at(attributes, 1);
            let is_frame = is_text(&name, "fc:frame");
            let tag = MetaTagItem {
                name,
                property,
                content: decode_html_entities(content.as_str()),
            };
            proof {
                assert(meta_tags_view(self.data.meta_tags@.push(tag)) =~= meta_tags_view(
                    self.data.meta_tags@,
                ).push(tag@));
            }
            self.data.meta_tags.push(tag);
            if is_frame {
                self.data.mini_app_embed = Some(content);
            }
        }
    }

    fn add_link(&mut self, attributes: &Vec<Option<String>>)
        ensures
            final(self)@ == (ScanState {
                data: with_link(old(self)@.data, crate::markup::optional_texts(attributes@)),
                ..old(self)@
            }),
    {
        if let Some(href) = attribute_at(attributes, 4) {
            let rel = attribute_at(attributes, 3);
            if self.data.favicon.is_none() || is_text(&rel, "icon") {
                self.data.favicon = Some(href);
            }
        }
    }

    fn add_script(&mut self)
        ensures
            final(self)@ == (ScanState {
                data: with_script(old(self)@.data, old(self)@.script_buffer),
                ..old(self)@
            }),
    {
        if let Some(value) = parse_json(self.script_buffer.as_str()) {
            let graph: Option<Vec<JsonValue>> = match value.get("@graph") {
                Some(g) => match g.as_array() {
                    Some(items) => Some(copy_json_values(items)),
                    None => None,
                },
                None => None,
            };
            let ghost before = json_view(self.data.schema_org_data@);
            match graph {
                Some(items) => {
                    let mut items = items;
                    let ghost added = json_view(items@);
                    self.data.schema_org_data.append(&mut items);
                    assert(json_view(self.data.schema_org_data@) =~= before + added);
                },
                None => {
                    let ghost v = value@;
                    self.data.schema_org_data.push(value);
                    assert(json_view(self.data.schema_org_data@) =~= before + seq![v]);
                },
            }
        }
    }

    /// Takes one event in.
    pub fn advance(&mut self, event: &ScanEvent)
        ensures
            final(self)@ == step(old(self)@, event@),
    {
        match event {
            ScanEvent::Element { rule, attributes } => {
                if *rule == 0 {
                    self.add_meta(attributes);
                } else if *rule == 1 {
                    self.add_link(attributes);
                } else if *rule == 2 {
                    self.title_buffer = String::new();
                } else if *rule == 3 {
                    self.script_buffer = String::new();
                }
            },
            ScanEvent::Text { rule, text, last_in_text_node } => {
                if *rule == 2 {
                    self.title_buffer.append(text.as_str());
                    if *last_in_text_node {
                        let title = from_chars(&trim_chars(&to_chars(self.title_buffer.as_str())));
                        self.data.title = Some(title);
                    }
                } else if *rule == 3 {
                    self.script_buffer.append(text.as_str());
                    if *last_in_text_node {
                        self.add_script();
                    }
                }
            },
        }
    }
}

/// What the collector finds in the events of one walk over a document.
pub fn collect_from_events(events: &Vec<ScanEvent>) -> (r: CollectedData)
    ensures
        r@ == collected(events_view(events@)),
{
    let mut collector = Collector::new();
    let ghost all = events_view(events@);
    let mut i: usize = 0;
    proof {
        assert(all.take(0) =~= Seq::<Event>::empty());
    }
    while i < events.len()
        invariant
            i <= events@.len(),
            all == events_view(events@),
            collector@ == scan(all.take(i as int)),
        decreases events@.len() - i,
    {
        proof {
            assert(all.take(i + 1).drop_last() =~= all.take(i as int));
            assert(all.take(i + 1).last() == events@[i as int]@);
        }
        collector.advance(&events[i]);
        i += 1;
    }
    proof {
        assert(all.take(events@.len() as int) =~= all);
    }
    collector.data
}

/// What the collector finds in `html`, or why the engine did not get
/// through the document.
pub open spec fn collected_from(html: Seq<char>) -> Result<Collected, EngineFailure> {
    match document_events(html, collector_selector_texts(), collector_attribute_names()) {
        Ok(events) => Ok(collected(events)),
        Err(failure) => Err(failure),
    }
}

/// Collects meta tags, title, favicon, structured data and the embed payload
/// of a document in one walk. Fails with `HtmlParse` exactly when the engine
/// gives up on the document, and with `SelectorError` exactly when it rejects
/// a selector; nothing of an unfinished walk is returned.
pub fn collect(html: &str) -> (r: Result<CollectedData, TrekError>)
    ensures
        r is Ok <==> collected_from(html@) is Ok,
        r is Ok ==> r->Ok_0@ == collected_from(html@)->Ok_0,
        r is Err ==> collected_from(html@)->Err_0.is_reported_by(r->Err_0),
{
    let selectors = collector_selectors();
    let names = collector_attributes();
    match scan_document(html, &selectors, &names) {
        Ok(walk) => match walk.failure {
            None => Ok(collect_from_events(&walk.events)),
            Some(e) => Err(e),
        },
        Err(e) => Err(e),
    }
}

} // verus!
