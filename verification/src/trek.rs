//! The pipeline: collect, resolve, remove clutter, standardize, count.

use crate::collector::{collect, collected_from, CollectedData};
use crate::error::TrekError;
use crate::extractor::{Extractor, ExtractorRegistry, GenericExtractor, Registered};
use crate::extractors::farcaster::FarcasterExtractor;
use crate::markup::{
    document_events, events_view, optional_texts, rewrite_document, rewritten, scan_document,
    EngineFailure, Event, ScanEvent,
};
use crate::metadata::{optional_str, resolved, text_or_empty, MetadataExtractor};
use crate::rewrite::{clutter_selector_texts, pass_selectors, RewritePass};
use crate::standardize::{standardize_content, standardized};
use crate::text::{
    find, find_chars, find_chars_from, find_from, from_chars, lemma_find_from, lemma_rfind_below,
    parse_u32, parsed_u32, rfind, rfind_chars, slice_chars, starts_with, str_starts_with, texts,
    to_chars, trim, trim_chars, word_count,
};
use crate::types::{
    copy_meta_tags, meta_tags_view, optional_text, Extracted, ExtractedContent, MetaTag,
    MetaTagItem, Metadata, RemovalOptions, Response, TrekMetadata, TrekOptions, TrekResponse,
};
use crate::utils::{count_words, current_time_ms, stripped_text, substitute, substituted};
use vstd::prelude::*;

verus! {

/// Matches an element that was marked for removal, with its markers.
pub const REMOVE_PATTERN: &'static str = "(?s)<!--REMOVE-->.*?<!--/REMOVE-->";

/// A generic result with fewer words than this is tried again without
/// clutter removal.
pub const LOW_WORD_COUNT: usize = 200;

/// An image with a declared width or height below this is no content.
pub const MIN_IMAGE_DIMENSION: u32 = 50;

/// The width or height of an image whose attribute says nothing usable.
pub const DEFAULT_IMAGE_DIMENSION: u32 = 100;

/// `s` without the line feeds it begins with.
pub open spec fn without_leading_newlines(s: Seq<char>) -> Seq<char>
    decreases s.len(),
{
    if s.len() > 0 && s[0] == '\n' {
        without_leading_newlines(s.drop_first())
    } else {
        s
    }
}

/// What stands inside the body of a document: the characters between the
/// `>` that closes the first `<body` tag and the last `</body>`, trimmed.
/// Where the document has no such body, the document itself without the line
/// feeds it begins with.
pub open spec fn body_content(html: Seq<char>) -> Seq<char> {
    match find(html, "<body"@) {
        Some(start) => match (find_from(html, ">"@, start), rfind(html, "</body>"@)) {
            (Some(close), Some(end)) => if close + 1 <= end {
                trim(html.subrange(close + 1, end))
            } else {
                without_leading_newlines(html)
            },
            _ => without_leading_newlines(html),
        },
        None => without_leading_newlines(html),
    }
}

/// The document without the line feeds it begins with.
fn strip_leading_newlines(v: &Vec<char>) -> (r: Vec<char>)
    ensures
        r@ == without_leading_newlines(v@),
{
    let n = v.len();
    let mut start: usize = 0;
    proof {
        assert(v@.skip(0) =~= v@);
    }
    while start < n && v[start] == '\n'
        invariant
            start <= n == v@.len(),
            without_leading_newlines(v@) == without_leading_newlines(v@.skip(start as int)),
        decreases n - start,
    {
        proof {
            assert(v@.skip(start as int).drop_first() =~= v@.skip(start + 1));
        }
        start += 1;
    }
    proof {
        assert(v@.skip(start as int) =~= v@.subrange(start as int, n as int));
    }
    slice_chars(v, start, n)
}

/// A document after clutter removal with the given tiers: the engine's
/// output without everything between removal markers; the failure where the
/// engine does not get through the document.
pub open spec fn clutter_removed(html: Seq<char>, removal: RemovalOptions) -> Result<
    Seq<char>,
    EngineFailure,
> {
    match rewritten(
        html,
        clutter_selector_texts(),
        RewritePass::RemoveClutter {
            exact: removal.remove_exact_selectors,
            partial: removal.remove_partial_selectors,
        },
    ) {
        Ok(marked) => Ok(substituted(REMOVE_PATTERN@, marked, ""@)),
        Err(failure) => Err(failure),
    }
}

/// The selector by which images are looked for.
pub open spec fn image_selector_texts() -> Seq<Seq<char>> {
    seq!["img"@]
}

/// The attributes of an image that are read; an element event holds their
/// values in this order.
pub open spec fn image_attribute_names() -> Seq<Seq<char>> {
    seq!["src"@, "width"@, "height"@]
}

/// The width or height that an attribute declares; 100 where the attribute
/// is missing or is no number.
pub open spec fn declared_dimension(value: Option<Seq<char>>) -> u32 {
    match value {
        Some(t) => match parsed_u32(t) {
            Some(n) => n,
            None => DEFAULT_IMAGE_DIMENSION,
        },
        None => DEFAULT_IMAGE_DIMENSION,
    }
}

/// The address of the image that an event shows, where it is an image fit
/// to stand for the page: it has a `src` that is not empty and no `data:`
/// address, and neither dimension is declared below 50.
pub open spec fn suitable_image(event: Event) -> Option<Seq<char>> {
    match event {
        Event::Element { rule, attributes } => {
            if attributes.len() == 3 && attributes[0] is Some && attributes[0]->0.len() > 0
                && !starts_with(attributes[0]->0, "data:"@) && declared_dimension(attributes[1])
                >= MIN_IMAGE_DIMENSION && declared_dimension(attributes[2])
                >= MIN_IMAGE_DIMENSION {
                attributes[0]
            } else {
                None
            }
        },
        Event::Text { .. } => None,
    }
}

/// The address of the first suitable image among the events.
pub open spec fn first_suitable_image(events: Seq<Event>) -> Option<Seq<char>>
    decreases events.len(),
{
    if events.len() == 0 {
        None
    } else {
        match suitable_image(events[0]) {
            Some(src) => Some(src),
            None => first_suitable_image(events.drop_first()),
        }
    }
}

/// The address of the first suitable image in a fragment; `None` also
/// where the engine rejects the fragment.
pub open spec fn first_image_in(content: Seq<char>) -> Option<Seq<char>> {
    match document_events(content, image_selector_texts(), image_attribute_names()) {
        Ok(events) => first_suitable_image(events),
        Err(_) => None,
    }
}

/// The width or height that an attribute declares.
fn dimension_of(value: &Option<String>) -> (r: u32)
    ensures
        r == declared_dimension(optional_text(*value)),
{
    match value {
        Some(t) => match parse_u32(t.as_str()) {
            Some(n) => n,
            None => DEFAULT_IMAGE_DIMENSION,
        },
        None => DEFAULT_IMAGE_DIMENSION,
    }
}

/// The address of the image that an event shows, where it is suitable.
fn suitable_image_of(event: &ScanEvent) -> (r: Option<String>)
    ensures
        optional_text(r) == suitable_image(event@),
{
    match event {
        ScanEvent::Element { rule, attributes } => {
            if attributes.len() != 3 {
                return None;
            }
            assert(optional_texts(attributes@)[0] == optional_text(attributes@[0]));
            assert(optional_texts(attributes@)[1] == optional_text(attributes@[1]));
            assert(optional_texts(attributes@)[2] == optional_text(attributes@[2]));
            match &attributes[0] {
                Some(src) => {
                    if src.as_str().unicode_len() > 0 && !str_starts_with(src.as_str(), "data:")
                        && dimension_of(&attributes[1]) >= MIN_IMAGE_DIMENSION && dimension_of(
                        &attributes[2],
                    ) >= MIN_IMAGE_DIMENSION {
                        Some(src.clone())
                    } else {
                        None
                    }
                },
                None => None,
            }
        },
        ScanEvent::Text { .. } => None,
    }
}

/// The address of the first suitable image among the events of a walk.
pub fn first_image_from_events(events: &Vec<ScanEvent>) -> (r: Option<String>)
    ensures
        optional_text(r) == first_suitable_image(events_view(events@)),
{
    let ghost all = events_view(events@);
    let mut i: usize = 0;
    proof {
        assert(all.skip(0) =~= all);
    }
    while i < events.len()
        invariant
            i <= events@.len(),
            all == events_view(events@),
            first_suitable_image(all) == first_suitable_image(all.skip(i as int)),
        decreases events@.len() - i,
    {
        proof {
            let rest = all.skip(i as int);
            assert(rest[0] == events@[i as int]@);
            assert(rest.drop_first() =~= all.skip(i + 1));
        }
        if let Some(src) = suitable_image_of(&events[i]) {
            return Some(src);
        }
        i += 1;
    }
    None
}

/// The content of the generic path: the body, cleared of clutter where a
/// tier is on, and standardized; the failure where the engine does not get
/// through the body during clutter removal.
pub open spec fn generic_content(html: Seq<char>, debug: bool, removal: RemovalOptions) -> Result<
    Seq<char>,
    EngineFailure,
> {
    let body = body_content(html);
    if removal.remove_exact_selectors || removal.remove_partial_selectors {
        match clutter_removed(body, removal) {
            Ok(cleaned) => Ok(standardized(cleaned, debug)),
            Err(failure) => Err(failure),
        }
    } else {
        Ok(standardized(body, debug))
    }
}

/// The metadata once the final content is known: the word count is that of
/// the content's text, and a missing image is the first suitable image of
/// the content.
pub open spec fn with_content(metadata: Metadata, content: Seq<char>) -> Metadata {
    Metadata {
        word_count: word_count(stripped_text(content)) as usize,
        image: if metadata.image.len() == 0 {
            text_or_empty(first_image_in(content))
        } else {
            metadata.image
        },
        ..metadata
    }
}

/// The response of the generic path.
pub open spec fn generic_response(
    html: Seq<char>,
    debug: bool,
    removal: RemovalOptions,
    metadata: Metadata,
    meta_tags: Seq<MetaTag>,
) -> Result<Response, EngineFailure> {
    match generic_content(html, debug, removal) {
        Ok(content) => Ok(
            Response {
                content,
                content_markdown: None,
                extractor_type: None,
                meta_tags,
                metadata: with_content(metadata, content),
            },
        ),
        Err(failure) => Err(failure),
    }
}

/// No clutter removal at all.
pub open spec fn no_removal() -> RemovalOptions {
    RemovalOptions { remove_exact_selectors: false, remove_partial_selectors: false }
}

/// The response of the generic path with its second try: where the first
/// result has fewer than 200 words and a removal tier was on, the result
/// without clutter removal replaces it if it has more words.
pub open spec fn generic_outcome(
    html: Seq<char>,
    debug: bool,
    removal: RemovalOptions,
    metadata: Metadata,
    meta_tags: Seq<MetaTag>,
) -> Result<Response, EngineFailure> {
    match generic_response(html, debug, removal, metadata, meta_tags) {
        Ok(first) => {
            let second = generic_response(html, debug, no_removal(), metadata, meta_tags)->Ok_0;
            if first.metadata.word_count < LOW_WORD_COUNT && (removal.remove_exact_selectors
                || removal.remove_partial_selectors) && second.metadata.word_count
                > first.metadata.word_count {
                Ok(second)
            } else {
                Ok(first)
            }
        },
        Err(failure) => Err(failure),
    }
}

/// The second try never loses words: whatever the generic path returns has
/// at least as many words as its first result.
pub proof fn lemma_retry_keeps_word_count(
    html: Seq<char>,
    debug: bool,
    removal: RemovalOptions,
    metadata: Metadata,
    meta_tags: Seq<MetaTag>,
)
    requires
        generic_response(html, debug, removal, metadata, meta_tags) is Ok,
    ensures
        generic_outcome(html, debug, removal, metadata, meta_tags) is Ok,
        generic_outcome(html, debug, removal, metadata, meta_tags)->Ok_0.metadata.word_count
            >= generic_response(
            html,
            debug,
            removal,
            metadata,
            meta_tags,
        )->Ok_0.metadata.word_count,
{
}

/// The metadata of the generic path is the resolved metadata but for word
/// count, time and a missing image, whether or not the second try is taken:
/// clutter removal has no say in it.
pub proof fn lemma_retry_keeps_metadata(
    html: Seq<char>,
    debug: bool,
    removal: RemovalOptions,
    metadata: Metadata,
    meta_tags: Seq<MetaTag>,
)
    requires
        generic_response(html, debug, removal, metadata, meta_tags) is Ok,
    ensures
        ({
            let r = generic_outcome(html, debug, removal, metadata, meta_tags)->Ok_0;
            r.meta_tags == meta_tags && r.metadata == (Metadata {
                word_count: r.metadata.word_count,
                image: r.metadata.image,
                ..metadata
            }) && (metadata.image.len() > 0 ==> r.metadata.image == metadata.image)
        }),
{
}

/// The response for a page that a site-specific extractor handled: what
/// the extractor found replaces title, author and date; its HTML is the
/// content.
pub open spec fn site_response(
    metadata: Metadata,
    meta_tags: Seq<MetaTag>,
    extracted: Extracted,
    label: Seq<char>,
) -> Response {
    let content = text_or_empty(extracted.content_html);
    Response {
        content,
        content_markdown: None,
        extractor_type: Some(label),
        meta_tags,
        metadata: Metadata {
            title: match extracted.title {
                Some(t) => t,
                None => metadata.title,
            },
            author: match extracted.author {
                Some(t) => t,
                None => metadata.author,
            },
            published: match extracted.published {
                Some(t) => t,
                None => metadata.published,
            },
            word_count: word_count(stripped_text(content)) as usize,
            ..metadata
        },
    }
}

/// Two responses differ at most in the time they took.
pub open spec fn same_but_time(a: Response, b: Response) -> bool {
    a == (Response { metadata: Metadata { parse_time: a.metadata.parse_time, ..b.metadata }, ..b })
}

/// The milliseconds that have passed since `start`, by the system clock;
/// zero where the clock has gone backwards. Whatever the clock says, the
/// result is the span from `start` to one reading of it.
fn elapsed_since(start: u64) -> (r: u64)
    ensures
        exists|now: u64| r == span(start, now),
{
    let now = current_time_ms();
    let r = span_between(start, now);
    assert(r == span(start, now));
    r
}

/// The milliseconds from `start` to `now`; zero where `now` lies before
/// `start`.
pub open spec fn span(start: u64, now: u64) -> u64 {
    if now >= start {
        (now - start) as u64
    } else {
        0
    }
}

/// The milliseconds from `start` to `now`.
pub fn span_between(start: u64, now: u64) -> (r: u64)
    ensures
        r == span(start, now),
{
    if now >= start {
        now - start
    } else {
        0
    }
}

/// The response for a page that a site-specific extractor handled.
pub fn build_site_response(
    metadata: TrekMetadata,
    meta_tags: &Vec<MetaTagItem>,
    extracted: ExtractedContent,
    name: &str,
    parse_time: u64,
) -> (r: TrekResponse)
    ensures
        same_but_time(r@, site_response(metadata@, meta_tags_view(meta_tags@), extracted@, name@)),
        r.metadata.parse_time == parse_time,
{
    let mut final_metadata = metadata;
    if let Some(title) = extracted.title {
        final_metadata.title = title;
    }
    if let Some(author) = extracted.author {
        final_metadata.author = author;
    }
    if let Some(published) = extracted.published {
        final_metadata.published = published;
    }
    let content = match extracted.content_html {
        Some(c) => c,
        None => String::new(),
    };
    final_metadata.word_count = count_words(content.as_str());
    final_metadata.parse_time = parse_time;
    TrekResponse {
        content,
        content_markdown: None,
        extractor_type: Some(name.to_owned()),
        meta_tags: copy_meta_tags(meta_tags),
        metadata: final_metadata,
    }
}

/// The extraction pipeline with its options and its extractors.
pub struct Trek {
    options: TrekOptions,
    extractor_registry: ExtractorRegistry,
}

impl Trek {
    /// The registry holds the library's own extractors and no others.
    #[verifier::type_invariant]
    spec fn well_formed(self) -> bool {
        self.extractor_registry.is_builtin()
    }

    /// The options that the pipeline goes by.
    pub closed spec fn options(&self) -> TrekOptions {
        self.options
    }

    /// The extractors that the pipeline asks first.
    pub closed spec fn registry(&self) -> ExtractorRegistry {
        self.extractor_registry
    }


    /// The address of the page, where the options give one.
    pub open spec fn url(&self) -> Option<Seq<char>> {
        optional_text(self.options().url)
    }

    /// What `parse` returns for a document, but for the time it takes;
    /// where it fails, why the engine did not get through the document.
    pub open spec fn outcome(&self, html: Seq<char>) -> Result<Response, EngineFailure> {
        match collected_from(html) {
            Ok(data) => {
                let metadata = resolved(data, self.url());
                match self.registry().chosen(text_or_empty(self.url())) {
                    Some(extractor) => Ok(
                        site_response(
                            metadata,
                            data.meta_tags,
                            extractor.extraction(html)->0,
                            extractor.label()->0,
                        ),
                    ),
                    None => generic_outcome(
                        html,
                        self.options().debug,
                        self.options().removal,
                        metadata,
                        data.meta_tags,
                    ),
                }
            },
            Err(failure) => Err(failure),
        }
    }

    /// A pipeline with the given options and the two extractors that come
    /// with the library: the generic one, then the one for mini apps.
    pub fn new(options: TrekOptions) -> (r: Self)
        ensures
            r.options() == options,
            r.registry().extractors@ == seq![
                Registered::Generic(GenericExtractor),
                Registered::Farcaster(FarcasterExtractor),
            ],
    {
        let mut extractor_registry = ExtractorRegistry::new();
        extractor_registry.add(Registered::Generic(GenericExtractor));
        extractor_registry.add(Registered::Farcaster(FarcasterExtractor));
        assert(extractor_registry.extractors@ =~= seq![
            Registered::Generic(GenericExtractor),
            Registered::Farcaster(FarcasterExtractor),
        ]);
        Trek { options, extractor_registry }
    }

    /// Extracts the main content and the metadata of a document.
    ///
    /// The metadata comes from the untouched document. Where a registered
    /// extractor accepts the page, its result is the content. Otherwise the
    /// generic path runs, and runs a second time without clutter removal
    /// where the first result is short. Fails where the engine rejects the
    /// document or the chosen extractor fails.
    pub fn parse(&self, html: &str) -> (r: Result<TrekResponse, TrekError>)
        ensures
            r is Ok <==> self.outcome(html@) is Ok,
            r is Ok ==> same_but_time(r->Ok_0@, self.outcome(html@)->Ok_0),
            r is Err ==> self.outcome(html@)->Err_0.is_reported_by(r->Err_0),
    {
        proof {
            use_type_invariant(self);
        }
        let start_time = current_time_ms();
        let collected = match self.collect_initial_data(html) {
            Ok(data) => data,
            Err(e) => {
                return Err(e);
            },
        };
        let url: Option<&str> = match &self.options.url {
            Some(u) => Some(u.as_str()),
            None => None,
        };
        let metadata = MetadataExtractor::extract_from_collected_data(&collected, url);
        let address = match url {
            Some(u) => u,
            None => "",
        };
        proof {
            reveal_strlit("");
            assert(address@ =~= text_or_empty(self.url()));
        }
        match self.extractor_registry.find_extractor_from_data(address, &collected.schema_org_data) {
            Some(extractor) => {
                let extracted = match extractor.extract_from_html(html) {
                    Ok(x) => x,
                    Err(e) => {
                        return Err(e);
                    },
                };
                Ok(
                    build_site_response(
                        metadata,
                        &collected.meta_tags,
                        extracted,
                        extractor.name(),
                        elapsed_since(start_time),
                    ),
                )
            },
            None => {
                let removal = self.options.removal;
                let result = match extract_generic(
                    html,
                    self.options.debug,
                    removal,
                    &metadata,
                    &collected.meta_tags,
                    start_time,
                ) {
                    Ok(x) => x,
                    Err(e) => {
                        return Err(e);
                    },
                };
                if result.metadata.word_count < LOW_WORD_COUNT && (removal.remove_exact_selectors
                    || removal.remove_partial_selectors) {
                    let unfiltered = RemovalOptions {
                        remove_exact_selectors: false,
                        remove_partial_selectors: false,
                    };
                    if let Ok(retry_result) = extract_generic(
                        html,
                        self.options.debug,
                        unfiltered,
                        &metadata,
                        &collected.meta_tags,
                        start_time,
                    ) {
                        if retry_result.metadata.word_count > result.metadata.word_count {
                            return Ok(retry_result);
                        }
                    }
                }
                Ok(result)
            },
        }
    }

    /// The generic path for this pipeline's options: body, clutter removal,
    /// standardizer, word count, image.
    pub fn parse_internal(
        &self,
        html: &str,
        metadata: &TrekMetadata,
        meta_tags: &Vec<MetaTagItem>,
        start_time: u64,
    ) -> (r: Result<TrekResponse, TrekError>)
        ensures
            r is Ok <==> generic_response(
                html@,
                self.options().debug,
                self.options().removal,
                metadata@,
                meta_tags_view(meta_tags@),
            ) is Ok,
            r is Ok ==> same_but_time(
                r->Ok_0@,
                generic_response(
                    html@,
                    self.options().debug,
                    self.options().removal,
                    metadata@,
                    meta_tags_view(meta_tags@),
                )->Ok_0,
            ),
            r is Err ==> generic_response(
                html@,
                self.options().debug,
                self.options().removal,
                metadata@,
                meta_tags_view(meta_tags@),
            )->Err_0.is_reported_by(r->Err_0),
    {
        extract_generic(html, self.options.debug, self.options.removal, metadata, meta_tags, start_time)
    }

    /// Collects meta tags, title, favicon, structured data and the embed
    /// payload of a document.
    pub fn collect_initial_data(&self, html: &str) -> (r: Result<CollectedData, TrekError>)
        ensures
            r is Ok <==> collected_from(html@) is Ok,
            r is Ok ==> r->Ok_0@ == collected_from(html@)->Ok_0,
            r is Err ==> collected_from(html@)->Err_0.is_reported_by(r->Err_0),
    {
        collect(html)
    }

    /// The part of a document in which the content is looked for: all of
    /// it.
    pub fn extract_main_content(&self, html: &str) -> (r: String)
        ensures
            r@ == html@,
    {
        html.to_owned()
    }

    /// What stands inside the body of a document.
    pub fn extract_body_content(&self, html: &str) -> (r: String)
        ensures
            r@ == body_content(html@),
    {
        body_of(html)
    }

    /// The address of the first image in a fragment that is fit to stand
    /// for the page.
    pub fn extract_first_image_from_content(html: &str) -> (r: Option<String>)
        ensures
            optional_text(r) == first_image_in(html@),
    {
        let selectors = vec!["img"];
        let names = vec!["src", "width", "height"];
        proof {
            assert(texts(selectors@) =~= image_selector_texts());
            assert(texts(names@) =~= image_attribute_names());
        }
        match scan_document(html, &selectors, &names) {
            Ok(walk) => match walk.failure {
                None => first_image_from_events(&walk.events),
                Some(_) => None,
            },
            Err(_) => None,
        }
    }

    /// Removes clutter from a fragment by this pipeline's two tiers. Fails
    /// exactly when the engine does, with the error that reports its
    /// failure.
    pub fn remove_clutter(&self, html: &str) -> (r: Result<String, TrekError>)
        ensures
            r is Ok <==> clutter_removed(html@, self.options().removal) is Ok,
            r is Ok ==> r->Ok_0@ == clutter_removed(html@, self.options().removal)->Ok_0,
            r is Err ==> clutter_removed(html@, self.options().removal)->Err_0.is_reported_by(
                r->Err_0,
            ),
    {
        strip_clutter(html, self.options.removal)
    }
}

/// Removes clutter from a fragment by the given tiers. Fails exactly when
/// the engine does, with the error that reports its failure.
pub fn strip_clutter(html: &str, removal: RemovalOptions) -> (r: Result<String, TrekError>)
    ensures
        r is Ok <==> clutter_removed(html@, removal) is Ok,
        r is Ok ==> r->Ok_0@ == clutter_removed(html@, removal)->Ok_0,
        r is Err ==> clutter_removed(html@, removal)->Err_0.is_reported_by(r->Err_0),
{
    let pass = RewritePass::RemoveClutter {
        exact: removal.remove_exact_selectors,
        partial: removal.remove_partial_selectors,
    };
    let selectors = pass_selectors(pass);
    match rewrite_document(html, &selectors, pass) {
        Ok(marked) => Ok(substitute(REMOVE_PATTERN, marked.as_str(), "")),
        Err(e) => Err(e),
    }
}

/// The generic path: body, clutter removal where a tier is on,
/// standardizer, word count, and the first suitable image where the
/// metadata has none. Fails exactly when the engine does during clutter
/// removal, with the error that reports its failure.
pub fn extract_generic(
    html: &str,
    debug: bool,
    removal: RemovalOptions,
    metadata: &TrekMetadata,
    meta_tags: &Vec<MetaTagItem>,
    start_time: u64,
) -> (r: Result<TrekResponse, TrekError>)
    ensures
        r is Ok <==> generic_response(html@, debug, removal, metadata@, meta_tags_view(meta_tags@))
            is Ok,
        r is Ok ==> same_but_time(
            r->Ok_0@,
            generic_response(html@, debug, removal, metadata@, meta_tags_view(meta_tags@))->Ok_0,
        ),
        r is Err ==> generic_response(
            html@,
            debug,
            removal,
            metadata@,
            meta_tags_view(meta_tags@),
        )->Err_0.is_reported_by(r->Err_0),
{
    let body = body_of(html);
    let cleaned = if removal.remove_exact_selectors || removal.remove_partial_selectors {
        match strip_clutter(body.as_str(), removal) {
            Ok(c) => c,
            Err(e) => {
                return Err(e);
            },
        }
    } else {
        body
    };
    let content = standardize_content(cleaned.as_str(), metadata.title.as_str(), debug);
    let mut final_metadata = metadata.duplicate();
    final_metadata.word_count = count_words(content.as_str());
    final_metadata.parse_time = elapsed_since(start_time);
    if final_metadata.image.as_str().unicode_len() == 0 {
        final_metadata.image = match Trek::extract_first_image_from_content(content.as_str()) {
            Some(src) => src,
            None => String::new(),
        };
    }
    Ok(
        TrekResponse {
            content,
            content_markdown: None,
            extractor_type: None,
            meta_tags: copy_meta_tags(meta_tags),
            metadata: final_metadata,
        },
    )
}

/// What stands inside the body of a document.
pub fn body_of(html: &str) -> (r: String)
    ensures
        r@ == body_content(html@),
{
    let v = to_chars(html);
    let n = v.len();
    if let Some(start) = find_chars(&v, &to_chars("<body")) {
        let close = find_chars_from(&v, &to_chars(">"), start);
        let end = rfind_chars(&v, &to_chars("</body>"));
        match (close, end) {
            (Some(close), Some(end)) => {
                proof {
                    reveal_strlit(">");
                    lemma_find_from(v@, ">"@, start as int);
                    lemma_rfind_below(v@, "</body>"@, v@.len() as int + 1);
                    assert(close + 1 <= n);
                    assert(end <= n);
                }
                if close + 1 <= end {
                    return from_chars(&trim_chars(&slice_chars(&v, close + 1, end)));
                }
            },
            _ => {},
        }
    }
    from_chars(&strip_leading_newlines(&v))
}

} // verus!
