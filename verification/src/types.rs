//! The data that goes into and comes out of an extraction.

use crate::json::{Json, JsonValue};
use std::collections::HashMap;
use vstd::prelude::*;

verus! {

/// The text of an optional string.
pub open spec fn optional_text(s: Option<String>) -> Option<Seq<char>> {
    match s {
        Some(t) => Some(t@),
        None => None,
    }
}

/// A copy of an optional string.
pub fn copy_optional_text(s: &Option<String>) -> (r: Option<String>)
    ensures
        optional_text(r) == optional_text(*s),
{
    match s {
        Some(t) => Some(t.clone()),
        None => None,
    }
}

/// The shape of the output.
#[derive(Debug, Clone, Copy)]
pub struct OutputOptions {
    /// Convert the output to Markdown.
    pub markdown: bool,
    /// Return Markdown beside the HTML.
    pub separate_markdown: bool,
}

/// The two tiers of clutter removal, each switched on its own.
#[derive(Debug, Clone, Copy)]
pub struct RemovalOptions {
    /// Remove elements that match the exact structural rules.
    pub remove_exact_selectors: bool,
    /// Remove elements whose test attributes contain a noise pattern.
    pub remove_partial_selectors: bool,
}

/// What a caller can set.
#[derive(Debug, Clone)]
pub struct TrekOptions {
    /// Keep the content close to the source for inspection.
    pub debug: bool,
    /// The address of the page.
    pub url: Option<String>,
    pub output: OutputOptions,
    pub removal: RemovalOptions,
}

impl Default for TrekOptions {
    fn default() -> (r: Self)
        ensures
            !r.debug,
            r.url is None,
            !r.output.markdown,
            !r.output.separate_markdown,
            r.removal.remove_exact_selectors,
            r.removal.remove_partial_selectors,
    {
        TrekOptions {
            debug: false,
            url: None,
            output: OutputOptions { markdown: false, separate_markdown: false },
            removal: RemovalOptions { remove_exact_selectors: true, remove_partial_selectors: true },
        }
    }
}

impl TrekOptions {
    /// A copy of these options.
    pub fn duplicate(&self) -> (r: TrekOptions)
        ensures
            r.debug == self.debug,
            optional_text(r.url) == optional_text(self.url),
            r.output == self.output,
            r.removal == self.removal,
    {
        TrekOptions {
            debug: self.debug,
            url: copy_optional_text(&self.url),
            output: self.output,
            removal: self.removal,
        }
    }
}

/// One `<meta>` element: its `name`, its `property` and its `content`.
#[derive(Debug, Clone)]
pub struct MetaTagItem {
    pub name: Option<String>,
    pub property: Option<String>,
    pub content: String,
}

/// The mathematical value of a `MetaTagItem`.
pub ghost struct MetaTag {
    pub name: Option<Seq<char>>,
    pub property: Option<Seq<char>>,
    pub content: Seq<char>,
}

impl View for MetaTagItem {
    type V = MetaTag;

    open spec fn view(&self) -> MetaTag {
        MetaTag {
            name: optional_text(self.name),
            property: optional_text(self.property),
            content: self.content@,
        }
    }
}

impl MetaTagItem {
    /// A copy of this tag.
    pub fn duplicate(&self) -> (r: MetaTagItem)
        ensures
            r@ == self@,
    {
        MetaTagItem {
            name: copy_optional_text(&self.name),
            property: copy_optional_text(&self.property),
            content: self.content.clone(),
        }
    }
}

/// The values of a sequence of meta tags.
pub open spec fn meta_tags_view(tags: Seq<MetaTagItem>) -> Seq<MetaTag> {
    Seq::new(tags.len(), |i: int| tags[i]@)
}

/// A copy of a list of meta tags.
pub fn copy_meta_tags(tags: &Vec<MetaTagItem>) -> (r: Vec<MetaTagItem>)
    ensures
        meta_tags_view(r@) == meta_tags_view(tags@),
{
    let mut out: Vec<MetaTagItem> = Vec::new();
    let mut i: usize = 0;
    while i < tags.len()
        invariant
            i <= tags@.len(),
            out@.len() == i,
            forall|k: int| 0 <= k < i ==> (#[trigger] out@[k])@ == tags@[k]@,
        decreases tags@.len() - i,
    {
        out.push(tags[i].duplicate());
        i += 1;
    }
    assert(meta_tags_view(out@) =~= meta_tags_view(tags@));
    out
}

/// The values of a sequence of JSON values.
pub open spec fn json_view(values: Seq<JsonValue>) -> Seq<Json> {
    Seq::new(values.len(), |i: int| values[i]@)
}

/// A copy of a list of JSON values.
pub fn copy_json_values(values: &Vec<JsonValue>) -> (r: Vec<JsonValue>)
    ensures
        json_view(r@) == json_view(values@),
{
    let mut out: Vec<JsonValue> = Vec::new();
    let mut i: usize = 0;
    while i < values.len()
        invariant
            i <= values@.len(),
            out@.len() == i,
            forall|k: int| 0 <= k < i ==> (#[trigger] out@[k])@ == values@[k]@,
        decreases values@.len() - i,
    {
        out.push(values[i].duplicate());
        i += 1;
    }
    assert(json_view(out@) =~= json_view(values@));
    out
}

/// What the button of a mini-app embed does.
#[derive(Debug, Clone, Copy, PartialEq, Eq, Structural)]
pub enum MiniAppActionType {
    LaunchFrame,
    ViewToken,
}

/// The action behind the button of a mini-app embed.
#[derive(Debug, Clone)]
pub struct MiniAppAction {
    pub action_type: MiniAppActionType,
    /// The address the app opens.
    pub url: Option<String>,
    /// The name of the application.
    pub name: Option<String>,
    /// The image shown while the app loads.
    pub splash_image_url: Option<String>,
    /// The colour shown while the app loads.
    pub splash_background_color: Option<String>,
}

/// The mathematical value of a `MiniAppAction`.
pub ghost struct ActionModel {
    pub action_type: MiniAppActionType,
    pub url: Option<Seq<char>>,
    pub name: Option<Seq<char>>,
    pub splash_image_url: Option<Seq<char>>,
    pub splash_background_color: Option<Seq<char>>,
}

impl View for MiniAppAction {
    type V = ActionModel;

    open spec fn view(&self) -> ActionModel {
        ActionModel {
            action_type: self.action_type,
            url: optional_text(self.url),
            name: optional_text(self.name),
            splash_image_url: optional_text(self.splash_image_url),
            splash_background_color: optional_text(self.splash_background_color),
        }
    }
}

/// The button of a mini-app embed.
#[derive(Debug, Clone)]
pub struct MiniAppButton {
    pub title: String,
    pub action: MiniAppAction,
}

/// The mathematical value of a `MiniAppButton`.
pub ghost struct ButtonModel {
    pub title: Seq<char>,
    pub action: ActionModel,
}

impl View for MiniAppButton {
    type V = ButtonModel;

    open spec fn view(&self) -> ButtonModel {
        ButtonModel { title: self.title@, action: self.action@ }
    }
}

/// A mini-app embed: an interactive card that stands for the page.
#[derive(Debug, Clone)]
pub struct MiniAppEmbed {
    pub version: String,
    pub image_url: String,
    pub button: MiniAppButton,
}

/// The mathematical value of a `MiniAppEmbed`.
pub ghost struct EmbedModel {
    pub version: Seq<char>,
    pub image_url: Seq<char>,
    pub button: ButtonModel,
}

impl View for MiniAppEmbed {
    type V = EmbedModel;

    open spec fn view(&self) -> EmbedModel {
        EmbedModel { version: self.version@, image_url: self.image_url@, button: self.button@ }
    }
}

impl MiniAppEmbed {
    /// A copy of this embed.
    pub fn duplicate(&self) -> (r: MiniAppEmbed)
        ensures
            r@ == self@,
    {
        MiniAppEmbed {
            version: self.version.clone(),
            image_url: self.image_url.clone(),
            button: MiniAppButton {
                title: self.button.title.clone(),
                action: MiniAppAction {
                    action_type: self.button.action.action_type,
                    url: copy_optional_text(&self.button.action.url),
                    name: copy_optional_text(&self.button.action.name),
                    splash_image_url: copy_optional_text(&self.button.action.splash_image_url),
                    splash_background_color: copy_optional_text(
                        &self.button.action.splash_background_color,
                    ),
                },
            },
        }
    }
}

/// The value of an optional embed.
pub open spec fn optional_embed(e: Option<MiniAppEmbed>) -> Option<EmbedModel> {
    match e {
        Some(embed) => Some(embed@),
        None => None,
    }
}

/// What is known about a page beside its content.
#[derive(Debug, Clone)]
pub struct TrekMetadata {
    pub title: String,
    pub description: String,
    /// The host of the page's address, without a leading `www.`.
    pub domain: String,
    pub favicon: String,
    pub image: String,
    /// Milliseconds spent on the page.
    pub parse_time: u64,
    pub published: String,
    pub author: String,
    pub site: String,
    /// The structured-data blocks of the page, in document order.
    pub schema_org_data: Vec<JsonValue>,
    /// The number of words of the final content.
    pub word_count: usize,
    pub mini_app_embed: Option<MiniAppEmbed>,
}

/// The mathematical value of a `TrekMetadata`.
pub ghost struct Metadata {
    pub title: Seq<char>,
    pub description: Seq<char>,
    pub domain: Seq<char>,
    pub favicon: Seq<char>,
    pub image: Seq<char>,
    pub parse_time: u64,
    pub published: Seq<char>,
    pub author: Seq<char>,
    pub site: Seq<char>,
    pub schema_org_data: Seq<Json>,
    pub word_count: usize,
    pub mini_app_embed: Option<EmbedModel>,
}

impl View for TrekMetadata {
    type V = Metadata;

    open spec fn view(&self) -> Metadata {
        Metadata {
            title: self.title@,
            description: self.description@,
            domain: self.domain@,
            favicon: self.favicon@,
            image: self.image@,
            parse_time: self.parse_time,
            published: self.published@,
            author: self.author@,
            site: self.site@,
            schema_org_data: json_view(self.schema_org_data@),
            word_count: self.word_count,
            mini_app_embed: optional_embed(self.mini_app_embed),
        }
    }
}

impl Default for TrekMetadata {
    fn default() -> (r: Self)
        ensures
            r@ == Metadata::empty(),
    {
        let r = TrekMetadata {
            title: String::new(),
            description: String::new(),
            domain: String::new(),
            favicon: String::new(),
            image: String::new(),
            parse_time: 0,
            published: String::new(),
            author: String::new(),
            site: String::new(),
            schema_org_data: Vec::new(),
            word_count: 0,
            mini_app_embed: None,
        };
        assert(r@.schema_org_data =~= Seq::<Json>::empty());
        r
    }
}

impl Metadata {
    /// The metadata of a page of which nothing is known.
    pub open spec fn empty() -> Metadata {
        Metadata {
            title: Seq::empty(),
            description: Seq::empty(),
            domain: Seq::empty(),
            favicon: Seq::empty(),
            image: Seq::empty(),
            parse_time: 0,
            published: Seq::empty(),
            author: Seq::empty(),
            site: Seq::empty(),
            schema_org_data: Seq::empty(),
            word_count: 0,
            mini_app_embed: None,
        }
    }
}

impl TrekMetadata {
    /// A copy of this metadata.
    pub fn duplicate(&self) -> (r: TrekMetadata)
        ensures
            r@ == self@,
    {
        TrekMetadata {
            title: self.title.clone(),
            description: self.description.clone(),
            domain: self.domain.clone(),
            favicon: self.favicon.clone(),
            image: self.image.clone(),
            parse_time: self.parse_time,
            published: self.published.clone(),
            author: self.author.clone(),
            site: self.site.clone(),
            schema_org_data: copy_json_values(&self.schema_org_data),
            word_count: self.word_count,
            mini_app_embed: match &self.mini_app_embed {
                Some(e) => Some(e.duplicate()),
                None => None,
            },
        }
    }
}

/// What an extraction returns.
#[derive(Debug, Clone)]
pub struct TrekResponse {
    /// The cleaned content, as HTML.
    pub content: String,
    /// The content as Markdown, where it was asked for.
    pub content_markdown: Option<String>,
    /// The name of the site-specific extractor that produced the content.
    pub extractor_type: Option<String>,
    /// The meta tags of the page, in document order.
    pub meta_tags: Vec<MetaTagItem>,
    pub metadata: TrekMetadata,
}

/// The mathematical value of a `TrekResponse`.
pub ghost struct Response {
    pub content: Seq<char>,
    pub content_markdown: Option<Seq<char>>,
    pub extractor_type: Option<Seq<char>>,
    pub meta_tags: Seq<MetaTag>,
    pub metadata: Metadata,
}

impl View for TrekResponse {
    type V = Response;

    open spec fn view(&self) -> Response {
        Response {
            content: self.content@,
            content_markdown: optional_text(self.content_markdown),
            extractor_type: optional_text(self.extractor_type),
            meta_tags: meta_tags_view(self.meta_tags@),
            metadata: self.metadata@,
        }
    }
}

/// Named values that a site-specific extractor may hand back.
pub type ExtractorVariables = HashMap<String, String>;

/// What a site-specific extractor found. A field that is present replaces
/// what the metadata would otherwise say; an absent one leaves it alone.
#[derive(Debug, Clone)]
pub struct ExtractedContent {
    pub title: Option<String>,
    pub author: Option<String>,
    pub published: Option<String>,
    /// The content as plain text.
    pub content: Option<String>,
    /// The content as HTML.
    pub content_html: Option<String>,
    pub variables: Option<ExtractorVariables>,
}

/// The mathematical value of an `ExtractedContent`, without its variables.
pub ghost struct Extracted {
    pub title: Option<Seq<char>>,
    pub author: Option<Seq<char>>,
    pub published: Option<Seq<char>>,
    pub content: Option<Seq<char>>,
    pub content_html: Option<Seq<char>>,
}

impl View for ExtractedContent {
    type V = Extracted;

    open spec fn view(&self) -> Extracted {
        Extracted {
            title: optional_text(self.title),
            author: optional_text(self.author),
            published: optional_text(self.published),
            content: optional_text(self.content),
            content_html: optional_text(self.content_html),
        }
    }
}

impl Extracted {
    /// Nothing found.
    pub open spec fn empty() -> Extracted {
        Extracted { title: None, author: None, published: None, content: None, content_html: None }
    }
}

impl Default for ExtractedContent {
    fn default() -> (r: Self)
        ensures
            r@ == Extracted::empty(),
            r.variables is None,
    {
        ExtractedContent {
            title: None,
            author: None,
            published: None,
            content: None,
            content_html: None,
            variables: None,
        }
    }
}

} // verus!
