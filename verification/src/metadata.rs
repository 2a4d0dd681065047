//! The metadata resolver: from what the collector found to one record, each
//! field taken from the first source that has it.

use crate::collector::{Collected, CollectedData};
use crate::json::{json_document, parse_json, Json, JsonValue};
use crate::pattern::{captured, first_capture};
use crate::text::{
    from_chars, slice_chars, starts_with, starts_with_chars, str_eq, str_starts_with, to_chars,
    trim, trim_chars,
};
use crate::types::{
    copy_json_values, json_view, meta_tags_view, optional_embed, optional_text, ActionModel,
    ButtonModel, EmbedModel, MetaTag, MetaTagItem, Metadata, MiniAppAction, MiniAppActionType,
    MiniAppButton, MiniAppEmbed, TrekMetadata,
};
use vstd::prelude::*;

verus! {

/// Matches a `<title>` element that stands on one line; group 1 is its text.
pub const TITLE_PATTERN: &'static str = "<title[^>]*>(.*?)</title>";

/// The first of two optional values that is there.
pub open spec fn or_else<T>(first: Option<T>, second: Option<T>) -> Option<T> {
    match first {
        Some(_) => first,
        None => second,
    }
}

/// A field that structured data can supply.
#[derive(Debug, Clone, Copy, PartialEq, Eq, Structural)]
pub enum SchemaField {
    Headline,
    Name,
    Description,
    Author,
    Published,
    Image,
}

/// The address that an `image` value gives: the value itself where it is a
/// string, its `url` where it is an object, and the same of its first item
/// where it is an array.
pub open spec fn image_address(image: Json) -> Option<Seq<char>> {
    or_else(
        image.text(),
        or_else(
            image.text_member("url"@),
            match image.items() {
                Some(items) => if items.len() > 0 {
                    or_else(items[0].text(), items[0].text_member("url"@))
                } else {
                    None
                },
                None => None,
            },
        ),
    )
}

/// What one structured-data value says for a field.
pub open spec fn schema_text(field: SchemaField, item: Json) -> Option<Seq<char>> {
    match field {
        SchemaField::Headline => item.text_member("headline"@),
        SchemaField::Name => item.text_member("name"@),
        SchemaField::Description => item.text_member("description"@),
        SchemaField::Author => match item.member("author"@) {
            Some(author) => or_else(author.text_member("name"@), author.text()),
            None => None,
        },
        SchemaField::Published => item.text_member("datePublished"@),
        SchemaField::Image => match item.member("image"@) {
            Some(image) => image_address(image),
            None => None,
        },
    }
}

/// What the structured data says for a field: the answer of the first value
/// that has one.
pub open spec fn first_schema_text(items: Seq<Json>, field: SchemaField) -> Option<Seq<char>>
    decreases items.len(),
{
    if items.len() == 0 {
        None
    } else {
        match schema_text(field, items[0]) {
            Some(t) => Some(t),
            None => first_schema_text(items.drop_first(), field),
        }
    }
}

/// How a meta tag is picked.
#[derive(Debug, Clone, Copy, PartialEq, Eq, Structural)]
pub enum TagSource {
    /// By its `name` attribute.
    Name,
    /// By its `property` attribute.
    Property,
    /// By its `property` attribute, and only with a content that is no
    /// absolute `http` or `https` address.
    PropertyNotUrl,
}

/// The text begins like an absolute `http` or `https` address.
pub open spec fn looks_like_url(s: Seq<char>) -> bool {
    starts_with(s, "http://"@) || starts_with(s, "https://"@)
}

/// The tag is the one that `source` and `key` ask for.
pub open spec fn tag_matches(tag: MetaTag, source: TagSource, key: Seq<char>) -> bool {
    match source {
        TagSource::Name => tag.name == Some(key),
        TagSource::Property => tag.property == Some(key),
        TagSource::PropertyNotUrl => tag.property == Some(key) && !looks_like_url(tag.content),
    }
}

/// The content of the first meta tag that `source` and `key` ask for.
pub open spec fn first_tag_content(tags: Seq<MetaTag>, source: TagSource, key: Seq<char>) -> Option<
    Seq<char>,
>
    decreases tags.len(),
{
    if tags.len() == 0 {
        None
    } else if tag_matches(tags[0], source, key) {
        Some(tags[0].content)
    } else {
        first_tag_content(tags.drop_first(), source, key)
    }
}

/// The title: the first `headline` of the structured data, then its first
/// `name`, then `og:title`, then `twitter:title`.
pub open spec fn title_from_data(schema: Seq<Json>, tags: Seq<MetaTag>) -> Option<Seq<char>> {
    or_else(
        first_schema_text(schema, SchemaField::Headline),
        or_else(
            first_schema_text(schema, SchemaField::Name),
            or_else(
                first_tag_content(tags, TagSource::Property, "og:title"@),
                first_tag_content(tags, TagSource::Property, "twitter:title"@),
            ),
        ),
    )
}

/// The description: structured data, then the `description` tag, then
/// `og:description`, then `twitter:description`.
pub open spec fn description_from_data(schema: Seq<Json>, tags: Seq<MetaTag>) -> Option<Seq<char>> {
    or_else(
        first_schema_text(schema, SchemaField::Description),
        or_else(
            first_tag_content(tags, TagSource::Name, "description"@),
            or_else(
                first_tag_content(tags, TagSource::Property, "og:description"@),
                first_tag_content(tags, TagSource::Property, "twitter:description"@),
            ),
        ),
    )
}

/// The author: structured data, then the `byl` tag, then the `author` tag,
/// then the first `article:author` that is no address.
pub open spec fn author_from_data(schema: Seq<Json>, tags: Seq<MetaTag>) -> Option<Seq<char>> {
    or_else(
        first_schema_text(schema, SchemaField::Author),
        or_else(
            first_tag_content(tags, TagSource::Name, "byl"@),
            or_else(
                first_tag_content(tags, TagSource::Name, "author"@),
                first_tag_content(tags, TagSource::PropertyNotUrl, "article:author"@),
            ),
        ),
    )
}

/// The date of publication: structured data, then
/// `article:published_time`, then the `publish_date` tag.
pub open spec fn published_from_data(schema: Seq<Json>, tags: Seq<MetaTag>) -> Option<Seq<char>> {
    or_else(
        first_schema_text(schema, SchemaField::Published),
        or_else(
            first_tag_content(tags, TagSource::Property, "article:published_time"@),
            first_tag_content(tags, TagSource::Name, "publish_date"@),
        ),
    )
}

/// The site name: `og:site_name`, then the `twitter:site` tag.
pub open spec fn site_from_data(tags: Seq<MetaTag>) -> Option<Seq<char>> {
    or_else(
        first_tag_content(tags, TagSource::Property, "og:site_name"@),
        first_tag_content(tags, TagSource::Name, "twitter:site"@),
    )
}

/// The image: structured data, then `og:image`, then the `twitter:image`
/// tag.
pub open spec fn image_from_data(schema: Seq<Json>, tags: Seq<MetaTag>) -> Option<Seq<char>> {
    or_else(
        first_schema_text(schema, SchemaField::Image),
        or_else(
            first_tag_content(tags, TagSource::Property, "og:image"@),
            first_tag_content(tags, TagSource::Name, "twitter:image"@),
        ),
    )
}

/// The four characters `www.`.
pub open spec fn www_prefix() -> Seq<char> {
    seq!['w', 'w', 'w', '.']
}

/// A host name without any leading `www.`.
pub open spec fn without_www(host: Seq<char>) -> Seq<char>
    decreases host.len(),
{
    if starts_with(host, www_prefix()) {
        without_www(host.skip(4))
    } else {
        host
    }
}

/// What `Url::parse` and then `Url::domain` return for an address: the
/// host, where the address is absolute and its host is a domain name.
pub uninterp spec fn url_domain(url: Seq<char>) -> Option<Seq<char>>;

/// `Url::parse`, then `Url::domain`: the domain name in `url`, or `None`
/// where the address does not parse or its host is no domain name.
#[verifier::external_body]
fn parse_domain(url: &str) -> (r: Option<String>)
    ensures
        optional_text(r) == url_domain(url@),
{
    Some(url::Url::parse(url).ok()?.domain()?.to_string())
}

/// The domain of an optional page address; empty where there is none.
pub open spec fn domain_of(url: Option<Seq<char>>) -> Seq<char> {
    match url {
        Some(u) => match url_domain(u) {
            Some(host) => without_www(host),
            None => Seq::empty(),
        },
        None => Seq::empty(),
    }
}

/// An optional member of an object that must be a string where it is
/// there: `Some(None)` where it is missing or null, `None` where it is
/// anything but a string.
pub open spec fn optional_member_text(object: Json, key: Seq<char>) -> Option<Option<Seq<char>>> {
    match object.member(key) {
        None => Some(None),
        Some(Json::Null) => Some(None),
        Some(Json::Text(t)) => Some(Some(t)),
        Some(_) => None,
    }
}

/// The action type that a text names.
pub open spec fn action_type_of(name: Seq<char>) -> Option<MiniAppActionType> {
    if name == "launch_frame"@ {
        Some(MiniAppActionType::LaunchFrame)
    } else if name == "view_token"@ {
        Some(MiniAppActionType::ViewToken)
    } else {
        None
    }
}

/// The action that a JSON object describes.
pub open spec fn action_from_json(value: Json) -> Option<ActionModel> {
    match (
        value.text_member("type"@),
        optional_member_text(value, "url"@),
        optional_member_text(value, "name"@),
        optional_member_text(value, "splashImageUrl"@),
        optional_member_text(value, "splashBackgroundColor"@),
    ) {
        (Some(kind), Some(url), Some(name), Some(image), Some(color)) => match action_type_of(
            kind,
        ) {
            Some(action_type) => Some(
                ActionModel {
                    action_type,
                    url,
                    name,
                    splash_image_url: image,
                    splash_background_color: color,
                },
            ),
            None => None,
        },
        _ => None,
    }
}

/// The button that a JSON object describes.
pub open spec fn button_from_json(value: Json) -> Option<ButtonModel> {
    match (value.text_member("title"@), value.member("action"@)) {
        (Some(title), Some(action)) => match action_from_json(action) {
            Some(a) => Some(ButtonModel { title, action: a }),
            None => None,
        },
        _ => None,
    }
}

/// The embed that a JSON object describes: `version`, `imageUrl` and
/// `button` must be there and of the right shape.
pub open spec fn embed_from_json(value: Json) -> Option<EmbedModel> {
    match (value.text_member("version"@), value.text_member("imageUrl"@), value.member("button"@)) {
        (Some(version), Some(image_url), Some(button)) => match button_from_json(button) {
            Some(b) => Some(EmbedModel { version, image_url, button: b }),
            None => None,
        },
        _ => None,
    }
}

/// The embed that a raw payload describes; `None` where there is no
/// payload, where it is not JSON, and where it has not the shape of an embed.
pub open spec fn embed_of(payload: Option<Seq<char>>) -> Option<EmbedModel> {
    match payload {
        Some(p) => match json_document(p) {
            Some(value) => embed_from_json(value),
            None => None,
        },
        None => None,
    }
}

/// The text of an optional value, empty where there is none.
pub open spec fn text_or_empty(value: Option<Seq<char>>) -> Seq<char> {
    match value {
        Some(t) => t,
        None => Seq::empty(),
    }
}

/// The metadata of a page, from what the collector found and the page's
/// address. Word count and parse time are left at zero.
pub open spec fn resolved(data: Collected, url: Option<Seq<char>>) -> Metadata {
    Metadata {
        title: text_or_empty(
            or_else(title_from_data(data.schema_org_data, data.meta_tags), data.title),
        ),
        description: text_or_empty(description_from_data(data.schema_org_data, data.meta_tags)),
        domain: domain_of(url),
        favicon: text_or_empty(data.favicon),
        image: text_or_empty(image_from_data(data.schema_org_data, data.meta_tags)),
        parse_time: 0,
        published: text_or_empty(published_from_data(data.schema_org_data, data.meta_tags)),
        author: text_or_empty(author_from_data(data.schema_org_data, data.meta_tags)),
        site: text_or_empty(site_from_data(data.meta_tags)),
        schema_org_data: data.schema_org_data,
        word_count: 0,
        mini_app_embed: embed_of(data.mini_app_embed),
    }
}

/// A structured-data headline is the title, whatever the names in the
/// structured data, the meta tags and the `<title>` element say: where some
/// value of the structured data has a headline, the resolved title is the
/// first headline; it is the headline of value number `k` where no value
/// before it has one.
pub proof fn lemma_headline_is_title(data: Collected, url: Option<Seq<char>>, k: int)
    requires
        0 <= k < data.schema_org_data.len(),
        data.schema_org_data[k].text_member("headline"@) is Some,
    ensures
        first_schema_text(data.schema_org_data, SchemaField::Headline) is Some,
        resolved(data, url).title == first_schema_text(
            data.schema_org_data,
            SchemaField::Headline,
        )->0,
        (forall|j: int|
            0 <= j < k ==> (#[trigger] data.schema_org_data[j]).text_member("headline"@) is None)
            ==> resolved(data, url).title == data.schema_org_data[k].text_member("headline"@)->0,
{
    lemma_some_schema_text(data.schema_org_data, SchemaField::Headline, k);
    if forall|j: int|
        0 <= j < k ==> (#[trigger] data.schema_org_data[j]).text_member("headline"@) is None {
        assert forall|j: int| 0 <= j < k implies schema_text(
            SchemaField::Headline,
            #[trigger] data.schema_org_data[j],
        ) is None by {
            assert(data.schema_org_data[j].text_member("headline"@) is None);
        }
        lemma_first_schema_text(data.schema_org_data, SchemaField::Headline, k);
    }
}

/// Where some value answers for a field, the structured data has an answer.
pub proof fn lemma_some_schema_text(items: Seq<Json>, field: SchemaField, k: int)
    requires
        0 <= k < items.len(),
        schema_text(field, items[k]) is Some,
    ensures
        first_schema_text(items, field) is Some,
    decreases k,
{
    if k > 0 && schema_text(field, items[0]) is None {
        let rest = items.drop_first();
        assert(rest[k - 1] == items[k]);
        lemma_some_schema_text(rest, field, k - 1);
    }
}

/// Where value number `k` is the first that answers for a field, its answer
/// is what the structured data says.
pub proof fn lemma_first_schema_text(items: Seq<Json>, field: SchemaField, k: int)
    requires
        0 <= k < items.len(),
        schema_text(field, items[k]) is Some,
        forall|j: int| 0 <= j < k ==> schema_text(field, #[trigger] items[j]) is None,
    ensures
        first_schema_text(items, field) == schema_text(field, items[k]),
    decreases k,
{
    if k > 0 {
        let rest = items.drop_first();
        assert(rest[k - 1] == items[k]);
        assert forall|j: int| 0 <= j < k - 1 implies schema_text(field, #[trigger] rest[j])
            is None by {
            assert(rest[j] == items[j + 1]);
        }
        lemma_first_schema_text(rest, field, k - 1);
    }
}

/// A content picked with `PropertyNotUrl` is no address.
pub proof fn lemma_picked_content_is_no_url(tags: Seq<MetaTag>, key: Seq<char>)
    ensures
        first_tag_content(tags, TagSource::PropertyNotUrl, key) matches Some(content)
            ==> !looks_like_url(content),
    decreases tags.len(),
{
    if tags.len() > 0 && !tag_matches(tags[0], TagSource::PropertyNotUrl, key) {
        lemma_picked_content_is_no_url(tags.drop_first(), key);
    }
}

/// An `article:author` that is an address never becomes the author: where
/// neither the structured data nor a `byl` or `author` tag names one, the
/// resolved author is no `http` or `https` address.
pub proof fn lemma_author_is_no_url(data: Collected, url: Option<Seq<char>>)
    requires
        first_schema_text(data.schema_org_data, SchemaField::Author) is None,
        first_tag_content(data.meta_tags, TagSource::Name, "byl"@) is None,
        first_tag_content(data.meta_tags, TagSource::Name, "author"@) is None,
    ensures
        !looks_like_url(resolved(data, url).author),
{
    lemma_picked_content_is_no_url(data.meta_tags, "article:author"@);
    reveal_strlit("http://");
    reveal_strlit("https://");
}

/// The text of an optional string slice.
pub open spec fn optional_str(s: Option<&str>) -> Option<Seq<char>> {
    match s {
        Some(t) => Some(t@),
        None => None,
    }
}

/// The first of two optional strings that is there.
fn first_of(first: Option<String>, second: Option<String>) -> (r: Option<String>)
    ensures
        optional_text(r) == or_else(optional_text(first), optional_text(second)),
{
    match first {
        Some(t) => Some(t),
        None => second,
    }
}

/// The string, or an empty one.
fn unwrap_or_empty(value: Option<String>) -> (r: String)
    ensures
        r@ == text_or_empty(optional_text(value)),
{
    match value {
        Some(t) => t,
        None => String::new(),
    }
}

/// The address that an `image` value gives.
fn image_address_of(image: &JsonValue) -> (r: Option<String>)
    ensures
        optional_text(r) == image_address(image@),
{
    if let Some(t) = image.as_str() {
        return Some(t.to_owned());
    }
    if let Some(t) = image.text_member("url") {
        return Some(t);
    }
    match image.as_array() {
        Some(items) => {
            if items.len() > 0 {
                assert(json_view(items@)[0] == items@[0]@);
                match items[0].as_str() {
                    Some(t) => Some(t.to_owned()),
                    None => items[0].text_member("url"),
                }
            } else {
                None
            }
        },
        None => None,
    }
}

/// What one structured-data value says for a field.
fn schema_text_of(field: SchemaField, item: &JsonValue) -> (r: Option<String>)
    ensures
        optional_text(r) == schema_text(field, item@),
{
    match field {
        SchemaField::Headline => item.text_member("headline"),
        SchemaField::Name => item.text_member("name"),
        SchemaField::Description => item.text_member("description"),
        SchemaField::Author => match item.get("author") {
            Some(author) => match author.text_member("name") {
                Some(t) => Some(t),
                None => match author.as_str() {
                    Some(t) => Some(t.to_owned()),
                    None => None,
                },
            },
            None => None,
        },
        SchemaField::Published => item.text_member("datePublished"),
        SchemaField::Image => match item.get("image") {
            Some(image) => image_address_of(image),
            None => None,
        },
    }
}

/// What the structured data says for a field.
pub fn find_schema_text(items: &Vec<JsonValue>, field: SchemaField) -> (r: Option<String>)
    ensures
        optional_text(r) == first_schema_text(json_view(items@), field),
{
    let ghost all = json_view(items@);
    let mut i: usize = 0;
    proof {
        assert(all.skip(0) =~= all);
    }
    while i < items.len()
        invariant
            i <= items@.len(),
            all == json_view(items@),
            first_schema_text(all, field) == first_schema_text(all.skip(i as int), field),
        decreases items@.len() - i,
    {
        proof {
            let rest = all.skip(i as int);
            assert(rest[0] == items@[i as int]@);
            assert(rest.drop_first() =~= all.skip(i + 1));
        }
        if let Some(t) = schema_text_of(field, &items[i]) {
            return Some(t);
        }
        i += 1;
    }
    None
}

/// Whether the text begins like an absolute `http` or `https` address.
pub fn is_url_like(s: &str) -> (r: bool)
    ensures
        r == looks_like_url(s@),
{
    str_starts_with(s, "http://") || str_starts_with(s, "https://")
}

/// Whether the tag is the one that `source` and `key` ask for.
fn tag_is(tag: &MetaTagItem, source: TagSource, key: &str) -> (r: bool)
    ensures
        r == tag_matches(tag@, source, key@),
{
    match source {
        TagSource::Name => crate::collector::is_text(&tag.name, key),
        TagSource::Property => crate::collector::is_text(&tag.property, key),
        TagSource::PropertyNotUrl => crate::collector::is_text(&tag.property, key) && !is_url_like(
            tag.content.as_str(),
        ),
    }
}

/// The content of the first meta tag that `source` and `key` ask for.
pub fn find_tag_content(tags: &Vec<MetaTagItem>, source: TagSource, key: &str) -> (r: Option<String>)
    ensures
        optional_text(r) == first_tag_content(meta_tags_view(tags@), source, key@),
{
    let ghost all = meta_tags_view(tags@);
    let mut i: usize = 0;
    proof {
        assert(all.skip(0) =~= all);
    }
    while i < tags.len()
        invariant
            i <= tags@.len(),
            all == meta_tags_view(tags@),
            first_tag_content(all, source, key@) == first_tag_content(
                all.skip(i as int),
                source,
                key@,
            ),
        decreases tags@.len() - i,
    {
        proof {
            let rest = all.skip(i as int);
            assert(rest[0] == tags@[i as int]@);
            assert(rest.drop_first() =~= all.skip(i + 1));
        }
        if tag_is(&tags[i], source, key) {
            return Some(tags[i].content.clone());
        }
        i += 1;
    }
    None
}

/// A host name without any leading `www.`.
pub fn strip_www(host: &str) -> (r: String)
    ensures
        r@ == without_www(host@),
{
    let v = to_chars(host);
    let prefix = to_chars("www.");
    proof {
        reveal_strlit("www.");
        assert(prefix@ =~= www_prefix());
        assert(v@.skip(0) =~= v@);
    }
    let mut start: usize = 0;
    while start <= v.len() && v.len() - start >= 4 && crate::text::matches_at(&v, &prefix, start)
        invariant
            start <= v@.len(),
            prefix@ == www_prefix(),
            without_www(v@) == without_www(v@.skip(start as int)),
        decreases v@.len() - start,
    {
        proof {
            let rest = v@.skip(start as int);
            assert(rest.subrange(0, 4) =~= v@.subrange(start as int, start + 4));
            assert(starts_with(rest, www_prefix()));
            assert(rest.skip(4) =~= v@.skip(start + 4));
        }
        start += 4;
    }
    proof {
        let rest = v@.skip(start as int);
        if rest.len() >= 4 {
            assert(rest.subrange(0, 4) =~= v@.subrange(start as int, start + 4));
        }
        assert(!starts_with(rest, www_prefix()));
        assert(rest =~= v@.subrange(start as int, v@.len() as int));
    }
    from_chars(&slice_chars(&v, start, v.len()))
}

/// An optional member of an object that must be a string where it is there.
fn optional_member_of(object: &JsonValue, key: &str) -> (r: Option<Option<String>>)
    ensures
        r is Some <==> optional_member_text(object@, key@) is Some,
        r is Some ==> optional_text(r->0) == optional_member_text(object@, key@)->0,
{
    match object.get(key) {
        None => Some(None),
        Some(JsonValue::Null) => Some(None),
        Some(JsonValue::Text(t)) => Some(Some(t.clone())),
        Some(_) => None,
    }
}

/// The action type that a text names.
fn action_type_named(name: &str) -> (r: Option<MiniAppActionType>)
    ensures
        r == action_type_of(name@),
{
    if str_eq(name, "launch_frame") {
        Some(MiniAppActionType::LaunchFrame)
    } else if str_eq(name, "view_token") {
        Some(MiniAppActionType::ViewToken)
    } else {
        None
    }
}

/// The action that a JSON object describes.
fn action_of(value: &JsonValue) -> (r: Option<MiniAppAction>)
    ensures
        r is Some <==> action_from_json(value@) is Some,
        r is Some ==> r->0@ == action_from_json(value@)->0,
{
    let kind = value.text_member("type");
    let url = optional_member_of(value, "url");
    let name = optional_member_of(value, "name");
    let image = optional_member_of(value, "splashImageUrl");
    let color = optional_member_of(value, "splashBackgroundColor");
    match (kind, url, name, image, color) {
        (Some(kind), Some(url), Some(name), Some(image), Some(color)) => match action_type_named(
            kind.as_str(),
        ) {
            Some(action_type) => Some(
                MiniAppAction {
                    action_type,
                    url,
                    name,
                    splash_image_url: image,
                    splash_background_color: color,
                },
            ),
            None => None,
        },
        _ => None,
    }
}

/// The embed that a JSON object describes.
pub fn embed_from_value(value: &JsonValue) -> (r: Option<MiniAppEmbed>)
    ensures
        optional_embed(r) == embed_from_json(value@),
{
    let version = value.text_member("version");
    let image_url = value.text_member("imageUrl");
    match (version, image_url, value.get("button")) {
        (Some(version), Some(image_url), Some(button)) => {
            match (button.text_member("title"), button.get("action")) {
                (Some(title), Some(action)) => match action_of(action) {
                    Some(a) => Some(
                        MiniAppEmbed { version, image_url, button: MiniAppButton { title, action: a } },
                    ),
                    None => None,
                },
                _ => None,
            }
        },
        _ => None,
    }
}

/// The embed that a raw payload describes.
pub fn parse_embed(payload: &Option<String>) -> (r: Option<MiniAppEmbed>)
    ensures
        optional_embed(r) == embed_of(optional_text(*payload)),
{
    match payload {
        Some(p) => match parse_json(p.as_str()) {
            Some(value) => embed_from_value(&value),
            None => None,
        },
        None => None,
    }
}

/// The metadata resolver.
#[derive(Debug)]
pub struct MetadataExtractor;

impl MetadataExtractor {
    /// Resolves the metadata of a page from what the collector found and the
    /// page's address. Every field has a value: a source that is missing
    /// gives way to the next, and the last gives way to the empty text.
    pub fn extract_from_collected_data(data: &CollectedData, url: Option<&str>) -> (r: TrekMetadata)
        ensures
            r@ == resolved(data@, optional_str(url)),
    {
        let title = first_of(
            Self::extract_title_from_data(&data.schema_org_data, &data.meta_tags),
            crate::types::copy_optional_text(&data.title),
        );
        let domain = match url {
            Some(u) => match parse_domain(u) {
                Some(host) => strip_www(host.as_str()),
                None => String::new(),
            },
            None => String::new(),
        };
        TrekMetadata {
            title: unwrap_or_empty(title),
            description: unwrap_or_empty(
                Self::extract_description(&data.schema_org_data, &data.meta_tags),
            ),
            domain,
            favicon: unwrap_or_empty(crate::types::copy_optional_text(&data.favicon)),
            image: unwrap_or_empty(Self::extract_image(&data.schema_org_data, &data.meta_tags)),
            parse_time: 0,
            published: unwrap_or_empty(
                Self::extract_published_date(&data.schema_org_data, &data.meta_tags),
            ),
            author: unwrap_or_empty(Self::extract_author(&data.schema_org_data, &data.meta_tags)),
            site: unwrap_or_empty(Self::extract_site_name(&data.meta_tags)),
            schema_org_data: copy_json_values(&data.schema_org_data),
            word_count: 0,
            mini_app_embed: parse_embed(&data.mini_app_embed),
        }
    }

    /// The metadata that the markup alone gives: the text of the first
    /// `<title>` element that stands on one line, trimmed.
    pub fn extract(html: &str) -> (r: TrekMetadata)
        ensures
            r@ == (Metadata {
                title: match captured(TITLE_PATTERN@, html@, 1) {
                    Some(t) => trim(t),
                    None => Seq::empty(),
                },
                ..Metadata::empty()
            }),
    {
        let mut metadata = TrekMetadata::default();
        if let Some(t) = first_capture(TITLE_PATTERN, html, 1) {
            metadata.title = from_chars(&trim_chars(&to_chars(t.as_str())));
        }
        metadata
    }

    /// The title that structured data and meta tags give.
    pub fn extract_title_from_data(schema_org_data: &Vec<JsonValue>, meta_tags: &Vec<MetaTagItem>) -> (r:
        Option<String>)
        ensures
            optional_text(r) == title_from_data(
                json_view(schema_org_data@),
                meta_tags_view(meta_tags@),
            ),
    {
        first_of(
            find_schema_text(schema_org_data, SchemaField::Headline),
            first_of(
                find_schema_text(schema_org_data, SchemaField::Name),
                first_of(
                    find_tag_content(meta_tags, TagSource::Property, "og:title"),
                    find_tag_content(meta_tags, TagSource::Property, "twitter:title"),
                ),
            ),
        )
    }

    /// The description that structured data and meta tags give.
    pub fn extract_description(schema_org_data: &Vec<JsonValue>, meta_tags: &Vec<MetaTagItem>) -> (r:
        Option<String>)
        ensures
            optional_text(r) == description_from_data(
                json_view(schema_org_data@),
                meta_tags_view(meta_tags@),
            ),
    {
        first_of(
            find_schema_text(schema_org_data, SchemaField::Description),
            first_of(
                find_tag_content(meta_tags, TagSource::Name, "description"),
                first_of(
                    find_tag_content(meta_tags, TagSource::Property, "og:description"),
                    find_tag_content(meta_tags, TagSource::Property, "twitter:description"),
                ),
            ),
        )
    }

    /// The author that structured data and meta tags give.
    pub fn extract_author(schema_org_data: &Vec<JsonValue>, meta_tags: &Vec<MetaTagItem>) -> (r:
        Option<String>)
        ensures
            optional_text(r) == author_from_data(
                json_view(schema_org_data@),
                meta_tags_view(meta_tags@),
            ),
    {
        first_of(
            find_schema_text(schema_org_data, SchemaField::Author),
            first_of(
                find_tag_content(meta_tags, TagSource::Name, "byl"),
                first_of(
                    find_tag_content(meta_tags, TagSource::Name, "author"),
                    find_tag_content(meta_tags, TagSource::PropertyNotUrl, "article:author"),
                ),
            ),
        )
    }

    /// The date of publication that structured data and meta tags give.
    pub fn extract_published_date(schema_org_data: &Vec<JsonValue>, meta_tags: &Vec<MetaTagItem>) -> (r:
        Option<String>)
        ensures
            optional_text(r) == published_from_data(
                json_view(schema_org_data@),
                meta_tags_view(meta_tags@),
            ),
    {
        first_of(
            find_schema_text(schema_org_data, SchemaField::Published),
            first_of(
                find_tag_content(meta_tags, TagSource::Property, "article:published_time"),
                find_tag_content(meta_tags, TagSource::Name, "publish_date"),
            ),
        )
    }

    /// The site name that the meta tags give.
    pub fn extract_site_name(meta_tags: &Vec<MetaTagItem>) -> (r: Option<String>)
        ensures
            optional_text(r) == site_from_data(meta_tags_view(meta_tags@)),
    {
        first_of(
            find_tag_content(meta_tags, TagSource::Property, "og:site_name"),
            find_tag_content(meta_tags, TagSource::Name, "twitter:site"),
        )
    }

    /// The image that structured data and meta tags give.
    pub fn extract_image(schema_org_data: &Vec<JsonValue>, meta_tags: &Vec<MetaTagItem>) -> (r:
        Option<String>)
        ensures
            optional_text(r) == image_from_data(
                json_view(schema_org_data@),
                meta_tags_view(meta_tags@),
            ),
    {
        first_of(
            find_schema_text(schema_org_data, SchemaField::Image),
            first_of(
                find_tag_content(meta_tags, TagSource::Property, "og:image"),
                find_tag_content(meta_tags, TagSource::Name, "twitter:image"),
            ),
        )
    }
}

} // verus!
