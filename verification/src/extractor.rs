//! Site-specific extractors and their registry.

use crate::error::TrekError;
use crate::extractors::farcaster::{is_mini_app_address, mini_app_extraction, FarcasterExtractor};
use crate::json::{Json, JsonValue};
use crate::text::{
    find, find_chars, find_chars_from, find_from, from_chars, lemma_find_from, occurs_at,
    slice_chars, to_chars, trim, trim_chars,
};
use crate::types::{json_view, Extracted, ExtractedContent};
use vstd::prelude::*;

verus! {

/// An extractor for the pages of one site. A caller may bring its own; the
/// library promises nothing of what such an extractor answers.
pub trait Extractor: Send + Sync {
    /// Whether this extractor can handle a page with this address and this
    /// structured data.
    fn can_extract(&self, url: &str, schema_org_data: &Vec<JsonValue>) -> bool;

    /// Extracts content from a document.
    fn extract_from_html(&self, html: &str) -> Result<ExtractedContent, TrekError>;

    /// The name of this extractor.
    fn name(&self) -> &'static str;
}

/// The seven characters `<title>`.
pub open spec fn title_open() -> Seq<char> {
    seq!['<', 't', 'i', 't', 'l', 'e', '>']
}

/// The eight characters `</title>`.
pub open spec fn title_close() -> Seq<char> {
    seq!['<', '/', 't', 'i', 't', 'l', 'e', '>']
}

/// The text between the first `<title>` and the first `</title>` at or
/// after it, trimmed.
pub open spec fn plain_title(html: Seq<char>) -> Option<Seq<char>> {
    match find(html, title_open()) {
        Some(start) => match find_from(html, title_close(), start) {
            Some(end) => Some(trim(html.subrange(start + 7, end))),
            None => None,
        },
        None => None,
    }
}

/// A closing title tag cannot begin inside an opening one.
pub proof fn lemma_title_close_after_open(html: Seq<char>, start: int, end: int)
    requires
        occurs_at(html, title_open(), start),
        occurs_at(html, title_close(), end),
        start <= end,
    ensures
        start + 7 <= end,
{
    if end < start + 7 {
        let k = end - start;
        assert(html.subrange(start, start + 7)[k] == html[end]);
        assert(html.subrange(end, end + 8)[0] == html[end]);
        assert(html[end] == '<');
        assert(k == 0);
        assert(html.subrange(start, start + 7)[1] == html[start + 1]);
        assert(html.subrange(end, end + 8)[1] == html[end + 1]);
    }
}

/// The fallback extractor. It accepts no page, so that the pipeline's own
/// generic path does the work.
#[derive(Debug, Clone, Copy)]
pub struct GenericExtractor;

impl Extractor for GenericExtractor {
    fn can_extract(&self, url: &str, schema_org_data: &Vec<JsonValue>) -> (r: bool)
        ensures
            !r,
    {
        false
    }

    fn extract_from_html(&self, html: &str) -> (r: Result<ExtractedContent, TrekError>)
        ensures
            r is Ok,
            r->Ok_0@ == (Extracted { title: plain_title(html@), ..Extracted::empty() }),
    {
        let mut content = ExtractedContent::default();
        let v = to_chars(html);
        let open = to_chars("<title>");
        let close = to_chars("</title>");
        proof {
            reveal_strlit("<title>");
            reveal_strlit("</title>");
            assert(open@ =~= title_open());
            assert(close@ =~= title_close());
        }
        if let Some(start) = find_chars(&v, &open) {
            if let Some(end) = find_chars_from(&v, &close, start) {
                proof {
                    lemma_find_from(v@, open@, 0);
                    lemma_find_from(v@, close@, start as int);
                    lemma_title_close_after_open(v@, start as int, end as int);
                }
                let title = trim_chars(&slice_chars(&v, start + 7, end));
                content.title = Some(from_chars(&title));
            }
        }
        Ok(content)
    }

    fn name(&self) -> (r: &'static str)
        ensures
            r@ == "generic"@,
    {
        "generic"
    }
}

/// One entry of the registry: one of the two extractors that come with the
/// library, or one that a caller brought.
pub enum Registered {
    Generic(GenericExtractor),
    Farcaster(FarcasterExtractor),
    Custom(Box<dyn Extractor>),
}

impl Registered {
    /// Whether the entry accepts a page, where the library knows: `None`
    /// for an extractor that a caller brought.
    pub open spec fn verdict(&self, url: Seq<char>) -> Option<bool> {
        match self {
            Registered::Generic(_) => Some(false),
            Registered::Farcaster(_) => Some(is_mini_app_address(url)),
            Registered::Custom(_) => None,
        }
    }

    /// The entry's name, where the library knows it.
    pub open spec fn label(&self) -> Option<Seq<char>> {
        match self {
            Registered::Generic(_) => Some("generic"@),
            Registered::Farcaster(_) => Some("farcaster"@),
            Registered::Custom(_) => None,
        }
    }

    /// What the entry finds in a document, where the library knows it.
    pub open spec fn extraction(&self, html: Seq<char>) -> Option<Extracted> {
        match self {
            Registered::Generic(_) => Some(
                Extracted { title: plain_title(html), ..Extracted::empty() },
            ),
            Registered::Farcaster(_) => Some(mini_app_extraction(html)),
            Registered::Custom(_) => None,
        }
    }
}

impl Extractor for Registered {
    fn can_extract(&self, url: &str, schema_org_data: &Vec<JsonValue>) -> (r: bool)
        ensures
            self.verdict(url@) is Some ==> r == self.verdict(url@)->0,
    {
        match self {
            Registered::Generic(e) => e.can_extract(url, schema_org_data),
            Registered::Farcaster(e) => e.can_extract(url, schema_org_data),
            Registered::Custom(e) => e.can_extract(url, schema_org_data),
        }
    }

    fn extract_from_html(&self, html: &str) -> (r: Result<ExtractedContent, TrekError>)
        ensures
            self.extraction(html@) is Some ==> r is Ok && r->Ok_0@ == self.extraction(html@)->0,
    {
        match self {
            Registered::Generic(e) => e.extract_from_html(html),
            Registered::Farcaster(e) => e.extract_from_html(html),
            Registered::Custom(e) => e.extract_from_html(html),
        }
    }

    fn name(&self) -> (r: &'static str)
        ensures
            self.label() is Some ==> r@ == self.label()->0,
    {
        match self {
            Registered::Generic(e) => e.name(),
            Registered::Farcaster(e) => e.name(),
            Registered::Custom(e) => e.name(),
        }
    }
}

/// The entry for an extractor that a caller brings.
fn custom_entry(extractor: Box<dyn Extractor>) -> (r: Registered)
    ensures
        r == Registered::Custom(extractor),
{
    Registered::Custom(extractor)
}

/// The entry that holds an extractor that a caller brought.
pub open spec fn custom(extractor: Box<dyn Extractor>) -> Registered {
    Registered::Custom(extractor)
}

/// No entry before index `k` is known to accept the page.
pub open spec fn none_accepts_before(entries: Seq<Registered>, url: Seq<char>, k: int) -> bool {
    forall|j: int| 0 <= j < k ==> (#[trigger] entries[j]).verdict(url) != Some(true)
}

/// The index of the first entry at or after `from` that accepts the page,
/// in a registry of the library's own extractors.
pub open spec fn first_accepting(entries: Seq<Registered>, url: Seq<char>, from: int) -> Option<int>
    decreases entries.len() - from,
{
    if from < 0 || from >= entries.len() {
        None
    } else if entries[from].verdict(url) == Some(true) {
        Some(from)
    } else {
        first_accepting(entries, url, from + 1)
    }
}

/// `first_accepting` returns the first entry known to accept, and `None`
/// exactly when there is none.
pub proof fn lemma_first_accepting(entries: Seq<Registered>, url: Seq<char>, from: int)
    requires
        0 <= from,
    ensures
        match first_accepting(entries, url, from) {
            Some(i) => from <= i < entries.len() && entries[i].verdict(url) == Some(true)
                && forall|j: int|
                from <= j < i ==> (#[trigger] entries[j]).verdict(url) != Some(true),
            None => forall|j: int|
                from <= j < entries.len() ==> (#[trigger] entries[j]).verdict(url) != Some(true),
        },
    decreases entries.len() - from,
{
    if from < entries.len() && entries[from].verdict(url) != Some(true) {
        lemma_first_accepting(entries, url, from + 1);
    }
}

/// The extractors in the order in which they were registered.
pub struct ExtractorRegistry {
    pub extractors: Vec<Registered>,
}

impl ExtractorRegistry {
    /// Every entry is one of the library's own extractors.
    pub open spec fn is_builtin(&self) -> bool {
        forall|i: int| 0 <= i < self.extractors@.len() ==> !((#[trigger] self.extractors@[i]) is Custom)
    }

    /// The entry that handles a page in a registry of the library's own
    /// extractors: the first that accepts it.
    pub open spec fn chosen(&self, url: Seq<char>) -> Option<Registered> {
        match first_accepting(self.extractors@, url, 0) {
            Some(i) => Some(self.extractors@[i]),
            None => None,
        }
    }

    /// A registry without extractors.
    pub fn new() -> (r: Self)
        ensures
            r.extractors@.len() == 0,
    {
        ExtractorRegistry { extractors: Vec::new() }
    }

    /// Appends an entry.
    pub fn add(&mut self, entry: Registered)
        ensures
            final(self).extractors@ == old(self).extractors@.push(entry),
    {
        self.extractors.push(entry);
    }

    /// Appends an extractor that a caller brings: the entries are those
    /// before, then the entry that holds it.
    pub fn register(&mut self, extractor: Box<dyn Extractor>)
        ensures
            final(self).extractors@ == old(self).extractors@.push(custom(extractor)),
            final(self).extractors@.len() == old(self).extractors@.len() + 1,
            final(self).extractors@.drop_last() == old(self).extractors@,
            final(self).extractors@.last() is Custom,
    {
        self.add(custom_entry(extractor));
        assert(self.extractors@.drop_last() =~= old(self).extractors@);
    }

    /// The first registered extractor that accepts the page, if there is
    /// one. An entry of the library's own is asked by its rule; one that a
    /// caller brought answers for itself. So the result is an entry that is
    /// not known to refuse, and no entry before it is known to accept; in a
    /// registry of the library's own extractors it is the first that accepts.
    pub fn find_extractor_from_data(&self, url: &str, schema_org_data: &Vec<JsonValue>) -> (r: Option<
        &Registered,
    >)
        ensures
            match r {
                Some(entry) => exists|k: int|
                    0 <= k < self.extractors@.len() && *entry == #[trigger] self.extractors@[k]
                        && entry.verdict(url@) != Some(false) && none_accepts_before(
                        self.extractors@,
                        url@,
                        k,
                    ),
                None => none_accepts_before(self.extractors@, url@, self.extractors@.len() as int),
            },
            self.is_builtin() ==> (r is Some <==> self.chosen(url@) is Some),
            self.is_builtin() && r is Some ==> *r->0 == self.chosen(url@)->0,
    {
        let mut i: usize = 0;
        proof {
            lemma_first_accepting(self.extractors@, url@, 0);
        }
        while i < self.extractors.len()
            invariant
                i <= self.extractors@.len(),
                none_accepts_before(self.extractors@, url@, i as int),
            decreases self.extractors@.len() - i,
        {
            if self.extractors[i].can_extract(url, schema_org_data) {
                let entry = &self.extractors[i];
                proof {
                    assert(*entry == self.extractors@[i as int]);
                    lemma_first_accepting(self.extractors@, url@, 0);
                    if self.is_builtin() {
                        assert(!(self.extractors@[i as int] is Custom));
                        assert(self.extractors@[i as int].verdict(url@) == Some(true));
                    }
                }
                return Some(entry);
            }
            i += 1;
        }
        proof {
            lemma_first_accepting(self.extractors@, url@, 0);
        }
        None
    }
}

impl Default for ExtractorRegistry {
    fn default() -> (r: Self)
        ensures
            r.extractors@.len() == 0,
    {
        Self::new()
    }
}

} // verus!
