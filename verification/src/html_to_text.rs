//! Readable plain text from HTML.

use crate::markup::{
    document_walk, events_view, optional_texts, rewrite_document, rewritten, scan_document,
    Event, ScanEvent,
};
use crate::rewrite::{pass_selectors, skipped_selector_texts, RewritePass};
use crate::standardize::squeeze_blank_lines;
use crate::text::{
    from_chars, join_lines, join_lines_chars, split_lines, split_lines_chars,
    squeeze_whitespace, squeeze_whitespace_chars, texts, to_chars, trim, trim_chars, views,
    without_empty_ends,
};
use crate::types::optional_text;
use vstd::prelude::*;
use vstd::string::StringExecFns;

verus! {

/// A document without its `script`, `style` and `noscript` elements; the
/// document itself where the engine gives up.
pub open spec fn skipped_removed(html: Seq<char>) -> Seq<char> {
    match rewritten(html, skipped_selector_texts(), RewritePass::DropSkipped) {
        Ok(t) => t,
        Err(_) => html,
    }
}

/// Removes `script`, `style` and `noscript` elements.
pub fn remove_skip_elements(html: &str) -> (r: String)
    ensures
        r@ == skipped_removed(html@),
{
    let selectors = pass_selectors(RewritePass::DropSkipped);
    match rewrite_document(html, &selectors, RewritePass::DropSkipped) {
        Ok(t) => t,
        Err(_) => html.to_owned(),
    }
}

/// The selectors by which text is read; an event's `rule` is an index into
/// them. The last one matches every element and brings all text.
pub open spec fn text_selector_texts() -> Seq<Seq<char>> {
    seq![
        "br"@,
        "p, div, article, section, blockquote"@,
        "h1, h2, h3, h4, h5, h6"@,
        "li"@,
        "img"@,
        "*"@,
    ]
}

/// The one attribute that is read: an image's `alt`.
pub open spec fn text_attribute_names() -> Seq<Seq<char>> {
    seq!["alt"@]
}

/// `text` with a line feed at its end, unless it is empty or has one.
pub open spec fn on_new_line(text: Seq<char>) -> Seq<char> {
    if text.len() > 0 && text.last() != '\n' {
        text.push('\n')
    } else {
        text
    }
}

/// The text after one more event: a line break for `br`, a new line before
/// a block, a heading or a list item, a bullet for a list item, the `alt` of
/// an image in brackets, and every chunk of text as it stands.
pub open spec fn text_step(text: Seq<char>, event: Event) -> Seq<char> {
    match event {
        Event::Element { rule, attributes } => {
            if rule == 0 {
                text.push('\n')
            } else if rule == 1 || rule == 2 {
                on_new_line(text)
            } else if rule == 3 {
                on_new_line(text) + "• "@
            } else if rule == 4 {
                if attributes.len() > 0 && attributes[0] is Some && trim(attributes[0]->0).len()
                    > 0 {
                    text + " [Image: "@ + trim(attributes[0]->0) + "] "@
                } else {
                    text
                }
            } else {
                text
            }
        },
        Event::Text { rule, text: chunk, last_in_text_node } => {
            if rule == 5 {
                text + chunk
            } else {
                text
            }
        },
    }
}

/// The text after a sequence of events.
pub open spec fn text_of_events(events: Seq<Event>) -> Seq<char>
    decreases events.len(),
{
    if events.len() == 0 {
        Seq::empty()
    } else {
        text_step(text_of_events(events.drop_last()), events.last())
    }
}

/// Each line with its words joined by single spaces.
pub open spec fn squeeze_each(lines: Seq<Seq<char>>) -> Seq<Seq<char>> {
    Seq::new(lines.len(), |i: int| squeeze_whitespace(lines[i]))
}

/// A text cleaned up: in every line the words joined by single spaces, runs
/// of empty lines reduced to one, and no empty line at either end.
pub open spec fn cleaned_text(text: Seq<char>) -> Seq<char> {
    join_lines(without_empty_ends(squeeze_blank_lines(squeeze_each(split_lines(text)))))
}

/// Cleans up extracted text.
pub fn clean_text(text: &str) -> (r: String)
    ensures
        r@ == cleaned_text(text@),
{
    let lines = split_lines_chars(&to_chars(text));
    let ghost squeezed = squeeze_each(views(lines@));
    let mut kept: Vec<Vec<char>> = Vec::new();
    let mut after_empty: bool = false;
    let mut i: usize = 0;
    proof {
        assert(views(kept@) =~= Seq::<Seq<char>>::empty());
        assert(squeezed.skip(0) =~= squeezed);
        assert(Seq::<Seq<char>>::empty() + squeeze_blank_lines(squeezed) =~= squeeze_blank_lines(
            squeezed,
        ));
    }
    while i < lines.len()
        invariant
            i <= lines@.len(),
            squeezed == squeeze_each(views(lines@)),
            squeeze_blank_lines(squeezed) == views(kept@) + crate::standardize::squeeze_blank_after(
                squeezed.skip(i as int),
                after_empty,
            ),
        decreases lines@.len() - i,
    {
        let line = squeeze_whitespace_chars(&lines[i]);
        let empty = line.len() == 0;
        proof {
            let rest = squeezed.skip(i as int);
            assert(rest[0] == line@);
            assert(rest.drop_first() =~= squeezed.skip(i + 1));
            if !(empty && after_empty) {
                assert(views(kept@.push(line)) =~= views(kept@) + seq![line@]);
                assert(squeeze_blank_lines(squeezed) =~= views(kept@.push(line))
                    + crate::standardize::squeeze_blank_after(squeezed.skip(i + 1), empty));
            }
        }
        if !(empty && after_empty) {
            kept.push(line);
        }
        after_empty = empty;
        i += 1;
    }
    proof {
        assert(squeezed.skip(lines@.len() as int) =~= Seq::<Seq<char>>::empty());
        assert(views(kept@) + Seq::<Seq<char>>::empty() =~= views(kept@));
    }
    from_chars(&join_lines_chars(&crate::text::strip_empty_ends(&kept)))
}

/// The text after one more event.
fn advance_text(text: &mut String, event: &ScanEvent)
    ensures
        final(text)@ == text_step(old(text)@, event@),
{
    match event {
        ScanEvent::Element { rule, attributes } => {
            if *rule == 0 {
                text.push('\n');
            } else if *rule == 1 || *rule == 2 || *rule == 3 {
                let v = to_chars(text.as_str());
                if v.len() > 0 && v[v.len() - 1] != '\n' {
                    text.push('\n');
                }
                if *rule == 3 {
                    text.append("• ");
                }
            } else if *rule == 4 {
                if attributes.len() > 0 {
                    assert(optional_texts(attributes@)[0] == optional_text(attributes@[0]));
                    if let Some(alt) = &attributes[0] {
                        let trimmed = trim_chars(&to_chars(alt.as_str()));
                        if trimmed.len() > 0 {
                            text.append(" [Image: ");
                            text.append(from_chars(&trimmed).as_str());
                            text.append("] ");
                        }
                    }
                }
            }
        },
        ScanEvent::Text { rule, text: chunk, last_in_text_node } => {
            if *rule == 5 {
                text.append(chunk.as_str());
            }
        },
    }
}

/// The text that a sequence of events spells out.
pub fn text_from_events(events: &Vec<ScanEvent>) -> (r: String)
    ensures
        r@ == text_of_events(events_view(events@)),
{
    let mut text = String::new();
    let ghost all = events_view(events@);
    let mut i: usize = 0;
    proof {
        assert(all.take(0) =~= Seq::<Event>::empty());
    }
    while i < events.len()
        invariant
            i <= events@.len(),
            all == events_view(events@),
            text@ == text_of_events(all.take(i as int)),
        decreases events@.len() - i,
    {
        proof {
            assert(all.take(i + 1).drop_last() =~= all.take(i as int));
            assert(all.take(i + 1).last() == events@[i as int]@);
        }
        advance_text(&mut text, &events[i]);
        i += 1;
    }
    proof {
        assert(all.take(events@.len() as int) =~= all);
    }
    text
}

/// The plain text of a document: what the events of a walk spell out
/// after the skipped elements are gone, cleaned up. Where the engine gives
/// up on the document, the events up to that point count.
pub open spec fn plain_text(html: Seq<char>) -> Seq<char> {
    match document_walk(skipped_removed(html), text_selector_texts(), text_attribute_names()) {
        Some(walk) => cleaned_text(text_of_events(walk.events)),
        None => cleaned_text(Seq::empty()),
    }
}

/// Converts HTML to plain text that keeps the structure a reader needs:
/// paragraphs and headings on lines of their own, list items with bullets,
/// images by their `alt` text.
pub fn html_to_text(html: &str) -> (r: String)
    ensures
        r@ == plain_text(html@),
{
    let cleaned_html = remove_skip_elements(html);
    let selectors = vec![
        "br",
        "p, div, article, section, blockquote",
        "h1, h2, h3, h4, h5, h6",
        "li",
        "img",
        "*",
    ];
    let names = vec!["alt"];
    proof {
        assert(texts(selectors@) =~= text_selector_texts());
        assert(texts(names@) =~= text_attribute_names());
    }
    let text = match scan_document(cleaned_html.as_str(), &selectors, &names) {
        Ok(walk) => text_from_events(&walk.events),
        Err(_) => String::new(),
    };
    clean_text(text.as_str())
}

} // verus!
