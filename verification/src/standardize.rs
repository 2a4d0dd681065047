//! The standardizer: whitespace, comments, empty elements and wrappers.

use crate::markup::{rewrite_document, rewritten};
use crate::rewrite::{pass_selectors, wrapper_selector_texts, RewritePass};
use crate::text::{
    collapse_spaces, collapse_spaces_chars, first_line_len, from_chars, is_whitespace, join_lines,
    join_lines_chars, join_rest, leading_whitespace, lemma_first_line_len_is,
    lemma_leading_whitespace, lemma_leading_whitespace_is, lemma_trailing_whitespace,
    lemma_trailing_whitespace_is, split_lines, split_lines_chars, to_chars, trailing_whitespace,
    trim, trim_chars, trim_end, trim_start, views, without_empty_ends, without_leading_empty,
    without_trailing_empty,
};
use crate::utils::{substitute, substituted};
use vstd::prelude::*;

verus! {

/// Matches an HTML comment, up to the first `-->` behind its opening, on
/// one line or over several.
pub const COMMENT_PATTERN: &'static str = "(?s)<!--.*?-->";

/// Matches a paragraph that holds nothing but whitespace.
pub const EMPTY_PARAGRAPH_PATTERN: &'static str = "<p[^>]*>\\s*</p>";

/// Matches a `div` that holds nothing but whitespace.
pub const EMPTY_DIV_PATTERN: &'static str = "<div[^>]*>\\s*</div>";

/// Each line without its leading and trailing whitespace.
pub open spec fn trim_each(lines: Seq<Seq<char>>) -> Seq<Seq<char>> {
    Seq::new(lines.len(), |i: int| trim(lines[i]))
}

/// The lines without every empty line that follows an empty line;
/// `after_empty` says that an empty line stands before the first of them.
pub open spec fn squeeze_blank_after(lines: Seq<Seq<char>>, after_empty: bool) -> Seq<Seq<char>>
    decreases lines.len(),
{
    if lines.len() == 0 {
        Seq::empty()
    } else if lines[0].len() == 0 {
        if after_empty {
            squeeze_blank_after(lines.drop_first(), true)
        } else {
            seq![lines[0]] + squeeze_blank_after(lines.drop_first(), true)
        }
    } else {
        seq![lines[0]] + squeeze_blank_after(lines.drop_first(), false)
    }
}

/// The lines with every run of empty lines reduced to one empty line.
pub open spec fn squeeze_blank_lines(lines: Seq<Seq<char>>) -> Seq<Seq<char>> {
    squeeze_blank_after(lines, false)
}

/// The lines of a text after whitespace cleanup: runs of spaces reduced to
/// one space, every line trimmed, runs of empty lines reduced to one.
pub open spec fn clean_lines(s: Seq<char>) -> Seq<Seq<char>> {
    squeeze_blank_lines(trim_each(split_lines(collapse_spaces(s))))
}

/// A text with its whitespace standardized: the cleaned lines joined by line
/// feeds, without whitespace at either end.
pub open spec fn spaces_standardized(s: Seq<char>) -> Seq<char> {
    trim(join_lines(clean_lines(s)))
}

/// Reduces runs of spaces to one space, trims every line, reduces runs of
/// empty lines to one and trims the whole.
pub fn standardize_spaces(html: &str) -> (r: String)
    ensures
        r@ == spaces_standardized(html@),
{
    let collapsed = collapse_spaces_chars(&to_chars(html));
    let lines = split_lines_chars(&collapsed);
    let ghost trimmed = trim_each(views(lines@));
    let mut cleaned: Vec<Vec<char>> = Vec::new();
    let mut after_empty: bool = false;
    let mut i: usize = 0;
    proof {
        assert(views(cleaned@) =~= Seq::<Seq<char>>::empty());
        assert(trimmed.skip(0) =~= trimmed);
        assert(Seq::<Seq<char>>::empty() + squeeze_blank_lines(trimmed) =~= squeeze_blank_lines(
            trimmed,
        ));
    }
    while i < lines.len()
        invariant
            i <= lines@.len(),
            trimmed == trim_each(views(lines@)),
            squeeze_blank_lines(trimmed) == views(cleaned@) + squeeze_blank_after(
                trimmed.skip(i as int),
                after_empty,
            ),
        decreases lines@.len() - i,
    {
        let line = trim_chars(&lines[i]);
        let empty = line.len() == 0;
        proof {
            let rest = trimmed.skip(i as int);
            assert(rest[0] == line@);
            assert(rest.drop_first() =~= trimmed.skip(i + 1));
            if !(empty && after_empty) {
                assert(views(cleaned@.push(line)) =~= views(cleaned@) + seq![line@]);
                assert(squeeze_blank_lines(trimmed) =~= views(cleaned@.push(line))
                    + squeeze_blank_after(trimmed.skip(i + 1), empty));
            }
        }
        if !(empty && after_empty) {
            cleaned.push(line);
        }
        after_empty = empty;
        i += 1;
    }
    proof {
        assert(trimmed.skip(lines@.len() as int) =~= Seq::<Seq<char>>::empty());
        assert(views(cleaned@) + Seq::<Seq<char>>::empty() =~= views(cleaned@));
    }
    from_chars(&trim_chars(&join_lines_chars(&cleaned)))
}

/// A text without the comments that `COMMENT_PATTERN` matches.
pub open spec fn comments_removed(s: Seq<char>) -> Seq<char> {
    substituted(COMMENT_PATTERN@, s, ""@)
}

/// Removes the HTML comments, those that span lines too.
pub fn remove_html_comments(html: &str) -> (r: String)
    ensures
        r@ == comments_removed(html@),
{
    substitute(COMMENT_PATTERN, html, "")
}

/// Reserved for turning elements with a heading role into headings; for now
/// the text comes back as it is.
pub fn standardize_headings(html: &str, title: &str) -> (r: String)
    ensures
        r@ == html@,
{
    html.to_owned()
}

/// Reserved for stripping attributes; for now the text comes back as it is.
pub fn strip_unwanted_attributes(html: &str, debug: bool) -> (r: String)
    ensures
        r@ == html@,
{
    html.to_owned()
}

/// Reserved for dropping a heading at the end; for now the text comes back
/// as it is.
pub fn remove_trailing_headings(html: &str) -> (r: String)
    ensures
        r@ == html@,
{
    html.to_owned()
}

/// A text without its empty paragraphs and, after that, its empty `div`s.
pub open spec fn empty_elements_removed(s: Seq<char>) -> Seq<char> {
    substituted(EMPTY_DIV_PATTERN@, substituted(EMPTY_PARAGRAPH_PATTERN@, s, ""@), ""@)
}

/// Removes paragraphs and `div`s that hold nothing but whitespace.
pub fn remove_empty_elements(html: &str) -> (r: String)
    ensures
        r@ == empty_elements_removed(html@),
{
    let without_paragraphs = substitute(EMPTY_PARAGRAPH_PATTERN, html, "");
    substitute(EMPTY_DIV_PATTERN, without_paragraphs.as_str(), "")
}

/// A text with its wrapper `div`s replaced by their content, by one walk of
/// the engine; the text itself where the engine gives up.
pub open spec fn wrappers_flattened(s: Seq<char>) -> Seq<char> {
    match rewritten(s, wrapper_selector_texts(), RewritePass::FlattenWrappers) {
        Ok(t) => t,
        Err(_) => s,
    }
}

/// Replaces every `div` that carries no meaning of its own by its content.
pub fn flatten_wrapper_elements(html: &str) -> (r: String)
    ensures
        r@ == wrappers_flattened(html@),
{
    let selectors = pass_selectors(RewritePass::FlattenWrappers);
    match rewrite_document(html, &selectors, RewritePass::FlattenWrappers) {
        Ok(t) => t,
        Err(_) => html.to_owned(),
    }
}

/// What the standardizer makes of a text: whitespace cleanup, then comment
/// removal; outside debug mode also the removal of empty elements, two
/// rounds of wrapper flattening and a last whitespace cleanup.
pub open spec fn standardized(s: Seq<char>, debug: bool) -> Seq<char> {
    let cleaned = comments_removed(spaces_standardized(s));
    if debug {
        cleaned
    } else {
        spaces_standardized(
            wrappers_flattened(wrappers_flattened(empty_elements_removed(cleaned))),
        )
    }
}

/// Standardizes an HTML fragment. The title is the context that the
/// reserved heading passes will go by.
pub fn standardize_content(html: &str, title: &str, debug: bool) -> (r: String)
    ensures
        r@ == standardized(html@, debug),
{
    let mut content = standardize_spaces(html);
    content = remove_html_comments(content.as_str());
    content = standardize_headings(content.as_str(), title);
    content = strip_unwanted_attributes(content.as_str(), debug);
    content = remove_trailing_headings(content.as_str());
    if !debug {
        content = remove_empty_elements(content.as_str());
        content = flatten_wrapper_elements(content.as_str());
        content = flatten_wrapper_elements(content.as_str());
        content = standardize_spaces(content.as_str());
    }
    content
}

/// No two spaces stand side by side.
pub open spec fn no_double_space(s: Seq<char>) -> bool {
    forall|i: int| 0 <= i < s.len() - 1 ==> !(#[trigger] s[i] == ' ' && s[i + 1] == ' ')
}

/// The text holds no line feed.
pub open spec fn no_line_feed(s: Seq<char>) -> bool {
    forall|i: int| 0 <= i < s.len() ==> #[trigger] s[i] != '\n'
}

/// The text neither begins nor ends with whitespace.
pub open spec fn is_trimmed(s: Seq<char>) -> bool {
    s.len() == 0 || (!is_whitespace(s[0]) && !is_whitespace(s.last()))
}

/// A line as whitespace cleanup leaves it.
pub open spec fn is_clean_line(line: Seq<char>) -> bool {
    no_line_feed(line) && no_double_space(line) && is_trimmed(line)
}

/// Every line is clean.
pub open spec fn all_clean(lines: Seq<Seq<char>>) -> bool {
    forall|i: int| 0 <= i < lines.len() ==> is_clean_line(#[trigger] lines[i])
}

/// No empty line follows an empty line.
pub open spec fn no_double_blank(lines: Seq<Seq<char>>) -> bool {
    forall|i: int|
        0 <= i < lines.len() - 1 ==> !((#[trigger] lines[i]).len() == 0 && lines[i + 1].len() == 0)
}

/// Collapsing keeps the first character.
pub proof fn lemma_collapse_first(s: Seq<char>)
    requires
        s.len() > 0,
    ensures
        collapse_spaces(s).len() > 0,
        collapse_spaces(s)[0] == s[0],
    decreases s.len(),
{
    if s[0] == ' ' && s.len() >= 2 && s[1] == ' ' {
        lemma_collapse_first(s.drop_first());
    }
}

/// Collapsing leaves no two spaces side by side.
pub proof fn lemma_collapse_no_double(s: Seq<char>)
    ensures
        no_double_space(collapse_spaces(s)),
    decreases s.len(),
{
    if s.len() > 0 {
        let rest = s.drop_first();
        lemma_collapse_no_double(rest);
        if !(s[0] == ' ' && s.len() >= 2 && s[1] == ' ') {
            let c = collapse_spaces(rest);
            let out = seq![s[0]] + c;
            if rest.len() > 0 {
                lemma_collapse_first(rest);
            }
            assert forall|i: int| 0 <= i < out.len() - 1 implies !(#[trigger] out[i] == ' '
                && out[i + 1] == ' ') by {
                if i > 0 {
                    assert(out[i] == c[i - 1]);
                    assert(out[i + 1] == c[i]);
                }
            }
        }
    }
}

/// Collapsing changes nothing where no two spaces stand side by side.
pub proof fn lemma_collapse_fixed(s: Seq<char>)
    requires
        no_double_space(s),
    ensures
        collapse_spaces(s) == s,
    decreases s.len(),
{
    if s.len() > 0 {
        let rest = s.drop_first();
        assert forall|i: int| 0 <= i < rest.len() - 1 implies !(#[trigger] rest[i] == ' '
            && rest[i + 1] == ' ') by {
            assert(rest[i] == s[i + 1]);
            assert(!(s[i + 1] == ' ' && s[i + 2] == ' '));
        }
        lemma_collapse_fixed(rest);
        assert(!(s[0] == ' ' && s[1] == ' ') || s.len() < 2);
        assert(seq![s[0]] + rest =~= s);
    }
}

/// The first line ends at the first line feed, or at the end.
pub proof fn lemma_first_line_len(s: Seq<char>)
    ensures
        first_line_len(s) <= s.len(),
        forall|i: int| 0 <= i < first_line_len(s) ==> #[trigger] s[i] != '\n',
        first_line_len(s) < s.len() ==> s[first_line_len(s) as int] == '\n',
    decreases s.len(),
{
    if !(s.len() == 0 || s[0] == '\n') {
        let rest = s.drop_first();
        lemma_first_line_len(rest);
        assert forall|i: int| 0 <= i < first_line_len(s) implies #[trigger] s[i] != '\n' by {
            if i > 0 {
                assert(s[i] == rest[i - 1]);
            }
        }
        if first_line_len(s) < s.len() {
            assert(s[first_line_len(s) as int] == rest[first_line_len(rest) as int]);
        }
    }
}

/// A part of a text without two spaces side by side has none either.
pub proof fn lemma_part_no_double(s: Seq<char>, from: int, to: int)
    requires
        no_double_space(s),
        0 <= from <= to <= s.len(),
    ensures
        no_double_space(s.subrange(from, to)),
{
    let part = s.subrange(from, to);
    assert forall|i: int| 0 <= i < part.len() - 1 implies !(#[trigger] part[i] == ' ' && part[i
        + 1] == ' ') by {
        assert(part[i] == s[from + i]);
        assert(part[i + 1] == s[from + i + 1]);
        assert(!(s[from + i] == ' ' && s[from + i + 1] == ' '));
    }
}

/// The lines of a text hold no line feed, and no two spaces side by side
/// where the text holds none.
pub proof fn lemma_split_lines_clean(s: Seq<char>)
    requires
        no_double_space(s),
    ensures
        forall|i: int|
            0 <= i < split_lines(s).len() ==> no_line_feed(#[trigger] split_lines(s)[i])
                && no_double_space(split_lines(s)[i]),
    decreases s.len(),
{
    if s.len() > 0 {
        let n = first_line_len(s) as int;
        lemma_first_line_len(s);
        if n >= s.len() {
            assert(split_lines(s) =~= seq![s]);
        } else {
            let first = s.take(n);
            let rest = s.skip(n + 1);
            lemma_part_no_double(s, 0, n);
            lemma_part_no_double(s, n + 1, s.len() as int);
            assert(rest =~= s.subrange(n + 1, s.len() as int));
            assert(first =~= s.subrange(0, n));
            lemma_split_lines_clean(rest);
            let lines = split_lines(s);
            assert(lines =~= seq![first] + split_lines(rest));
            assert forall|i: int| 0 <= i < lines.len() implies no_line_feed(#[trigger] lines[i])
                && no_double_space(lines[i]) by {
                if i > 0 {
                    assert(lines[i] == split_lines(rest)[i - 1]);
                }
            }
        }
    }
}

/// Trimming keeps a part of the text.
pub proof fn lemma_trim_is_part(s: Seq<char>)
    ensures
        leading_whitespace(s) + trailing_whitespace(trim_start(s)) <= s.len(),
        trim(s) == s.subrange(
            leading_whitespace(s) as int,
            s.len() - trailing_whitespace(trim_start(s)),
        ),
        is_trimmed(trim(s)),
{
    lemma_leading_whitespace(s);
    let t = trim_start(s);
    lemma_trailing_whitespace(t);
    let a = leading_whitespace(s) as int;
    let b = s.len() - trailing_whitespace(t);
    assert(trim(s) =~= s.subrange(a, b));
    if trim(s).len() > 0 {
        assert(trim(s)[0] == s[a]);
        assert(trim(s).last() == t[t.len() - trailing_whitespace(t) - 1]);
    }
}

/// Trimming a line without line feeds and without two spaces side by side
/// gives a clean line.
pub proof fn lemma_trim_clean(line: Seq<char>)
    requires
        no_line_feed(line),
        no_double_space(line),
    ensures
        is_clean_line(trim(line)),
{
    lemma_trim_is_part(line);
    let a = leading_whitespace(line) as int;
    let b = line.len() - trailing_whitespace(trim_start(line));
    lemma_part_no_double(line, a, b);
    let t = trim(line);
    assert forall|i: int| 0 <= i < t.len() implies #[trigger] t[i] != '\n' by {
        assert(t[i] == line[a + i]);
    }
}

/// Trimming changes nothing in a text that neither begins nor ends with
/// whitespace.
pub proof fn lemma_trim_fixed(s: Seq<char>)
    requires
        is_trimmed(s),
    ensures
        trim(s) == s,
{
    assert(leading_whitespace(s) == 0);
    assert(trim_start(s) =~= s);
    assert(trailing_whitespace(s) == 0);
    assert(trim_end(s) =~= s);
}

/// Squeezing clean lines leaves clean lines, with no empty line after an
/// empty line.
pub proof fn lemma_squeeze_blank_clean(lines: Seq<Seq<char>>, after_empty: bool)
    requires
        all_clean(lines),
    ensures
        all_clean(squeeze_blank_after(lines, after_empty)),
        no_double_blank(squeeze_blank_after(lines, after_empty)),
        after_empty && squeeze_blank_after(lines, after_empty).len() > 0 ==> squeeze_blank_after(
            lines,
            after_empty,
        )[0].len() > 0,
    decreases lines.len(),
{
    if lines.len() > 0 {
        let rest = lines.drop_first();
        assert forall|i: int| 0 <= i < rest.len() implies is_clean_line(#[trigger] rest[i]) by {
            assert(rest[i] == lines[i + 1]);
        }
        let empty = lines[0].len() == 0;
        lemma_squeeze_blank_clean(rest, empty);
        if !(empty && after_empty) {
            let tail = squeeze_blank_after(rest, empty);
            let out = seq![lines[0]] + tail;
            assert(squeeze_blank_after(lines, after_empty) == out);
            assert forall|i: int| 0 <= i < out.len() implies is_clean_line(#[trigger] out[i]) by {
                if i > 0 {
                    assert(out[i] == tail[i - 1]);
                }
            }
            assert forall|i: int| 0 <= i < out.len() - 1 implies !((#[trigger] out[i]).len() == 0
                && out[i + 1].len() == 0) by {
                if i > 0 {
                    assert(out[i] == tail[i - 1]);
                    assert(out[i + 1] == tail[i]);
                } else {
                    assert(out[1] == tail[0]);
                }
            }
        }
    }
}

/// Squeezing changes nothing where no empty line follows an empty line.
pub proof fn lemma_squeeze_blank_fixed(lines: Seq<Seq<char>>, after_empty: bool)
    requires
        no_double_blank(lines),
        after_empty ==> lines.len() == 0 || lines[0].len() > 0,
    ensures
        squeeze_blank_after(lines, after_empty) == lines,
    decreases lines.len(),
{
    if lines.len() > 0 {
        let rest = lines.drop_first();
        assert forall|i: int| 0 <= i < rest.len() - 1 implies !((#[trigger] rest[i]).len() == 0
            && rest[i + 1].len() == 0) by {
            assert(rest[i] == lines[i + 1]);
            assert(rest[i + 1] == lines[i + 2]);
            assert(!(lines[i + 1].len() == 0 && lines[i + 2].len() == 0));
        }
        let empty = lines[0].len() == 0;
        if empty && rest.len() > 0 {
            assert(rest[0] == lines[1]);
            assert(!(lines[0].len() == 0 && lines[1].len() == 0));
        }
        lemma_squeeze_blank_fixed(rest, empty);
        assert(seq![lines[0]] + rest =~= lines);
    }
}

/// Whitespace cleanup leaves clean lines, with no empty line after an empty
/// line.
pub proof fn lemma_clean_lines(s: Seq<char>)
    ensures
        all_clean(clean_lines(s)),
        no_double_blank(clean_lines(s)),
{
    let collapsed = collapse_spaces(s);
    lemma_collapse_no_double(s);
    lemma_split_lines_clean(collapsed);
    let lines = split_lines(collapsed);
    let trimmed = trim_each(lines);
    assert forall|i: int| 0 <= i < trimmed.len() implies is_clean_line(#[trigger] trimmed[i]) by {
        assert(no_line_feed(lines[i]) && no_double_space(lines[i]));
        lemma_trim_clean(lines[i]);
    }
    lemma_squeeze_blank_clean(trimmed, false);
}

/// Joining lines: the first line, then a line feed and the joined rest
/// where there is a rest.
pub proof fn lemma_join_unfold(lines: Seq<Seq<char>>)
    requires
        lines.len() > 0,
    ensures
        lines.len() == 1 ==> join_lines(lines) == lines[0],
        lines.len() >= 2 ==> join_lines(lines) == lines[0] + seq!['\n'] + join_lines(
            lines.drop_first(),
        ),
{
    let rest = lines.drop_first();
    if rest.len() == 0 {
        assert(lines[0] + Seq::<char>::empty() =~= lines[0]);
    } else {
        assert(lines[0] + (seq!['\n'] + rest[0] + join_rest(rest.drop_first())) =~= lines[0]
            + seq!['\n'] + (rest[0] + join_rest(rest.drop_first())));
    }
}

/// Joining one more line appends a line feed and the line.
pub proof fn lemma_join_push(lines: Seq<Seq<char>>, line: Seq<char>)
    requires
        lines.len() > 0,
    ensures
        join_lines(lines.push(line)) == join_lines(lines) + seq!['\n'] + line,
    decreases lines.len(),
{
    let all = lines.push(line);
    lemma_join_unfold(all);
    lemma_join_unfold(lines);
    assert(all[0] == lines[0]);
    if lines.len() == 1 {
        assert(all.drop_first() =~= seq![line]);
        lemma_join_unfold(seq![line]);
    } else {
        let rest = lines.drop_first();
        assert(all.drop_first() =~= rest.push(line));
        lemma_join_push(rest, line);
        assert(lines[0] + seq!['\n'] + (join_lines(rest) + seq!['\n'] + line) =~= lines[0] + seq![
            '\n',
        ] + join_lines(rest) + seq!['\n'] + line);
    }
}

/// A line feed between two texts joins no two spaces.
pub proof fn lemma_glue_no_double(a: Seq<char>, b: Seq<char>)
    requires
        no_double_space(a),
        no_double_space(b),
    ensures
        no_double_space(a + seq!['\n'] + b),
{
    let s = a + seq!['\n'] + b;
    assert forall|i: int| 0 <= i < s.len() - 1 implies !(#[trigger] s[i] == ' ' && s[i + 1]
        == ' ') by {
        if i + 1 < a.len() {
            assert(s[i] == a[i]);
            assert(s[i + 1] == a[i + 1]);
        } else if i > a.len() {
            assert(s[i] == b[i - a.len() - 1]);
            assert(s[i + 1] == b[i - a.len()]);
        } else if i == a.len() {
            assert(s[i] == '\n');
        } else {
            assert(s[i + 1] == '\n');
        }
    }
}

/// Joined clean lines hold no two spaces side by side.
pub proof fn lemma_join_no_double(lines: Seq<Seq<char>>)
    requires
        all_clean(lines),
    ensures
        no_double_space(join_lines(lines)),
    decreases lines.len(),
{
    if lines.len() > 0 {
        lemma_join_unfold(lines);
        assert(is_clean_line(lines[0]));
        if lines.len() >= 2 {
            let rest = lines.drop_first();
            assert forall|i: int| 0 <= i < rest.len() implies is_clean_line(#[trigger] rest[i]) by {
                assert(rest[i] == lines[i + 1]);
            }
            lemma_join_no_double(rest);
            lemma_glue_no_double(lines[0], join_lines(rest));
        }
    }
}

/// Splitting what was joined gives the lines back, where the lines hold no
/// line feed and the last one is not empty.
pub proof fn lemma_split_join(lines: Seq<Seq<char>>)
    requires
        all_clean(lines),
        lines.len() > 0,
        lines.last().len() > 0,
    ensures
        split_lines(join_lines(lines)) == lines,
        join_lines(lines).len() > 0,
    decreases lines.len(),
{
    lemma_join_unfold(lines);
    let s = join_lines(lines);
    let first = lines[0];
    assert(is_clean_line(first));
    if lines.len() == 1 {
        lemma_first_line_len_is(s, s.len() as int);
        assert(split_lines(s) =~= lines);
    } else {
        let rest = lines.drop_first();
        assert forall|i: int| 0 <= i < rest.len() implies is_clean_line(#[trigger] rest[i]) by {
            assert(rest[i] == lines[i + 1]);
        }
        assert(rest.last() == lines.last());
        lemma_split_join(rest);
        let n = first.len() as int;
        assert forall|i: int| 0 <= i < n implies #[trigger] s[i] != '\n' by {
            assert(s[i] == first[i]);
        }
        assert(s[n] == '\n');
        lemma_first_line_len_is(s, n);
        assert(s.take(n) =~= first);
        assert(s.skip(n + 1) =~= join_lines(rest));
        assert(split_lines(s) =~= seq![first] + rest);
        assert(seq![first] + rest =~= lines);
    }
}

/// Joined clean lines neither begin nor end with whitespace, where the
/// first and the last line are not empty.
pub proof fn lemma_join_trimmed(lines: Seq<Seq<char>>)
    requires
        all_clean(lines),
        lines.len() > 0,
        lines[0].len() > 0,
        lines.last().len() > 0,
    ensures
        join_lines(lines).len() > 0,
        join_lines(lines)[0] == lines[0][0],
        join_lines(lines).last() == lines.last().last(),
        is_trimmed(join_lines(lines)),
{
    lemma_join_unfold(lines);
    assert(is_clean_line(lines[0]));
    assert(is_clean_line(lines.last()));
    if lines.len() >= 2 {
        let front = lines.drop_last();
        assert(front.push(lines.last()) =~= lines);
        lemma_join_push(front, lines.last());
    }
}

/// Trimming the start of joined clean lines drops the empty lines at the
/// start.
pub proof fn lemma_trim_start_join(lines: Seq<Seq<char>>)
    requires
        all_clean(lines),
        no_double_blank(lines),
    ensures
        trim_start(join_lines(lines)) == join_lines(without_leading_empty(lines)),
        without_leading_empty(lines).len() > 0 ==> without_leading_empty(lines)[0].len() > 0,
        all_clean(without_leading_empty(lines)),
        no_double_blank(without_leading_empty(lines)),
{
    let s = join_lines(lines);
    if lines.len() == 0 {
        assert(trim_start(s) =~= s);
    } else {
        lemma_join_unfold(lines);
        assert(is_clean_line(lines[0]));
        if lines[0].len() > 0 {
            assert(s[0] == lines[0][0]);
            lemma_leading_whitespace_is(s, 0);
            assert(trim_start(s) =~= s);
        } else if lines.len() == 1 {
            assert(without_leading_empty(lines.drop_first()) =~= Seq::<Seq<char>>::empty());
            assert(trim_start(s) =~= s);
            assert(s =~= Seq::<char>::empty());
        } else {
            let rest = lines.drop_first();
            assert(rest[0] == lines[1]);
            assert(!(lines[0].len() == 0 && lines[1].len() == 0));
            assert forall|i: int| 0 <= i < rest.len() implies is_clean_line(#[trigger] rest[i]) by {
                assert(rest[i] == lines[i + 1]);
            }
            assert forall|i: int| 0 <= i < rest.len() - 1 implies !((#[trigger] rest[i]).len()
                == 0 && rest[i + 1].len() == 0) by {
                assert(rest[i] == lines[i + 1]);
                assert(rest[i + 1] == lines[i + 2]);
                assert(!(lines[i + 1].len() == 0 && lines[i + 2].len() == 0));
            }
            lemma_join_unfold(rest);
            assert(is_clean_line(rest[0]));
            let j = join_lines(rest);
            assert(j[0] == rest[0][0]);
            assert(s =~= seq!['\n'] + j);
            assert(s[1] == j[0]);
            lemma_leading_whitespace_is(s, 1);
            assert(trim_start(s) =~= j);
            assert(without_leading_empty(rest) == rest);
        }
    }
}

/// Trimming the end of joined clean lines drops the empty lines at the end,
/// where the first line is not empty.
pub proof fn lemma_trim_end_join(lines: Seq<Seq<char>>)
    requires
        all_clean(lines),
        no_double_blank(lines),
        lines.len() > 0 ==> lines[0].len() > 0,
    ensures
        trim_end(join_lines(lines)) == join_lines(without_trailing_empty(lines)),
        without_trailing_empty(lines).len() > 0 ==> without_trailing_empty(lines)[0].len() > 0
            && without_trailing_empty(lines).last().len() > 0,
        all_clean(without_trailing_empty(lines)),
        no_double_blank(without_trailing_empty(lines)),
{
    let s = join_lines(lines);
    if lines.len() == 0 {
        assert(trim_end(s) =~= s);
    } else if lines.last().len() > 0 {
        lemma_join_trimmed(lines);
        lemma_trailing_whitespace_is(s, 0);
        assert(trim_end(s) =~= s);
    } else {
        let front = lines.drop_last();
        assert(front.len() > 0);
        assert(front.last() == lines[lines.len() - 2]);
        assert(!(lines[lines.len() - 2].len() == 0 && lines[lines.len() - 1].len() == 0));
        assert(front[0] == lines[0]);
        assert forall|i: int| 0 <= i < front.len() implies is_clean_line(#[trigger] front[i]) by {
            assert(front[i] == lines[i]);
        }
        assert forall|i: int| 0 <= i < front.len() - 1 implies !((#[trigger] front[i]).len() == 0
            && front[i + 1].len() == 0) by {
            assert(front[i] == lines[i]);
            assert(front[i + 1] == lines[i + 1]);
            assert(!(lines[i].len() == 0 && lines[i + 1].len() == 0));
        }
        assert(front.push(lines.last()) =~= lines);
        lemma_join_push(front, lines.last());
        lemma_join_trimmed(front);
        let j = join_lines(front);
        assert(s =~= j + seq!['\n']);
        assert(s[s.len() - 2] == j.last());
        lemma_trailing_whitespace_is(s, 1);
        assert(trim_end(s) =~= j);
        assert(without_trailing_empty(front) == front);
    }
}

/// Whitespace cleanup changes nothing in joined clean lines whose first
/// and last line are not empty.
pub proof fn lemma_standard_fixed(lines: Seq<Seq<char>>)
    requires
        all_clean(lines),
        no_double_blank(lines),
        lines.len() > 0 ==> lines[0].len() > 0 && lines.last().len() > 0,
    ensures
        spaces_standardized(join_lines(lines)) == join_lines(lines),
{
    let s = join_lines(lines);
    lemma_join_no_double(lines);
    lemma_collapse_fixed(s);
    if lines.len() == 0 {
        assert(split_lines(s) =~= Seq::<Seq<char>>::empty());
        assert(trim_each(split_lines(s)) =~= Seq::<Seq<char>>::empty());
        assert(trim(s) =~= s);
    } else {
        lemma_split_join(lines);
        assert forall|i: int| 0 <= i < lines.len() implies trim(#[trigger] lines[i])
            == lines[i] by {
            assert(is_clean_line(lines[i]));
            lemma_trim_fixed(lines[i]);
        }
        assert(trim_each(lines) =~= lines);
        lemma_squeeze_blank_fixed(lines, false);
        lemma_join_trimmed(lines);
        lemma_trim_fixed(s);
    }
}

/// Whitespace cleanup is idempotent: cleaning a cleaned text changes
/// nothing.
pub proof fn lemma_standardize_spaces_idempotent(s: Seq<char>)
    ensures
        spaces_standardized(spaces_standardized(s)) == spaces_standardized(s),
{
    let lines = clean_lines(s);
    lemma_clean_lines(s);
    lemma_trim_start_join(lines);
    let kept = without_leading_empty(lines);
    lemma_trim_end_join(kept);
    let core = without_trailing_empty(kept);
    assert(spaces_standardized(s) == join_lines(core));
    lemma_standard_fixed(core);
}

/// The standardizer is idempotent on every text on which the passes that
/// the `regex` crate and the engine carry out find nothing more to do: where
/// its result holds no comment, no empty element and no wrapper that they
/// would still remove and, in debug mode, no run of spaces that comment
/// removal left behind, standardizing the result again changes nothing.
pub proof fn lemma_standardize_idempotent(s: Seq<char>, debug: bool)
    requires
        comments_removed(standardized(s, debug)) == standardized(s, debug),
        debug ==> spaces_standardized(standardized(s, debug)) == standardized(s, debug),
        !debug ==> empty_elements_removed(standardized(s, debug)) == standardized(s, debug),
        !debug ==> wrappers_flattened(standardized(s, debug)) == standardized(s, debug),
    ensures
        standardized(standardized(s, debug), debug) == standardized(s, debug),
{
    if !debug {
        let inner = wrappers_flattened(
            wrappers_flattened(empty_elements_removed(comments_removed(spaces_standardized(s)))),
        );
        lemma_standardize_spaces_idempotent(inner);
    }
}

} // verus!
