//! Character-level text operations and their specifications.
//!
//! Strings are viewed as `Seq<char>`. The executable functions work on
//! `Vec<char>`, which gives constant-time indexing; `to_chars` and
//! `from_chars` convert at the edges.

use vstd::prelude::*;

verus! {

/// `String::push` appends one character.
pub assume_specification[ String::push ](s: &mut String, c: char)
    ensures
        final(s)@ == old(s)@.push(c),
;

/// The characters that Unicode gives the property `White_Space`.
pub open spec fn is_whitespace(c: char) -> bool {
    let n = c as u32;
    ||| 0x09 <= n <= 0x0D
    ||| n == 0x20
    ||| n == 0x85
    ||| n == 0xA0
    ||| n == 0x1680
    ||| 0x2000 <= n <= 0x200A
    ||| n == 0x2028
    ||| n == 0x2029
    ||| n == 0x202F
    ||| n == 0x205F
    ||| n == 0x3000
}

/// Whether the character is whitespace.
pub fn char_is_whitespace(c: char) -> (r: bool)
    ensures
        r == is_whitespace(c),
{
    let n: u32 = c as u32;
    (0x09 <= n && n <= 0x0D) || n == 0x20 || n == 0x85 || n == 0xA0 || n == 0x1680 || (0x2000 <= n
        && n <= 0x200A) || n == 0x2028 || n == 0x2029 || n == 0x202F || n == 0x205F || n == 0x3000
}

/// The characters of a string slice, in order.
pub fn to_chars(s: &str) -> (r: Vec<char>)
    ensures
        r@ == s@,
{
    broadcast use vstd::string::group_string_axioms;

    let mut out: Vec<char> = Vec::new();
    for c in iter: s.chars()
        invariant
            out@ == iter.history(),
            iter.seq() == s@,
    {
        out.push(c);
    }
    assert(out@ =~= s@);
    out
}

/// The string made of the given characters.
pub fn from_chars(v: &Vec<char>) -> (r: String)
    ensures
        r@ == v@,
{
    let mut out = String::new();
    let mut i: usize = 0;
    while i < v.len()
        invariant
            i <= v@.len(),
            out@ == v@.take(i as int),
        decreases v@.len() - i,
    {
        out.push(v[i]);
        i += 1;
    }
    assert(v@.take(v@.len() as int) =~= v@);
    out
}

/// The characters of `v` from `from` up to, not including, `to`.
pub(crate) fn slice_chars(v: &Vec<char>, from: usize, to: usize) -> (r: Vec<char>)
    requires
        from <= to <= v@.len(),
    ensures
        r@ == v@.subrange(from as int, to as int),
{
    let mut out: Vec<char> = Vec::new();
    let mut i: usize = from;
    while i < to
        invariant
            from <= i <= to <= v@.len(),
            out@ == v@.subrange(from as int, i as int),
        decreases to - i,
    {
        out.push(v[i]);
        i += 1;
        assert(out@ =~= v@.subrange(from as int, i as int));
    }
    out
}

/// Appends the characters of `tail` to `out`.
pub fn append_chars(out: &mut Vec<char>, tail: &Vec<char>)
    ensures
        final(out)@ == old(out)@ + tail@,
{
    let mut i: usize = 0;
    while i < tail.len()
        invariant
            i <= tail@.len(),
            out@ == old(out)@ + tail@.take(i as int),
        decreases tail@.len() - i,
    {
        out.push(tail[i]);
        i += 1;
        assert(out@ =~= old(out)@ + tail@.take(i as int));
    }
    assert(tail@.take(tail@.len() as int) =~= tail@);
}

/// The number of leading whitespace characters of `s`.
pub open spec fn leading_whitespace(s: Seq<char>) -> nat
    decreases s.len(),
{
    if s.len() > 0 && is_whitespace(s[0]) {
        1 + leading_whitespace(s.drop_first())
    } else {
        0
    }
}

/// The number of trailing whitespace characters of `s`.
pub open spec fn trailing_whitespace(s: Seq<char>) -> nat
    decreases s.len(),
{
    if s.len() > 0 && is_whitespace(s.last()) {
        1 + trailing_whitespace(s.drop_last())
    } else {
        0
    }
}

/// `s` without its leading whitespace.
pub open spec fn trim_start(s: Seq<char>) -> Seq<char> {
    s.skip(leading_whitespace(s) as int)
}

/// `s` without its trailing whitespace.
pub open spec fn trim_end(s: Seq<char>) -> Seq<char> {
    s.take(s.len() - trailing_whitespace(s))
}

/// `s` without leading and trailing whitespace.
pub open spec fn trim(s: Seq<char>) -> Seq<char> {
    trim_end(trim_start(s))
}

/// The leading whitespace run ends at the first character that is not whitespace.
pub proof fn lemma_leading_whitespace(s: Seq<char>)
    ensures
        leading_whitespace(s) <= s.len(),
        forall|i: int| 0 <= i < leading_whitespace(s) ==> is_whitespace(#[trigger] s[i]),
        leading_whitespace(s) < s.len() ==> !is_whitespace(s[leading_whitespace(s) as int]),
    decreases s.len(),
{
    if s.len() > 0 && is_whitespace(s[0]) {
        let t = s.drop_first();
        lemma_leading_whitespace(t);
        assert forall|i: int| 0 <= i < leading_whitespace(s) implies is_whitespace(
            #[trigger] s[i],
        ) by {
            if i > 0 {
                assert(s[i] == t[i - 1]);
            }
        }
        if leading_whitespace(s) < s.len() {
            assert(s[leading_whitespace(s) as int] == t[leading_whitespace(t) as int]);
        }
    }
}

/// The trailing whitespace run starts after the last character that is not whitespace.
pub proof fn lemma_trailing_whitespace(s: Seq<char>)
    ensures
        trailing_whitespace(s) <= s.len(),
        forall|i: int|
            s.len() - trailing_whitespace(s) <= i < s.len() ==> is_whitespace(#[trigger] s[i]),
        trailing_whitespace(s) < s.len() ==> !is_whitespace(
            s[s.len() - trailing_whitespace(s) - 1],
        ),
    decreases s.len(),
{
    if s.len() > 0 && is_whitespace(s.last()) {
        let t = s.drop_last();
        lemma_trailing_whitespace(t);
        assert forall|i: int| s.len() - trailing_whitespace(s) <= i < s.len() implies is_whitespace(
            #[trigger] s[i],
        ) by {
            if i < s.len() - 1 {
                assert(s[i] == t[i]);
            }
        }
        if trailing_whitespace(s) < s.len() {
            assert(s[s.len() - trailing_whitespace(s) - 1] == t[t.len() - trailing_whitespace(t)
                - 1]);
        }
    }
}

/// A run of `n` whitespace characters followed by something else, or by the
/// end, is the leading whitespace.
pub proof fn lemma_leading_whitespace_is(s: Seq<char>, n: int)
    requires
        0 <= n <= s.len(),
        forall|i: int| 0 <= i < n ==> is_whitespace(#[trigger] s[i]),
        n < s.len() ==> !is_whitespace(s[n]),
    ensures
        leading_whitespace(s) == n,
    decreases n,
{
    if n > 0 {
        let t = s.drop_first();
        assert forall|i: int| 0 <= i < n - 1 implies is_whitespace(#[trigger] t[i]) by {
            assert(t[i] == s[i + 1]);
        }
        lemma_leading_whitespace_is(t, n - 1);
    }
}

/// The mirror image of `lemma_leading_whitespace_is`.
pub proof fn lemma_trailing_whitespace_is(s: Seq<char>, n: int)
    requires
        0 <= n <= s.len(),
        forall|i: int| s.len() - n <= i < s.len() ==> is_whitespace(#[trigger] s[i]),
        n < s.len() ==> !is_whitespace(s[s.len() - n - 1]),
    ensures
        trailing_whitespace(s) == n,
    decreases n,
{
    if n > 0 {
        let t = s.drop_last();
        assert forall|i: int| t.len() - (n - 1) <= i < t.len() implies is_whitespace(
            #[trigger] t[i],
        ) by {
            assert(t[i] == s[i]);
        }
        lemma_trailing_whitespace_is(t, n - 1);
    }
}

/// `v` without leading and trailing whitespace.
pub fn trim_chars(v: &Vec<char>) -> (r: Vec<char>)
    ensures
        r@ == trim(v@),
{
    let n = v.len();
    let mut start: usize = 0;
    while start < n && char_is_whitespace(v[start])
        invariant
            start <= n == v@.len(),
            forall|i: int| 0 <= i < start ==> is_whitespace(#[trigger] v@[i]),
        decreases n - start,
    {
        start += 1;
    }
    let mut end: usize = n;
    while end > start && char_is_whitespace(v[end - 1])
        invariant
            start <= end <= n == v@.len(),
            forall|i: int| end <= i < n ==> is_whitespace(#[trigger] v@[i]),
        decreases end,
    {
        end -= 1;
    }
    proof {
        lemma_leading_whitespace_is(v@, start as int);
        let t = v@.skip(start as int);
        assert forall|i: int| t.len() - (n - end) <= i < t.len() implies is_whitespace(
            #[trigger] t[i],
        ) by {
            assert(t[i] == v@[i + start]);
        }
        if n - end < t.len() {
            assert(t[t.len() - (n - end) - 1] == v@[end - 1]);
        }
        lemma_trailing_whitespace_is(t, (n - end) as int);
        assert(trim(v@) =~= v@.subrange(start as int, end as int));
    }
    slice_chars(v, start, end)
}

/// `pat` stands in `s` at index `i`.
pub open spec fn occurs_at(s: Seq<char>, pat: Seq<char>, i: int) -> bool {
    0 <= i && i + pat.len() <= s.len() && s.subrange(i, i + pat.len()) =~= pat
}

/// `pat` stands somewhere in `s`.
pub open spec fn contains(s: Seq<char>, pat: Seq<char>) -> bool {
    exists|i: int| occurs_at(s, pat, i)
}

/// `s` begins with `pat`.
pub open spec fn starts_with(s: Seq<char>, pat: Seq<char>) -> bool {
    occurs_at(s, pat, 0)
}

/// The smallest index at or after `from` where `pat` stands in `s`.
pub open spec fn find_from(s: Seq<char>, pat: Seq<char>, from: int) -> Option<int>
    decreases s.len() - from,
{
    if from < 0 || from + pat.len() > s.len() {
        None
    } else if occurs_at(s, pat, from) {
        Some(from)
    } else {
        find_from(s, pat, from + 1)
    }
}

/// The smallest index where `pat` stands in `s`.
pub open spec fn find(s: Seq<char>, pat: Seq<char>) -> Option<int> {
    find_from(s, pat, 0)
}

/// The largest index below `bound` where `pat` stands in `s`.
pub open spec fn rfind_below(s: Seq<char>, pat: Seq<char>, bound: int) -> Option<int>
    decreases bound,
{
    if bound <= 0 {
        None
    } else if occurs_at(s, pat, bound - 1) {
        Some(bound - 1)
    } else {
        rfind_below(s, pat, bound - 1)
    }
}

/// The largest index where `pat` stands in `s`.
pub open spec fn rfind(s: Seq<char>, pat: Seq<char>) -> Option<int> {
    rfind_below(s, pat, s.len() as int + 1)
}

/// `find_from` returns the first occurrence at or after `from`, and `None`
/// exactly when there is none.
pub proof fn lemma_find_from(s: Seq<char>, pat: Seq<char>, from: int)
    requires
        0 <= from,
    ensures
        match find_from(s, pat, from) {
            Some(i) => from <= i && occurs_at(s, pat, i) && forall|j: int|
                from <= j < i ==> !occurs_at(s, pat, j),
            None => forall|j: int| from <= j ==> !occurs_at(s, pat, j),
        },
    decreases s.len() - from,
{
    if from + pat.len() > s.len() {
    } else if occurs_at(s, pat, from) {
    } else {
        lemma_find_from(s, pat, from + 1);
    }
}

/// `rfind_below` returns the last occurrence below `bound`, and `None`
/// exactly when there is none.
pub proof fn lemma_rfind_below(s: Seq<char>, pat: Seq<char>, bound: int)
    ensures
        match rfind_below(s, pat, bound) {
            Some(i) => i < bound && occurs_at(s, pat, i) && forall|j: int|
                i < j < bound ==> !occurs_at(s, pat, j),
            None => forall|j: int| j < bound ==> !occurs_at(s, pat, j),
        },
    decreases bound,
{
    if bound <= 0 {
    } else if occurs_at(s, pat, bound - 1) {
    } else {
        lemma_rfind_below(s, pat, bound - 1);
    }
}

/// A string contains a pattern exactly when `find` locates it.
pub proof fn lemma_contains_iff_find(s: Seq<char>, pat: Seq<char>)
    ensures
        contains(s, pat) <==> find(s, pat) is Some,
{
    lemma_find_from(s, pat, 0);
}

/// Whether `pat` stands in `s` at index `i`.
pub fn matches_at(s: &Vec<char>, pat: &Vec<char>, i: usize) -> (r: bool)
    ensures
        r == occurs_at(s@, pat@, i as int),
{
    let n = s.len();
    let m = pat.len();
    if m > n || i > n - m {
        return false;
    }
    let mut k: usize = 0;
    while k < m
        invariant
            k <= m == pat@.len(),
            i + m <= n == s@.len(),
            forall|j: int| 0 <= j < k ==> s@[i + j] == #[trigger] pat@[j],
        decreases m - k,
    {
        if s[i + k] != pat[k] {
            proof {
                assert(s@.subrange(i as int, i + m)[k as int] == s@[i + k]);
            }
            return false;
        }
        k += 1;
    }
    assert(s@.subrange(i as int, i + m) =~= pat@);
    true
}

/// The first index at or after `from` where `pat` stands in `s`.
pub fn find_chars_from(s: &Vec<char>, pat: &Vec<char>, from: usize) -> (r: Option<usize>)
    ensures
        r is Some <==> find_from(s@, pat@, from as int) is Some,
        r is Some ==> r->0 as int == find_from(s@, pat@, from as int)->0,
{
    let n = s.len();
    let m = pat.len();
    if m > n || from > n - m {
        return None;
    }
    let last: usize = n - m;
    let mut i: usize = from;
    loop
        invariant
            from <= i <= last,
            last == n - m,
            n == s@.len(),
            m == pat@.len(),
            find_from(s@, pat@, from as int) == find_from(s@, pat@, i as int),
        decreases last - i,
    {
        if matches_at(s, pat, i) {
            return Some(i);
        }
        if i == last {
            assert(find_from(s@, pat@, i + 1) is None);
            return None;
        }
        i += 1;
    }
}

/// The first index where `pat` stands in `s`.
pub fn find_chars(s: &Vec<char>, pat: &Vec<char>) -> (r: Option<usize>)
    ensures
        r is Some <==> find(s@, pat@) is Some,
        r is Some ==> r->0 as int == find(s@, pat@)->0,
{
    find_chars_from(s, pat, 0)
}

/// The last index where `pat` stands in `s`.
pub fn rfind_chars(s: &Vec<char>, pat: &Vec<char>) -> (r: Option<usize>)
    ensures
        r is Some <==> rfind(s@, pat@) is Some,
        r is Some ==> r->0 as int == rfind(s@, pat@)->0,
{
    let n = s.len();
    let m = pat.len();
    if m > n {
        proof {
            lemma_rfind_below(s@, pat@, n + 1);
        }
        return None;
    }
    let mut j: usize = n - m;
    proof {
        lemma_rfind_below(s@, pat@, n + 1);
        lemma_rfind_below(s@, pat@, j + 1);
    }
    loop
        invariant
            j <= n - m,
            m <= n,
            n == s@.len(),
            m == pat@.len(),
            rfind(s@, pat@) == rfind_below(s@, pat@, j + 1),
        decreases j,
    {
        if matches_at(s, pat, j) {
            return Some(j);
        }
        if j == 0 {
            assert(rfind_below(s@, pat@, 0) is None);
            return None;
        }
        j -= 1;
    }
}

/// Whether `pat` stands somewhere in `s`.
pub fn contains_chars(s: &Vec<char>, pat: &Vec<char>) -> (r: bool)
    ensures
        r == contains(s@, pat@),
{
    proof {
        lemma_contains_iff_find(s@, pat@);
    }
    find_chars(s, pat).is_some()
}

/// Whether `s` begins with `pat`.
pub fn starts_with_chars(s: &Vec<char>, pat: &Vec<char>) -> (r: bool)
    ensures
        r == starts_with(s@, pat@),
{
    matches_at(s, pat, 0)
}

/// Whether two character vectors hold the same characters.
pub fn chars_eq(a: &Vec<char>, b: &Vec<char>) -> (r: bool)
    ensures
        r == (a@ == b@),
{
    if a.len() != b.len() {
        return false;
    }
    let r = matches_at(a, b, 0);
    proof {
        assert(a@.subrange(0, a@.len() as int) =~= a@);
    }
    r
}

/// Whether `s` contains the text `pat`.
pub fn str_contains(s: &str, pat: &str) -> (r: bool)
    ensures
        r == contains(s@, pat@),
{
    contains_chars(&to_chars(s), &to_chars(pat))
}

/// Whether `s` begins with the text `pat`.
pub fn str_starts_with(s: &str, pat: &str) -> (r: bool)
    ensures
        r == starts_with(s@, pat@),
{
    starts_with_chars(&to_chars(s), &to_chars(pat))
}

/// Whether two string slices hold the same text.
pub fn str_eq(a: &str, b: &str) -> (r: bool)
    ensures
        r == (a@ == b@),
{
    chars_eq(&to_chars(a), &to_chars(b))
}

/// What `str::to_lowercase` returns for a text: its lowercase form by
/// Unicode's case mapping.
pub uninterp spec fn lowercase(s: Seq<char>) -> Seq<char>;

/// `str::to_lowercase`: the lowercase form of `s`. The mapping is Unicode's
/// and is not written out here; `lowercase` names it.
#[verifier::external_body]
pub(crate) fn to_lowercase(s: &str) -> (r: String)
    ensures
        r@ == lowercase(s@),
{
    s.to_lowercase()
}

/// A word begins at index `i`: a character that is not whitespace, at the
/// start of `s` or after whitespace.
pub open spec fn is_word_start(s: Seq<char>, i: int) -> bool {
    0 <= i < s.len() && !is_whitespace(s[i]) && (i == 0 || is_whitespace(s[i - 1]))
}

/// The number of words that begin at or after index `i`.
pub open spec fn word_count_from(s: Seq<char>, i: int) -> nat
    decreases s.len() - i,
{
    if i < 0 || i >= s.len() {
        0
    } else if is_word_start(s, i) {
        1 + word_count_from(s, i + 1)
    } else {
        word_count_from(s, i + 1)
    }
}

/// The number of words of `s`, a word being a maximal run of characters that
/// are not whitespace.
pub open spec fn word_count(s: Seq<char>) -> nat {
    word_count_from(s, 0)
}

/// The number of words of `v`.
pub fn count_words_chars(v: &Vec<char>) -> (r: usize)
    ensures
        r == word_count(v@),
{
    let n = v.len();
    let mut count: usize = 0;
    let mut after_space: bool = true;
    let mut i: usize = 0;
    while i < n
        invariant
            i <= n == v@.len(),
            after_space == (i == 0 || is_whitespace(v@[i - 1])),
            word_count(v@) == count + word_count_from(v@, i as int),
            count <= i,
        decreases n - i,
    {
        let space = char_is_whitespace(v[i]);
        if !space && after_space {
            count += 1;
        }
        after_space = space;
        i += 1;
    }
    count
}

/// The words of `s` from index `i` on, each but the first of the whole text
/// preceded by one space; `first` says that no word has been written yet.
pub open spec fn squeeze_from(s: Seq<char>, i: int, first: bool) -> Seq<char>
    decreases s.len() - i,
{
    if i < 0 || i >= s.len() {
        Seq::empty()
    } else if is_whitespace(s[i]) {
        squeeze_from(s, i + 1, first)
    } else if is_word_start(s, i) && !first {
        seq![' ', s[i]] + squeeze_from(s, i + 1, false)
    } else {
        seq![s[i]] + squeeze_from(s, i + 1, false)
    }
}

/// The words of `s` joined by single spaces.
pub open spec fn squeeze_whitespace(s: Seq<char>) -> Seq<char> {
    squeeze_from(s, 0, true)
}

/// The words of `v` joined by single spaces.
pub fn squeeze_whitespace_chars(v: &Vec<char>) -> (r: Vec<char>)
    ensures
        r@ == squeeze_whitespace(v@),
{
    let n = v.len();
    let mut out: Vec<char> = Vec::new();
    let mut first: bool = true;
    let mut after_space: bool = true;
    let mut i: usize = 0;
    while i < n
        invariant
            i <= n == v@.len(),
            after_space == (i == 0 || is_whitespace(v@[i - 1])),
            squeeze_whitespace(v@) == out@ + squeeze_from(v@, i as int, first),
        decreases n - i,
    {
        let c = v[i];
        let space = char_is_whitespace(c);
        let ghost before = out@;
        if !space {
            if after_space && !first {
                out.push(' ');
            }
            out.push(c);
            first = false;
        }
        after_space = space;
        i += 1;
        proof {
            assert(squeeze_whitespace(v@) =~= out@ + squeeze_from(v@, i as int, first));
        }
    }
    proof {
        assert(out@ + Seq::<char>::empty() =~= out@);
    }
    out
}

/// `s` with every run of spaces (U+0020) reduced to one space.
pub open spec fn collapse_spaces(s: Seq<char>) -> Seq<char>
    decreases s.len(),
{
    if s.len() == 0 {
        s
    } else if s[0] == ' ' && s.len() >= 2 && s[1] == ' ' {
        collapse_spaces(s.drop_first())
    } else {
        seq![s[0]] + collapse_spaces(s.drop_first())
    }
}

/// `v` with every run of spaces reduced to one space.
pub fn collapse_spaces_chars(v: &Vec<char>) -> (r: Vec<char>)
    ensures
        r@ == collapse_spaces(v@),
{
    let n = v.len();
    let mut out: Vec<char> = Vec::new();
    let mut i: usize = 0;
    proof {
        assert(v@.skip(0) =~= v@);
        assert(Seq::<char>::empty() + collapse_spaces(v@) =~= collapse_spaces(v@));
    }
    while i < n
        invariant
            i <= n == v@.len(),
            collapse_spaces(v@) == out@ + collapse_spaces(v@.skip(i as int)),
        decreases n - i,
    {
        let c = v[i];
        proof {
            assert(v@.skip(i as int).drop_first() =~= v@.skip(i + 1));
        }
        if !(c == ' ' && i + 1 < n && v[i + 1] == ' ') {
            out.push(c);
        }
        i += 1;
        proof {
            assert(collapse_spaces(v@) =~= out@ + collapse_spaces(v@.skip(i as int)));
        }
    }
    proof {
        assert(out@ + Seq::<char>::empty() =~= out@);
    }
    out
}

/// The character views of a sequence of character vectors.
pub open spec fn views(v: Seq<Vec<char>>) -> Seq<Seq<char>> {
    Seq::new(v.len(), |i: int| v[i]@)
}

/// The length of the part of `s` before its first line feed.
pub open spec fn first_line_len(s: Seq<char>) -> nat
    decreases s.len(),
{
    if s.len() == 0 || s[0] == '\n' {
        0
    } else {
        1 + first_line_len(s.drop_first())
    }
}

/// The lines of `s`: the parts between line feeds. A line feed at the very
/// end closes the last line and opens no further one.
pub open spec fn split_lines(s: Seq<char>) -> Seq<Seq<char>>
    decreases s.len(),
{
    if s.len() == 0 {
        Seq::empty()
    } else {
        let n = first_line_len(s) as int;
        if n >= s.len() {
            seq![s]
        } else {
            seq![s.take(n)] + split_lines(s.skip(n + 1))
        }
    }
}

/// `n` characters without a line feed, then a line feed or the end, make the
/// first line.
pub proof fn lemma_first_line_len_is(s: Seq<char>, n: int)
    requires
        0 <= n <= s.len(),
        forall|i: int| 0 <= i < n ==> #[trigger] s[i] != '\n',
        n < s.len() ==> s[n] == '\n',
    ensures
        first_line_len(s) == n,
    decreases n,
{
    if n > 0 {
        let t = s.drop_first();
        assert forall|i: int| 0 <= i < n - 1 implies #[trigger] t[i] != '\n' by {
            assert(t[i] == s[i + 1]);
        }
        lemma_first_line_len_is(t, n - 1);
    }
}

/// The lines of `v`.
pub fn split_lines_chars(v: &Vec<char>) -> (r: Vec<Vec<char>>)
    ensures
        views(r@) == split_lines(v@),
{
    let n = v.len();
    let mut out: Vec<Vec<char>> = Vec::new();
    let mut start: usize = 0;
    let mut i: usize = 0;
    proof {
        assert(views(out@) =~= Seq::<Seq<char>>::empty());
        assert(v@.skip(0) =~= v@);
        assert(Seq::<Seq<char>>::empty() + split_lines(v@) =~= split_lines(v@));
    }
    while i < n
        invariant
            start <= i <= n == v@.len(),
            forall|k: int| start <= k < i ==> #[trigger] v@[k] != '\n',
            split_lines(v@) == views(out@) + split_lines(v@.skip(start as int)),
        decreases n - i,
    {
        if v[i] == '\n' {
            let line = slice_chars(v, start, i);
            proof {
                let rest = v@.skip(start as int);
                assert forall|k: int| 0 <= k < i - start implies #[trigger] rest[k] != '\n' by {
                    assert(rest[k] == v@[start + k]);
                }
                assert(rest[i - start] == v@[i as int]);
                lemma_first_line_len_is(rest, i - start);
                assert(rest.take(i - start) =~= line@);
                assert(rest.skip(i - start + 1) =~= v@.skip(i + 1));
                assert(views(out@.push(line)) =~= views(out@) + seq![line@]);
                assert(split_lines(v@) =~= views(out@.push(line)) + split_lines(v@.skip(i + 1)));
            }
            out.push(line);
            start = i + 1;
        }
        i += 1;
    }
    if start < n {
        let line = slice_chars(v, start, n);
        proof {
            let rest = v@.skip(start as int);
            assert forall|k: int| 0 <= k < n - start implies #[trigger] rest[k] != '\n' by {
                assert(rest[k] == v@[start + k]);
            }
            lemma_first_line_len_is(rest, n - start);
            assert(rest =~= line@);
            assert(views(out@.push(line)) =~= views(out@) + seq![line@]);
        }
        out.push(line);
    } else {
        proof {
            assert(views(out@) + Seq::<Seq<char>>::empty() =~= views(out@));
        }
    }
    out
}

/// Each line preceded by a line feed, one after the other.
pub open spec fn join_rest(lines: Seq<Seq<char>>) -> Seq<char>
    decreases lines.len(),
{
    if lines.len() == 0 {
        Seq::empty()
    } else {
        seq!['\n'] + lines[0] + join_rest(lines.drop_first())
    }
}

/// The lines joined by single line feeds.
pub open spec fn join_lines(lines: Seq<Seq<char>>) -> Seq<char> {
    if lines.len() == 0 {
        Seq::empty()
    } else {
        lines[0] + join_rest(lines.drop_first())
    }
}

/// The lines of `lines` joined by single line feeds.
pub fn join_lines_chars(lines: &Vec<Vec<char>>) -> (r: Vec<char>)
    ensures
        r@ == join_lines(views(lines@)),
{
    let mut out: Vec<char> = Vec::new();
    let n = lines.len();
    if n == 0 {
        return out;
    }
    append_chars(&mut out, &lines[0]);
    let ghost all = views(lines@);
    let mut i: usize = 1;
    proof {
        assert(all.drop_first() =~= all.skip(1));
        assert(Seq::<char>::empty() + all[0] =~= all[0]);
    }
    while i < n
        invariant
            1 <= i <= n == lines@.len(),
            all == views(lines@),
            join_lines(all) == out@ + join_rest(all.skip(i as int)),
        decreases n - i,
    {
        let ghost before = out@;
        out.push('\n');
        append_chars(&mut out, &lines[i]);
        proof {
            let rest = all.skip(i as int);
            assert(rest[0] == lines@[i as int]@);
            assert(rest.drop_first() =~= all.skip(i + 1));
            assert(out@ =~= before + (seq!['\n'] + rest[0]));
            assert(join_lines(all) =~= out@ + join_rest(all.skip(i + 1)));
        }
        i += 1;
    }
    proof {
        assert(out@ + Seq::<char>::empty() =~= out@);
    }
    out
}

/// The index just behind the word that runs through index `i`; `i` itself
/// where no word does.
pub open spec fn word_end(s: Seq<char>, i: int) -> int
    decreases s.len() - i,
{
    if 0 <= i < s.len() && !is_whitespace(s[i]) {
        word_end(s, i + 1)
    } else {
        i
    }
}

/// The word `tok` begins at index `i` of `s` and ends where `tok` ends.
pub open spec fn token_at(s: Seq<char>, tok: Seq<char>, i: int) -> bool {
    is_word_start(s, i) && word_end(s, i) == i + tok.len() && occurs_at(s, tok, i)
}

/// One of the words of `s` is `tok`.
pub open spec fn has_token(s: Seq<char>, tok: Seq<char>) -> bool {
    exists|i: int| token_at(s, tok, i)
}

/// Whether one of the words of `s` is `tok`.
pub fn has_token_chars(s: &Vec<char>, tok: &Vec<char>) -> (r: bool)
    ensures
        r == has_token(s@, tok@),
{
    let n = s.len();
    let mut i: usize = 0;
    let mut after_space: bool = true;
    while i < n
        invariant
            i <= n == s@.len(),
            after_space == (i == 0 || is_whitespace(s@[i - 1])),
            forall|j: int| 0 <= j < i ==> !token_at(s@, tok@, j),
        decreases n - i,
    {
        let space = char_is_whitespace(s[i]);
        if !space && after_space {
            let mut e: usize = i;
            while e < n && !char_is_whitespace(s[e])
                invariant
                    i <= e <= n == s@.len(),
                    word_end(s@, i as int) == word_end(s@, e as int),
                decreases n - e,
            {
                e += 1;
            }
            if e - i == tok.len() && matches_at(s, tok, i) {
                assert(token_at(s@, tok@, i as int));
                return true;
            }
        }
        after_space = space;
        i += 1;
    }
    assert forall|j: int| !token_at(s@, tok@, j) by {
        if 0 <= j < n {
        }
    }
    false
}

/// Whether one of the words of `s` is `tok`.
pub fn str_has_token(s: &str, tok: &str) -> (r: bool)
    ensures
        r == has_token(s@, tok@),
{
    has_token_chars(&to_chars(s), &to_chars(tok))
}

/// A word of `s` begins with `prefix`.
pub open spec fn has_token_prefix(s: Seq<char>, prefix: Seq<char>) -> bool {
    exists|i: int| is_word_start(s, i) && occurs_at(s, prefix, i)
}

/// Whether a word of `s` begins with `prefix`.
pub fn str_has_token_prefix(s: &str, prefix: &str) -> (r: bool)
    ensures
        r == has_token_prefix(s@, prefix@),
{
    let v = to_chars(s);
    let p = to_chars(prefix);
    let n = v.len();
    let mut i: usize = 0;
    let mut after_space: bool = true;
    while i < n
        invariant
            i <= n == v@.len(),
            after_space == (i == 0 || is_whitespace(v@[i - 1])),
            v@ == s@,
            p@ == prefix@,
            forall|j: int| 0 <= j < i ==> !(is_word_start(v@, j) && occurs_at(v@, p@, j)),
        decreases n - i,
    {
        let space = char_is_whitespace(v[i]);
        if !space && after_space && matches_at(&v, &p, i) {
            assert(is_word_start(s@, i as int) && occurs_at(s@, prefix@, i as int));
            return true;
        }
        after_space = space;
        i += 1;
    }
    false
}

/// `s` contains one of `patterns`.
pub open spec fn contains_any(s: Seq<char>, patterns: Seq<Seq<char>>) -> bool {
    exists|i: int| 0 <= i < patterns.len() && contains(s, #[trigger] patterns[i])
}

/// The number of `patterns` that `s` contains.
pub open spec fn contained_count(s: Seq<char>, patterns: Seq<Seq<char>>) -> nat
    decreases patterns.len(),
{
    if patterns.len() == 0 {
        0
    } else if contains(s, patterns.last()) {
        1 + contained_count(s, patterns.drop_last())
    } else {
        contained_count(s, patterns.drop_last())
    }
}

/// No more patterns are found than there are.
pub proof fn lemma_contained_count_bound(s: Seq<char>, patterns: Seq<Seq<char>>)
    ensures
        contained_count(s, patterns) <= patterns.len(),
    decreases patterns.len(),
{
    if patterns.len() > 0 {
        lemma_contained_count_bound(s, patterns.drop_last());
    }
}

/// The texts of a sequence of string slices.
pub open spec fn texts(v: Seq<&'static str>) -> Seq<Seq<char>> {
    Seq::new(v.len(), |i: int| v[i]@)
}

/// Whether `s` contains one of `patterns`.
pub fn str_contains_any(s: &str, patterns: &Vec<&'static str>) -> (r: bool)
    ensures
        r == contains_any(s@, texts(patterns@)),
{
    let v = to_chars(s);
    let mut i: usize = 0;
    while i < patterns.len()
        invariant
            i <= patterns@.len(),
            v@ == s@,
            forall|j: int| 0 <= j < i ==> !contains(s@, #[trigger] texts(patterns@)[j]),
        decreases patterns@.len() - i,
    {
        if contains_chars(&v, &to_chars(patterns[i])) {
            assert(contains(s@, texts(patterns@)[i as int]));
            return true;
        }
        i += 1;
    }
    false
}

/// The number of `patterns` that `s` contains.
pub fn str_contained_count(s: &str, patterns: &Vec<&'static str>) -> (r: usize)
    ensures
        r == contained_count(s@, texts(patterns@)),
{
    let v = to_chars(s);
    let mut count: usize = 0;
    let mut i: usize = 0;
    while i < patterns.len()
        invariant
            i <= patterns@.len(),
            v@ == s@,
            count == contained_count(s@, texts(patterns@).take(i as int)),
            count <= i,
        decreases patterns@.len() - i,
    {
        proof {
            let all = texts(patterns@);
            assert(all.take(i + 1).drop_last() =~= all.take(i as int));
            assert(all.take(i + 1).last() == patterns@[i as int]@);
        }
        if contains_chars(&v, &to_chars(patterns[i])) {
            count += 1;
        }
        i += 1;
    }
    assert(texts(patterns@).take(patterns@.len() as int) =~= texts(patterns@));
    count
}

/// The character is one of the ten decimal digits.
pub open spec fn is_digit(c: char) -> bool {
    '0' <= c <= '9'
}

/// The number that a sequence of decimal digits denotes.
pub open spec fn decimal(s: Seq<char>) -> nat
    decreases s.len(),
{
    if s.len() == 0 {
        0
    } else {
        decimal(s.drop_last()) * 10 + (s.last() as u32 - '0' as u32) as nat
    }
}

/// The text of a number for a `u32` without its optional plus sign.
pub open spec fn unsigned_digits(s: Seq<char>) -> Seq<char> {
    if s.len() > 0 && s[0] == '+' {
        s.drop_first()
    } else {
        s
    }
}

/// The `u32` that a text denotes: an optional plus sign, then at least one
/// decimal digit and nothing else, with a value that fits.
pub open spec fn parsed_u32(s: Seq<char>) -> Option<u32> {
    let d = unsigned_digits(s);
    if d.len() > 0 && (forall|i: int| 0 <= i < d.len() ==> is_digit(#[trigger] d[i])) && decimal(d)
        <= u32::MAX {
        Some(decimal(d) as u32)
    } else {
        None
    }
}

/// A number is at least the number that a prefix of its digits denotes.
pub proof fn lemma_decimal_prefix(s: Seq<char>, k: int)
    requires
        0 <= k <= s.len(),
        forall|i: int| 0 <= i < s.len() ==> is_digit(#[trigger] s[i]),
    ensures
        decimal(s.take(k)) <= decimal(s),
    decreases s.len() - k,
{
    if k < s.len() {
        lemma_decimal_prefix(s, k + 1);
        assert(s.take(k + 1).drop_last() =~= s.take(k));
        assert(s.take(k + 1).last() == s[k]);
    } else {
        assert(s.take(k) =~= s);
    }
}

/// The `u32` that a text denotes, as `str::parse` reads it.
pub fn parse_u32(s: &str) -> (r: Option<u32>)
    ensures
        r == parsed_u32(s@),
{
    let v = to_chars(s);
    let n = v.len();
    let start: usize = if n > 0 && v[0] == '+' {
        1
    } else {
        0
    };
    let ghost d = unsigned_digits(v@);
    proof {
        assert(d =~= v@.skip(start as int));
        assert(d.take(0) =~= Seq::<char>::empty());
    }
    if start == n {
        return None;
    }
    let mut acc: u64 = 0;
    let mut i: usize = start;
    while i < n
        invariant
            start <= i <= n == v@.len(),
            v@ == s@,
            d == unsigned_digits(v@),
            d == v@.skip(start as int),
            forall|j: int| 0 <= j < i - start ==> is_digit(#[trigger] d[j]),
            acc == decimal(d.take(i - start)),
            acc <= u32::MAX,
        decreases n - i,
    {
        let c = v[i];
        assert(d[i - start] == c);
        if !('0' <= c && c <= '9') {
            assert(!is_digit(d[i - start]));
            return None;
        }
        let digit: u64 = (c as u32 - '0' as u32) as u64;
        let next: u64 = acc * 10 + digit;
        proof {
            assert(d.take(i - start + 1).drop_last() =~= d.take(i - start));
            assert(d.take(i - start + 1).last() == c);
            assert(next == decimal(d.take(i - start + 1)));
        }
        if next > 0xFFFF_FFFF {
            proof {
                if forall|j: int| 0 <= j < d.len() ==> is_digit(#[trigger] d[j]) {
                    lemma_decimal_prefix(d, i - start + 1);
                }
            }
            return None;
        }
        acc = next;
        i += 1;
    }
    proof {
        assert(d.take(n - start) =~= d);
    }
    Some(acc as u32)
}

/// The lines without the empty lines they begin with.
pub open spec fn without_leading_empty(lines: Seq<Seq<char>>) -> Seq<Seq<char>>
    decreases lines.len(),
{
    if lines.len() > 0 && lines[0].len() == 0 {
        without_leading_empty(lines.drop_first())
    } else {
        lines
    }
}

/// The lines without the empty lines they end with.
pub open spec fn without_trailing_empty(lines: Seq<Seq<char>>) -> Seq<Seq<char>>
    decreases lines.len(),
{
    if lines.len() > 0 && lines.last().len() == 0 {
        without_trailing_empty(lines.drop_last())
    } else {
        lines
    }
}

/// The lines without empty lines at either end.
pub open spec fn without_empty_ends(lines: Seq<Seq<char>>) -> Seq<Seq<char>> {
    without_trailing_empty(without_leading_empty(lines))
}

/// The lines from index `from` up to, not including, `to`.
pub(crate) fn slice_lines(lines: &Vec<Vec<char>>, from: usize, to: usize) -> (r: Vec<Vec<char>>)
    requires
        from <= to <= lines@.len(),
    ensures
        views(r@) == views(lines@).subrange(from as int, to as int),
{
    let mut out: Vec<Vec<char>> = Vec::new();
    let mut i: usize = from;
    while i < to
        invariant
            from <= i <= to <= lines@.len(),
            views(out@) == views(lines@).subrange(from as int, i as int),
        decreases to - i,
    {
        let ghost before = views(out@);
        let line = slice_chars(&lines[i], 0, lines[i].len());
        proof {
            assert(line@ =~= lines@[i as int]@);
            assert(views(out@.push(line)) =~= before.push(line@));
            assert(before.push(line@) =~= views(lines@).subrange(from as int, i + 1));
        }
        out.push(line);
        i += 1;
    }
    out
}

/// The lines without empty lines at either end.
pub fn strip_empty_ends(lines: &Vec<Vec<char>>) -> (r: Vec<Vec<char>>)
    ensures
        views(r@) == without_empty_ends(views(lines@)),
{
    let n = lines.len();
    let ghost all = views(lines@);
    let mut start: usize = 0;
    proof {
        assert(all.skip(0) =~= all);
    }
    while start < n && lines[start].len() == 0
        invariant
            start <= n == lines@.len(),
            all == views(lines@),
            without_leading_empty(all) == without_leading_empty(all.skip(start as int)),
        decreases n - start,
    {
        proof {
            let rest = all.skip(start as int);
            assert(rest[0] == lines@[start as int]@);
            assert(rest.drop_first() =~= all.skip(start + 1));
        }
        start += 1;
    }
    let ghost kept = all.skip(start as int);
    proof {
        if start < n {
            assert(kept[0] == lines@[start as int]@);
        }
        assert(without_leading_empty(all) == kept);
        assert(kept.take(kept.len() as int) =~= kept);
    }
    let mut end: usize = n;
    while end > start && lines[end - 1].len() == 0
        invariant
            start <= end <= n == lines@.len(),
            all == views(lines@),
            kept == all.skip(start as int),
            without_trailing_empty(kept) == without_trailing_empty(kept.take(end - start)),
        decreases end,
    {
        proof {
            let front = kept.take(end - start);
            assert(front.last() == lines@[end - 1]@);
            assert(front.drop_last() =~= kept.take(end - start - 1));
        }
        end -= 1;
    }
    proof {
        let front = kept.take(end - start);
        if end > start {
            assert(front.last() == lines@[end - 1]@);
        }
        assert(front =~= all.subrange(start as int, end as int));
    }
    slice_lines(lines, start, end)
}

} // verus!
