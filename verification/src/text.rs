//! Text primitives on which the supervisor's string rules are built: trimming,
//! substring search and comparison over the characters of a string.

use vstd::prelude::*;
use vstd::string::*;

verus! {

/// Whether `c` is white space in the sense of the Unicode `White_Space` property.
pub open spec fn is_whitespace(c: char) -> bool {
    let code = c as u32;
    ||| 0x09 <= code <= 0x0D
    ||| code == 0x20
    ||| code == 0x85
    ||| code == 0xA0
    ||| code == 0x1680
    ||| 0x2000 <= code <= 0x200A
    ||| code == 0x2028
    ||| code == 0x2029
    ||| code == 0x202F
    ||| code == 0x205F
    ||| code == 0x3000
}

/// `text` without its leading white space.
pub open spec fn trim_start(text: Seq<char>) -> Seq<char>
    decreases text.len(),
{
    if text.len() > 0 && is_whitespace(text[0]) {
        trim_start(text.drop_first())
    } else {
        text
    }
}

/// `text` without its trailing white space.
pub open spec fn trim_end(text: Seq<char>) -> Seq<char>
    decreases text.len(),
{
    if text.len() > 0 && is_whitespace(text.last()) {
        trim_end(text.drop_last())
    } else {
        text
    }
}

/// `text` without leading and trailing white space.
pub open spec fn trimmed(text: Seq<char>) -> Seq<char> {
    trim_end(trim_start(text))
}

/// Whether `text` is empty or consists of white space only.
pub open spec fn is_blank(text: Seq<char>) -> bool {
    forall|i: int| 0 <= i < text.len() ==> is_whitespace(#[trigger] text[i])
}

/// `text` without any trailing run of the character `c`.
pub open spec fn strip_trailing(text: Seq<char>, c: char) -> Seq<char>
    decreases text.len(),
{
    if text.len() > 0 && text.last() == c {
        strip_trailing(text.drop_last(), c)
    } else {
        text
    }
}

/// Whether `needle` stands in `haystack` at position `at`.
pub open spec fn occurs_at(haystack: Seq<char>, needle: Seq<char>, at: int) -> bool {
    &&& 0 <= at
    &&& at + needle.len() <= haystack.len()
    &&& haystack.subrange(at, at + needle.len()) == needle
}

/// Whether `needle` is a contiguous part of `haystack`.
pub open spec fn contains(haystack: Seq<char>, needle: Seq<char>) -> bool {
    exists|at: int| occurs_at(haystack, needle, at)
}

/// The characters of an optional text.
pub open spec fn option_text(value: Option<String>) -> Option<Seq<char>> {
    match value {
        Some(text) => Some(text@),
        None => None,
    }
}

/// The characters of an optional borrowed text.
pub open spec fn option_str(value: Option<&str>) -> Option<Seq<char>> {
    match value {
        Some(text) => Some(text@),
        None => None,
    }
}

/// The characters of each text of a list.
pub open spec fn texts_of(items: Seq<String>) -> Seq<Seq<char>> {
    Seq::new(items.len(), |i: int| items[i]@)
}

/// Skipping a white prefix does not change what `trim_start` gives.
pub proof fn lemma_trim_start_skips(text: Seq<char>, k: int)
    requires
        0 <= k <= text.len(),
        forall|i: int| 0 <= i < k ==> is_whitespace(#[trigger] text[i]),
    ensures
        trim_start(text) == trim_start(text.skip(k)),
    decreases k,
{
    if k == 0 {
        assert(text.skip(0) =~= text);
    } else {
        let rest = text.drop_first();
        assert forall|i: int| 0 <= i < k - 1 implies is_whitespace(#[trigger] rest[i]) by {
            assert(rest[i] == text[i + 1]);
        }
        lemma_trim_start_skips(rest, k - 1);
        assert(rest.skip(k - 1) =~= text.skip(k));
    }
}

/// Dropping a white suffix does not change what `trim_end` gives.
pub proof fn lemma_trim_end_takes(text: Seq<char>, k: int)
    requires
        0 <= k <= text.len(),
        forall|i: int| k <= i < text.len() ==> is_whitespace(#[trigger] text[i]),
    ensures
        trim_end(text) == trim_end(text.take(k)),
    decreases text.len() - k,
{
    if k == text.len() {
        assert(text.take(k) =~= text);
    } else {
        let rest = text.drop_last();
        assert(is_whitespace(text[text.len() - 1]));
        lemma_trim_end_takes(rest, k);
        assert(rest.take(k) =~= text.take(k));
    }
}

/// Dropping a suffix made of `c` alone does not change what `strip_trailing` gives.
pub proof fn lemma_strip_trailing_takes(text: Seq<char>, c: char, k: int)
    requires
        0 <= k <= text.len(),
        forall|i: int| k <= i < text.len() ==> #[trigger] text[i] == c,
    ensures
        strip_trailing(text, c) == strip_trailing(text.take(k), c),
    decreases text.len() - k,
{
    if k == text.len() {
        assert(text.take(k) =~= text);
    } else {
        let rest = text.drop_last();
        assert(text[text.len() - 1] == c);
        lemma_strip_trailing_takes(rest, c, k);
        assert(rest.take(k) =~= text.take(k));
    }
}

/// Stripping a trailing run of one character never lengthens, and what is left
/// is a prefix that does not end in that character.
pub proof fn lemma_strip_trailing_is_prefix(text: Seq<char>, c: char)
    ensures
        strip_trailing(text, c).len() <= text.len(),
        strip_trailing(text, c) == text.take(strip_trailing(text, c).len() as int),
        strip_trailing(text, c).len() > 0 ==> strip_trailing(text, c).last() != c,
    decreases text.len(),
{
    if text.len() > 0 && text.last() == c {
        let rest = text.drop_last();
        lemma_strip_trailing_is_prefix(rest, c);
        let n = strip_trailing(rest, c).len() as int;
        assert(rest.take(n) =~= text.take(n));
    } else {
        assert(text.take(text.len() as int) =~= text);
    }
}

/// A text trims to nothing exactly when it is blank.
pub proof fn lemma_blank_trims_to_empty(text: Seq<char>)
    ensures
        is_blank(text) <==> trimmed(text).len() == 0,
    decreases text.len(),
{
    if text.len() > 0 && is_whitespace(text[0]) {
        let rest = text.drop_first();
        lemma_blank_trims_to_empty(rest);
        if is_blank(text) {
            assert forall|i: int| 0 <= i < rest.len() implies is_whitespace(#[trigger] rest[i]) by {
                assert(rest[i] == text[i + 1]);
            }
        }
        if is_blank(rest) {
            assert forall|i: int| 0 <= i < text.len() implies is_whitespace(#[trigger] text[i]) by {
                if i > 0 {
                    assert(text[i] == rest[i - 1]);
                }
            }
        }
    } else if text.len() > 0 {
        lemma_trim_end_keeps_head(text);
    }
}

/// A text whose first character is not white keeps it when its end is trimmed.
pub proof fn lemma_trim_end_keeps_head(text: Seq<char>)
    requires
        text.len() > 0,
        !is_whitespace(text[0]),
    ensures
        trim_end(text).len() > 0,
        trim_end(text)[0] == text[0],
    decreases text.len(),
{
    if is_whitespace(text.last()) {
        assert(text.len() > 1);
        lemma_trim_end_keeps_head(text.drop_last());
    }
}

/// A text that neither begins nor ends with white space trims to itself.
pub proof fn lemma_trimmed_is_identity(text: Seq<char>)
    requires
        text.len() > 0 ==> !is_whitespace(text[0]) && !is_whitespace(text.last()),
    ensures
        trimmed(text) == text,
{
}

/// The lowercase form of a text, as `str::to_lowercase` of the standard library
/// gives it: each character replaced by its lowercase mapping of the Unicode
/// character database, a capital sigma by the form that its place in a word
/// calls for.
pub uninterp spec fn lowercase_of(text: Seq<char>) -> Seq<char>;

/// `str::to_lowercase` of the standard library. All that is claimed of it is
/// that the characters of `text` determine its result, the text that
/// `lowercase_of` names.
#[verifier::external_body]
pub(crate) fn to_lowercase(text: &str) -> (lowered: String)
    ensures
        lowered@ == lowercase_of(text@),
{
    text.to_lowercase()
}

/// The text of an optional owned text, borrowed.
pub fn borrowed(value: &Option<String>) -> (text: Option<&str>)
    ensures
        option_str(text) == option_text(*value),
{
    match value {
        Some(owned) => Some(owned.as_str()),
        None => None,
    }
}

/// The characters of `text`, in order.
pub fn chars_of(text: &str) -> (chars: Vec<char>)
    ensures
        chars@ == text@,
{
    let mut chars: Vec<char> = Vec::new();
    for c in it: text.chars()
        invariant
            it.seq() == text@,
            chars@ == text@.take(it.index() as int),
    {
        chars.push(c);
    }
    chars
}

/// Tells whether `c` is white space.
pub fn char_is_whitespace(c: char) -> (answer: bool)
    ensures
        answer == is_whitespace(c),
{
    let code: u32 = c as u32;
    (0x09 <= code && code <= 0x0D) || code == 0x20 || code == 0x85 || code == 0xA0 || code
        == 0x1680 || (0x2000 <= code && code <= 0x200A) || code == 0x2028 || code == 0x2029 || code
        == 0x202F || code == 0x205F || code == 0x3000
}

/// The part of `text` between its leading and its trailing white space.
pub fn trim(text: &str) -> (inner: &str)
    ensures
        inner@ == trimmed(text@),
{
    let chars = chars_of(text);
    let mut start: usize = 0;
    while start < chars.len() && char_is_whitespace(chars[start])
        invariant
            start <= chars.len(),
            chars@ == text@,
            forall|i: int| 0 <= i < start ==> is_whitespace(#[trigger] text@[i]),
        decreases chars.len() - start,
    {
        start += 1;
    }
    let mut end: usize = chars.len();
    while end > start && char_is_whitespace(chars[end - 1])
        invariant
            start <= end <= chars.len(),
            chars@ == text@,
            forall|i: int| end <= i < text@.len() ==> is_whitespace(#[trigger] text@[i]),
        decreases end,
    {
        end -= 1;
    }
    proof {
        let tail = text@.skip(start as int);
        lemma_trim_start_skips(text@, start as int);
        assert(trim_start(text@) == tail);
        assert forall|i: int| end - start <= i < tail.len() implies is_whitespace(
            #[trigger] tail[i],
        ) by {
            assert(tail[i] == text@[i + start]);
        }
        lemma_trim_end_takes(tail, end - start);
        let kept = tail.take(end - start);
        assert(kept =~= text@.subrange(start as int, end as int));
        if kept.len() > 0 {
            assert(kept.last() == text@[end - 1]);
        }
        assert(trim_end(kept) == kept);
    }
    text.substring_char(start, end)
}

/// Tells whether `text` is empty or white space only.
pub fn is_blank_text(text: &str) -> (blank: bool)
    ensures
        blank == is_blank(text@),
        blank == (trimmed(text@).len() == 0),
{
    proof {
        lemma_blank_trims_to_empty(text@);
    }
    let chars = chars_of(text);
    let mut i: usize = 0;
    while i < chars.len()
        invariant
            i <= chars.len(),
            chars@ == text@,
            is_blank(text@) <==> trimmed(text@).len() == 0,
            forall|k: int| 0 <= k < i ==> is_whitespace(#[trigger] text@[k]),
        decreases chars.len() - i,
    {
        if !char_is_whitespace(chars[i]) {
            return false;
        }
        i += 1;
    }
    true
}

/// The part of `text` before its trailing run of the character `c`.
pub fn trim_end_matches(text: &str, c: char) -> (kept: &str)
    ensures
        kept@ == strip_trailing(text@, c),
{
    let chars = chars_of(text);
    let mut end: usize = chars.len();
    while end > 0 && chars[end - 1] == c
        invariant
            end <= chars.len(),
            chars@ == text@,
            forall|i: int| end <= i < text@.len() ==> #[trigger] text@[i] == c,
        decreases end,
    {
        end -= 1;
    }
    proof {
        lemma_strip_trailing_takes(text@, c, end as int);
        let kept = text@.take(end as int);
        assert(kept =~= text@.subrange(0, end as int));
        if kept.len() > 0 {
            assert(kept.last() == text@[end - 1]);
        }
        assert(strip_trailing(kept, c) == kept);
    }
    text.substring_char(0, end)
}

/// Tells whether two texts hold the same characters.
pub fn same_text(left: &str, right: &str) -> (same: bool)
    ensures
        same == (left@ == right@),
{
    let a = chars_of(left);
    let b = chars_of(right);
    if a.len() != b.len() {
        return false;
    }
    let mut i: usize = 0;
    while i < a.len()
        invariant
            i <= a.len(),
            a.len() == b.len(),
            a@ == left@,
            b@ == right@,
            forall|k: int| 0 <= k < i ==> a@[k] == b@[k],
        decreases a.len() - i,
    {
        if a[i] != b[i] {
            return false;
        }
        i += 1;
    }
    assert(left@ =~= right@);
    true
}

/// Tells whether `needle` is a contiguous part of `haystack`. The empty text
/// is part of every text.
pub fn contains_text(haystack: &str, needle: &str) -> (found: bool)
    ensures
        found == contains(haystack@, needle@),
{
    let hay = chars_of(haystack);
    let pat = chars_of(needle);
    if pat.len() > hay.len() {
        return false;
    }
    let last: usize = hay.len() - pat.len();
    let mut at: usize = 0;
    while at <= last
        invariant
            at <= last + 1,
            last == hay.len() - pat.len(),
            pat.len() <= hay.len(),
            hay@ == haystack@,
            pat@ == needle@,
            forall|k: int| 0 <= k < at ==> !occurs_at(haystack@, needle@, k),
        decreases last + 1 - at,
    {
        let mut j: usize = 0;
        while j < pat.len() && hay[at + j] == pat[j]
            invariant
                j <= pat.len(),
                at <= last,
                last == hay.len() - pat.len(),
                pat.len() <= hay.len(),
                hay@ == haystack@,
                pat@ == needle@,
                forall|k: int| 0 <= k < j ==> hay@[at + k] == pat@[k],
            decreases pat.len() - j,
        {
            j += 1;
        }
        if j == pat.len() {
            assert(haystack@.subrange(at as int, at + needle@.len()) =~= needle@);
            assert(occurs_at(haystack@, needle@, at as int));
            return true;
        }
        assert(!occurs_at(haystack@, needle@, at as int)) by {
            if occurs_at(haystack@, needle@, at as int) {
                assert(haystack@.subrange(at as int, at + needle@.len())[j as int] == needle@[j as int]);
            }
        }
        at += 1;
    }
    false
}

} // verus!
