use vstd::prelude::*;
use vstd::string::*;

verus! {

/// The lower-case form that `str::to_lowercase` gives a text.
pub uninterp spec fn lowercase_of(s: Seq<char>) -> Seq<char>;

/// `str::to_lowercase`: the result is the lower-case form of the argument,
/// which depends on nothing but the argument. Nothing more is claimed of it.
#[verifier::external_body]
pub(crate) fn to_lowercase(s: &str) -> (res: String)
    ensures
        res@ == lowercase_of(s@),
{
    s.to_lowercase()
}

/// `text` begins with `prefix`.
pub open spec fn is_prefix_of<T>(prefix: Seq<T>, text: Seq<T>) -> bool {
    prefix.len() <= text.len() && text.subrange(0, prefix.len() as int) == prefix
}

/// `text` ends with `suffix`.
pub open spec fn is_suffix_of<T>(suffix: Seq<T>, text: Seq<T>) -> bool {
    suffix.len() <= text.len() && text.subrange(text.len() - suffix.len(), text.len() as int)
        == suffix
}

/// `part` stands in `text` at place `at`.
pub open spec fn stands_at(part: Seq<char>, text: Seq<char>, at: int) -> bool {
    0 <= at && at + part.len() <= text.len() && text.subrange(at, at + part.len()) == part
}

/// `part` stands somewhere in `text`.
pub open spec fn occurs_in(part: Seq<char>, text: Seq<char>) -> bool {
    exists|i: int|
        0 <= i && i + part.len() <= text.len() && #[trigger] text.subrange(i, i + part.len())
            == part
}

/// Does `part` stand in `text` at place `at`, counted in characters?
fn region_eq(text: &str, at: usize, part: &str) -> (res: bool)
    ensures
        res == stands_at(part@, text@, at as int),
{
    let text_len = text.unicode_len();
    let part_len = part.unicode_len();
    if part_len > text_len || at > text_len - part_len {
        return false;
    }
    let ghost region = text@.subrange(at as int, at + part_len);
    let mut i: usize = 0;
    while i < part_len
        invariant
            0 <= i <= part_len,
            part_len == part@.len(),
            text_len == text@.len(),
            at + part_len <= text_len,
            region == text@.subrange(at as int, at + part_len),
            forall|j: int| 0 <= j < i ==> region[j] == part@[j],
        decreases part_len - i,
    {
        if text.get_char(at + i) != part.get_char(i) {
            assert(region[i as int] != part@[i as int]);
            return false;
        }
        i += 1;
    }
    assert(region =~= part@);
    true
}

/// Do `a` and `b` hold the same characters?
pub(crate) fn str_eq(a: &str, b: &str) -> (res: bool)
    ensures
        res == (a@ == b@),
{
    if a.unicode_len() != b.unicode_len() {
        return false;
    }
    assert(a@.subrange(0, a@.len() as int) =~= a@);
    region_eq(a, 0, b)
}

/// Does `text` begin with `prefix`?
pub(crate) fn starts_with(text: &str, prefix: &str) -> (res: bool)
    ensures
        res == is_prefix_of(prefix@, text@),
{
    region_eq(text, 0, prefix)
}

/// Does `text` end with `suffix`?
pub(crate) fn ends_with(text: &str, suffix: &str) -> (res: bool)
    ensures
        res == is_suffix_of(suffix@, text@),
{
    let text_len = text.unicode_len();
    let suffix_len = suffix.unicode_len();
    if suffix_len > text_len {
        return false;
    }
    region_eq(text, text_len - suffix_len, suffix)
}

/// Does `part` stand somewhere in `text`?
pub(crate) fn contains(text: &str, part: &str) -> (res: bool)
    ensures
        res == occurs_in(part@, text@),
{
    let text_len = text.unicode_len();
    let part_len = part.unicode_len();
    if part_len > text_len {
        return false;
    }
    let last = text_len - part_len;
    let mut at: usize = 0;
    while at < last
        invariant
            0 <= at <= last,
            part_len == part@.len(),
            text_len == text@.len(),
            last == text_len - part_len,
            forall|j: int| 0 <= j < at ==> #[trigger] text@.subrange(j, j + part@.len()) != part@,
        decreases last - at,
    {
        if region_eq(text, at, part) {
            return true;
        }
        at += 1;
    }
    region_eq(text, last, part)
}

/// Is `c` one of the characters of `text`?
pub(crate) fn contains_char(text: &str, c: char) -> (res: bool)
    ensures
        res == text@.contains(c),
{
    let len = text.unicode_len();
    let mut i: usize = 0;
    while i < len
        invariant
            0 <= i <= len,
            len == text@.len(),
            forall|j: int| 0 <= j < i ==> text@[j] != c,
        decreases len - i,
    {
        if text.get_char(i) == c {
            return true;
        }
        i += 1;
    }
    false
}

/// Does `bytes` begin with `needle`?
pub(crate) fn bytes_start_with(bytes: &[u8], needle: &[u8]) -> (res: bool)
    ensures
        res == is_prefix_of(needle@, bytes@),
{
    if needle.len() > bytes.len() {
        return false;
    }
    let ghost head = bytes@.subrange(0, needle@.len() as int);
    let mut i: usize = 0;
    while i < needle.len()
        invariant
            0 <= i <= needle.len(),
            needle.len() <= bytes.len(),
            head == bytes@.subrange(0, needle@.len() as int),
            forall|j: int| 0 <= j < i ==> head[j] == needle@[j],
        decreases needle.len() - i,
    {
        if bytes[i] != needle[i] {
            assert(head[i as int] != needle@[i as int]);
            return false;
        }
        i += 1;
    }
    assert(head =~= needle@);
    true
}

/// Whether `char::is_numeric` holds of a character.
pub uninterp spec fn char_is_numeric(c: char) -> bool;

/// `char::is_numeric`: whether the character is numeric by Unicode, which
/// depends on nothing but the character. Nothing more is claimed of it.
#[verifier::external_body]
pub(crate) fn is_numeric(c: char) -> (res: bool)
    ensures
        res == char_is_numeric(c),
{
    c.is_numeric()
}

/// What stands in `s` before the first `c`; all of `s` where there is none.
pub open spec fn spec_until(s: Seq<char>, c: char) -> Seq<char>
    decreases s.len(),
{
    if s.len() == 0 || s[0] == c {
        Seq::empty()
    } else {
        seq![s[0]] + spec_until(s.drop_first(), c)
    }
}

proof fn lemma_until(s: Seq<char>, c: char, i: int)
    requires
        0 <= i <= s.len(),
        forall|j: int| 0 <= j < i ==> s[j] != c,
        i == s.len() || s[i] == c,
    ensures
        spec_until(s, c) == s.take(i),
    decreases i,
{
    if i == 0 {
        assert(s.take(0) =~= Seq::<char>::empty());
    } else {
        let rest = s.drop_first();
        assert forall|j: int| 0 <= j < i - 1 implies rest[j] != c by {
            assert(rest[j] == s[j + 1]);
        }
        lemma_until(rest, c, i - 1);
        assert(seq![s[0]] + rest.take(i - 1) =~= s.take(i));
    }
}

/// What stands in `s` before the first `c`.
pub(crate) fn until_char(s: &str, c: char) -> (res: &str)
    ensures
        res@ == spec_until(s@, c),
{
    let len = s.unicode_len();
    let mut i: usize = 0;
    while i < len && s.get_char(i) != c
        invariant
            0 <= i <= len,
            len == s@.len(),
            forall|j: int| 0 <= j < i ==> s@[j] != c,
        decreases len - i,
    {
        i += 1;
    }
    proof {
        lemma_until(s@, c, i as int);
    }
    s.substring_char(0, i)
}

/// `s` without the characters at its end that `strip` holds of.
pub open spec fn spec_trim_end(s: Seq<char>, strip: spec_fn(char) -> bool) -> Seq<char>
    decreases s.len(),
{
    if s.len() > 0 && strip(s.last()) {
        spec_trim_end(s.drop_last(), strip)
    } else {
        s
    }
}

/// `s` without the numeric characters at its end.
pub(crate) fn trim_end_numeric(s: &str) -> (res: &str)
    ensures
        res@ == spec_trim_end(s@, |c: char| char_is_numeric(c)),
{
    let ghost strip = |c: char| char_is_numeric(c);
    let mut n: usize = s.unicode_len();
    assert(s@.take(n as int) =~= s@);
    while n > 0 && is_numeric(s.get_char(n - 1))
        invariant
            0 <= n <= s@.len(),
            strip == (|c: char| char_is_numeric(c)),
            spec_trim_end(s@, strip) == spec_trim_end(s@.take(n as int), strip),
        decreases n,
    {
        assert(s@.take(n as int).drop_last() =~= s@.take(n - 1));
        n -= 1;
    }
    s.substring_char(0, n)
}

/// `s` without the characters `c` at its end.
pub(crate) fn trim_end_char(s: &str, c: char) -> (res: &str)
    ensures
        res@ == spec_trim_end(s@, |x: char| x == c),
{
    let ghost strip = |x: char| x == c;
    let mut n: usize = s.unicode_len();
    assert(s@.take(n as int) =~= s@);
    while n > 0 && s.get_char(n - 1) == c
        invariant
            0 <= n <= s@.len(),
            strip == (|x: char| x == c),
            spec_trim_end(s@, strip) == spec_trim_end(s@.take(n as int), strip),
        decreases n,
    {
        assert(s@.take(n as int).drop_last() =~= s@.take(n - 1));
        n -= 1;
    }
    s.substring_char(0, n)
}

/// Nothing is longer before its first `c` than it is in all.
pub proof fn lemma_until_len(s: Seq<char>, c: char)
    ensures
        spec_until(s, c).len() <= s.len(),
        spec_until(s, c).len() < s.len() ==> s[spec_until(s, c).len() as int] == c,
    decreases s.len(),
{
    if s.len() > 0 && s[0] != c {
        lemma_until_len(s.drop_first(), c);
    }
}

/// The value of `key` in a line of words with single spaces between them:
/// what stands behind `key` in the first word that begins with it.
pub open spec fn spec_word_value(line: Seq<char>, key: Seq<char>) -> Option<Seq<char>>
    decreases line.len(),
{
    let word = spec_until(line, ' ');
    if line.len() == 0 {
        None
    } else if is_prefix_of(key, word) {
        Some(word.skip(key.len() as int))
    } else if word.len() < line.len() {
        spec_word_value(line.skip(word.len() as int + 1), key)
    } else {
        None
    }
}

/// The value of `key` in `line`.
pub(crate) fn word_value<'a>(line: &'a str, key: &str) -> (res: Option<&'a str>)
    ensures
        match spec_word_value(line@, key@) {
            Some(value) => res matches Some(v) && v@ == value,
            None => res is None,
        },
{
    let key_len = key.unicode_len();
    let mut rest = line;
    let mut left = rest.unicode_len();
    while left > 0
        invariant
            left == rest@.len(),
            key_len == key@.len(),
            spec_word_value(line@, key@) == spec_word_value(rest@, key@),
        decreases left,
    {
        let word = until_char(rest, ' ');
        let word_len = word.unicode_len();
        proof {
            lemma_until_len(rest@, ' ');
        }
        if starts_with(word, key) {
            return Some(word.substring_char(key_len, word_len));
        }
        if word_len < left {
            rest = rest.substring_char(word_len + 1, left);
            left = left - word_len - 1;
        } else {
            return None;
        }
    }
    None
}

/// Whether `char::is_whitespace` holds of a character.
pub uninterp spec fn char_is_whitespace(c: char) -> bool;

/// `char::is_whitespace`: whether the character is white space by Unicode,
/// which depends on nothing but the character. Nothing more is claimed of
/// it.
#[verifier::external_body]
pub(crate) fn is_whitespace(c: char) -> (res: bool)
    ensures
        res == char_is_whitespace(c),
{
    c.is_whitespace()
}

/// What counts as white space.
pub open spec fn is_space() -> spec_fn(char) -> bool {
    |c: char| char_is_whitespace(c)
}

/// `s` without the characters at its start that `strip` holds of.
pub open spec fn spec_trim_start(s: Seq<char>, strip: spec_fn(char) -> bool) -> Seq<char>
    decreases s.len(),
{
    if s.len() > 0 && strip(s[0]) {
        spec_trim_start(s.drop_first(), strip)
    } else {
        s
    }
}

/// A text without the white space at its end.
pub open spec fn end_trimmed_of(s: Seq<char>) -> Seq<char> {
    spec_trim_end(s, is_space())
}

/// A text without the white space at its start and at its end.
pub open spec fn trimmed_of(s: Seq<char>) -> Seq<char> {
    spec_trim_end(spec_trim_start(s, is_space()), is_space())
}

/// How many characters a text begins with that are white space.
fn leading_space(s: &str) -> (res: usize)
    ensures
        res <= s@.len(),
        spec_trim_start(s@, is_space()) == s@.skip(res as int),
{
    let len = s.unicode_len();
    let mut i: usize = 0;
    assert(s@.skip(0) =~= s@);
    while i < len && is_whitespace(s.get_char(i))
        invariant
            0 <= i <= len,
            len == s@.len(),
            spec_trim_start(s@, is_space()) == spec_trim_start(s@.skip(i as int), is_space()),
        decreases len - i,
    {
        assert(s@.skip(i as int).drop_first() =~= s@.skip(i + 1));
        i += 1;
    }
    i
}

/// A text without the white space at its end, from place `from` on.
fn trim_end_from(s: &str, from: usize) -> (res: &str)
    ensures
        from <= s@.len() ==> res@ == spec_trim_end(s@.skip(from as int), is_space()),
        from > s@.len() ==> res@ == Seq::<char>::empty(),
{
    let len = s.unicode_len();
    if from > len {
        return s.substring_char(0, 0);
    }
    let ghost rest = s@.skip(from as int);
    let mut n: usize = len;
    assert(rest.take(n - from) =~= rest);
    while n > from && is_whitespace(s.get_char(n - 1))
        invariant
            from <= n <= len,
            len == s@.len(),
            rest == s@.skip(from as int),
            spec_trim_end(rest, is_space()) == spec_trim_end(rest.take(n - from), is_space()),
        decreases n,
    {
        assert(rest.take(n - from).last() == s@[n - 1]);
        assert(rest.take(n - from).drop_last() =~= rest.take(n - 1 - from));
        n -= 1;
    }
    proof {
        if n > from {
            assert(rest.take(n - from).last() == s@[n - 1]);
        }
        assert(rest.take(n - from) =~= s@.subrange(from as int, n as int));
    }
    s.substring_char(from, n)
}

/// The text without the white space at its end.
pub(crate) fn trim_end(s: &str) -> (res: &str)
    ensures
        res@ == end_trimmed_of(s@),
{
    assert(s@.skip(0) =~= s@);
    trim_end_from(s, 0)
}

/// The text without the white space at its start and at its end.
pub(crate) fn trim(s: &str) -> (res: &str)
    ensures
        res@ == trimmed_of(s@),
{
    let from = leading_space(s);
    trim_end_from(s, from)
}

} // verus!
