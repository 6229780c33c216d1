//! Text primitives over sequences of characters.
//!
//! Every function here is stated over the characters of its argument (`text@`); byte
//! counts are counts of UTF-8 bytes.

use vstd::prelude::*;
use vstd::utf8::*;

verus! {

/// The characters that carry the Unicode `White_Space` property.
pub open spec fn is_space(c: char) -> bool {
    let p = c as u32;
    ||| 0x09 <= p <= 0x0d
    ||| p == 0x20
    ||| p == 0x85
    ||| p == 0xa0
    ||| p == 0x1680
    ||| 0x2000 <= p <= 0x200a
    ||| p == 0x2028
    ||| p == 0x2029
    ||| p == 0x202f
    ||| p == 0x205f
    ||| p == 0x3000
}

/// `char::is_whitespace` of the standard library: whether the character has the Unicode
/// `White_Space` property.
pub assume_specification[ char::is_whitespace ](c: char) -> (result: bool)
    ensures
        result == is_space(c),
;

/// `String::push` of the standard library: appends one character.
pub assume_specification[ String::push ](text: &mut String, c: char)
    ensures
        final(text)@ == old(text)@.push(c),
;

/// The characters of `text`, in order.
pub fn chars_of(text: &str) -> (result: Vec<char>)
    ensures
        result@ == text@,
{
    let mut result: Vec<char> = Vec::new();
    for c in it: text.chars()
        invariant
            it.seq() == text@,
            result@ == text@.take(it.index() as int),
    {
        result.push(c);
    }
    result
}

/// The characters `from..to` of `chars` as a string.
pub fn string_of(chars: &Vec<char>, from: usize, to: usize) -> (result: String)
    requires
        from <= to <= chars@.len(),
    ensures
        result@ == chars@.subrange(from as int, to as int),
{
    let mut result = String::new();
    let mut i: usize = from;
    while i < to
        invariant
            from <= i <= to <= chars@.len(),
            result@ == chars@.subrange(from as int, i as int),
        decreases to - i,
    {
        result.push(chars[i]);
        i = i + 1;
    }
    result
}

/// The texts of a sequence of strings.
pub open spec fn texts(strings: Seq<String>) -> Seq<Seq<char>> {
    strings.map_values(|s: String| s@)
}

/// The text of an optional string.
pub open spec fn opt_text(text: Option<String>) -> Option<Seq<char>> {
    match text {
        Some(t) => Some(t@),
        None => None,
    }
}

/// A copy of an optional string.
pub fn clone_opt(text: &Option<String>) -> (result: Option<String>)
    ensures
        result == *text,
{
    match text {
        Some(t) => Some(t.clone()),
        None => None,
    }
}

/// Whether two texts are equal.
pub fn same_text(a: &str, b: &str) -> (result: bool)
    ensures
        result == (a@ == b@),
{
    let left = chars_of(a);
    let right = chars_of(b);
    if left.len() != right.len() {
        return false;
    }
    let mut i: usize = 0;
    while i < left.len()
        invariant
            left@.len() == right@.len(),
            left@ == a@,
            right@ == b@,
            i <= left@.len(),
            forall|k: int| 0 <= k < i ==> left@[k] == right@[k],
        decreases left.len() - i,
    {
        if left[i] != right[i] {
            return false;
        }
        i = i + 1;
    }
    assert(a@ =~= b@);
    true
}

/// Whether an optional string is present and holds `text`.
pub fn opt_is(value: &Option<String>, text: &str) -> (result: bool)
    ensures
        result == (opt_text(*value) == Some(text@)),
{
    match value {
        Some(v) => same_text(v.as_str(), text),
        None => false,
    }
}

// ---------------------------------------------------------------------------
// Trimming
// ---------------------------------------------------------------------------

/// `s` without its leading white space.
pub open spec fn trimmed_start(s: Seq<char>) -> Seq<char>
    decreases s.len(),
{
    if s.len() > 0 && is_space(s[0]) {
        trimmed_start(s.skip(1))
    } else {
        s
    }
}

/// `s` without its trailing white space.
pub open spec fn trimmed_end(s: Seq<char>) -> Seq<char>
    decreases s.len(),
{
    if s.len() > 0 && is_space(s.last()) {
        trimmed_end(s.drop_last())
    } else {
        s
    }
}

/// `s` without its leading and trailing white space.
pub open spec fn trimmed(s: Seq<char>) -> Seq<char> {
    trimmed_end(trimmed_start(s))
}

/// Removes leading and trailing white space.
pub fn trim(text: &str) -> (result: String)
    ensures
        result@ == trimmed(text@),
{
    let chars = chars_of(text);
    let mut start: usize = 0;
    proof {
        assert(chars@.skip(0) =~= chars@);
    }
    while start < chars.len() && chars[start].is_whitespace()
        invariant
            start <= chars@.len(),
            trimmed_start(chars@) == trimmed_start(chars@.skip(start as int)),
        decreases chars.len() - start,
    {
        proof {
            assert(chars@.skip(start as int).skip(1) =~= chars@.skip(start + 1));
        }
        start = start + 1;
    }
    let mut end: usize = chars.len();
    proof {
        assert(chars@.subrange(start as int, end as int) =~= chars@.skip(start as int));
        assert(trimmed_start(chars@) =~= chars@.skip(start as int));
    }
    while end > start && chars[end - 1].is_whitespace()
        invariant
            start <= end <= chars@.len(),
            trimmed_end(trimmed_start(chars@)) == trimmed_end(
                chars@.subrange(start as int, end as int),
            ),
        decreases end - start,
    {
        proof {
            assert(chars@.subrange(start as int, end as int).drop_last() =~= chars@.subrange(
                start as int,
                end - 1,
            ));
        }
        end = end - 1;
    }
    string_of(&chars, start, end)
}

// ---------------------------------------------------------------------------
// ASCII case
// ---------------------------------------------------------------------------

/// The ASCII lower-case form of a character; every other character is left alone.
pub open spec fn lower_char(c: char) -> char {
    if 'A' <= c <= 'Z' {
        ((c as u32) + 32) as char
    } else {
        c
    }
}

/// `s` with each ASCII capital replaced by its lower-case letter.
pub open spec fn lowered(s: Seq<char>) -> Seq<char> {
    s.map_values(|c: char| lower_char(c))
}

/// The ASCII lower-case form of one character.
pub fn to_lower_char(c: char) -> (result: char)
    ensures
        result == lower_char(c),
{
    if 'A' <= c && c <= 'Z' {
        let code: u8 = c as u8;
        (code + 32) as char
    } else {
        c
    }
}

/// The ASCII lower-case form of a text.
pub fn to_lower(text: &str) -> (result: String)
    ensures
        result@ == lowered(text@),
{
    let mut result = String::new();
    for c in it: text.chars()
        invariant
            it.seq() == text@,
            result@ == lowered(text@.take(it.index() as int)),
    {
        proof {
            assert(text@.take(it.index() + 1) =~= text@.take(it.index() as int).push(c));
        }
        result.push(to_lower_char(c));
        proof {
            assert(result@ =~= lowered(text@.take(it.index() + 1)));
        }
    }
    proof {
        assert(text@.take(text@.len() as int) =~= text@);
    }
    result
}

// ---------------------------------------------------------------------------
// Words and lines
// ---------------------------------------------------------------------------

/// How many leading characters of `s` are not white space.
pub open spec fn word_len(s: Seq<char>) -> nat
    decreases s.len(),
{
    if s.len() == 0 || is_space(s[0]) {
        0
    } else {
        1 + word_len(s.skip(1))
    }
}

/// The first word: within the text, free of white space, and ended by white space or the end.
pub proof fn lemma_word_len(s: Seq<char>)
    ensures
        word_len(s) <= s.len(),
        s.len() > 0 && !is_space(s[0]) ==> word_len(s) > 0,
        forall|k: int| 0 <= k < word_len(s) ==> !is_space(#[trigger] s[k]),
        word_len(s) < s.len() ==> is_space(s[word_len(s) as int]),
    decreases s.len(),
{
    if s.len() > 0 && !is_space(s[0]) {
        lemma_word_len(s.skip(1));
        assert forall|k: int| 0 <= k < word_len(s) implies !is_space(#[trigger] s[k]) by {
            if k > 0 {
                assert(s.skip(1)[k - 1] == s[k]);
            }
        }
    }
}

/// A word that ends where `len` says: nothing before it is white space, and the text or
/// the word ends there.
proof fn lemma_word_len_is(s: Seq<char>, len: int)
    requires
        0 <= len <= s.len(),
        forall|k: int| 0 <= k < len ==> !is_space(#[trigger] s[k]),
        len < s.len() ==> is_space(s[len]),
    ensures
        word_len(s) == len,
{
    lemma_word_len(s);
}

/// The maximal runs of characters that are not white space, in order.
pub open spec fn words(s: Seq<char>) -> Seq<Seq<char>>
    decreases s.len(),
{
    if s.len() == 0 {
        seq![]
    } else if is_space(s[0]) {
        words(s.skip(1))
    } else {
        proof {
            lemma_word_len(s);
        }
        seq![s.take(word_len(s) as int)] + words(s.skip(word_len(s) as int))
    }
}

/// The words of a text.
pub fn split_whitespace(text: &str) -> (result: Vec<String>)
    ensures
        texts(result@) == words(text@),
{
    let chars = chars_of(text);
    let mut result: Vec<String> = Vec::new();
    let mut i: usize = 0;
    proof {
        assert(chars@.skip(0) =~= chars@);
        assert(texts(result@) + words(chars@) =~= words(chars@));
    }
    while i < chars.len()
        invariant
            i <= chars@.len(),
            words(chars@) == texts(result@) + words(chars@.skip(i as int)),
        decreases chars.len() - i,
    {
        let ghost rest = chars@.skip(i as int);
        if chars[i].is_whitespace() {
            proof {
                assert(rest.skip(1) =~= chars@.skip(i + 1));
            }
            i = i + 1;
        } else {
            let start: usize = i;
            while i < chars.len() && !chars[i].is_whitespace()
                invariant
                    start <= i <= chars@.len(),
                    forall|k: int| start <= k < i ==> !is_space(#[trigger] chars@[k]),
                decreases chars.len() - i,
            {
                i = i + 1;
            }
            proof {
                assert forall|k: int| 0 <= k < i - start implies !is_space(#[trigger] rest[k]) by {
                    assert(chars@[start + k] == rest[k]);
                }
                lemma_word_len_is(rest, i - start);
                lemma_word_len(rest);
                assert(rest.take(i - start) =~= chars@.subrange(start as int, i as int));
                assert(rest.skip(i - start) =~= chars@.skip(i as int));
            }
            let ghost before = texts(result@);
            result.push(string_of(&chars, start, i));
            proof {
                assert(texts(result@) =~= before + seq![rest.take(i - start)]);
                assert(before + words(rest) =~= texts(result@) + words(chars@.skip(i as int)));
            }
        }
    }
    proof {
        assert(texts(result@) + words(chars@.skip(i as int)) =~= texts(result@));
    }
    result
}

/// The parts with `separator` between each two neighbours.
pub open spec fn joined(parts: Seq<Seq<char>>, separator: Seq<char>) -> Seq<char>
    decreases parts.len(),
{
    if parts.len() == 0 {
        Seq::empty()
    } else if parts.len() == 1 {
        parts[0]
    } else {
        joined(parts.drop_last(), separator) + separator + parts.last()
    }
}

/// Joins the parts with a separator.
pub fn join(parts: &Vec<String>, separator: &str) -> (result: String)
    ensures
        result@ == joined(texts(parts@), separator@),
{
    let mut result = String::new();
    let mut i: usize = 0;
    let ghost all = texts(parts@);
    while i < parts.len()
        invariant
            i <= parts@.len(),
            all == texts(parts@),
            result@ == joined(all.take(i as int), separator@),
        decreases parts.len() - i,
    {
        let ghost before = result@;
        if i > 0 {
            result.append(separator);
        }
        result.append(parts[i].as_str());
        proof {
            let prefix = all.take(i + 1);
            assert(prefix.drop_last() =~= all.take(i as int));
            assert(prefix.last() == parts@[i as int]@);
            if i == 0 {
                assert(result@ =~= prefix[0]);
            }
        }
        i = i + 1;
    }
    proof {
        assert(all.take(i as int) =~= all);
    }
    result
}

/// `s` with every run of white space replaced by one blank, and none at either end.
pub open spec fn normalized(s: Seq<char>) -> Seq<char> {
    joined(words(s), " "@)
}

/// Collapses white space to single blanks.
pub fn normalize_whitespace(input: &str) -> (result: String)
    ensures
        result@ == normalized(input@),
{
    let parts = split_whitespace(input);
    join(&parts, " ")
}

/// Where `c` first occurs in `s`; the length of `s` where it does not.
pub open spec fn index_of_char(s: Seq<char>, c: char) -> nat
    decreases s.len(),
{
    if s.len() == 0 || s[0] == c {
        0
    } else {
        1 + index_of_char(s.skip(1), c)
    }
}

/// The first occurrence is an occurrence, and no earlier character is one.
pub proof fn lemma_index_of_char(s: Seq<char>, c: char)
    ensures
        index_of_char(s, c) <= s.len(),
        forall|k: int| 0 <= k < index_of_char(s, c) ==> #[trigger] s[k] != c,
        index_of_char(s, c) < s.len() ==> s[index_of_char(s, c) as int] == c,
    decreases s.len(),
{
    if s.len() > 0 && s[0] != c {
        lemma_index_of_char(s.skip(1), c);
        assert forall|k: int| 0 <= k < index_of_char(s, c) implies #[trigger] s[k] != c by {
            if k > 0 {
                assert(s.skip(1)[k - 1] == s[k]);
            }
        }
    }
}

/// Where `c` first occurs in `chars` at or after `from`; the length where it does not.
pub fn find_char(chars: &Vec<char>, from: usize, c: char) -> (result: usize)
    requires
        from <= chars@.len(),
    ensures
        from <= result <= chars@.len(),
        result == from + index_of_char(chars@.skip(from as int), c),
        forall|k: int| from <= k < result ==> #[trigger] chars@[k] != c,
        result < chars@.len() ==> chars@[result as int] == c,
{
    let mut i: usize = from;
    while i < chars.len() && chars[i] != c
        invariant
            from <= i <= chars@.len(),
            forall|k: int| from <= k < i ==> #[trigger] chars@[k] != c,
        decreases chars.len() - i,
    {
        i = i + 1;
    }
    proof {
        let rest = chars@.skip(from as int);
        lemma_index_of_char(rest, c);
        let n = index_of_char(rest, c);
        if n < i - from {
            assert(chars@[from + n] != c);
        }
        if n > i - from {
            assert(rest[i - from] == chars@[i as int]);
        }
    }
    i
}

/// A line without the carriage return that belongs to its line ending.
pub open spec fn without_final_return(line: Seq<char>) -> Seq<char> {
    if line.len() > 0 && line.last() == '\r' {
        line.drop_last()
    } else {
        line
    }
}

/// The lines of `s`, without their line endings (`\n` or `\r\n`); a line ending at the
/// end of `s` opens no further line.
pub open spec fn lines_of(s: Seq<char>) -> Seq<Seq<char>>
    decreases s.len(),
{
    if s.len() == 0 {
        seq![]
    } else {
        let n = index_of_char(s, '\n');
        proof {
            lemma_index_of_char(s, '\n');
        }
        if n < s.len() {
            seq![without_final_return(s.take(n as int))] + lines_of(s.skip(n as int + 1))
        } else {
            seq![s]
        }
    }
}

/// The lines of a text.
pub fn lines(text: &str) -> (result: Vec<String>)
    ensures
        texts(result@) == lines_of(text@),
{
    let chars = chars_of(text);
    let mut result: Vec<String> = Vec::new();
    let mut i: usize = 0;
    proof {
        assert(chars@.skip(0) =~= chars@);
        assert(texts(result@) + lines_of(chars@) =~= lines_of(chars@));
    }
    while i < chars.len()
        invariant
            i <= chars@.len(),
            lines_of(chars@) == texts(result@) + lines_of(chars@.skip(i as int)),
        decreases chars.len() - i,
    {
        let ghost rest = chars@.skip(i as int);
        let ghost before = texts(result@);
        let end: usize = find_char(&chars, i, '\n');
        let ghost n = (end - i) as int;
        proof {
            lemma_index_of_char(rest, '\n');
        }
        if end < chars.len() {
            let line_end: usize = if end > i && chars[end - 1] == '\r' {
                end - 1
            } else {
                end
            };
            result.push(string_of(&chars, i, line_end));
            proof {
                assert(rest.take(n) =~= chars@.subrange(i as int, end as int));
                assert(without_final_return(rest.take(n)) =~= chars@.subrange(
                    i as int,
                    line_end as int,
                ));
                assert(rest.skip(n + 1) =~= chars@.skip(end + 1));
                assert(texts(result@) =~= before + seq![without_final_return(rest.take(n))]);
                assert(before + lines_of(rest) =~= texts(result@) + lines_of(
                    chars@.skip(end + 1),
                ));
            }
            i = end + 1;
        } else {
            result.push(string_of(&chars, i, end));
            proof {
                assert(rest =~= chars@.subrange(i as int, end as int));
                assert(texts(result@) =~= before + seq![rest]);
                assert(chars@.skip(end as int).len() == 0);
                assert(before + lines_of(rest) =~= texts(result@) + lines_of(
                    chars@.skip(end as int),
                ));
            }
            i = end;
        }
    }
    proof {
        assert(texts(result@) + lines_of(chars@.skip(i as int)) =~= texts(result@));
    }
    result
}

// ---------------------------------------------------------------------------
// Search and replacement
// ---------------------------------------------------------------------------

/// Whether `needle` stands in `s` at `at`.
pub open spec fn stands_at(s: Seq<char>, at: int, needle: Seq<char>) -> bool {
    at + needle.len() <= s.len() && s.subrange(at, at + needle.len()) == needle
}

/// Whether `needle` occurs somewhere in `s`.
pub open spec fn occurs_in(needle: Seq<char>, s: Seq<char>) -> bool {
    exists|at: int| 0 <= at && #[trigger] stands_at(s, at, needle)
}

/// Whether `needle` stands in `chars` at `at`.
pub fn matches_at(chars: &Vec<char>, at: usize, needle: &Vec<char>) -> (result: bool)
    requires
        at <= chars@.len(),
    ensures
        result == stands_at(chars@, at as int, needle@),
{
    if needle.len() > chars.len() - at {
        return false;
    }
    let mut i: usize = 0;
    while i < needle.len()
        invariant
            i <= needle@.len(),
            at + needle@.len() <= chars.len(),
            forall|k: int| 0 <= k < i ==> chars@[at + k] == needle@[k],
        decreases needle.len() - i,
    {
        if chars[at + i] != needle[i] {
            proof {
                assert(chars@.subrange(at as int, at + needle@.len())[i as int] != needle@[i as int]);
            }
            return false;
        }
        i = i + 1;
    }
    proof {
        assert(chars@.subrange(at as int, at + needle@.len()) =~= needle@);
    }
    true
}

/// Whether `needle` occurs in `text`.
pub fn contains_text(text: &str, needle: &str) -> (result: bool)
    ensures
        result == occurs_in(needle@, text@),
{
    let chars = chars_of(text);
    let pattern = chars_of(needle);
    let mut i: usize = 0;
    while i < chars.len()
        invariant
            i <= chars@.len(),
            chars@ == text@,
            pattern@ == needle@,
            forall|k: int| 0 <= k < i ==> !#[trigger] stands_at(chars@, k, pattern@),
        decreases chars.len() - i,
    {
        if matches_at(&chars, i, &pattern) {
            return true;
        }
        i = i + 1;
    }
    let last = matches_at(&chars, i, &pattern);
    proof {
        if !last {
            assert forall|k: int| 0 <= k implies !#[trigger] stands_at(chars@, k, pattern@) by {}
        }
    }
    last
}

/// `s` with each occurrence of `from`, found from left to right without overlap,
/// replaced by `to`.
pub open spec fn replaced(s: Seq<char>, from: Seq<char>, to: Seq<char>) -> Seq<char>
    decreases s.len(),
{
    if s.len() == 0 || from.len() == 0 {
        s
    } else if stands_at(s, 0, from) {
        to + replaced(s.skip(from.len() as int), from, to)
    } else {
        seq![s[0]] + replaced(s.skip(1), from, to)
    }
}

/// Replaces each occurrence of `from` by `to`.
pub fn replace(text: &str, from: &str, to: &str) -> (result: String)
    requires
        from@.len() > 0,
    ensures
        result@ == replaced(text@, from@, to@),
{
    let chars = chars_of(text);
    let pattern = chars_of(from);
    let mut result = String::new();
    let mut i: usize = 0;
    proof {
        assert(chars@.skip(0) =~= chars@);
        assert(result@ + replaced(chars@, from@, to@) =~= replaced(chars@, from@, to@));
    }
    while i < chars.len()
        invariant
            i <= chars@.len(),
            pattern@ == from@,
            from@.len() > 0,
            replaced(chars@, from@, to@) == result@ + replaced(
                chars@.skip(i as int),
                from@,
                to@,
            ),
        decreases chars.len() - i,
    {
        let ghost rest = chars@.skip(i as int);
        let ghost before = result@;
        let found = matches_at(&chars, i, &pattern);
        proof {
            if i + from@.len() <= chars@.len() {
                assert(rest.subrange(0, from@.len() as int) =~= chars@.subrange(
                    i as int,
                    i + from@.len(),
                ));
            }
        }
        if found {
            result.append(to);
            proof {
                assert(rest.skip(from@.len() as int) =~= chars@.skip(i + from@.len()));
                assert(before + replaced(rest, from@, to@) =~= result@ + replaced(
                    chars@.skip(i + from@.len()),
                    from@,
                    to@,
                ));
            }
            i = i + pattern.len();
        } else {
            result.push(chars[i]);
            proof {
                assert(rest.skip(1) =~= chars@.skip(i + 1));
                assert(before + replaced(rest, from@, to@) =~= result@ + replaced(
                    chars@.skip(i + 1),
                    from@,
                    to@,
                ));
            }
            i = i + 1;
        }
    }
    proof {
        assert(result@ + replaced(chars@.skip(i as int), from@, to@) =~= result@);
    }
    result
}

// ---------------------------------------------------------------------------
// Numbers
// ---------------------------------------------------------------------------

/// The decimal digit of a number below ten.
pub open spec fn digit_char(d: nat) -> char {
    (('0' as u32) + d) as char
}

/// A natural number in decimal notation.
pub open spec fn decimal(n: nat) -> Seq<char>
    decreases n,
{
    if n < 10 {
        seq![digit_char(n)]
    } else {
        decimal(n / 10).push(digit_char(n % 10))
    }
}

/// An integer in decimal notation, with a minus sign where it is negative.
pub open spec fn signed_decimal(n: int) -> Seq<char> {
    if n < 0 {
        seq!['-'] + decimal((-n) as nat)
    } else {
        decimal(n as nat)
    }
}

/// A number in decimal notation.
pub fn decimal_text(n: u64) -> (result: String)
    ensures
        result@ == decimal(n as nat),
    decreases n,
{
    let digit: u8 = (n % 10) as u8;
    let c: char = (48 + digit) as char;
    if n < 10 {
        let mut result = String::new();
        result.push(c);
        proof {
            assert(result@ =~= decimal(n as nat));
        }
        result
    } else {
        let mut result = decimal_text(n / 10);
        result.push(c);
        result
    }
}

/// A signed number in decimal notation.
pub fn signed_decimal_text(n: i64) -> (result: String)
    ensures
        result@ == signed_decimal(n as int),
{
    if n < 0 {
        let magnitude: u64 = (-(n as i128)) as u64;
        let digits = decimal_text(magnitude);
        let mut result = String::new();
        result.push('-');
        result.append(digits.as_str());
        proof {
            assert(result@ =~= signed_decimal(n as int));
        }
        result
    } else {
        decimal_text(n as u64)
    }
}

/// Whether `s` holds nothing but decimal digits.
pub open spec fn all_digits(s: Seq<char>) -> bool {
    forall|k: int| 0 <= k < s.len() ==> '0' <= #[trigger] s[k] <= '9'
}

/// The number that a run of decimal digits denotes.
pub open spec fn digits_value(s: Seq<char>) -> nat
    decreases s.len(),
{
    if s.len() == 0 {
        0
    } else {
        digits_value(s.drop_last()) * 10 + ((s.last() as u32) - ('0' as u32)) as nat
    }
}

/// `s` without one leading plus sign.
pub open spec fn without_plus(s: Seq<char>) -> Seq<char> {
    if s.len() > 0 && s[0] == '+' {
        s.skip(1)
    } else {
        s
    }
}

/// The machine number that `s` denotes: decimal digits, at least one, with at most one
/// leading plus sign, of a value that fits.
pub open spec fn parsed_usize(s: Seq<char>) -> Option<usize> {
    let digits = without_plus(s);
    if digits.len() > 0 && all_digits(digits) && digits_value(digits) <= usize::MAX {
        Some(digits_value(digits) as usize)
    } else {
        None
    }
}

proof fn lemma_digits_value_grows(s: Seq<char>, n: int)
    requires
        0 <= n <= s.len(),
        all_digits(s),
    ensures
        digits_value(s.take(n)) <= digits_value(s),
    decreases s.len() - n,
{
    if n < s.len() {
        lemma_digits_value_grows(s, n + 1);
        assert(s.take(n + 1).drop_last() =~= s.take(n));
        assert('0' <= s[n] <= '9');
        assert(s.take(n + 1).last() == s[n]);
    } else {
        assert(s.take(n) =~= s);
    }
}

/// Reads a machine number in decimal notation.
pub fn parse_usize(text: &str) -> (result: Option<usize>)
    ensures
        result == parsed_usize(text@),
{
    let chars = chars_of(text);
    let start: usize = if chars.len() > 0 && chars[0] == '+' {
        1
    } else {
        0
    };
    let ghost digits = without_plus(text@);
    proof {
        assert(digits =~= chars@.skip(start as int));
    }
    if start == chars.len() {
        return None;
    }
    let mut value: usize = 0;
    let mut i: usize = start;
    while i < chars.len()
        invariant
            start <= i <= chars@.len(),
            start < chars@.len(),
            digits == without_plus(text@),
            digits == chars@.skip(start as int),
            all_digits(digits.take(i - start)),
            value == digits_value(digits.take(i - start)),
        decreases chars.len() - i,
    {
        let c = chars[i];
        proof {
            assert(digits[i - start] == c);
            assert(digits.take(i - start + 1).drop_last() =~= digits.take(i - start));
            assert(digits.take(i - start + 1).last() == c);
        }
        if c < '0' || c > '9' {
            return None;
        }
        let digit: usize = c as usize - 48;
        proof {
            assert forall|k: int| 0 <= k < i - start + 1 implies '0' <= #[trigger] digits.take(
                i - start + 1,
            )[k] <= '9' by {
                if k < i - start {
                    assert(digits.take(i - start)[k] == digits[k]);
                }
            }
        }
        if value > (usize::MAX - digit) / 10 {
            proof {
                if all_digits(digits) {
                    lemma_digits_value_grows(digits, i - start + 1);
                }
            }
            return None;
        }
        value = value * 10 + digit;
        i = i + 1;
    }
    proof {
        assert(digits.take(i - start) =~= digits);
    }
    Some(value)
}

// ---------------------------------------------------------------------------
// UTF-8 sizes
// ---------------------------------------------------------------------------

/// How many bytes the UTF-8 form of `s` takes.
pub open spec fn byte_len(s: Seq<char>) -> nat {
    encode_utf8(s).len()
}

/// How many bytes the UTF-8 form of one character takes.
pub open spec fn char_width(c: char) -> nat {
    encode_scalar(c as u32).len()
}

/// The bytes of a concatenation are the bytes of its parts.
pub proof fn lemma_byte_len_concat(a: Seq<char>, b: Seq<char>)
    ensures
        byte_len(a + b) == byte_len(a) + byte_len(b),
    decreases a.len(),
{
    if a.len() == 0 {
        assert(a + b =~= b);
    } else {
        assert((a + b).drop_first() =~= a.drop_first() + b);
        lemma_byte_len_concat(a.drop_first(), b);
    }
}

/// One character more adds its width.
pub proof fn lemma_byte_len_push(s: Seq<char>, c: char)
    ensures
        byte_len(s.push(c)) == byte_len(s) + char_width(c),
{
    assert(s.push(c) =~= s + seq![c]);
    lemma_byte_len_concat(s, seq![c]);
    reveal_with_fuel(encode_utf8, 2);
    assert(encode_utf8(seq![c]) =~= encode_scalar(c as u32));
}

/// A part of a text takes no more bytes than the text.
pub proof fn lemma_byte_len_take(s: Seq<char>, n: int)
    requires
        0 <= n <= s.len(),
    ensures
        byte_len(s.take(n)) <= byte_len(s),
{
    assert(s =~= s.take(n) + s.skip(n));
    lemma_byte_len_concat(s.take(n), s.skip(n));
}

/// An ASCII text takes one byte per character.
pub proof fn lemma_byte_len_ascii(s: Seq<char>)
    requires
        forall|i: int| 0 <= i < s.len() ==> (#[trigger] s[i] as u32) < 0x80,
    ensures
        byte_len(s) == s.len(),
    decreases s.len(),
{
    if s.len() > 0 {
        lemma_byte_len_ascii(s.drop_first());
        assert(s =~= seq![s[0]] + s.drop_first());
        lemma_byte_len_concat(seq![s[0]], s.drop_first());
        lemma_byte_len_push(Seq::empty(), s[0]);
        assert(Seq::<char>::empty().push(s[0]) =~= seq![s[0]]);
        assert(char_width(s[0]) == 1);
    }
}

/// How many bytes the UTF-8 form of one character takes.
pub fn width_of(c: char) -> (result: usize)
    ensures
        result == char_width(c),
        1 <= result <= 4,
{
    let code: u32 = c as u32;
    if code < 0x80 {
        1
    } else if code < 0x800 {
        2
    } else if code < 0x10000 {
        3
    } else {
        4
    }
}

/// How many bytes the UTF-8 form of a text takes.
pub fn size_of_text(text: &str) -> (result: usize)
    ensures
        result == byte_len(text@),
{
    text.as_bytes().len()
}

/// How many leading characters of `s` fit into `max` bytes.
pub open spec fn fitting(s: Seq<char>, max: nat) -> nat
    decreases s.len(),
{
    if s.len() == 0 || char_width(s[0]) > max {
        0
    } else {
        1 + fitting(s.skip(1), (max - char_width(s[0])) as nat)
    }
}

/// The longest prefix of `s` that takes at most `max` bytes.
pub open spec fn byte_prefix(s: Seq<char>, max: nat) -> Seq<char> {
    s.take(fitting(s, max) as int)
}

/// `byte_prefix` is a prefix, it fits, and the next character would not fit.
pub proof fn lemma_byte_prefix(s: Seq<char>, max: nat)
    ensures
        fitting(s, max) <= s.len(),
        byte_len(byte_prefix(s, max)) <= max,
        fitting(s, max) < s.len() ==> byte_len(s.take(fitting(s, max) as int + 1)) > max,
        byte_len(s) <= max <==> byte_prefix(s, max) == s,
    decreases s.len(),
{
    if s.len() == 0 {
        assert(byte_prefix(s, max) =~= s);
    } else {
        let w = char_width(s[0]);
        let tail = s.skip(1);
        assert(s.drop_first() =~= tail);
        if w > max {
            assert(byte_prefix(s, max) =~= Seq::<char>::empty());
            assert(s.take(1) =~= Seq::<char>::empty().push(s[0]));
            lemma_byte_len_push(Seq::<char>::empty(), s[0]);
            assert(byte_len(s) >= w);
        } else {
            let rest = (max - w) as nat;
            lemma_byte_prefix(tail, rest);
            let n = fitting(tail, rest) as int;
            assert(byte_prefix(s, max).drop_first() =~= byte_prefix(tail, rest));
            assert(byte_prefix(s, max)[0] == s[0]);
            if n < tail.len() {
                assert(s.take(n + 2).drop_first() =~= tail.take(n + 1));
                assert(s.take(n + 2)[0] == s[0]);
            }
            if byte_prefix(tail, rest) == tail {
                assert(n == tail.len());
                assert(byte_prefix(s, max) =~= s);
            }
            if byte_prefix(s, max) == s {
                assert(byte_prefix(tail, rest) =~= tail);
            }
        }
    }
}

/// No prefix of `s` that fits is longer than `byte_prefix`.
pub proof fn lemma_byte_prefix_longest(s: Seq<char>, max: nat, n: int)
    requires
        0 <= n <= s.len(),
        byte_len(s.take(n)) <= max,
    ensures
        n <= fitting(s, max),
{
    lemma_byte_prefix(s, max);
    let f = fitting(s, max) as int;
    if n > f {
        lemma_byte_len_take(s.take(n), f + 1);
        assert(s.take(n).take(f + 1) =~= s.take(f + 1));
    }
}

/// The longest prefix of `text` that takes at most `max` bytes.
pub fn take_bytes_at_char_boundary(text: &str, max: usize) -> (result: String)
    ensures
        result@ == byte_prefix(text@, max as nat),
{
    let chars = chars_of(text);
    let mut left: usize = max;
    let mut i: usize = 0;
    proof {
        assert(chars@.skip(0) =~= chars@);
    }
    while i < chars.len() && width_of(chars[i]) <= left
        invariant
            i <= chars@.len(),
            fitting(chars@, max as nat) == i + fitting(chars@.skip(i as int), left as nat),
        decreases chars.len() - i,
    {
        proof {
            assert(chars@.skip(i as int).skip(1) =~= chars@.skip(i + 1));
        }
        left = left - width_of(chars[i]);
        i = i + 1;
    }
    string_of(&chars, 0, i)
}

/// `s` cut to `max` bytes, with a marker on a line of its own where something was cut.
pub open spec fn truncated(s: Seq<char>, max: nat) -> Seq<char> {
    if byte_len(s) <= max {
        s
    } else {
        byte_prefix(s, max) + "\n[truncated]"@
    }
}

/// Cuts a text to `max_bytes` bytes and marks the cut.
pub fn truncate_text(text: &str, max_bytes: usize) -> (result: String)
    ensures
        result@ == truncated(text@, max_bytes as nat),
{
    let kept = take_bytes_at_char_boundary(text, max_bytes);
    proof {
        lemma_byte_prefix(text@, max_bytes as nat);
        lemma_byte_len_take(text@, fitting(text@, max_bytes as nat) as int);
        let n = fitting(text@, max_bytes as nat) as int;
        assert(text@ =~= text@.take(n) + text@.skip(n));
        lemma_byte_len_concat(text@.take(n), text@.skip(n));
    }
    if size_of_text(kept.as_str()) == size_of_text(text) {
        kept
    } else {
        kept.concat("\n[truncated]")
    }
}

/// A cut text takes at most `max` bytes and those of the marker, and a text that fits is not
/// cut.
pub proof fn lemma_truncated_fits(s: Seq<char>, max: nat)
    ensures
        byte_len(truncated(s, max)) <= max + byte_len("\n[truncated]"@),
        byte_len(s) <= max ==> truncated(s, max) == s,
        byte_len(s) > max ==> truncated(s, max).take(fitting(s, max) as int) == s.take(
            fitting(s, max) as int,
        ),
{
    lemma_byte_prefix(s, max);
    lemma_byte_len_concat(byte_prefix(s, max), "\n[truncated]"@);
    let n = fitting(s, max) as int;
    assert((byte_prefix(s, max) + "\n[truncated]"@).take(n) =~= s.take(n));
}

} // verus!
