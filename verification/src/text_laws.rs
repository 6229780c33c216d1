//! What the text primitives promise their callers, in terms of what goes into an operation
//! and what comes out of it.

use crate::text::{
    byte_len, byte_prefix, contains_text, decimal, decimal_text, digits_value, fitting, is_space,
    join, joined, lemma_byte_prefix, lemma_index_of_char, lemma_word_len, lines,
    lines_of, normalize_whitespace, normalized, parse_usize, replace, replaced, same_text,
    signed_decimal_text, split_whitespace, stands_at, take_bytes_at_char_boundary, texts, to_lower,
    trim, trimmed, trimmed_end, trimmed_start, truncate_text, without_plus, word_len, words,
};
use crate::text_order::{not_after, sort_texts};
use vstd::prelude::*;
use vstd::utf8::encode_utf8;

verus! {

// ---------------------------------------------------------------------------
// White space
// ---------------------------------------------------------------------------

/// The white space of plain text is white space, and no letter, digit, bracket or other
/// visible character of it is.
pub proof fn lemma_white_space(c: char)
    ensures
        c == ' ' || c == '\t' || c == '\n' || c == '\r' || c == '\u{b}' || c == '\u{c}'
            ==> is_space(c),
        '!' <= c <= '~' ==> !is_space(c),
{
}

/// A trimmed text is what stands between the first and the last character that are not white
/// space.
pub proof fn lemma_trim_takes_white_space_off(text: &str, result: String)
    requires
        call_ensures(trim, (text,), result),
    ensures
        exists|i: int, j: int|
            0 <= i <= j <= text@.len() && #[trigger] text@.subrange(i, j) == result@ && (forall|k: int|
                0 <= k < i ==> is_space(#[trigger] text@[k])) && (forall|k: int|
                j <= k < text@.len() ==> is_space(#[trigger] text@[k])),
        result@.len() > 0 ==> !is_space(result@[0]) && !is_space(result@.last()),
{
    lemma_trimmed(text@);
}

/// What a trimmed text is.
pub proof fn lemma_trimmed(s: Seq<char>)
    ensures
        exists|i: int, j: int|
            0 <= i <= j <= s.len() && #[trigger] s.subrange(i, j) == trimmed(s) && (forall|k: int|
                0 <= k < i ==> is_space(#[trigger] s[k])) && (forall|k: int|
                j <= k < s.len() ==> is_space(#[trigger] s[k])),
        trimmed(s).len() > 0 ==> !is_space(trimmed(s)[0]) && !is_space(trimmed(s).last()),
{
    lemma_trimmed_start(s);
    let i = choose|i: int|
        0 <= i <= s.len() && #[trigger] s.skip(i) == trimmed_start(s) && (forall|k: int|
            0 <= k < i ==> is_space(#[trigger] s[k]));
    let rest = s.skip(i);
    lemma_trimmed_end(rest);
    let n = choose|n: int|
        0 <= n <= rest.len() && #[trigger] rest.take(n) == trimmed_end(rest) && (forall|k: int|
            n <= k < rest.len() ==> is_space(#[trigger] rest[k]));
    assert(s.subrange(i, i + n) =~= rest.take(n));
    assert forall|k: int| i + n <= k < s.len() implies is_space(#[trigger] s[k]) by {
        assert(rest[k - i] == s[k]);
    }
    if trimmed(s).len() > 0 {
        assert(trimmed(s)[0] == rest[0]);
    }
}

proof fn lemma_trimmed_start(s: Seq<char>)
    ensures
        exists|i: int|
            0 <= i <= s.len() && #[trigger] s.skip(i) == trimmed_start(s) && (forall|k: int|
                0 <= k < i ==> is_space(#[trigger] s[k])),
        trimmed_start(s).len() > 0 ==> !is_space(trimmed_start(s)[0]),
    decreases s.len(),
{
    if s.len() > 0 && is_space(s[0]) {
        let rest = s.skip(1);
        lemma_trimmed_start(rest);
        let i = choose|i: int|
            0 <= i <= rest.len() && #[trigger] rest.skip(i) == trimmed_start(rest) && (forall|k: int|
                0 <= k < i ==> is_space(#[trigger] rest[k]));
        assert(s.skip(i + 1) =~= rest.skip(i));
        assert forall|k: int| 0 <= k < i + 1 implies is_space(#[trigger] s[k]) by {
            if k > 0 {
                assert(rest[k - 1] == s[k]);
            }
        }
    } else {
        assert(s.skip(0) =~= s);
    }
}

proof fn lemma_trimmed_end(s: Seq<char>)
    ensures
        exists|n: int|
            0 <= n <= s.len() && #[trigger] s.take(n) == trimmed_end(s) && (forall|k: int|
                n <= k < s.len() ==> is_space(#[trigger] s[k])),
        trimmed_end(s).len() > 0 ==> !is_space(trimmed_end(s).last()),
    decreases s.len(),
{
    if s.len() > 0 && is_space(s.last()) {
        let front = s.drop_last();
        lemma_trimmed_end(front);
        let n = choose|n: int|
            0 <= n <= front.len() && #[trigger] front.take(n) == trimmed_end(front) && (forall|k: int|
                n <= k < front.len() ==> is_space(#[trigger] front[k]));
        assert(s.take(n) =~= front.take(n));
        assert forall|k: int| n <= k < s.len() implies is_space(#[trigger] s[k]) by {
            if k < front.len() {
                assert(front[k] == s[k]);
            }
        }
    } else {
        assert(s.take(s.len() as int) =~= s);
    }
}

/// Words do not reach across white space: the words of two texts with white space between
/// them are the words of the one and then those of the other.
pub proof fn lemma_words_of_two_texts(a: Seq<char>, c: char, b: Seq<char>)
    requires
        is_space(c),
    ensures
        words(a + seq![c] + b) == words(a) + words(b),
    decreases a.len(),
{
    let s = a + seq![c] + b;
    if a.len() == 0 {
        assert(s.skip(1) =~= b);
        assert(words(a) + words(b) =~= words(b));
    } else if is_space(a[0]) {
        assert(s.skip(1) =~= a.skip(1) + seq![c] + b);
        lemma_words_of_two_texts(a.skip(1), c, b);
    } else {
        let w = word_len(a) as int;
        lemma_word_len(a);
        lemma_word_len(s);
        let v = word_len(s) as int;
        if v < w {
            assert(s[v] == a[v]);
        }
        if v > w {
            assert(is_space(s[w]));
        }
        assert(s.take(w) =~= a.take(w));
        assert(s.skip(w) =~= a.skip(w) + seq![c] + b);
        lemma_words_of_two_texts(a.skip(w), c, b);
        assert(seq![a.take(w)] + (words(a.skip(w)) + words(b)) =~= words(a) + words(b));
    }
}

/// A text without white space is one word, and the empty text has none.
pub proof fn lemma_one_word(s: Seq<char>)
    requires
        forall|k: int| 0 <= k < s.len() ==> !is_space(#[trigger] s[k]),
    ensures
        s.len() > 0 ==> words(s) == seq![s],
        s.len() == 0 ==> words(s).len() == 0,
{
    lemma_word_len(s);
    if s.len() > 0 {
        assert(!is_space(s[0]));
        if word_len(s) < s.len() {
            assert(is_space(s[word_len(s) as int]));
        }
        assert(s.take(s.len() as int) =~= s);
        assert(words(s.skip(s.len() as int)) =~= Seq::<Seq<char>>::empty());
        assert(words(s) =~= seq![s]);
    }
}

/// Two lists of parts, joined as one: joined each, with the separator between them.
pub proof fn lemma_joined_lists(p: Seq<Seq<char>>, q: Seq<Seq<char>>, separator: Seq<char>)
    ensures
        p.len() > 0 && q.len() > 0 ==> joined(p + q, separator) == joined(p, separator) + separator
            + joined(q, separator),
        p.len() == 0 ==> joined(p + q, separator) == joined(q, separator),
        q.len() == 0 ==> joined(p + q, separator) == joined(p, separator),
    decreases q.len(),
{
    if p.len() == 0 {
        assert(p + q =~= q);
    } else if q.len() == 0 {
        assert(p + q =~= p);
    } else {
        assert((p + q).drop_last() =~= p + q.drop_last());
        assert((p + q).last() == q.last());
        lemma_joined_lists(p, q.drop_last(), separator);
        if q.len() == 1 {
            assert(p + q.drop_last() =~= p);
        } else {
            assert(joined(p, separator) + separator + joined(q.drop_last(), separator) + separator
                + q.last() =~= joined(p, separator) + separator + joined(q, separator));
        }
    }
}

/// What is normalized is the words with single blanks between them.
pub proof fn lemma_normalized_parts(a: Seq<char>, c: char, b: Seq<char>)
    requires
        is_space(c),
    ensures
        ({
            let whole = normalized(a + seq![c] + b);
            if words(a).len() == 0 {
                whole == normalized(b)
            } else if words(b).len() == 0 {
                whole == normalized(a)
            } else {
                whole == normalized(a) + seq![' '] + normalized(b)
            }
        }),
{
    lemma_words_of_two_texts(a, c, b);
    lemma_joined_lists(words(a), words(b), " "@);
    reveal_strlit(" ");
    assert(" "@ =~= seq![' ']);
}

/// No word is empty, and neither is the normalized form of a text that has a word.
pub proof fn lemma_normalized_is_empty(s: Seq<char>)
    ensures
        normalized(s).len() == 0 <==> words(s).len() == 0,
        words(s).len() == 0 <==> forall|k: int| 0 <= k < s.len() ==> is_space(#[trigger] s[k]),
    decreases s.len(),
{
    if s.len() > 0 {
        if is_space(s[0]) {
            let rest = s.skip(1);
            lemma_normalized_is_empty(rest);
            assert forall|k: int|
                0 <= k < s.len() && (forall|m: int|
                    0 <= m < rest.len() ==> is_space(#[trigger] rest[m])) implies is_space(
                #[trigger] s[k],
            ) by {
                if k > 0 {
                    assert(rest[k - 1] == s[k]);
                }
            }
            assert forall|m: int|
                0 <= m < rest.len() && (forall|k: int|
                    0 <= k < s.len() ==> is_space(#[trigger] s[k])) implies is_space(
                #[trigger] rest[m],
            ) by {
                assert(rest[m] == s[m + 1]);
            }
        } else {
            lemma_word_len(s);
            let w = word_len(s) as int;
            let first = seq![s.take(w)];
            lemma_joined_lists(first, words(s.skip(w)), " "@);
            assert(joined(first, " "@) == s.take(w));
            assert(!is_space(s[0]));
        }
    }
}

/// Normalizing a text keeps its words in order and puts exactly one blank between them: a text
/// without white space stays as it is; white space alone becomes nothing; and of two texts with
/// white space between them each is normalized for itself, with one blank between them where
/// neither is empty then.
pub proof fn lemma_normalizing_keeps_the_words(
    a: &str,
    b: &str,
    c: char,
    whole: &str,
    of_a: String,
    of_b: String,
    of_whole: String,
)
    requires
        call_ensures(normalize_whitespace, (a,), of_a),
        call_ensures(normalize_whitespace, (b,), of_b),
        call_ensures(normalize_whitespace, (whole,), of_whole),
        is_space(c),
        whole@ == a@ + seq![c] + b@,
    ensures
        (forall|k: int| 0 <= k < a@.len() ==> !is_space(#[trigger] a@[k])) ==> of_a@ == a@,
        of_a@.len() == 0 <==> forall|k: int| 0 <= k < a@.len() ==> is_space(#[trigger] a@[k]),
        of_a@.len() == 0 ==> of_whole@ == of_b@,
        of_b@.len() == 0 ==> of_whole@ == of_a@,
        of_a@.len() > 0 && of_b@.len() > 0 ==> of_whole@ == of_a@ + seq![' '] + of_b@,
{
    lemma_normalized_parts(a@, c, b@);
    lemma_normalized_is_empty(a@);
    lemma_normalized_is_empty(b@);
    if forall|k: int| 0 <= k < a@.len() ==> !is_space(#[trigger] a@[k]) {
        lemma_one_word(a@);
    }
}

/// The words of a text: none of white space, the text itself where it holds none, and those
/// of two texts one after the other where white space stands between them.
pub proof fn lemma_words_of_a_text(
    a: &str,
    b: &str,
    c: char,
    whole: &str,
    of_a: Vec<String>,
    of_b: Vec<String>,
    of_whole: Vec<String>,
)
    requires
        call_ensures(split_whitespace, (a,), of_a),
        call_ensures(split_whitespace, (b,), of_b),
        call_ensures(split_whitespace, (whole,), of_whole),
        is_space(c),
        whole@ == a@ + seq![c] + b@,
    ensures
        (forall|k: int| 0 <= k < a@.len() ==> !is_space(#[trigger] a@[k])) && a@.len() > 0
            ==> of_a@.len() == 1 && of_a@[0]@ == a@,
        a@.len() == 0 ==> of_a@.len() == 0,
        of_whole@.len() == of_a@.len() + of_b@.len(),
        forall|k: int| 0 <= k < of_a@.len() ==> (#[trigger] of_whole@[k])@ == of_a@[k]@,
        forall|k: int|
            0 <= k < of_b@.len() ==> of_whole@[of_a@.len() + k]@ == (#[trigger] of_b@[k])@,
{
    lemma_words_of_two_texts(a@, c, b@);
    if forall|k: int| 0 <= k < a@.len() ==> !is_space(#[trigger] a@[k]) {
        lemma_one_word(a@);
        if a@.len() > 0 {
            assert(texts(of_a@)[0] == of_a@[0]@);
        }
    }
    assert(texts(of_a@).len() == of_a@.len());
    assert(texts(of_b@).len() == of_b@.len());
    assert(texts(of_whole@).len() == of_whole@.len());
    assert forall|k: int| 0 <= k < of_a@.len() implies (#[trigger] of_whole@[k])@ == of_a@[k]@ by {
        assert(texts(of_whole@)[k] == texts(of_a@)[k]);
    }
    assert forall|k: int| 0 <= k < of_b@.len() implies of_whole@[of_a@.len() + k]@ == (
    #[trigger] of_b@[k])@ by {
        assert(texts(of_whole@)[of_a@.len() + k] == texts(of_b@)[k]);
    }
}

/// Joining nothing gives nothing, joining one part gives the part, and one part more comes
/// behind a separator.
pub proof fn lemma_join_puts_separators_between(
    parts: Vec<String>,
    more: Vec<String>,
    part: String,
    separator: &str,
    shorter: String,
    longer: String,
)
    requires
        call_ensures(join, (&parts, separator), shorter),
        call_ensures(join, (&more, separator), longer),
        more@ == parts@.push(part),
    ensures
        parts@.len() == 0 ==> shorter@.len() == 0 && longer@ == part@,
        parts@.len() > 0 ==> longer@ == shorter@ + separator@ + part@,
{
    assert(texts(more@) =~= texts(parts@).push(part@));
    assert(texts(more@).drop_last() =~= texts(parts@));
}

// ---------------------------------------------------------------------------
// Case, equality and search
// ---------------------------------------------------------------------------

/// The lower-case form differs from a text in its ASCII capitals alone.
pub proof fn lemma_to_lower_changes_capitals_alone(text: &str, result: String)
    requires
        call_ensures(to_lower, (text,), result),
    ensures
        result@.len() == text@.len(),
        forall|k: int|
            0 <= k < text@.len() ==> if 'A' <= #[trigger] text@[k] <= 'Z' {
                result@[k] as u32 == text@[k] as u32 + 32
            } else {
                result@[k] == text@[k]
            },
{
}

/// Texts are compared as they are; a text occurs in another where it is a part of it.
pub proof fn lemma_comparing_texts(a: &str, b: &str, same: bool, within: bool)
    requires
        call_ensures(same_text, (a, b), same),
        call_ensures(contains_text, (a, b), within),
    ensures
        same <==> a@ == b@,
        within <==> exists|at: int|
            0 <= at && at + b@.len() <= a@.len() && #[trigger] a@.subrange(at, at + b@.len()) == b@,
{
    if within {
        let at = choose|at: int| 0 <= at && #[trigger] stands_at(a@, at, b@);
        assert(a@.subrange(at, at + b@.len()) == b@);
    }
    if exists|at: int|
        0 <= at && at + b@.len() <= a@.len() && #[trigger] a@.subrange(at, at + b@.len()) == b@ {
        let at = choose|at: int|
            0 <= at && at + b@.len() <= a@.len() && #[trigger] a@.subrange(at, at + b@.len()) == b@;
        assert(stands_at(a@, at, b@));
    }
}

/// A replacement does not reach across a character that can only begin an occurrence: the
/// parts on either side are replaced each for itself.
pub proof fn lemma_replaced_parts(a: Seq<char>, b: Seq<char>, from: Seq<char>, to: Seq<char>)
    requires
        from.len() > 0,
        b.len() > 0 ==> forall|k: int| 1 <= k < from.len() ==> #[trigger] from[k] != b[0],
    ensures
        replaced(a + b, from, to) == replaced(a, from, to) + replaced(b, from, to),
    decreases a.len(),
{
    let s = a + b;
    if a.len() == 0 {
        assert(s =~= b);
        assert(replaced(a, from, to) + replaced(b, from, to) =~= replaced(b, from, to));
    } else if b.len() == 0 {
        assert(s =~= a);
        assert(replaced(a, from, to) + replaced(b, from, to) =~= replaced(a, from, to));
    } else {
        let n = from.len() as int;
        if n <= a.len() {
            assert(s.subrange(0, n) =~= a.subrange(0, n));
        } else if stands_at(s, 0, from) {
            assert(s.subrange(0, n)[a.len() as int] == b[0]);
            assert(from[a.len() as int] == b[0]);
        }
        if stands_at(s, 0, from) {
            assert(s.skip(n) =~= a.skip(n) + b);
            lemma_replaced_parts(a.skip(n), b, from, to);
            assert(to + (replaced(a.skip(n), from, to) + replaced(b, from, to)) =~= replaced(
                a,
                from,
                to,
            ) + replaced(b, from, to));
        } else {
            assert(s.skip(1) =~= a.skip(1) + b);
            lemma_replaced_parts(a.skip(1), b, from, to);
            assert(seq![s[0]] + (replaced(a.skip(1), from, to) + replaced(b, from, to))
                =~= replaced(a, from, to) + replaced(b, from, to));
        }
    }
}

/// An occurrence at the front is replaced.
pub proof fn lemma_replaced_front(b: Seq<char>, from: Seq<char>, to: Seq<char>)
    requires
        from.len() > 0,
    ensures
        replaced(from + b, from, to) == to + replaced(b, from, to),
{
    assert((from + b).subrange(0, from.len() as int) =~= from);
    assert((from + b).skip(from.len() as int) =~= b);
}

/// A text without the first character of what is replaced stays as it is.
pub proof fn lemma_replaced_nothing(s: Seq<char>, from: Seq<char>, to: Seq<char>)
    requires
        from.len() > 0,
        forall|k: int| 0 <= k < s.len() ==> #[trigger] s[k] != from[0],
    ensures
        replaced(s, from, to) == s,
    decreases s.len(),
{
    if s.len() > 0 {
        if stands_at(s, 0, from) {
            assert(s.subrange(0, from.len() as int)[0] == s[0]);
        }
        let rest = s.skip(1);
        assert forall|k: int| 0 <= k < rest.len() implies #[trigger] rest[k] != from[0] by {
            assert(rest[k] == s[k + 1]);
        }
        lemma_replaced_nothing(rest, from, to);
        assert(seq![s[0]] + rest =~= s);
    }
}

/// Each occurrence is replaced: one at the front gives way to the replacement, a character at
/// which none begins stays, and the rest is replaced likewise.
pub proof fn lemma_replace_goes_from_left_to_right(
    text: &str,
    rest: &str,
    from: &str,
    to: &str,
    of_text: String,
    of_rest: String,
)
    requires
        call_ensures(replace, (text, from, to), of_text),
        call_ensures(replace, (rest, from, to), of_rest),
        from@.len() > 0,
    ensures
        text@.len() == 0 ==> of_text@.len() == 0,
        text@ == from@ + rest@ ==> of_text@ == to@ + of_rest@,
        text@.len() > 0 && text@.skip(1) == rest@ && !(text@.len() >= from@.len() && text@.take(
            from@.len() as int,
        ) == from@) ==> of_text@ == seq![text@[0]] + of_rest@,
{
    if text@ == from@ + rest@ {
        lemma_replaced_front(rest@, from@, to@);
    }
    if text@.len() >= from@.len() {
        assert(text@.take(from@.len() as int) =~= text@.subrange(0, from@.len() as int));
    }
}

// ---------------------------------------------------------------------------
// Lines
// ---------------------------------------------------------------------------

/// A text without line breaks is one line, the empty text has none, and a line break ends a
/// line, with the carriage return before it where there is one.
pub proof fn lemma_lines_end_at_line_breaks(
    line: &str,
    rest: &str,
    whole: &str,
    of_line: Vec<String>,
    of_rest: Vec<String>,
    of_whole: Vec<String>,
)
    requires
        call_ensures(lines, (line,), of_line),
        call_ensures(lines, (rest,), of_rest),
        call_ensures(lines, (whole,), of_whole),
        forall|k: int| 0 <= k < line@.len() ==> #[trigger] line@[k] != '\n',
        whole@ == line@ + seq!['\n'] + rest@,
    ensures
        line@.len() == 0 ==> of_line@.len() == 0,
        line@.len() > 0 ==> of_line@.len() == 1 && of_line@[0]@ == line@,
        of_whole@.len() == 1 + of_rest@.len(),
        of_whole@[0]@ == if line@.len() > 0 && line@.last() == '\r' {
            line@.drop_last()
        } else {
            line@
        },
        forall|k: int| 0 <= k < of_rest@.len() ==> of_whole@[k + 1]@ == (#[trigger] of_rest@[k])@,
{
    let n = line@.len() as int;
    lemma_index_of_char(line@, '\n');
    lemma_index_of_char(whole@, '\n');
    let m = crate::text::index_of_char(whole@, '\n') as int;
    assert(whole@[n] == '\n');
    if m < n {
        assert(line@[m] == whole@[m]);
    }
    assert(whole@.take(n) =~= line@);
    assert(whole@.skip(n + 1) =~= rest@);
    assert(texts(of_line@).len() == of_line@.len());
    assert(texts(of_rest@).len() == of_rest@.len());
    assert(texts(of_whole@).len() == of_whole@.len());
    if n > 0 {
        assert(texts(of_line@)[0] == of_line@[0]@);
    }
    assert(texts(of_whole@)[0] == of_whole@[0]@);
    assert forall|k: int| 0 <= k < of_rest@.len() implies of_whole@[k + 1]@ == (
    #[trigger] of_rest@[k])@ by {
        assert(texts(of_whole@)[k + 1] == texts(of_rest@)[k]);
    }
}

// ---------------------------------------------------------------------------
// Numbers
// ---------------------------------------------------------------------------

/// A number is written with the digits of its tens and then its last digit; a negative one has
/// a minus sign before the digits.
pub proof fn lemma_numbers_are_written_in_decimal(
    n: u64,
    of_n: String,
    of_tens: String,
    signed: i64,
    of_signed: String,
    magnitude: u64,
    of_magnitude: String,
)
    requires
        call_ensures(decimal_text, (n,), of_n),
        call_ensures(decimal_text, ((n / 10) as u64,), of_tens),
        call_ensures(signed_decimal_text, (signed,), of_signed),
        magnitude == if signed < 0 {
            -signed
        } else {
            signed as int
        },
        call_ensures(decimal_text, (magnitude,), of_magnitude),
    ensures
        n < 10 ==> of_n@.len() == 1 && of_n@[0] as u32 == '0' as u32 + n,
        n >= 10 ==> of_n@.len() == of_tens@.len() + 1 && of_n@.drop_last() == of_tens@
            && of_n@.last() as u32 == '0' as u32 + n % 10,
        signed < 0 ==> of_signed@ == seq!['-'] + of_magnitude@,
        signed >= 0 ==> of_signed@ == of_magnitude@,
{
    if n >= 10 {
        assert(of_n@.drop_last() =~= of_tens@);
    }
}

/// A number that was written is read back, with or without a plus sign before it.
pub proof fn lemma_written_numbers_are_read_back(
    n: u64,
    written: String,
    plain: &str,
    with_plus: &str,
    read: Option<usize>,
    read_with_plus: Option<usize>,
)
    requires
        call_ensures(decimal_text, (n,), written),
        plain@ == written@,
        with_plus@ == seq!['+'] + written@,
        call_ensures(parse_usize, (plain,), read),
        call_ensures(parse_usize, (with_plus,), read_with_plus),
        n <= usize::MAX,
    ensures
        read == Some(n as usize),
        read_with_plus == Some(n as usize),
{
    lemma_decimal_digits(n as nat);
    assert(without_plus(with_plus@) =~= written@);
    assert('0' <= written@[0] <= '9');
}

proof fn lemma_decimal_digits(n: nat)
    ensures
        decimal(n).len() > 0,
        crate::text::all_digits(decimal(n)),
        digits_value(decimal(n)) == n,
    decreases n,
{
    if n < 10 {
        assert(decimal(n).drop_last() =~= Seq::empty());
        assert(digits_value(decimal(n).drop_last()) == 0);
    } else {
        lemma_decimal_digits(n / 10);
        assert(decimal(n).drop_last() =~= decimal(n / 10));
        assert forall|k: int| 0 <= k < decimal(n).len() implies '0' <= #[trigger] decimal(n)[k]
            <= '9' by {
            if k < decimal(n / 10).len() {
                assert(decimal(n / 10)[k] == decimal(n)[k]);
            }
        }
    }
}

/// Only digits are read, with at most one plus sign before them, and at least one digit: a
/// digit more is read as ten times the number before it and the digit, where that fits.
pub proof fn lemma_only_digits_are_read(
    text: &str,
    longer: &str,
    digit: char,
    of_text: Option<usize>,
    of_longer: Option<usize>,
)
    requires
        call_ensures(parse_usize, (text,), of_text),
        call_ensures(parse_usize, (longer,), of_longer),
        longer@ == text@.push(digit),
    ensures
        text@.len() == 0 ==> of_text is None,
        of_text is Some ==> forall|k: int|
            0 <= k < text@.len() ==> '0' <= #[trigger] text@[k] <= '9' || (k == 0 && text@[k]
                == '+'),
        of_text is None && text@.len() > 0 && text@ != seq!['+'] ==> of_longer is None,
        of_text is Some && '0' <= digit <= '9' ==> {
            let value = of_text->Some_0 * 10 + (digit as u32 - '0' as u32);
            if value <= usize::MAX {
                of_longer is Some && of_longer->Some_0 == value
            } else {
                of_longer is None
            }
        },
{
    let digits = without_plus(text@);
    if of_text is Some {
        assert forall|k: int| 0 <= k < text@.len() implies '0' <= #[trigger] text@[k] <= '9' || (k
            == 0 && text@[k] == '+') by {
            if text@[0] == '+' {
                if k > 0 {
                    assert(digits[k - 1] == text@[k]);
                }
            } else {
                assert(digits[k] == text@[k]);
            }
        }
        assert(without_plus(longer@) =~= digits.push(digit));
        assert(digits.push(digit).drop_last() =~= digits);
        if '0' <= digit <= '9' {
            assert forall|k: int| 0 <= k < digits.push(digit).len() implies '0'
                <= #[trigger] digits.push(digit)[k] <= '9' by {
                if k < digits.len() {
                    assert(digits[k] == digits.push(digit)[k]);
                }
            }
        }
    } else if text@.len() > 0 && text@ != seq!['+'] {
        let more = without_plus(longer@);
        assert(more =~= digits.push(digit));
        assert(more.drop_last() =~= digits);
        if digits.len() == 0 {
            assert(text@ =~= seq!['+']);
        }
        if of_longer is Some {
            assert forall|k: int| 0 <= k < digits.len() implies '0' <= #[trigger] digits[k]
                <= '9' by {
                assert(more[k] == digits[k]);
            }
            assert('0' <= more[digits.len() as int] <= '9');
            assert(digits_value(more) >= digits_value(digits) * 10);
        }
    }
}

// ---------------------------------------------------------------------------
// Cutting
// ---------------------------------------------------------------------------

/// A text is cut only where it takes more bytes than the limit, and then as late as the limit
/// allows, between two characters; the cut is marked on a line of its own.
pub proof fn lemma_text_is_cut_at_the_limit(
    text: &str,
    max_bytes: usize,
    kept: String,
    result: String,
)
    requires
        call_ensures(take_bytes_at_char_boundary, (text, max_bytes), kept),
        call_ensures(truncate_text, (text, max_bytes), result),
    ensures
        kept@.len() <= text@.len(),
        kept@ == text@.take(kept@.len() as int),
        encode_utf8(kept@).len() <= max_bytes,
        kept@.len() < text@.len() ==> encode_utf8(text@.take(kept@.len() as int + 1)).len() > max_bytes,
        encode_utf8(text@).len() <= max_bytes ==> kept@ == text@ && result@ == text@,
        encode_utf8(text@).len() > max_bytes ==> result@ == kept@ + "\n[truncated]"@,
{
    lemma_byte_prefix(text@, max_bytes as nat);
    assert(byte_prefix(text@, max_bytes as nat).len() == fitting(text@, max_bytes as nat));
    assert(byte_len(text@) == encode_utf8(text@).len());
}

// ---------------------------------------------------------------------------
// Order
// ---------------------------------------------------------------------------

/// A text stands before another where it is a beginning of it, or has the smaller character
/// where they first differ; of two texts one at least stands before the other.
pub proof fn lemma_texts_are_compared_character_by_character(
    a: &str,
    b: &str,
    forth: bool,
    back: bool,
)
    requires
        call_ensures(not_after, (a, b), forth),
        call_ensures(not_after, (b, a), back),
    ensures
        forth || back,
        forth && back ==> a@ == b@,
        forth ==> exists|n: int|
            0 <= n <= a@.len() && n <= b@.len() && #[trigger] a@.take(n) == b@.take(n) && (n
                == a@.len() || (n < b@.len() && a@[n] < b@[n])),
{
    crate::text_order::lemma_text_order_total();
    let order = crate::text_order::text_order();
    assert(order(a@, b@) == crate::text_order::text_le(a@, b@));
    assert(order(b@, a@) == crate::text_order::text_le(b@, a@));
    if forth {
        crate::text_order::lemma_text_le_prefix(a@, b@);
    }
}

/// Sorting keeps the texts, each as often as it was there, and puts them in order.
pub proof fn lemma_sorting_keeps_the_texts(
    labels: Vec<String>,
    result: Vec<String>,
    i: int,
    j: int,
)
    requires
        call_ensures(sort_texts, (labels,), result),
    ensures
        texts(result@).to_multiset() == texts(labels@).to_multiset(),
        result@.len() == labels@.len(),
        0 <= i < j < result@.len() ==> exists|n: int|
            0 <= n <= result@[i]@.len() && n <= result@[j]@.len() && #[trigger] result@[i]@.take(n)
                == result@[j]@.take(n) && (n == result@[i]@.len() || (n < result@[j]@.len()
                && result@[i]@[n] < result@[j]@[n])),
{
    let order = crate::text_order::text_order();
    crate::text_order::lemma_text_order_total();
    texts(labels@).lemma_sort_by_ensures(order);
    let sorted = texts(labels@).sort_by(order);
    vstd::seq_lib::to_multiset_len(sorted);
    vstd::seq_lib::to_multiset_len(texts(labels@));
    assert(texts(result@).len() == result@.len());
    assert(texts(labels@).len() == labels@.len());
    if 0 <= i < j < result@.len() {
        assert(texts(result@)[i] == result@[i]@ && texts(result@)[j] == result@[j]@);
        assert(order(sorted[i], sorted[j]));
        crate::text_order::lemma_text_le_prefix(result@[i]@, result@[j]@);
    }
}

/// The texts of some strings are those strings, each read as its characters.
pub proof fn lemma_texts_of_strings(strings: Seq<String>)
    ensures
        texts(strings).len() == strings.len(),
        forall|k: int| 0 <= k < strings.len() ==> #[trigger] texts(strings)[k] == strings[k]@,
{
}

/// The text of an optional string is that of the string, where there is one.
pub proof fn lemma_text_of_optional_string(text: Option<String>)
    ensures
        crate::text::opt_text(text) is Some <==> text is Some,
        text is Some ==> crate::text::opt_text(text)->Some_0 == text->Some_0@,
{
}

} // verus!
