//! Reading text and images out of HTML, without a parser for it.

use crate::text::{
    byte_len, byte_prefix, chars_of, find_char, fitting, index_of_char, lemma_byte_len_ascii,
    lemma_byte_prefix, lemma_index_of_char, lower_char, lowered, matches_at, normalize_whitespace,
    normalized, replace, replaced, same_text, stands_at, string_of, take_bytes_at_char_boundary,
    texts, to_lower, trim, trimmed,
};
use crate::web_url::{is_web_scheme, join_url, url_joined, web_scheme, ParsedUrl};
use vstd::prelude::*;

verus! {

/// The most images that are listed of one page.
pub const MAX_IMAGES_ON_PAGE: usize = 20;

// ---------------------------------------------------------------------------
// Text
// ---------------------------------------------------------------------------

/// `s` with the common entities read, one kind after the other.
pub open spec fn decoded(s: Seq<char>) -> Seq<char> {
    let s = replaced(s, "&nbsp;"@, " "@);
    let s = replaced(s, "&amp;"@, "&"@);
    let s = replaced(s, "&lt;"@, "<"@);
    let s = replaced(s, "&gt;"@, ">"@);
    let s = replaced(s, "&quot;"@, "\""@);
    replaced(s, "&#39;"@, "'"@)
}

/// Reads the common entities of a text.
pub fn decode_basic_html_entities(input: &str) -> (result: String)
    ensures
        result@ == decoded(input@),
{
    proof {
        reveal_strlit("&nbsp;");
        reveal_strlit("&amp;");
        reveal_strlit("&lt;");
        reveal_strlit("&gt;");
        reveal_strlit("&quot;");
        reveal_strlit("&#39;");
    }
    let text = replace(input, "&nbsp;", " ");
    let text = replace(text.as_str(), "&amp;", "&");
    let text = replace(text.as_str(), "&lt;", "<");
    let text = replace(text.as_str(), "&gt;", ">");
    let text = replace(text.as_str(), "&quot;", "\"");
    replace(text.as_str(), "&#39;", "'")
}

/// `s` without its tags: a blank stands for each opening bracket, and what follows it up to
/// the next closing one is left out.
pub open spec fn stripped(s: Seq<char>, in_tag: bool) -> Seq<char>
    decreases s.len(),
{
    if s.len() == 0 {
        Seq::empty()
    } else if s[0] == '<' {
        seq![' '] + stripped(s.skip(1), true)
    } else if s[0] == '>' {
        stripped(s.skip(1), false)
    } else if in_tag {
        stripped(s.skip(1), true)
    } else {
        seq![s[0]] + stripped(s.skip(1), false)
    }
}

/// The text of a page: its tags stripped, its entities read and its white space collapsed.
pub open spec fn page_text(s: Seq<char>) -> Seq<char> {
    normalized(decoded(stripped(s, false)))
}

/// The text of a page.
pub fn html_to_text(input: &str) -> (result: String)
    ensures
        result@ == page_text(input@),
{
    let chars = chars_of(input);
    let mut output = String::new();
    let mut in_tag = false;
    let mut i: usize = 0;
    proof {
        assert(chars@.skip(0) =~= chars@);
        assert(output@ + stripped(chars@, false) =~= stripped(chars@, false));
    }
    while i < chars.len()
        invariant
            i <= chars@.len(),
            chars@ == input@,
            stripped(input@, false) == output@ + stripped(chars@.skip(i as int), in_tag),
        decreases chars.len() - i,
    {
        let c = chars[i];
        let ghost rest = chars@.skip(i as int);
        let ghost before = output@;
        proof {
            assert(rest.skip(1) =~= chars@.skip(i + 1));
        }
        if c == '<' {
            in_tag = true;
            output.push(' ');
            proof {
                assert(before + (seq![' '] + stripped(rest.skip(1), true)) =~= output@ + stripped(
                    rest.skip(1),
                    true,
                ));
            }
        } else if c == '>' {
            in_tag = false;
        } else if !in_tag {
            output.push(c);
            proof {
                assert(before + (seq![c] + stripped(rest.skip(1), false)) =~= output@ + stripped(
                    rest.skip(1),
                    false,
                ));
            }
        }
        i = i + 1;
    }
    proof {
        assert(chars@.skip(i as int) =~= Seq::empty());
        assert(output@ + Seq::<char>::empty() =~= output@);
    }
    let text = decode_basic_html_entities(output.as_str());
    normalize_whitespace(text.as_str())
}

// ---------------------------------------------------------------------------
// Attributes
// ---------------------------------------------------------------------------

/// White space between attributes.
pub open spec fn tag_space(c: char) -> bool {
    c == ' ' || c == '\t' || c == '\n' || c == '\u{c}' || c == '\r'
}

/// White space between attributes.
pub fn is_tag_space(c: char) -> (result: bool)
    ensures
        result == tag_space(c),
{
    c == ' ' || c == '\t' || c == '\n' || c == '\u{c}' || c == '\r'
}

/// The kinds of runs that a tag is made of.
#[derive(Clone, Copy, Debug, PartialEq, Eq, Structural)]
pub enum RunKind {
    /// What stands between attributes.
    Gap,
    /// The name of an attribute.
    Name,
    /// White space round the equals sign.
    Space,
    /// A value without quotes.
    Unquoted,
    /// A value up to the given quote.
    Quoted(char),
}

/// Whether a character belongs to a run.
pub open spec fn in_run(kind: RunKind, c: char) -> bool {
    match kind {
        RunKind::Gap => tag_space(c) || c == '/' || c == '>',
        RunKind::Name => !tag_space(c) && c != '=' && c != '/' && c != '>',
        RunKind::Space => tag_space(c),
        RunKind::Unquoted => !tag_space(c) && c != '>',
        RunKind::Quoted(quote) => c != quote,
    }
}

fn belongs(kind: RunKind, c: char) -> (result: bool)
    ensures
        result == in_run(kind, c),
{
    match kind {
        RunKind::Gap => is_tag_space(c) || c == '/' || c == '>',
        RunKind::Name => !is_tag_space(c) && c != '=' && c != '/' && c != '>',
        RunKind::Space => is_tag_space(c),
        RunKind::Unquoted => !is_tag_space(c) && c != '>',
        RunKind::Quoted(quote) => c != quote,
    }
}

/// How many characters at the front of `s` belong to a run.
pub open spec fn run_len(s: Seq<char>, kind: RunKind) -> nat
    decreases s.len(),
{
    if s.len() == 0 || !in_run(kind, s[0]) {
        0
    } else {
        1 + run_len(s.skip(1), kind)
    }
}

/// A run is part of the text that it begins.
pub proof fn lemma_run_len(s: Seq<char>, kind: RunKind)
    ensures
        run_len(s, kind) <= s.len(),
    decreases s.len(),
{
    if s.len() > 0 && in_run(kind, s[0]) {
        lemma_run_len(s.skip(1), kind);
    }
}

fn run_end(chars: &Vec<char>, from: usize, kind: RunKind) -> (result: usize)
    requires
        from <= chars@.len(),
    ensures
        from <= result <= chars@.len(),
        result == from + run_len(chars@.skip(from as int), kind),
{
    let mut i: usize = from;
    while i < chars.len() && belongs(kind, chars[i])
        invariant
            from <= i <= chars@.len(),
            run_len(chars@.skip(from as int), kind) == i - from + run_len(
                chars@.skip(i as int),
                kind,
            ),
        decreases chars.len() - i,
    {
        proof {
            assert(chars@.skip(i as int).skip(1) =~= chars@.skip(i + 1));
        }
        i = i + 1;
    }
    i
}

/// What stands behind the first `n` characters.
pub open spec fn past(s: Seq<char>, n: nat) -> Seq<char> {
    s.skip(n as int)
}

/// The first attribute named `src` of a list of attributes, as it is written: its value, or
/// nothing where there is none. A list ends where no name can be read.
pub open spec fn src_value(s: Seq<char>) -> Option<Seq<char>>
    decreases s.len(),
{
    let at_name = past(s, run_len(s, RunKind::Gap));
    let n = run_len(at_name, RunKind::Name);
    let behind_name = past(at_name, n);
    let at_sign = past(behind_name, run_len(behind_name, RunKind::Space));
    if s.len() == 0 || n == 0 {
        None
    } else if at_sign.len() == 0 || at_sign[0] != '=' {
        proof {
            lemma_run_len(s, RunKind::Gap);
            lemma_run_len(at_name, RunKind::Name);
            lemma_run_len(behind_name, RunKind::Space);
        }
        src_value(at_sign)
    } else {
        proof {
            lemma_run_len(s, RunKind::Gap);
            lemma_run_len(at_name, RunKind::Name);
            lemma_run_len(behind_name, RunKind::Space);
            lemma_value_rest(at_sign.skip(1));
        }
        let (value, rest) = attribute_value(at_sign.skip(1));
        if lowered(at_name.take(n as int)) == "src"@ {
            Some(value)
        } else {
            src_value(rest)
        }
    }
}

/// The value of an attribute behind its equals sign, and what stands behind it.
pub open spec fn attribute_value(s: Seq<char>) -> (Seq<char>, Seq<char>) {
    let at_value = past(s, run_len(s, RunKind::Space));
    if at_value.len() > 0 && (at_value[0] == '"' || at_value[0] == '\'') {
        let inside = at_value.skip(1);
        let n = run_len(inside, RunKind::Quoted(at_value[0]));
        let behind = past(inside, n);
        (
            inside.take(n as int),
            if behind.len() > 0 {
                behind.skip(1)
            } else {
                behind
            },
        )
    } else {
        let n = run_len(at_value, RunKind::Unquoted);
        (at_value.take(n as int), past(at_value, n))
    }
}

/// What stands behind a value is no longer than what the value was read from.
pub proof fn lemma_value_rest(s: Seq<char>)
    ensures
        attribute_value(s).1.len() <= s.len(),
{
    lemma_run_len(s, RunKind::Space);
    let at_value = past(s, run_len(s, RunKind::Space));
    lemma_run_len(at_value, RunKind::Unquoted);
    if at_value.len() > 0 {
        lemma_run_len(at_value.skip(1), RunKind::Quoted(at_value[0]));
    }
}

/// How many characters the name of an image tag takes: those in its first four bytes.
pub open spec fn tag_name_len(tag: Seq<char>) -> nat {
    fitting(tag, 4)
}

/// Whether the fourth byte of a tag ends a character, where there is one.
pub open spec fn splits_at_name(tag: Seq<char>) -> bool {
    byte_len(tag) < 4 || byte_len(byte_prefix(tag, 4)) == 4
}

/// The source of an image tag: the value of its attribute `src`, trimmed and with its
/// entities read.
pub open spec fn image_source(tag: Seq<char>) -> Option<Seq<char>> {
    match src_value(past(tag, tag_name_len(tag))) {
        Some(value) => Some(decoded(trimmed(value))),
        None => None,
    }
}

/// Reads the value that stands behind an equals sign: its end, where the next attribute
/// begins, and the value.
fn read_value(chars: &Vec<char>, from: usize) -> (result: (String, usize))
    requires
        from <= chars@.len(),
    ensures
        result.1 <= chars@.len(),
        from <= result.1,
        attribute_value(chars@.skip(from as int)) == (result.0@, chars@.skip(result.1 as int)),
{
    let at_value: usize = run_end(chars, from, RunKind::Space);
    let ghost s = chars@.skip(from as int);
    proof {
        assert(s.skip(at_value - from) =~= chars@.skip(at_value as int));
    }
    if at_value < chars.len() && (chars[at_value] == '"' || chars[at_value] == '\'') {
        let quote = chars[at_value];
        let end: usize = run_end(chars, at_value + 1, RunKind::Quoted(quote));
        let value = string_of(chars, at_value + 1, end);
        proof {
            let v = chars@.skip(at_value as int);
            assert(v.skip(1) =~= chars@.skip(at_value + 1));
            let inside = v.skip(1);
            assert(inside.take(end - at_value - 1) =~= value@);
            assert(inside.skip(end - at_value - 1) =~= chars@.skip(end as int));
            if end < chars@.len() {
                assert(chars@.skip(end as int).skip(1) =~= chars@.skip(end + 1));
            }
        }
        if end < chars.len() {
            (value, end + 1)
        } else {
            (value, end)
        }
    } else {
        let end: usize = run_end(chars, at_value, RunKind::Unquoted);
        let value = string_of(chars, at_value, end);
        proof {
            let v = chars@.skip(at_value as int);
            assert(v.take(end - at_value) =~= value@);
            assert(v.skip(end - at_value) =~= chars@.skip(end as int));
        }
        (value, end)
    }
}

/// The source of an image tag. The name of the tag takes its first four bytes.
pub fn extract_src_attr(tag: &str) -> (result: Option<String>)
    requires
        splits_at_name(tag@),
    ensures
        match image_source(tag@) {
            Some(source) => result is Some && result->Some_0@ == source,
            None => result is None,
        },
{
    let chars = chars_of(tag);
    let name = chars_of(take_bytes_at_char_boundary(tag, 4).as_str());
    let mut index: usize = name.len();
    proof {
        lemma_byte_prefix(tag@, 4);
    }
    while index < chars.len()
        invariant
            index <= chars@.len(),
            chars@ == tag@,
            src_value(past(tag@, tag_name_len(tag@))) == src_value(chars@.skip(index as int)),
        decreases chars.len() - index,
    {
        let name_start: usize = run_end(&chars, index, RunKind::Gap);
        let name_end: usize = run_end(&chars, name_start, RunKind::Name);
        let sign: usize = run_end(&chars, name_end, RunKind::Space);
        let ghost s = chars@.skip(index as int);
        let ghost at_name = chars@.skip(name_start as int);
        let ghost behind_name = chars@.skip(name_end as int);
        let ghost at_sign = chars@.skip(sign as int);
        proof {
            assert(s.skip(name_start - index) =~= at_name);
            assert(at_name.skip(name_end - name_start) =~= behind_name);
            assert(behind_name.skip(sign - name_end) =~= at_sign);
        }
        if name_start == name_end {
            return None;
        }
        if sign >= chars.len() || chars[sign] != '=' {
            index = sign;
        } else {
            let (value, next) = read_value(&chars, sign + 1);
            let attribute = string_of(&chars, name_start, name_end);
            proof {
                assert(at_sign.skip(1) =~= chars@.skip(sign + 1));
                assert(at_name.take(name_end - name_start) =~= attribute@);
            }
            let lower = to_lower(attribute.as_str());
            if same_text(lower.as_str(), "src") {
                let plain = trim(value.as_str());
                return Some(decode_basic_html_entities(plain.as_str()));
            }
            index = next;
        }
    }
    None
}

// ---------------------------------------------------------------------------
// Images
// ---------------------------------------------------------------------------

/// Whether the name of a tag ends at `index`.
pub open spec fn name_ends(s: Seq<char>, index: int) -> bool {
    index >= s.len() || tag_space(s[index]) || s[index] == '/' || s[index] == '>'
}

/// Whether the name of a tag ends at `index`.
pub fn is_img_tag_boundary(chars: &Vec<char>, index: usize) -> (result: bool)
    ensures
        result == name_ends(chars@, index as int),
{
    if index >= chars.len() {
        return true;
    }
    let c = chars[index];
    is_tag_space(c) || c == '/' || c == '>'
}

/// Whether an image tag opens at the front of `s`, whatever the case of its name.
pub open spec fn opens_image(s: Seq<char>) -> bool {
    stands_at(lowered(s), 0, "<img"@)
}

/// Where the first image tag of `s` opens; the length of `s` where there is none.
pub open spec fn image_at(s: Seq<char>) -> nat
    decreases s.len(),
{
    if s.len() == 0 || opens_image(s) {
        0
    } else {
        1 + image_at(s.skip(1))
    }
}

/// The images that were found with one more, where it is fetched and not found yet.
pub open spec fn with_image(
    found: Seq<Seq<char>>,
    joined: Option<(Seq<char>, Seq<char>, Seq<char>)>,
) -> Seq<Seq<char>> {
    match joined {
        Some((text, scheme, path)) => if web_scheme(scheme) && !found.contains(text) {
            found.push(text)
        } else {
            found
        },
        None => found,
    }
}

/// The images that were found with that of a tag, its source read against the base.
pub open spec fn with_tag(found: Seq<Seq<char>>, tag: Seq<char>, base: Seq<char>) -> Seq<
    Seq<char>,
> {
    match image_source(tag) {
        Some(source) => with_image(found, url_joined(base, trimmed(source))),
        None => found,
    }
}

/// The images of a page in the order of their tags, each once, up to the limit, after those
/// that were found before.
pub open spec fn page_images(s: Seq<char>, base: Seq<char>, found: Seq<Seq<char>>) -> Seq<
    Seq<char>,
>
    decreases s.len(),
{
    let at = image_at(s) as int;
    let tag_on = s.skip(at);
    let end = index_of_char(tag_on, '>') as int;
    proof {
        lemma_image_at(s);
    }
    if at >= s.len() {
        found
    } else if !name_ends(s, at + 4) {
        page_images(s.skip(at + 4), base, found)
    } else {
        let more = with_tag(found, tag_on.take(end), base);
        if more.len() > found.len() && more.len() >= MAX_IMAGES_ON_PAGE {
            more
        } else if end < tag_on.len() {
            page_images(s.skip(at + end + 1), base, more)
        } else {
            more
        }
    }
}

/// An image tag opens where `image_at` says, with at least its name behind it, and none
/// opens before.
pub proof fn lemma_image_at(s: Seq<char>)
    ensures
        image_at(s) <= s.len(),
        image_at(s) < s.len() ==> opens_image(s.skip(image_at(s) as int)) && image_at(s) + 4
            <= s.len(),
    decreases s.len(),
{
    reveal_strlit("<img");
    if s.len() > 0 && !opens_image(s) {
        lemma_image_at(s.skip(1));
        assert(s.skip(1).skip(image_at(s.skip(1)) as int) =~= s.skip(image_at(s) as int));
    } else {
        assert(s.skip(0) =~= s);
    }
}

/// Where the first image tag at or after `from` opens. `lower` is the page in lower case.
fn find_image(lower: &Vec<char>, from: usize, Ghost(page): Ghost<Seq<char>>) -> (result: usize)
    requires
        from <= lower@.len(),
        lower@ == lowered(page),
    ensures
        result == from + image_at(page.skip(from as int)),
        from <= result <= lower@.len(),
{
    let name = chars_of("<img");
    let mut i: usize = from;
    while i < lower.len() && !matches_at(lower, i, &name)
        invariant
            from <= i <= lower@.len(),
            lower@ == lowered(page),
            name@ == "<img"@,
            image_at(page.skip(from as int)) == i - from + image_at(page.skip(i as int)),
        decreases lower.len() - i,
    {
        proof {
            lemma_opens_at(page, i as int);
            assert(page.skip(i as int).skip(1) =~= page.skip(i + 1));
        }
        i = i + 1;
    }
    proof {
        if i < lower@.len() {
            lemma_opens_at(page, i as int);
        }
        lemma_image_at(page.skip(from as int));
    }
    i
}

proof fn lemma_opens_at(page: Seq<char>, i: int)
    requires
        0 <= i <= page.len(),
    ensures
        opens_image(page.skip(i)) <==> stands_at(lowered(page), i, "<img"@),
{
    reveal_strlit("<img");
    let rest = lowered(page.skip(i));
    assert(rest =~= lowered(page).skip(i));
    if i + 4 <= page.len() {
        assert(rest.subrange(0, 4) =~= lowered(page).subrange(i, i + 4));
    }
}

/// Whether a text is among those that were found.
fn already_found(urls: &Vec<String>, url: &str) -> (result: bool)
    ensures
        result == texts(urls@).contains(url@),
{
    let mut i: usize = 0;
    while i < urls.len()
        invariant
            i <= urls@.len(),
            forall|k: int| 0 <= k < i ==> #[trigger] texts(urls@)[k] != url@,
        decreases urls.len() - i,
    {
        if same_text(urls[i].as_str(), url) {
            assert(texts(urls@)[i as int] == url@);
            return true;
        }
        i = i + 1;
    }
    false
}

/// Keeps an image, where it is fetched and not found yet.
pub fn keep_image_url(urls: &mut Vec<String>, joined: Option<ParsedUrl>)
    ensures
        texts(final(urls)@) == with_image(
            texts(old(urls)@),
            match joined {
                Some(url) => Some((url.text@, url.scheme@, url.path@)),
                None => None,
            },
        ),
{
    if let Some(url) = joined {
        if is_web_scheme(url.scheme.as_str()) && !already_found(urls, url.text.as_str()) {
            let ghost before = urls@;
            urls.push(url.text);
            proof {
                assert(texts(urls@) =~= texts(before).push(url.text@));
            }
        }
    }
}

/// An image tag is long enough for its name, and its name is ASCII.
proof fn lemma_image_tag(s: Seq<char>, end: int)
    requires
        opens_image(s),
        end == index_of_char(s, '>'),
    ensures
        4 <= end <= s.len(),
        splits_at_name(s.take(end)),
{
    reveal_strlit("<img");
    let name = lowered(s).subrange(0, 4);
    assert(name == "<img"@);
    assert(name[0] == lower_char(s[0]));
    assert(name[1] == lower_char(s[1]));
    assert(name[2] == lower_char(s[2]));
    assert(name[3] == lower_char(s[3]));
    lemma_index_of_char(s, '>');
    let tag = s.take(end);
    if end < 4 {
        assert(s[end] == '>');
    }
    let rest1 = tag.skip(1);
    let rest2 = rest1.skip(1);
    let rest3 = rest2.skip(1);
    let rest4 = rest3.skip(1);
    assert(rest1[0] == s[1] && rest2[0] == s[2] && rest3[0] == s[3]);
    assert(fitting(rest4, 0) == 0);
    assert(fitting(rest3, 1) == 1);
    assert(fitting(rest2, 2) == 2);
    assert(fitting(rest1, 3) == 3);
    assert(fitting(tag, 4) == 4);
    lemma_byte_len_ascii(tag.take(4));
}

/// The images of a page, in the order of their tags and each once. Their sources are read
/// against the base.
pub fn extract_image_urls(input: &str, base_url: &str) -> (result: Vec<String>)
    ensures
        texts(result@) == page_images(input@, base_url@, Seq::empty()),
{
    let chars = chars_of(input);
    let lower = chars_of(to_lower(input).as_str());
    let mut urls: Vec<String> = Vec::new();
    let mut offset: usize = 0;
    proof {
        assert(chars@.skip(0) =~= chars@);
        assert(texts(urls@) =~= Seq::empty());
    }
    while offset < chars.len()
        invariant
            offset <= chars@.len(),
            chars@ == input@,
            lower@ == lowered(input@),
            page_images(input@, base_url@, Seq::empty()) == page_images(
                chars@.skip(offset as int),
                base_url@,
                texts(urls@),
            ),
        decreases chars.len() - offset,
    {
        let start: usize = find_image(&lower, offset, Ghost(input@));
        let ghost s = chars@.skip(offset as int);
        let ghost at = start - offset;
        proof {
            lemma_image_at(s);
            assert(s.skip(at) =~= chars@.skip(start as int));
        }
        if start >= chars.len() {
            return urls;
        }
        let after_name: usize = start + 4;
        if !is_img_tag_boundary(&chars, after_name) {
            proof {
                assert(s.skip(at + 4) =~= chars@.skip(after_name as int));
            }
            offset = after_name;
        } else {
            let end: usize = find_char(&chars, start, '>');
            let tag = string_of(&chars, start, end);
            let ghost tag_on = s.skip(at);
            let ghost found = texts(urls@);
            proof {
                assert(tag@ =~= tag_on.take(end - start));
                lemma_image_tag(tag_on, end - start);
            }
            let before: usize = urls.len();
            if let Some(source) = extract_src_attr(tag.as_str()) {
                let joined = join_url(base_url, trim(source.as_str()).as_str());
                keep_image_url(&mut urls, joined);
            }
            proof {
                assert(texts(urls@) == with_tag(found, tag_on.take(end - start), base_url@));
                assert(texts(urls@).len() == urls@.len());
            }
            if urls.len() > before && urls.len() >= MAX_IMAGES_ON_PAGE {
                return urls;
            }
            if end >= chars.len() {
                return urls;
            }
            proof {
                assert(s.skip(at + (end - start) + 1) =~= chars@.skip(end + 1));
            }
            offset = end + 1;
        }
    }
    urls
}

/// The body of a page with its images listed behind it, where there are any.
pub open spec fn with_images(body: Seq<char>, images: Seq<Seq<char>>) -> Seq<char> {
    if images.len() == 0 {
        body
    } else {
        body + (if body.len() > 0 {
            "\n\n"@
        } else {
            Seq::empty()
        }) + "Images on page:"@ + image_lines(images)
    }
}

/// A line for each image.
pub open spec fn image_lines(images: Seq<Seq<char>>) -> Seq<char>
    decreases images.len(),
{
    if images.len() == 0 {
        Seq::empty()
    } else {
        image_lines(images.drop_last()) + "\n- "@ + images.last()
    }
}

/// Lists the images of a page behind its body.
pub fn append_image_urls(body: String, image_urls: Vec<String>) -> (result: String)
    ensures
        result@ == with_images(body@, texts(image_urls@)),
{
    if image_urls.len() == 0 {
        return body;
    }
    let ghost images = texts(image_urls@);
    let mut text = body;
    if chars_of(text.as_str()).len() > 0 {
        text.append("\n\n");
    } else {
        proof {
            assert(text@ + Seq::<char>::empty() =~= text@);
        }
    }
    text.append("Images on page:");
    let ghost head = text@;
    let mut i: usize = 0;
    proof {
        assert(images.take(0) =~= Seq::empty());
        assert(head + image_lines(images.take(0)) =~= head);
    }
    while i < image_urls.len()
        invariant
            i <= image_urls@.len(),
            images == texts(image_urls@),
            text@ == head + image_lines(images.take(i as int)),
        decreases image_urls.len() - i,
    {
        proof {
            assert(images.take(i + 1).drop_last() =~= images.take(i as int));
            assert(images.take(i + 1).last() == image_urls@[i as int]@);
            assert(head + (image_lines(images.take(i as int)) + "\n- "@ + images[i as int]) =~= head
                + image_lines(images.take(i as int)) + "\n- "@ + images[i as int]);
        }
        text.append("\n- ");
        text.append(image_urls[i].as_str());
        i = i + 1;
    }
    proof {
        assert(images.take(i as int) =~= images);
    }
    text
}

// ---------------------------------------------------------------------------
// Laws
// ---------------------------------------------------------------------------

/// A page never lists more images than the limit, and lists none twice.
pub proof fn lemma_images_are_few_and_distinct(s: Seq<char>, base: Seq<char>)
    ensures
        page_images(s, base, Seq::empty()).len() <= MAX_IMAGES_ON_PAGE,
        page_images(s, base, Seq::empty()).no_duplicates(),
{
    lemma_more_images(s, base, Seq::empty());
}

proof fn lemma_more_images(s: Seq<char>, base: Seq<char>, found: Seq<Seq<char>>)
    requires
        found.len() < MAX_IMAGES_ON_PAGE,
        found.no_duplicates(),
    ensures
        page_images(s, base, found).len() <= MAX_IMAGES_ON_PAGE,
        page_images(s, base, found).no_duplicates(),
    decreases s.len(),
{
    let at = image_at(s) as int;
    lemma_image_at(s);
    if at < s.len() {
        let tag_on = s.skip(at);
        let end = index_of_char(tag_on, '>') as int;
        if !name_ends(s, at + 4) {
            lemma_more_images(s.skip(at + 4), base, found);
        } else {
            let more = with_tag(found, tag_on.take(end), base);
            assert(more.no_duplicates());
            if end < tag_on.len() && more.len() < MAX_IMAGES_ON_PAGE {
                lemma_more_images(s.skip(at + end + 1), base, more);
            }
        }
    }
}

} // verus!
