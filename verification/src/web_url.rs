//! URLs and status codes, as far as the web tools read them.

use crate::text::{chars_of, decimal, index_of_char, find_char, same_text, string_of, texts};
use vstd::prelude::*;

verus! {

/// What is read of a URL that was parsed.
#[derive(Debug, PartialEq, Eq)]
pub struct ParsedUrl {
    /// The URL as a whole, in its normal form.
    pub text: String,
    pub scheme: String,
    pub path: String,
}

/// The mathematical content of a `ParsedUrl`.
pub open spec fn url_parts(url: ParsedUrl) -> (Seq<char>, Seq<char>, Seq<char>) {
    (url.text@, url.scheme@, url.path@)
}

/// What `url::Url::parse` makes of a text: the text, scheme and path of the URL, or the text
/// of the error.
pub uninterp spec fn url_parsed(input: Seq<char>) -> Result<
    (Seq<char>, Seq<char>, Seq<char>),
    Seq<char>,
>;

/// What `url::Url::join` makes of a reference, read against a base URL: the text, scheme and
/// path of the URL, where both can be parsed.
pub uninterp spec fn url_joined(base: Seq<char>, reference: Seq<char>) -> Option<
    (Seq<char>, Seq<char>, Seq<char>),
>;

/// The phrase that `http::StatusCode` writes behind a status code.
pub uninterp spec fn status_phrase(code: u16) -> Seq<char>;

/// Parses a URL, by `url::Url::parse`. Its parts are read by `as_str`, `scheme` and `path`,
/// and the text of an error is that of `ParseError`'s `Display`.
///
/// Claimed of it: what comes back depends on the text alone. What makes a text a URL is not
/// stated.
#[verifier::external_body]
pub(crate) fn parse_url(input: &str) -> (result: Result<ParsedUrl, String>)
    ensures
        match result {
            Ok(url) => url_parsed(input@) == Ok::<(Seq<char>, Seq<char>, Seq<char>), Seq<char>>(
                url_parts(url),
            ),
            Err(error) => url_parsed(input@) == Err::<
                (Seq<char>, Seq<char>, Seq<char>),
                Seq<char>,
            >(error@),
        },
{
    match url::Url::parse(input) {
        Ok(url) => Ok(ParsedUrl {
            text: url.as_str().to_string(),
            scheme: url.scheme().to_string(),
            path: url.path().to_string(),
        }),
        Err(error) => Err(error.to_string()),
    }
}

/// Reads a reference against a base URL, by `url::Url::join`. The base is handed over as the
/// text that it is parsed from.
///
/// Claimed of it: what comes back depends on the two texts alone. How a reference is resolved
/// is not stated.
#[verifier::external_body]
pub(crate) fn join_url(base: &str, reference: &str) -> (result: Option<ParsedUrl>)
    ensures
        match result {
            Some(url) => url_joined(base@, reference@) == Some(url_parts(url)),
            None => url_joined(base@, reference@) is None,
        },
{
    let base = url::Url::parse(base).ok()?;
    let url = base.join(reference).ok()?;
    Some(ParsedUrl {
        text: url.as_str().to_string(),
        scheme: url.scheme().to_string(),
        path: url.path().to_string(),
    })
}

/// The written form of a status code, by `http::StatusCode`'s `Display`.
///
/// Claimed of it: the code in decimal, a blank, and a phrase that depends on the code alone.
/// Codes of three digits are the ones that `http::StatusCode` holds.
#[verifier::external_body]
pub(crate) fn status_text(code: u16) -> (result: String)
    requires
        100 <= code < 1000,
    ensures
        result@ == decimal(code as nat) + " "@ + status_phrase(code),
{
    match http::StatusCode::from_u16(code) {
        Ok(status) => status.to_string(),
        Err(error) => error.to_string(),
    }
}

/// The written form of a status code.
pub open spec fn status_line(code: u16) -> Seq<char> {
    decimal(code as nat) + " "@ + status_phrase(code)
}

/// Whether a status code says that a request succeeded.
pub fn is_success(code: u16) -> (result: bool)
    ensures
        result == (200 <= code < 300),
{
    200 <= code && code < 300
}

/// Whether a status code says that the server failed.
pub fn is_server_error(code: u16) -> (result: bool)
    ensures
        result == (500 <= code < 600),
{
    500 <= code && code < 600
}

/// Whether a scheme is one of those that are fetched.
pub open spec fn web_scheme(scheme: Seq<char>) -> bool {
    scheme == "http"@ || scheme == "https"@
}

/// Whether a scheme is one of those that are fetched.
pub fn is_web_scheme(scheme: &str) -> (result: bool)
    ensures
        result == web_scheme(scheme@),
{
    same_text(scheme, "http") || same_text(scheme, "https")
}

/// Why a URL is not fetched, as the model is told; nothing where it is.
pub open spec fn url_refusal(
    parsed: Result<(Seq<char>, Seq<char>, Seq<char>), Seq<char>>,
) -> Option<Seq<char>> {
    match parsed {
        Err(error) => Some("url must be a valid URL: "@ + error),
        Ok((text, scheme, path)) => if web_scheme(scheme) {
            None
        } else {
            Some("unsupported URL scheme `"@ + scheme + "`; use http or https"@)
        },
    }
}

/// Takes in what parsing a URL gave: the URL, where it is fetched, or why it is not.
pub fn accept_url(parsed: Result<ParsedUrl, String>) -> (result: Result<ParsedUrl, String>)
    ensures
        match parsed {
            Ok(url) => if web_scheme(url.scheme@) {
                result == Ok::<ParsedUrl, String>(url)
            } else {
                result is Err && result->Err_0@ == "unsupported URL scheme `"@ + url.scheme@
                    + "`; use http or https"@
            },
            Err(error) => result is Err && result->Err_0@ == "url must be a valid URL: "@ + error@,
        },
{
    match parsed {
        Ok(url) => {
            if is_web_scheme(url.scheme.as_str()) {
                Ok(url)
            } else {
                let mut message = "unsupported URL scheme `".to_owned();
                message.append(url.scheme.as_str());
                message.append("`; use http or https");
                Err(message)
            }
        },
        Err(error) => {
            let mut message = "url must be a valid URL: ".to_owned();
            message.append(error.as_str());
            Err(message)
        },
    }
}

/// The URL that a text stands for, where it is fetched, or why it is not.
pub fn web_url(input: &str) -> (result: Result<ParsedUrl, String>)
    ensures
        match url_refusal(url_parsed(input@)) {
            Some(message) => result is Err && result->Err_0@ == message,
            None => result is Ok && url_parsed(input@) == Ok::<
                (Seq<char>, Seq<char>, Seq<char>),
                Seq<char>,
            >(url_parts(result->Ok_0)) && web_scheme(result->Ok_0.scheme@),
        },
{
    accept_url(parse_url(input))
}

// ---------------------------------------------------------------------------
// Segments of a path
// ---------------------------------------------------------------------------

/// The parts of `s` between the occurrences of `separator`.
pub open spec fn split_on(s: Seq<char>, separator: char) -> Seq<Seq<char>>
    decreases s.len(),
{
    let n = index_of_char(s, separator) as int;
    if n >= s.len() {
        seq![s]
    } else {
        seq![s.take(n)] + split_on(s.skip(n + 1), separator)
    }
}

/// Splits a text at each occurrence of a character.
pub fn split_text(text: &str, separator: char) -> (result: Vec<String>)
    ensures
        texts(result@) == split_on(text@, separator),
{
    let chars = chars_of(text);
    let mut parts: Vec<String> = Vec::new();
    let mut from: usize = 0;
    proof {
        assert(chars@.skip(0) =~= chars@);
        assert(texts(parts@) =~= Seq::empty());
        assert(Seq::<Seq<char>>::empty() + split_on(chars@, separator) =~= split_on(
            chars@,
            separator,
        ));
    }
    loop
        invariant_except_break
            from <= chars@.len(),
            chars@ == text@,
            split_on(text@, separator) == texts(parts@) + split_on(
                chars@.skip(from as int),
                separator,
            ),
        ensures
            texts(parts@) == split_on(text@, separator),
        decreases chars.len() - from,
    {
        let at: usize = find_char(&chars, from, separator);
        let ghost rest = chars@.skip(from as int);
        let ghost before = parts@;
        parts.push(string_of(&chars, from, at));
        proof {
            assert(chars@.subrange(from as int, at as int) =~= rest.take(at - from));
            assert(texts(parts@) =~= texts(before).push(rest.take(at - from)));
        }
        if at >= chars.len() {
            proof {
                assert(rest.take(at - from) =~= rest);
                assert(texts(before) + seq![rest] =~= texts(parts@));
            }
            break;
        }
        proof {
            assert(rest.skip(at - from + 1) =~= chars@.skip(at + 1));
            assert(texts(before) + (seq![rest.take(at - from)] + split_on(
                rest.skip(at - from + 1),
                separator,
            )) =~= texts(parts@) + split_on(chars@.skip(at + 1), separator));
        }
        from = at + 1;
    }
    parts
}

/// The last of some texts that is not empty.
pub open spec fn last_non_empty(parts: Seq<Seq<char>>) -> Option<Seq<char>>
    decreases parts.len(),
{
    if parts.len() == 0 {
        None
    } else if parts.last().len() > 0 {
        Some(parts.last())
    } else {
        last_non_empty(parts.drop_last())
    }
}

/// The name that the path of a URL ends with: its last segment that is not empty, or a
/// stand-in.
pub open spec fn file_name(path: Seq<char>) -> Seq<char> {
    let last = if path.len() > 0 && path[0] == '/' {
        last_non_empty(split_on(path.skip(1), '/'))
    } else {
        None
    };
    match last {
        Some(name) => name,
        None => "remote-image"@,
    }
}

/// The name of the file that a URL leads to, as a hint at its type.
pub fn path_hint_for_url(url: &ParsedUrl) -> (result: String)
    ensures
        result@ == file_name(url.path@),
{
    let chars = chars_of(url.path.as_str());
    if chars.len() == 0 || chars[0] != '/' {
        return "remote-image".to_owned();
    }
    let rest = string_of(&chars, 1, chars.len());
    proof {
        assert(rest@ =~= url.path@.skip(1));
    }
    let segments = split_text(rest.as_str(), '/');
    let mut n: usize = segments.len();
    proof {
        assert(texts(segments@).take(n as int) =~= texts(segments@));
    }
    while n > 0
        invariant
            n <= segments@.len(),
            url.path@.len() > 0 && url.path@[0] == '/',
            texts(segments@) == split_on(url.path@.skip(1), '/'),
            last_non_empty(texts(segments@)) == last_non_empty(
                texts(segments@).take(n as int),
            ),
        decreases n,
    {
        let ghost head = texts(segments@).take(n as int);
        proof {
            assert(head.last() == segments@[n - 1]@);
            assert(head.drop_last() =~= texts(segments@).take(n - 1));
        }
        if chars_of(segments[n - 1].as_str()).len() > 0 {
            return segments[n - 1].clone();
        }
        n = n - 1;
    }
    "remote-image".to_owned()
}

} // verus!
