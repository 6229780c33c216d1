//! What the web tools promise their callers, in terms of what goes into an operation and what
//! comes out of it.

use crate::html::{append_image_urls, extract_image_urls, html_to_text};
use crate::protocol::FunctionCallError;
use crate::text::{
    decimal, decimal_text, index_of_char, lemma_index_of_char, lower_char, lowered, parse_usize,
    stands_at, texts, to_lower, trim, trimmed, truncate_text,
};
use crate::tool_spec::{function_arguments, FunctionTool, ObjectSchema, ToolPayload, ValueKind};
use crate::view_image_url::{
    check_image_head, check_image_input, check_image_response, create_view_image_url_tool,
    image_read_failed, image_request_failed, is_supported_image_content_type, plan_view_image,
    read_response_bytes_limited, unprocessable_image, view_image_arguments, view_image_url_output_schema, ImageResponseHead, ViewImageEvent, ViewImageStage,
};
use crate::web_fetch::{
    fetch_item, finish_fetch, is_html, page_body, page_output, plan_fetch, plan_fetch_of,
    web_fetch_spec, FetchPlan, FetchReply, FetchStage, WebFetchArgs,
};
use crate::web_search::{web_search_spec, WebSearchAction, WebSearchItem};
use crate::web_url::{
    accept_url, is_server_error, is_success, last_non_empty, path_hint_for_url, split_on,
    split_text, status_line, status_phrase, url_parsed, web_url, ParsedUrl,
};
use vstd::math::min;
use vstd::prelude::*;

verus! {

// ---------------------------------------------------------------------------
// URLs and status codes
// ---------------------------------------------------------------------------

/// Success and failure of the server are the hundreds that stand for them, and a status is
/// written as its number, a blank and its phrase.
pub proof fn lemma_status_codes(code: u16, success: bool, failure: bool)
    requires
        call_ensures(is_success, (code,), success),
        call_ensures(is_server_error, (code,), failure),
    ensures
        success <==> code / 100 == 2,
        failure <==> code / 100 == 5,
        status_line(code) == decimal(code as nat) + " "@ + status_phrase(code),
{
}

/// Only addresses of the web are accepted; what is accepted is what was parsed, and what is
/// refused is refused with its reason.
pub proof fn lemma_only_web_addresses_are_accepted(
    parsed: Result<ParsedUrl, String>,
    result: Result<ParsedUrl, String>,
)
    requires
        call_ensures(accept_url, (parsed,), result),
    ensures
        result is Ok <==> parsed is Ok && (parsed->Ok_0.scheme@ == "http"@ || parsed->Ok_0.scheme@
            == "https"@),
        result is Ok ==> result->Ok_0 == parsed->Ok_0,
        parsed is Err ==> result->Err_0@ == "url must be a valid URL: "@ + parsed->Err_0@,
        parsed is Ok && result is Err ==> result->Err_0@ == "unsupported URL scheme `"@
            + parsed->Ok_0.scheme@ + "`; use http or https"@,
{
}

/// A text is read as the address that it stands for.
pub proof fn lemma_address_of_a_text(input: &str, result: Result<ParsedUrl, String>)
    requires
        call_ensures(web_url, (input,), result),
    ensures
        url_parsed(input@) matches Err(error) ==> result is Err && result->Err_0@
            == "url must be a valid URL: "@ + error,
        url_parsed(input@) matches Ok(parts) ==> if parts.1 == "http"@ || parts.1 == "https"@ {
            result is Ok && result->Ok_0.text@ == parts.0 && result->Ok_0.scheme@ == parts.1
                && result->Ok_0.path@ == parts.2
        } else {
            result is Err && result->Err_0@ == "unsupported URL scheme `"@ + parts.1
                + "`; use http or https"@
        },
{
}

/// The parts of a text between the separators: one more separator begins one more part, and a
/// text without separators is one part.
pub proof fn lemma_split_parts(
    part: &str,
    rest: &str,
    whole: &str,
    separator: char,
    of_part: Vec<String>,
    of_rest: Vec<String>,
    of_whole: Vec<String>,
)
    requires
        call_ensures(split_text, (part, separator), of_part),
        call_ensures(split_text, (rest, separator), of_rest),
        call_ensures(split_text, (whole, separator), of_whole),
        forall|k: int| 0 <= k < part@.len() ==> #[trigger] part@[k] != separator,
        whole@ == part@ + seq![separator] + rest@,
    ensures
        texts(of_part@) == seq![part@],
        texts(of_whole@) == seq![part@] + texts(of_rest@),
{
    lemma_split(part@, rest@, separator);
}

proof fn lemma_split(part: Seq<char>, rest: Seq<char>, separator: char)
    requires
        forall|k: int| 0 <= k < part.len() ==> #[trigger] part[k] != separator,
    ensures
        split_on(part, separator) == seq![part],
        split_on(part + seq![separator] + rest, separator) == seq![part] + split_on(
            rest,
            separator,
        ),
{
    let whole = part + seq![separator] + rest;
    lemma_index_of_char(part, separator);
    lemma_index_of_char(whole, separator);
    let n = part.len() as int;
    let m = index_of_char(whole, separator) as int;
    assert(whole[n] == separator);
    if m < n {
        assert(part[m] == whole[m]);
    }
    if index_of_char(part, separator) < n {
        assert(part[index_of_char(part, separator) as int] == separator);
    }
    assert(whole.take(n) =~= part);
    assert(whole.skip(n + 1) =~= rest);
}

/// The hint at the type of an image is the last part of its path that is not empty: slashes at
/// the end do not count, and a path without parts gives a stand-in.
pub proof fn lemma_hint_is_the_last_part_of_the_path(
    url: ParsedUrl,
    before: Seq<char>,
    name: Seq<char>,
    slashes: Seq<char>,
    result: String,
)
    requires
        call_ensures(path_hint_for_url, (&url,), result),
        forall|k: int| 0 <= k < slashes.len() ==> #[trigger] slashes[k] == '/',
        forall|k: int| 0 <= k < name.len() ==> #[trigger] name[k] != '/',
    ensures
        name.len() > 0 && url.path@ == seq!['/'] + before + seq!['/'] + name + slashes ==> result@
            == name,
        name.len() > 0 && url.path@ == seq!['/'] + name + slashes ==> result@ == name,
        url.path@ == slashes ==> result@ == "remote-image"@,
        url.path@.len() > 0 && url.path@[0] != '/' ==> result@ == "remote-image"@,
{
    if name.len() > 0 && url.path@ == seq!['/'] + before + seq!['/'] + name + slashes {
        let rest = before + seq!['/'] + (name + slashes);
        assert(url.path@.skip(1) =~= rest);
        lemma_split_two(before, name + slashes);
        lemma_split_name(name, slashes);
        lemma_last_of_two(split_on(before, '/'), split_on(name + slashes, '/'));
    }
    if name.len() > 0 && url.path@ == seq!['/'] + name + slashes {
        assert(url.path@.skip(1) =~= name + slashes);
        lemma_split_name(name, slashes);
    }
    if url.path@ == slashes && slashes.len() > 0 {
        let rest = slashes.skip(1);
        assert forall|k: int| 0 <= k < rest.len() implies #[trigger] rest[k] == '/' by {
            assert(rest[k] == slashes[k + 1]);
        }
        assert(slashes[0] == '/');
        lemma_split_slashes(rest);
    }
}

/// The parts of two texts with a slash between them.
proof fn lemma_split_two(a: Seq<char>, b: Seq<char>)
    ensures
        split_on(a + seq!['/'] + b, '/') == split_on(a, '/') + split_on(b, '/'),
    decreases a.len(),
{
    lemma_index_of_char(a, '/');
    let n = index_of_char(a, '/') as int;
    let first = a.take(n);
    assert forall|k: int| 0 <= k < first.len() implies #[trigger] first[k] != '/' by {
        assert(first[k] == a[k]);
    }
    if n < a.len() {
        let more = a.skip(n + 1);
        assert(a =~= first + seq!['/'] + more);
        assert(a + seq!['/'] + b =~= first + seq!['/'] + (more + seq!['/'] + b));
        lemma_split(first, more, '/');
        lemma_split(first, more + seq!['/'] + b, '/');
        lemma_split_two(more, b);
        assert(seq![first] + (split_on(more, '/') + split_on(b, '/')) =~= seq![first] + split_on(
            more,
            '/',
        ) + split_on(b, '/'));
    } else {
        assert(first =~= a);
        lemma_split(a, b, '/');
    }
}

proof fn lemma_split_slashes(slashes: Seq<char>)
    requires
        forall|k: int| 0 <= k < slashes.len() ==> #[trigger] slashes[k] == '/',
    ensures
        last_non_empty(split_on(slashes, '/')) is None,
    decreases slashes.len(),
{
    let none = Seq::<char>::empty();
    if slashes.len() == 0 {
        lemma_split(none, none, '/');
        assert(slashes =~= none);
        assert(seq![none].drop_last() =~= Seq::<Seq<char>>::empty());
        assert(last_non_empty(seq![none].drop_last()) is None);
        assert(last_non_empty(seq![none]) is None);
    } else {
        let rest = slashes.skip(1);
        assert forall|k: int| 0 <= k < rest.len() implies #[trigger] rest[k] == '/' by {
            assert(rest[k] == slashes[k + 1]);
        }
        assert(slashes[0] == '/');
        assert(slashes =~= none + seq!['/'] + rest);
        lemma_split(none, rest, '/');
        lemma_split_slashes(rest);
        lemma_last_of_two(seq![none], split_on(rest, '/'));
        assert(seq![none].drop_last() =~= Seq::<Seq<char>>::empty());
        assert(last_non_empty(seq![none].drop_last()) is None);
        assert(last_non_empty(seq![none]) is None);
    }
}

proof fn lemma_split_name(name: Seq<char>, slashes: Seq<char>)
    requires
        name.len() > 0,
        forall|k: int| 0 <= k < slashes.len() ==> #[trigger] slashes[k] == '/',
        forall|k: int| 0 <= k < name.len() ==> #[trigger] name[k] != '/',
    ensures
        last_non_empty(split_on(name + slashes, '/')) == Some(name),
{
    let one = seq![name];
    assert(one.last() == name);
    assert(last_non_empty(one) == Some(name));
    if slashes.len() == 0 {
        assert(name + slashes =~= name);
        lemma_split(name, slashes, '/');
    } else {
        let rest = slashes.skip(1);
        assert forall|k: int| 0 <= k < rest.len() implies #[trigger] rest[k] == '/' by {
            assert(rest[k] == slashes[k + 1]);
        }
        assert(slashes[0] == '/');
        assert(name + slashes =~= name + seq!['/'] + rest);
        lemma_split(name, rest, '/');
        lemma_split_slashes(rest);
        lemma_last_of_two(one, split_on(rest, '/'));
    }
}

proof fn lemma_last_of_two(a: Seq<Seq<char>>, b: Seq<Seq<char>>)
    ensures
        last_non_empty(a + b) == if last_non_empty(b) is Some {
            last_non_empty(b)
        } else {
            last_non_empty(a)
        },
    decreases b.len(),
{
    if b.len() == 0 {
        assert(a + b =~= a);
    } else {
        assert((a + b).last() == b.last());
        assert((a + b).drop_last() =~= a + b.drop_last());
        lemma_last_of_two(a, b.drop_last());
    }
}

// ---------------------------------------------------------------------------
// Fetching a page
// ---------------------------------------------------------------------------

/// A fetch is refused for its address first, and then where it asks for no bytes at all. It
/// shows as many bytes as it asks for, twenty thousand where it does not say, and never more
/// than fifty thousand.
pub proof fn lemma_fetch_shows_what_it_asks_for(
    args: WebFetchArgs,
    url: Result<ParsedUrl, String>,
    result: Result<FetchPlan, FunctionCallError>,
)
    requires
        call_ensures(plan_fetch_of, (&args, url), result),
    ensures
        result is Ok <==> url is Ok && args.max_bytes != Some(0usize),
        result matches Ok(plan) ==> {
            &&& plan.url == url->Ok_0
            &&& plan.requested@ == trimmed(args.url@)
            &&& plan.max_bytes == if args.max_bytes is Some {
                min(50_000, args.max_bytes->Some_0 as int)
            } else {
                20_000
            }
        },
        url is Err ==> (result->Err_0 matches FunctionCallError::RespondToModel(message)
            && message@ == url->Err_0@),
        url is Ok && result is Err ==> (result->Err_0 matches FunctionCallError::RespondToModel(
            message,
        ) && message@ == "max_bytes must be greater than zero"@),
{
}

/// A fetch asks for the address that its argument stands for, without the white space at its
/// ends, and announces it.
pub proof fn lemma_fetch_asks_for_its_address(
    call_id: &str,
    args: WebFetchArgs,
    planned: Result<FetchPlan, FunctionCallError>,
    started: FetchStage,
)
    requires
        call_ensures(plan_fetch, (&args,), planned),
        call_ensures(FetchStage::start, (call_id, &args), started),
    ensures
        ({
            let parsed = url_parsed(trimmed(args.url@));
            let web = parsed is Ok && (parsed->Ok_0.1 == "http"@ || parsed->Ok_0.1 == "https"@);
            &&& planned is Ok <==> web && args.max_bytes != Some(0usize)
            &&& planned matches Ok(plan) ==> {
                &&& plan.requested@ == trimmed(args.url@)
                &&& plan.url.text@ == parsed->Ok_0.0
                &&& plan.url.scheme@ == parsed->Ok_0.1
                &&& plan.url.path@ == parsed->Ok_0.2
                &&& plan.max_bytes == if args.max_bytes is Some {
                    min(50_000, args.max_bytes->Some_0 as int)
                } else {
                    20_000
                }
            }
            &&& planned is Err ==> (planned->Err_0 matches FunctionCallError::RespondToModel(
                message,
            ) && message@ == if parsed is Err {
                "url must be a valid URL: "@ + parsed->Err_0
            } else if !web {
                "unsupported URL scheme `"@ + parsed->Ok_0.1 + "`; use http or https"@
            } else {
                "max_bytes must be greater than zero"@
            })
            &&& started is Refused <==> planned is Err
            &&& started matches FetchStage::Refused {
                error: FunctionCallError::RespondToModel(message),
            } ==> (planned->Err_0 matches FunctionCallError::RespondToModel(said) && message@
                == said@)
            &&& planned is Ok ==> (started matches FetchStage::Request { item, plan } && {
                &&& plan.requested@ == planned->Ok_0.requested@
                &&& plan.url.text@ == planned->Ok_0.url.text@
                &&& plan.url.scheme@ == planned->Ok_0.url.scheme@
                &&& plan.url.path@ == planned->Ok_0.url.path@
                &&& plan.max_bytes == planned->Ok_0.max_bytes
                &&& item.id@ == call_id@
                &&& item.query@ == plan.url.text@
                &&& item.action == (WebSearchAction::OpenPage { url: plan.url.text })
            })
        }),
{
}

/// The announcement of a fetch names the call and the page.
pub proof fn lemma_fetch_is_announced(call_id: &str, plan: FetchPlan, result: WebSearchItem)
    requires
        call_ensures(fetch_item, (call_id, &plan), result),
    ensures
        result.id@ == call_id@,
        result.query@ == plan.url.text@,
        result.action matches WebSearchAction::OpenPage { url } && url@ == plan.url.text@,
{
}

/// A page is HTML where its content type says so, in letters of either case.
pub proof fn lemma_html_by_content_type(content_type: &str, result: bool)
    requires
        call_ensures(is_html, (content_type,), result),
    ensures
        result <==> exists|at: int|
            #![trigger content_type@[at]]
            0 <= at && at + 4 <= content_type@.len() && (content_type@[at] == 'h'
                || content_type@[at] == 'H') && (content_type@[at + 1] == 't' || content_type@[at
                + 1] == 'T') && (content_type@[at + 2] == 'm' || content_type@[at + 2] == 'M') && (
            content_type@[at + 3] == 'l' || content_type@[at + 3] == 'L'),
{
    reveal_strlit("html");
    let s = content_type@;
    let low = lowered(s);
    if result {
        let at = choose|at: int| 0 <= at && #[trigger] stands_at(low, at, "html"@);
        let part = low.subrange(at, at + 4);
        assert(part[0] == lower_char(s[at]) && part[1] == lower_char(s[at + 1]) && part[2]
            == lower_char(s[at + 2]) && part[3] == lower_char(s[at + 3]));
        lemma_letter('h', 'H', s[at]);
        lemma_letter('t', 'T', s[at + 1]);
        lemma_letter('m', 'M', s[at + 2]);
        lemma_letter('l', 'L', s[at + 3]);
    }
    if exists|at: int|
        #![trigger s[at]]
        0 <= at && at + 4 <= s.len() && (s[at] == 'h' || s[at] == 'H') && (s[at + 1] == 't' || s[at
            + 1] == 'T') && (s[at + 2] == 'm' || s[at + 2] == 'M') && (s[at + 3] == 'l' || s[at + 3]
            == 'L') {
        let at = choose|at: int|
            #![trigger s[at]]
            0 <= at && at + 4 <= s.len() && (s[at] == 'h' || s[at] == 'H') && (s[at + 1] == 't'
                || s[at + 1] == 'T') && (s[at + 2] == 'm' || s[at + 2] == 'M') && (s[at + 3] == 'l'
                || s[at + 3] == 'L');
        assert(lower_char('H') == 'h' && lower_char('T') == 't' && lower_char('M') == 'm'
            && lower_char('L') == 'l');
        assert(low.subrange(at, at + 4) =~= "html"@);
        assert(stands_at(low, at, "html"@));
    }
}

proof fn lemma_letter(low: char, capital: char, c: char)
    requires
        'a' <= low <= 'z',
        capital as u32 == low as u32 - 32,
        lower_char(c) == low,
    ensures
        c == low || c == capital,
{
    if 'A' <= c <= 'Z' {
        assert((c as u32) + 32 == low as u32);
    }
}

/// A page is shown by its text, cut to the limit, with its images behind it, where it is HTML,
/// and as it is, cut to the limit, where it is not.
pub proof fn lemma_page_is_shown_by_its_text(
    content_type: &str,
    body: &str,
    images: Vec<String>,
    max_bytes: usize,
    html: bool,
    text: String,
    read: &str,
    cut_text: String,
    with_images: String,
    cut_body: String,
    result: String,
)
    requires
        call_ensures(page_body, (content_type, body, images, max_bytes), result),
        call_ensures(is_html, (content_type,), html),
        call_ensures(html_to_text, (body,), text),
        read@ == text@,
        call_ensures(truncate_text, (read, max_bytes), cut_text),
        call_ensures(append_image_urls, (cut_text, images), with_images),
        call_ensures(truncate_text, (body, max_bytes), cut_body),
    ensures
        html ==> result@ == with_images@,
        !html ==> result@ == cut_body@,
{
}

/// The model sees where a page comes from, how it was answered and what it is, and then the
/// page.
pub proof fn lemma_page_is_shown_under_its_head(
    url: &str,
    status: &str,
    content_type: &str,
    body: &str,
    result: String,
)
    requires
        call_ensures(page_output, (url, status, content_type, body), result),
    ensures
        result@ == "URL: "@ + url@ + "\nStatus: "@ + status@ + "\nContent-Type: "@ + content_type@
            + "\n\n"@ + body@,
{
}

/// A fetch is answered with the page that came, or with what went wrong; the images of a page
/// are read against the address as it was given. Whatever came, the end of the same item is
/// announced.
pub proof fn lemma_fetch_is_answered(
    item: WebSearchItem,
    plan: FetchPlan,
    reply: FetchReply,
    result: Result<String, FunctionCallError>,
    after: FetchStage,
)
    requires
        call_ensures(finish_fetch, (&plan, reply), result),
        call_ensures(FetchStage::next, (FetchStage::Request { item, plan }, reply), after),
    ensures
        result is Ok <==> reply is Page,
        reply matches FetchReply::RequestFailed(error) ==> (
        result->Err_0 matches FunctionCallError::RespondToModel(message) && message@
            == "web_fetch request failed: "@ + error@),
        reply matches FetchReply::ReadFailed(error) ==> (
        result->Err_0 matches FunctionCallError::RespondToModel(message) && message@
            == "web_fetch response read failed: "@ + error@),
        after matches FetchStage::Finish { item: announced, answer } && {
            &&& announced == item
            &&& answer is Ok <==> result is Ok
            &&& result is Ok ==> answer->Ok_0@ == result->Ok_0@
            &&& answer matches Err(FunctionCallError::RespondToModel(message)) ==> (
            result->Err_0 matches FunctionCallError::RespondToModel(said) && message@ == said@)
        },
{
}

/// The page that a fetch is answered with.
pub proof fn lemma_fetched_page(
    plan: FetchPlan,
    status: u16,
    content_type: Option<String>,
    body: String,
    kind: &str,
    requested: &str,
    page: &str,
    images: Vec<String>,
    html: bool,
    shown: String,
    result: Result<String, FunctionCallError>,
)
    requires
        call_ensures(finish_fetch, (&plan, FetchReply::Page { status, content_type, body }), result),
        kind@ == if content_type is Some {
            content_type->Some_0@
        } else {
            "unknown"@
        },
        page@ == body@,
        requested@ == plan.requested@,
        call_ensures(is_html, (kind,), html),
        html ==> call_ensures(extract_image_urls, (page, requested), images),
        call_ensures(page_body, (kind, page, images, plan.max_bytes), shown),
    ensures
        result is Ok,
        result->Ok_0@ == "URL: "@ + plan.url.text@ + "\nStatus: "@ + status_line(status)
            + "\nContent-Type: "@ + kind@ + "\n\n"@ + shown@,
{
}

// ---------------------------------------------------------------------------
// Viewing an image
// ---------------------------------------------------------------------------

/// Only a model that takes images may view one, whatever it sends; and it is heard only by a
/// call of a function.
pub proof fn lemma_only_models_that_take_images(
    supports_images: bool,
    payload: ToolPayload,
    result: Result<String, FunctionCallError>,
)
    requires
        call_ensures(view_image_arguments, (supports_images, payload), result),
    ensures
        result is Ok <==> supports_images && payload is Function,
        result is Ok ==> (payload matches ToolPayload::Function { arguments } && result->Ok_0
            == arguments),
        result is Err ==> (result->Err_0 matches FunctionCallError::RespondToModel(message)
            && message@ == if supports_images {
            "view_image_url"@ + " handler received unsupported payload"@
        } else {
            "view_image_url is not allowed because you do not support image inputs"@
        }),
{
}

/// The images that can be shown are PNG, JPEG, GIF and WebP, whatever the case of the type,
/// the white space round it and the parameters behind it.
pub proof fn lemma_images_that_can_be_shown(
    content_type: &str,
    first: &str,
    parameters: Seq<char>,
    plain: &str,
    trimmed_first: String,
    media: String,
    result: bool,
)
    requires
        call_ensures(is_supported_image_content_type, (content_type,), result),
        forall|k: int| 0 <= k < first@.len() ==> #[trigger] first@[k] != ';',
        content_type@ == first@ || content_type@ == first@ + seq![';'] + parameters,
        call_ensures(trim, (first,), trimmed_first),
        plain@ == trimmed_first@,
        call_ensures(to_lower, (plain,), media),
    ensures
        result <==> media@ == "image/png"@ || media@ == "image/jpeg"@ || media@ == "image/gif"@
            || media@ == "image/webp"@,
{
    let s = content_type@;
    let n = first@.len() as int;
    lemma_index_of_char(s, ';');
    let m = index_of_char(s, ';') as int;
    if m < n {
        assert(first@[m] == s[m]);
    }
    if s.len() > n {
        assert(s[n] == ';');
    }
    assert(s.take(n) =~= first@);
}

/// The head of an answer is refused where it is no success, where it is no image that can be
/// shown, and where it announces more than ten mebibytes; in this order, and nowhere else.
pub proof fn lemma_head_of_an_image(
    url: ParsedUrl,
    head: ImageResponseHead,
    written_status: &str,
    kind: &str,
    can_be_shown: bool,
    length: Option<usize>,
    length_text: &str,
    length_written: String,
    result: Result<(), FunctionCallError>,
)
    requires
        call_ensures(check_image_head, (&url, &head, written_status), result),
        kind@ == if head.content_type is Some {
            head.content_type->Some_0@
        } else {
            "unknown"@
        },
        call_ensures(is_supported_image_content_type, (kind,), can_be_shown),
        head.content_length is Some ==> length_text@ == head.content_length->Some_0@
            && call_ensures(parse_usize, (length_text,), length),
        head.content_length is None ==> length is None,
        length is Some ==> call_ensures(
            decimal_text,
            (length->Some_0 as u64,),
            length_written,
        ),
    ensures
        ({
            let success = head.status / 100 == 2;
            let too_long = length is Some && length->Some_0 > 10_485_760;
            &&& result is Ok <==> success && can_be_shown && !too_long
            &&& result is Err ==> (result->Err_0 matches FunctionCallError::RespondToModel(message)
                && message@ == if !success {
                "view_image_url request failed for "@ + url.text@ + " with status "@
                    + written_status@
            } else if !can_be_shown {
                "view_image_url expected an image response, got Content-Type `"@ + kind@ + "`"@
            } else {
                "view_image_url image is too large: "@ + length_written@ + " bytes exceeds the "@
                    + decimal(10_485_760) + " byte limit"@
            })
        }),
{
}

/// A body is read chunk by chunk, each behind the others, as long as it stays within the
/// limit; a chunk too much is refused, and nothing of it is kept.
pub proof fn lemma_body_is_read_within_the_limit(
    body: &mut Vec<u8>,
    chunk: Vec<u8>,
    max_bytes: usize,
    result: Result<(), FunctionCallError>,
)
    requires
        call_ensures(read_response_bytes_limited, (body, &chunk, max_bytes), result),
    ensures
        result is Ok <==> old(body)@.len() + chunk@.len() <= max_bytes,
        result is Ok ==> final(body)@ == old(body)@ + chunk@,
        result is Err ==> final(body)@ == old(body)@,
        result is Err ==> (result->Err_0 matches FunctionCallError::RespondToModel(message)
            && message@ == if old(body)@.len() + chunk@.len() > usize::MAX {
            "view_image_url image is too large to read"@
        } else {
            "view_image_url image is too large: response exceeds the "@ + decimal(max_bytes as nat)
                + " byte limit"@
        }),
{
}

/// An image is asked for, its head is looked at, its body is read to the end, and what was
/// read is loaded and shown. Whatever goes wrong refuses the call with its reason.
pub proof fn lemma_image_is_viewed(
    stage: ViewImageStage,
    event: ViewImageEvent,
    result: ViewImageStage,
)
    requires
        call_ensures(ViewImageStage::next, (stage, event), result),
    ensures
        stage is Request ==> (event matches ViewImageEvent::RequestFailed(error) ==> (
        result matches ViewImageStage::Refused { error: FunctionCallError::RespondToModel(message) }
            && message@ == "view_image_url request failed: "@ + error@)),
        stage is Read ==> (event matches ViewImageEvent::ReadFailed(error) ==> (
        result matches ViewImageStage::Refused { error: FunctionCallError::RespondToModel(message) }
            && message@ == "view_image_url response read failed: "@ + error@)),
        stage matches ViewImageStage::Read { url, body } ==> (
        event matches ViewImageEvent::Chunk(chunk) ==> if body@.len() + chunk@.len()
            <= 10_485_760 {
            result matches ViewImageStage::Read { url: kept, body: longer } && kept == url
                && longer@ == body@ + chunk@
        } else {
            result matches ViewImageStage::Refused {
                error: FunctionCallError::RespondToModel(message),
            } && (body@.len() + chunk@.len() <= usize::MAX ==> message@
                == "view_image_url image is too large: response exceeds the "@ + decimal(
                10_485_760,
            ) + " byte limit"@)
        }),
        stage matches ViewImageStage::Read { url, body } ==> (event is BodyEnded ==> (
        result matches ViewImageStage::Load { url: kept, path_hint, body: whole } && kept == url
            && whole@ == body@)),
        stage matches ViewImageStage::Load { url, path_hint, body } ==> (
        event matches ViewImageEvent::LoadFailed(error) ==> (
        result matches ViewImageStage::Refused { error: FunctionCallError::RespondToModel(message) }
            && message@ == "unable to process image from `"@ + url.text@ + "`: "@ + error@)),
        stage is Load ==> (event matches ViewImageEvent::Loaded(image) ==> (
        result matches ViewImageStage::Show { image_url } && image_url == image)),
        stage is Show || stage is Refused ==> result == stage,
{
}

/// The head of an answer decides whether its body is read, and the end of the body gives the
/// hint at its type.
pub proof fn lemma_image_is_read_behind_its_head(
    url: ParsedUrl,
    head: ImageResponseHead,
    body: Vec<u8>,
    written_status: &str,
    checked: Result<(), FunctionCallError>,
    hint: String,
    behind_head: ViewImageStage,
    behind_body: ViewImageStage,
)
    requires
        call_ensures(
            ViewImageStage::next,
            (ViewImageStage::Request { url }, ViewImageEvent::Head(head)),
            behind_head,
        ),
        call_ensures(
            ViewImageStage::next,
            (ViewImageStage::Read { url, body }, ViewImageEvent::BodyEnded),
            behind_body,
        ),
        written_status@ == status_line(head.status),
        call_ensures(check_image_head, (&url, &head, written_status), checked),
        call_ensures(path_hint_for_url, (&url,), hint),
    ensures
        checked is Ok ==> (behind_head matches ViewImageStage::Read { url: kept, body: none }
            && kept == url && none@.len() == 0),
        checked is Err ==> (behind_head matches ViewImageStage::Refused {
            error: FunctionCallError::RespondToModel(message),
        } && (checked->Err_0 matches FunctionCallError::RespondToModel(said) && message@ == said@)),
        behind_body matches ViewImageStage::Load { path_hint, .. } && path_hint@ == hint@,
{
}

/// A call asks for the address that its argument stands for, and is refused where that is no
/// address of the web.
pub proof fn lemma_image_has_a_web_address(url: &str, result: ViewImageStage)
    requires
        call_ensures(ViewImageStage::start, (url,), result),
    ensures
        ({
            let parsed = url_parsed(trimmed(url@));
            let web = parsed is Ok && (parsed->Ok_0.1 == "http"@ || parsed->Ok_0.1 == "https"@);
            &&& result is Request <==> web
            &&& result matches ViewImageStage::Request { url: asked } ==> asked.text@
                == parsed->Ok_0.0 && asked.scheme@ == parsed->Ok_0.1 && asked.path@
                == parsed->Ok_0.2
            &&& !web ==> (result matches ViewImageStage::Refused {
                error: FunctionCallError::RespondToModel(message),
            } && message@ == if parsed is Err {
                "url must be a valid URL: "@ + parsed->Err_0
            } else {
                "unsupported URL scheme `"@ + parsed->Ok_0.1 + "`; use http or https"@
            })
        }),
{
}

/// A tool is heard only by a call of a function, with the arguments as they are; a call that
/// was refused or finished stays so.
pub proof fn lemma_tool_is_called_as_a_function(
    tool_name: &str,
    payload: ToolPayload,
    result: Result<String, FunctionCallError>,
    stage: FetchStage,
    reply: FetchReply,
    after: FetchStage,
)
    requires
        call_ensures(function_arguments, (tool_name, payload), result),
        call_ensures(FetchStage::next, (stage, reply), after),
    ensures
        result is Ok <==> payload is Function,
        payload matches ToolPayload::Function { arguments } ==> result->Ok_0 == arguments,
        result is Err ==> (result->Err_0 matches FunctionCallError::RespondToModel(message)
            && message@ == tool_name@ + " handler received unsupported payload"@),
        stage is Refused || stage is Finish ==> after == stage,
{
}

/// What the model is told where an image cannot be viewed names what went wrong; the head of an
/// answer is checked under the written form of its status.
pub proof fn lemma_why_an_image_is_not_viewed(
    url: ParsedUrl,
    error: &str,
    head: ImageResponseHead,
    written_status: &str,
    given: Result<(), FunctionCallError>,
    checked: Result<(), FunctionCallError>,
    unprocessable: FunctionCallError,
    not_asked: FunctionCallError,
    not_read: FunctionCallError,
    supports_images: bool,
    input: Result<(), FunctionCallError>,
)
    requires
        call_ensures(check_image_head, (&url, &head, written_status), given),
        call_ensures(check_image_response, (&url, &head), checked),
        written_status@ == status_line(head.status),
        call_ensures(unprocessable_image, (&url, error), unprocessable),
        call_ensures(image_request_failed, (error,), not_asked),
        call_ensures(image_read_failed, (error,), not_read),
        call_ensures(check_image_input, (supports_images,), input),
    ensures
        checked is Ok <==> given is Ok,
        checked is Err ==> (checked->Err_0 matches FunctionCallError::RespondToModel(message) && (
        given->Err_0 matches FunctionCallError::RespondToModel(said) && message@ == said@)),
        unprocessable matches FunctionCallError::RespondToModel(message) && message@
            == "unable to process image from `"@ + url.text@ + "`: "@ + error@,
        not_asked matches FunctionCallError::RespondToModel(message) && message@
            == "view_image_url request failed: "@ + error@,
        not_read matches FunctionCallError::RespondToModel(message) && message@
            == "view_image_url response read failed: "@ + error@,
        input is Ok <==> supports_images,
        input is Err ==> (input->Err_0 matches FunctionCallError::RespondToModel(message)
            && message@
            == "view_image_url is not allowed because you do not support image inputs"@),
{
}

/// An image is planned by the address that its argument stands for.
pub proof fn lemma_image_is_planned(
    url: &str,
    plain: &str,
    accepted: Result<ParsedUrl, String>,
    result: Result<ParsedUrl, FunctionCallError>,
)
    requires
        call_ensures(plan_view_image, (url,), result),
        plain@ == trimmed(url@),
        call_ensures(web_url, (plain,), accepted),
    ensures
        result is Ok <==> accepted is Ok,
        result is Ok ==> result->Ok_0.text@ == accepted->Ok_0.text@ && result->Ok_0.scheme@
            == accepted->Ok_0.scheme@ && result->Ok_0.path@ == accepted->Ok_0.path@,
        result is Err ==> (result->Err_0 matches FunctionCallError::RespondToModel(message)
            && message@ == accepted->Err_0@),
{
}

/// The names that the web tools are called by, and what they cannot do without.
pub proof fn lemma_web_tools_are_described(
    search: FunctionTool,
    fetch: FunctionTool,
    image: FunctionTool,
)
    requires
        call_ensures(web_search_spec, (), search),
        call_ensures(web_fetch_spec, (), fetch),
        call_ensures(create_view_image_url_tool, (), image),
    ensures
        search.name@ == "web_search"@ && fetch.name@ == "web_fetch"@ && image.name@
            == "view_image_url"@,
        !search.strict && !fetch.strict && !image.strict,
        texts(search.parameters.required@) == seq!["query"@],
        texts(fetch.parameters.required@) == seq!["url"@],
        texts(image.parameters.required@) == seq!["url"@],
        search.parameters.properties@.len() == 9,
        fetch.parameters.properties@.len() == 2,
        image.parameters.properties@.len() == 1,
        search.parameters.additional_properties is None && fetch.parameters.additional_properties is None,
        image.parameters.additional_properties == Some(false),
        search.output_schema is None && fetch.output_schema is None,
        image.output_schema is Some,
        search.description@
            == "Search the web through Codex's client-side Tavily backend. For latest, newest, or current questions, set time_range to \"month\" or \"year\" to avoid stale results. Prefer include_domains for primary or official sources. Use exact_match for precise version strings, model names, benchmark names, or quoted phrases."@,
        fetch.description@
            == "Fetch a web page or document through Codex's client-side HTTP backend."@,
        image.description@
            == "Fetch and view a remote HTTP or HTTPS image when visual inspection is needed."@,
{
    assert(search.parameters@.properties.len() == search.parameters.properties@.len());
    assert(fetch.parameters@.properties.len() == fetch.parameters.properties@.len());
    assert(image.parameters@.properties.len() == image.parameters.properties@.len());
}

/// What a search can be given: each value by its name and its kind.
pub proof fn lemma_search_takes(search: FunctionTool)
    requires
        call_ensures(web_search_spec, (), search),
    ensures
        search.parameters.properties@.len() == 9,
        search.parameters.properties@[0].name@ == "end_date"@ && search.parameters.properties@[0].description@
            == "Optional end date filter in YYYY-MM-DD format."@,
        search.parameters.properties@[0].kind is Text,
        search.parameters.properties@[1].name@ == "exact_match"@ && search.parameters.properties@[1].description@
            == "Require exact quoted phrase matches for precise names or versions."@,
        search.parameters.properties@[1].kind is Boolean,
        search.parameters.properties@[2].name@ == "exclude_domains"@ && search.parameters.properties@[2].description@
            == "Optional domains to exclude from results."@,
        search.parameters.properties@[2].kind is TextList,
        search.parameters.properties@[3].name@ == "include_domains"@ && search.parameters.properties@[3].description@
            == "Optional domains to restrict results to; prefer official sources."@,
        search.parameters.properties@[3].kind is TextList,
        search.parameters.properties@[4].name@ == "limit"@ && search.parameters.properties@[4].description@
            == "Maximum number of results to return, up to 20."@,
        search.parameters.properties@[4].kind is Integer,
        search.parameters.properties@[5].name@ == "query"@ && search.parameters.properties@[5].description@
            == "Search query."@,
        search.parameters.properties@[5].kind is Text,
        search.parameters.properties@[6].name@ == "start_date"@ && search.parameters.properties@[6].description@
            == "Optional start date filter in YYYY-MM-DD format."@,
        search.parameters.properties@[6].kind is Text,
        search.parameters.properties@[7].name@ == "time_range"@ && search.parameters.properties@[7].description@
            == "Optional recency filter. Use month or year for latest/current questions."@,
        search.parameters.properties@[7].kind matches ValueKind::Choice(options) && texts(options@)
            == seq!["day"@, "week"@, "month"@, "year"@],
        search.parameters.properties@[8].name@ == "topic"@ && search.parameters.properties@[8].description@
            == "Optional search topic. Use news for current events when publication dates matter."@,
        search.parameters.properties@[8].kind matches ValueKind::Choice(options) && texts(options@)
            == seq!["general"@, "news"@, "finance"@],
{
    assert(search.parameters@.properties.len() == search.parameters.properties@.len());
    assert(search.parameters@.properties[0] == search.parameters.properties@[0]@);
    assert(search.parameters@.properties[1] == search.parameters.properties@[1]@);
    assert(search.parameters@.properties[2] == search.parameters.properties@[2]@);
    assert(search.parameters@.properties[3] == search.parameters.properties@[3]@);
    assert(search.parameters@.properties[4] == search.parameters.properties@[4]@);
    assert(search.parameters@.properties[5] == search.parameters.properties@[5]@);
    assert(search.parameters@.properties[6] == search.parameters.properties@[6]@);
    assert(search.parameters@.properties[7] == search.parameters.properties@[7]@);
    assert(search.parameters@.properties[8] == search.parameters.properties@[8]@);
}

/// What a fetch and the view of an image can be given, and what the view gives.
pub proof fn lemma_fetch_and_view_take(
    fetch: FunctionTool,
    image: FunctionTool,
    given: ObjectSchema,
)
    requires
        call_ensures(web_fetch_spec, (), fetch),
        call_ensures(create_view_image_url_tool, (), image),
        call_ensures(view_image_url_output_schema, (), given),
    ensures
        fetch.parameters.properties@.len() == 2,
        image.parameters.properties@.len() == 1,
        given.properties@.len() == 2,
        texts(given.required@) == seq!["image_url"@, "detail"@],
        given.additional_properties == Some(false),
        image.output_schema is Some && image.output_schema->Some_0@ == given@,
        fetch.parameters.properties@[0].name@ == "max_bytes"@ && fetch.parameters.properties@[0].description@
            == "Maximum response bytes to return, up to 50000."@,
        fetch.parameters.properties@[0].kind is Integer,
        fetch.parameters.properties@[1].name@ == "url"@ && fetch.parameters.properties@[1].description@
            == "HTTP or HTTPS URL to fetch."@,
        fetch.parameters.properties@[1].kind is Text,
        image.parameters.properties@[0].name@ == "url"@ && image.parameters.properties@[0].description@
            == "HTTP or HTTPS URL of the image to view."@,
        image.parameters.properties@[0].kind is Text,
        given.properties@[0].name@ == "detail"@ && given.properties@[0].description@
            == "Image detail hint returned by view_image_url."@,
        given.properties@[0].kind matches ValueKind::Choice(options) && texts(options@)
            == seq!["high"@],
        given.properties@[1].name@ == "image_url"@ && given.properties@[1].description@
            == "Data URL for the loaded image."@,
        given.properties@[1].kind is Text,
{
    assert(fetch.parameters@.properties.len() == fetch.parameters.properties@.len());
    assert(image.parameters@.properties.len() == image.parameters.properties@.len());
    assert(given@.properties.len() == given.properties@.len());
    assert(fetch.parameters@.properties[0] == fetch.parameters.properties@[0]@);
    assert(fetch.parameters@.properties[1] == fetch.parameters.properties@[1]@);
    assert(image.parameters@.properties[0] == image.parameters.properties@[0]@);
    assert(given@.properties[0] == given.properties@[0]@);
    assert(given@.properties[1] == given.properties@[1]@);
}

} // verus!
