//! The tool `web_fetch`: which page is fetched, and how it is put before the model.

use crate::html::{
    append_image_urls, extract_image_urls, html_to_text, page_images, page_text, with_images,
};
use crate::protocol::FunctionCallError;
use crate::text::{
    contains_text, lowered, occurs_in, texts, to_lower, trim, trimmed, truncate_text, truncated,
};
use crate::tool_spec::{
    new_property, new_schema, one_text, property, FunctionTool, KindView, PropertyView, SchemaView,
    ToolProperty, ToolView, ValueKind,
};
use crate::web_search::{answers, WebSearchAction, WebSearchItem};
use crate::web_url::{
    status_line, status_text, url_parsed, url_parts, url_refusal, web_url, ParsedUrl,
};
use vstd::prelude::*;

verus! {

pub const WEB_FETCH_TOOL_NAME: &'static str = "web_fetch";

pub const WEB_FETCH_DESCRIPTION: &'static str = "Fetch a web page or document through Codex's client-side HTTP backend.";

pub const DEFAULT_FETCH_MAX_BYTES: usize = 20_000;

pub const MAX_FETCH_MAX_BYTES: usize = 50_000;

/// What a fetch can be given.
pub open spec fn fetch_properties() -> Seq<PropertyView> {
    seq![
        property(
            "max_bytes"@,
            KindView::Integer,
            "Maximum response bytes to return, up to 50000."@,
        ),
        property("url"@, KindView::Text, "HTTP or HTTPS URL to fetch."@),
    ]
}

/// The description of the tool; only the URL is required.
pub open spec fn fetch_tool() -> ToolView {
    ToolView {
        name: WEB_FETCH_TOOL_NAME@,
        description: WEB_FETCH_DESCRIPTION@,
        strict: false,
        parameters: SchemaView {
            properties: fetch_properties(),
            required: seq!["url"@],
            additional_properties: None,
        },
        output_schema: None,
    }
}

/// The description of the tool.
pub fn web_fetch_spec() -> (result: FunctionTool)
    ensures
        result@ == fetch_tool(),
{
    let mut properties: Vec<ToolProperty> = Vec::new();
    properties.push(
        new_property(
            "max_bytes",
            ValueKind::Integer,
            "Maximum response bytes to return, up to 50000.",
        ),
    );
    properties.push(new_property("url", ValueKind::Text, "HTTP or HTTPS URL to fetch."));
    proof {
        assert(properties@.map_values(|p: ToolProperty| p@) =~= fetch_properties());
    }
    FunctionTool {
        name: WEB_FETCH_TOOL_NAME.to_owned(),
        description: WEB_FETCH_DESCRIPTION.to_owned(),
        strict: false,
        parameters: new_schema(properties, one_text("url"), None),
        output_schema: None,
    }
}

/// The arguments of a call.
#[derive(Debug, PartialEq, Eq)]
pub struct WebFetchArgs {
    pub url: String,
    pub max_bytes: Option<usize>,
}

/// A call that was accepted.
#[derive(Debug, PartialEq, Eq)]
pub struct FetchPlan {
    /// The URL as it was given.
    pub requested: String,
    pub url: ParsedUrl,
    pub max_bytes: usize,
}

/// How many bytes of a page a call asks for.
pub open spec fn asked_bytes(max_bytes: Option<usize>) -> usize {
    let asked = match max_bytes {
        Some(bytes) => bytes,
        None => DEFAULT_FETCH_MAX_BYTES,
    };
    if asked > MAX_FETCH_MAX_BYTES {
        MAX_FETCH_MAX_BYTES
    } else {
        asked
    }
}

/// Why the arguments of a call are refused, as the model is told, given why their URL is.
pub open spec fn fetch_refusal(
    refused_url: Option<Seq<char>>,
    max_bytes: Option<usize>,
) -> Option<Seq<char>> {
    if refused_url is Some {
        refused_url
    } else if asked_bytes(max_bytes) == 0 {
        Some("max_bytes must be greater than zero"@)
    } else {
        None
    }
}

/// Checks the arguments of a call, given the URL that they stand for or why it is refused.
pub fn plan_fetch_of(args: &WebFetchArgs, url: Result<ParsedUrl, String>) -> (result: Result<
    FetchPlan,
    FunctionCallError,
>)
    ensures
        match fetch_refusal(
            match url {
                Ok(_) => None,
                Err(message) => Some(message@),
            },
            args.max_bytes,
        ) {
            Some(message) => result is Err && result->Err_0.spec_message() == message,
            None => {
                &&& result is Ok
                &&& result->Ok_0.requested@ == trimmed(args.url@)
                &&& url == Ok::<ParsedUrl, String>(result->Ok_0.url)
                &&& result->Ok_0.max_bytes == asked_bytes(args.max_bytes)
            },
        },
{
    let url = match url {
        Ok(url) => url,
        Err(message) => {
            return Err(FunctionCallError::RespondToModel(message));
        },
    };
    let asked: usize = match args.max_bytes {
        Some(bytes) => bytes,
        None => DEFAULT_FETCH_MAX_BYTES,
    };
    let max_bytes: usize = if asked > MAX_FETCH_MAX_BYTES {
        MAX_FETCH_MAX_BYTES
    } else {
        asked
    };
    if max_bytes == 0 {
        return Err(
            FunctionCallError::RespondToModel("max_bytes must be greater than zero".to_owned()),
        );
    }
    Ok(FetchPlan { requested: trim(args.url.as_str()), url, max_bytes })
}

/// Checks the arguments of a call.
pub fn plan_fetch(args: &WebFetchArgs) -> (result: Result<FetchPlan, FunctionCallError>)
    ensures
        match fetch_refusal(url_refusal(url_parsed(trimmed(args.url@))), args.max_bytes) {
            Some(message) => result is Err && result->Err_0.spec_message() == message,
            None => {
                &&& result is Ok
                &&& result->Ok_0.requested@ == trimmed(args.url@)
                &&& url_parsed(trimmed(args.url@)) == Ok::<
                    (Seq<char>, Seq<char>, Seq<char>),
                    Seq<char>,
                >(url_parts(result->Ok_0.url))
                &&& result->Ok_0.max_bytes == asked_bytes(args.max_bytes)
            },
        },
{
    plan_fetch_of(args, web_url(trim(args.url.as_str()).as_str()))
}

/// The announcement of a fetch.
pub fn fetch_item(call_id: &str, plan: &FetchPlan) -> (result: WebSearchItem)
    ensures
        result.id@ == call_id@,
        result.query@ == plan.url.text@,
        result.action == (WebSearchAction::OpenPage { url: plan.url.text }),
{
    WebSearchItem {
        id: call_id.to_owned(),
        query: plan.url.text.clone(),
        action: WebSearchAction::OpenPage { url: plan.url.text.clone() },
    }
}

/// What came of a request for a page.
#[derive(Debug, PartialEq, Eq)]
pub enum FetchReply {
    /// The request could not be sent, for the given reason.
    RequestFailed(String),
    /// The answer could not be read, for the given reason.
    ReadFailed(String),
    /// A page. Its content type is given where it can be read.
    Page { status: u16, content_type: Option<String>, body: String },
}

/// The content type of a page, or a stand-in.
pub open spec fn content_type_of(content_type: Option<String>) -> Seq<char> {
    match content_type {
        Some(text) => text@,
        None => "unknown"@,
    }
}

/// The body of a page as the model is shown it, given its images: the text of an HTML page
/// with the images listed behind it, and anything else as it is, cut to the limit.
pub open spec fn shown_body(
    content_type: Seq<char>,
    body: Seq<char>,
    images: Seq<Seq<char>>,
    max_bytes: nat,
) -> Seq<char> {
    if occurs_in("html"@, lowered(content_type)) {
        with_images(truncated(page_text(body), max_bytes), images)
    } else {
        truncated(body, max_bytes)
    }
}

/// Whether a page is HTML.
pub fn is_html(content_type: &str) -> (result: bool)
    ensures
        result == occurs_in("html"@, lowered(content_type@)),
{
    contains_text(to_lower(content_type).as_str(), "html")
}

/// The body of a page as the model is shown it, given its images.
pub fn page_body(content_type: &str, body: &str, image_urls: Vec<String>, max_bytes: usize) -> (result:
    String)
    ensures
        result@ == shown_body(content_type@, body@, texts(image_urls@), max_bytes as nat),
{
    if is_html(content_type) {
        let text = html_to_text(body);
        append_image_urls(truncate_text(text.as_str(), max_bytes), image_urls)
    } else {
        truncate_text(body, max_bytes)
    }
}

/// A page as the model is shown it, given the written form of its status.
pub open spec fn shown_page(
    url: Seq<char>,
    written_status: Seq<char>,
    content_type: Seq<char>,
    body: Seq<char>,
) -> Seq<char> {
    "URL: "@ + url + "\nStatus: "@ + written_status + "\nContent-Type: "@ + content_type + "\n\n"@
        + body
}

/// A page as the model is shown it, given the written form of its status.
pub fn page_output(url: &str, written_status: &str, content_type: &str, body: &str) -> (result:
    String)
    ensures
        result@ == shown_page(url@, written_status@, content_type@, body@),
{
    let mut output = "URL: ".to_owned();
    output.append(url);
    output.append("\nStatus: ");
    output.append(written_status);
    output.append("\nContent-Type: ");
    output.append(content_type);
    output.append("\n\n");
    output.append(body);
    output
}

/// What a call is answered, given what came of its request.
pub open spec fn fetch_answer(plan: FetchPlan, reply: FetchReply) -> Result<Seq<char>, Seq<char>> {
    match reply {
        FetchReply::RequestFailed(error) => Err("web_fetch request failed: "@ + error@),
        FetchReply::ReadFailed(error) => Err("web_fetch response read failed: "@ + error@),
        FetchReply::Page { status, content_type, body } => Ok(
            shown_page(
                plan.url.text@,
                status_line(status),
                content_type_of(content_type),
                shown_body(
                    content_type_of(content_type),
                    body@,
                    page_images(body@, plan.requested@, Seq::empty()),
                    plan.max_bytes as nat,
                ),
            ),
        ),
    }
}

/// Answers a call, given what came of its request.
pub fn finish_fetch(plan: &FetchPlan, reply: FetchReply) -> (result: Result<
    String,
    FunctionCallError,
>)
    requires
        reply matches FetchReply::Page { status, .. } ==> 100 <= status < 1000,
    ensures
        match fetch_answer(*plan, reply) {
            Ok(text) => result is Ok && result->Ok_0@ == text,
            Err(message) => result is Err && result->Err_0.spec_message() == message,
        },
{
    match reply {
        FetchReply::RequestFailed(error) => {
            let mut message = "web_fetch request failed: ".to_owned();
            message.append(error.as_str());
            Err(FunctionCallError::RespondToModel(message))
        },
        FetchReply::ReadFailed(error) => {
            let mut message = "web_fetch response read failed: ".to_owned();
            message.append(error.as_str());
            Err(FunctionCallError::RespondToModel(message))
        },
        FetchReply::Page { status, content_type, body } => {
            let content_type = match content_type {
                Some(text) => text,
                None => "unknown".to_owned(),
            };
            let image_urls = if is_html(content_type.as_str()) {
                extract_image_urls(body.as_str(), plan.requested.as_str())
            } else {
                Vec::new()
            };
            let body = page_body(
                content_type.as_str(),
                body.as_str(),
                image_urls,
                plan.max_bytes,
            );
            let output = page_output(
                plan.url.text.as_str(),
                status_text(status).as_str(),
                content_type.as_str(),
                body.as_str(),
            );
            Ok(output)
        },
    }
}

// ---------------------------------------------------------------------------
// The call as a whole
// ---------------------------------------------------------------------------

/// What is to be done next in a call.
#[derive(Debug, PartialEq, Eq)]
pub enum FetchStage {
    /// Refuse the call. Nothing is announced.
    Refused { error: FunctionCallError },
    /// Announce the start, and ask for the page.
    Request { item: WebSearchItem, plan: FetchPlan },
    /// Announce the end, and answer the call.
    Finish { item: WebSearchItem, answer: Result<String, FunctionCallError> },
}

impl FetchStage {
    /// The first stage of a call.
    pub fn start(call_id: &str, args: &WebFetchArgs) -> (result: Self)
        ensures
            match fetch_refusal(url_refusal(url_parsed(trimmed(args.url@))), args.max_bytes) {
                Some(message) => result matches FetchStage::Refused { error }
                    && error.spec_message() == message,
                None => {
                    &&& result matches FetchStage::Request { item, plan }
                    &&& plan.requested@ == trimmed(args.url@)
                    &&& url_parsed(trimmed(args.url@)) == Ok::<
                        (Seq<char>, Seq<char>, Seq<char>),
                        Seq<char>,
                    >(url_parts(plan.url))
                    &&& plan.max_bytes == asked_bytes(args.max_bytes)
                    &&& item.id@ == call_id@
                    &&& item.query@ == plan.url.text@
                    &&& item.action == (WebSearchAction::OpenPage { url: plan.url.text })
                },
            },
    {
        match plan_fetch(args) {
            Ok(plan) => {
                let item = fetch_item(call_id, &plan);
                FetchStage::Request { item, plan }
            },
            Err(error) => FetchStage::Refused { error },
        }
    }

    /// The stage that the reply to a request leads to: however it turned out, the end of the
    /// same item is announced. Any other stage stays.
    pub fn next(self, reply: FetchReply) -> (result: Self)
        requires
            reply matches FetchReply::Page { status, .. } ==> 100 <= status < 1000,
        ensures
            match self {
                FetchStage::Request { item, plan } => {
                    &&& result matches FetchStage::Finish { item: announced, answer }
                    &&& announced == item
                    &&& answers(answer, fetch_answer(plan, reply))
                },
                _ => result == self,
            },
    {
        match self {
            FetchStage::Request { item, plan } => {
                let answer = finish_fetch(&plan, reply);
                FetchStage::Finish { item, answer }
            },
            stage => stage,
        }
    }
}

} // verus!
