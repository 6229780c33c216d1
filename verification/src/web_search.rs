//! The tool `web_search`: what is asked of the search service, and how its answer is put
//! before the model.

use crate::protocol::FunctionCallError;
use crate::text::{
    decimal, decimal_text, join, joined, lines_of, lowered, normalize_whitespace, normalized,
    opt_text, parse_usize, parsed_usize, same_text, texts, to_lower, trim, trimmed, truncate_text,
    truncated,
};
use crate::tool_spec::{
    and_text, new_property, new_schema, one_text, property, FunctionTool, KindView, PropertyView,
    SchemaView, ToolProperty, ToolView, ValueKind,
};
use crate::web_url::{
    is_server_error, parse_url, status_line, status_text, url_parsed, url_parts, ParsedUrl,
};
use vstd::prelude::*;

verus! {

pub const WEB_SEARCH_TOOL_NAME: &'static str = "web_search";

pub const TAVILY_API_KEY_ENV: &'static str = "TAVILY_API_KEY";

pub const TAVILY_SEARCH_URL: &'static str = "https://api.tavily.com/search";

pub const TAVILY_SEARCH_DEPTH_ENV: &'static str = "CODEX_TAVILY_SEARCH_DEPTH";

pub const TAVILY_DEFAULT_SEARCH_LIMIT_ENV: &'static str = "CODEX_TAVILY_DEFAULT_SEARCH_LIMIT";

pub const DEFAULT_TAVILY_SEARCH_DEPTH: &'static str = "advanced";

pub const TAVILY_INCLUDE_RAW_CONTENT: &'static str = "markdown";

pub const DEFAULT_SEARCH_LIMIT: usize = 5;

pub const MAX_SEARCH_LIMIT: usize = 20;

pub const DEFAULT_TAVILY_CHUNKS_PER_SOURCE: usize = 3;

pub const PER_RESULT_BODY_MAX_BYTES: usize = 2_000;

pub const MAX_IMAGES_PER_RESULT: usize = 3;

pub const MAX_INCLUDE_DOMAINS: usize = 300;

pub const MAX_EXCLUDE_DOMAINS: usize = 150;

/// The most bytes of results that are put before the model.
pub const SEARCH_OUTPUT_MAX_BYTES: usize = 20_000;

// ---------------------------------------------------------------------------
// Configuration
// ---------------------------------------------------------------------------

/// How the search service is reached.
#[derive(Debug, PartialEq, Eq)]
pub struct ClientWebConfig {
    pub tavily_api_key: Option<String>,
    pub tavily_search_url: String,
    pub tavily_search_depth: String,
    pub default_search_limit: usize,
}

/// The text of an optional text.
pub open spec fn opt_str(text: Option<&str>) -> Option<Seq<char>> {
    match text {
        Some(t) => Some(t@),
        None => None,
    }
}

/// Whether a search depth is known.
pub open spec fn known_depth(depth: Seq<char>) -> bool {
    depth == "advanced"@ || depth == "basic"@ || depth == "fast"@ || depth == "ultra-fast"@
}

/// The search depth that a setting stands for; an unknown one stands for the default.
pub open spec fn search_depth(raw: Option<Seq<char>>) -> Seq<char> {
    match raw {
        Some(value) => if known_depth(lowered(trimmed(value))) {
            lowered(trimmed(value))
        } else {
            DEFAULT_TAVILY_SEARCH_DEPTH@
        },
        None => DEFAULT_TAVILY_SEARCH_DEPTH@,
    }
}

/// The search depth that a setting stands for.
pub fn parse_tavily_search_depth(raw: Option<&str>) -> (result: String)
    ensures
        result@ == search_depth(opt_str(raw)),
{
    match raw {
        Some(value) => {
            let lower = to_lower(trim(value).as_str());
            if same_text(lower.as_str(), "advanced") || same_text(lower.as_str(), "basic")
                || same_text(lower.as_str(), "fast") || same_text(lower.as_str(), "ultra-fast") {
                lower
            } else {
                DEFAULT_TAVILY_SEARCH_DEPTH.to_owned()
            }
        },
        None => DEFAULT_TAVILY_SEARCH_DEPTH.to_owned(),
    }
}

/// The number of results that a setting stands for: a positive number, held to the maximum,
/// else the default.
pub open spec fn search_limit(raw: Option<Seq<char>>) -> usize {
    match raw {
        Some(value) => match parsed_usize(trimmed(value)) {
            Some(n) => if n == 0 {
                DEFAULT_SEARCH_LIMIT
            } else if n > MAX_SEARCH_LIMIT {
                MAX_SEARCH_LIMIT
            } else {
                n
            },
            None => DEFAULT_SEARCH_LIMIT,
        },
        None => DEFAULT_SEARCH_LIMIT,
    }
}

/// The number of results that a setting stands for.
pub fn parse_tavily_default_search_limit(raw: Option<&str>) -> (result: usize)
    ensures
        result == search_limit(opt_str(raw)),
        1 <= result <= MAX_SEARCH_LIMIT,
{
    match raw {
        Some(value) => match parse_usize(trim(value).as_str()) {
            Some(n) => {
                if n == 0 {
                    DEFAULT_SEARCH_LIMIT
                } else if n > MAX_SEARCH_LIMIT {
                    MAX_SEARCH_LIMIT
                } else {
                    n
                }
            },
            None => DEFAULT_SEARCH_LIMIT,
        },
        None => DEFAULT_SEARCH_LIMIT,
    }
}

impl ClientWebConfig {
    /// The configuration that the values of the environment stand for. A blank key is none.
    pub fn from_env(
        api_key: Option<&str>,
        search_depth_value: Option<&str>,
        search_limit_value: Option<&str>,
    ) -> (result: Self)
        ensures
            opt_text(result.tavily_api_key) == match api_key {
                Some(key) => if trimmed(key@).len() > 0 {
                    Some(trimmed(key@))
                } else {
                    None
                },
                None => None,
            },
            result.tavily_search_url@ == TAVILY_SEARCH_URL@,
            result.tavily_search_depth@ == search_depth(opt_str(search_depth_value)),
            result.default_search_limit == search_limit(opt_str(search_limit_value)),
    {
        let tavily_api_key = match api_key {
            Some(key) => {
                let key = trim(key);
                if is_empty(key.as_str()) {
                    None
                } else {
                    Some(key)
                }
            },
            None => None,
        };
        ClientWebConfig {
            tavily_api_key,
            tavily_search_url: TAVILY_SEARCH_URL.to_owned(),
            tavily_search_depth: parse_tavily_search_depth(search_depth_value),
            default_search_limit: parse_tavily_default_search_limit(search_limit_value),
        }
    }
}

/// Whether a text is empty.
pub fn is_empty(text: &str) -> (result: bool)
    ensures
        result == (text@.len() == 0),
{
    crate::text::chars_of(text).len() == 0
}

// ---------------------------------------------------------------------------
// Description
// ---------------------------------------------------------------------------

pub const WEB_SEARCH_DESCRIPTION: &'static str = "Search the web through Codex's client-side Tavily backend. For latest, newest, or current questions, set time_range to \"month\" or \"year\" to avoid stale results. Prefer include_domains for primary or official sources. Use exact_match for precise version strings, model names, benchmark names, or quoted phrases.";

/// The spans of time that a search can be restricted to.
pub open spec fn time_ranges() -> Seq<Seq<char>> {
    seq!["day"@].push("week"@).push("month"@).push("year"@)
}

/// The topics that a search can be restricted to.
pub open spec fn topics() -> Seq<Seq<char>> {
    seq!["general"@].push("news"@).push("finance"@)
}

/// What a search can be given.
pub open spec fn search_properties() -> Seq<PropertyView> {
    seq![
        property(
            "end_date"@,
            KindView::Text,
            "Optional end date filter in YYYY-MM-DD format."@,
        ),
        property(
            "exact_match"@,
            KindView::Boolean,
            "Require exact quoted phrase matches for precise names or versions."@,
        ),
        property(
            "exclude_domains"@,
            KindView::TextList,
            "Optional domains to exclude from results."@,
        ),
        property(
            "include_domains"@,
            KindView::TextList,
            "Optional domains to restrict results to; prefer official sources."@,
        ),
        property(
            "limit"@,
            KindView::Integer,
            "Maximum number of results to return, up to 20."@,
        ),
        property("query"@, KindView::Text, "Search query."@),
        property(
            "start_date"@,
            KindView::Text,
            "Optional start date filter in YYYY-MM-DD format."@,
        ),
        property(
            "time_range"@,
            KindView::Choice(time_ranges()),
            "Optional recency filter. Use month or year for latest/current questions."@,
        ),
        property(
            "topic"@,
            KindView::Choice(topics()),
            "Optional search topic. Use news for current events when publication dates matter."@,
        ),
    ]
}

/// The description of the tool; only the query is required.
pub open spec fn search_tool() -> ToolView {
    ToolView {
        name: WEB_SEARCH_TOOL_NAME@,
        description: WEB_SEARCH_DESCRIPTION@,
        strict: false,
        parameters: SchemaView {
            properties: search_properties(),
            required: seq!["query"@],
            additional_properties: None,
        },
        output_schema: None,
    }
}

fn time_range_choices() -> (result: Vec<String>)
    ensures
        texts(result@) == time_ranges(),
{
    and_text(and_text(and_text(one_text("day"), "week"), "month"), "year")
}

fn topic_choices() -> (result: Vec<String>)
    ensures
        texts(result@) == topics(),
{
    and_text(and_text(one_text("general"), "news"), "finance")
}

/// The description of the tool.
pub fn web_search_spec() -> (result: FunctionTool)
    ensures
        result@ == search_tool(),
{
    let mut properties: Vec<ToolProperty> = Vec::new();
    properties.push(
        new_property(
            "end_date",
            ValueKind::Text,
            "Optional end date filter in YYYY-MM-DD format.",
        ),
    );
    properties.push(
        new_property(
            "exact_match",
            ValueKind::Boolean,
            "Require exact quoted phrase matches for precise names or versions.",
        ),
    );
    properties.push(
        new_property(
            "exclude_domains",
            ValueKind::TextList,
            "Optional domains to exclude from results.",
        ),
    );
    properties.push(
        new_property(
            "include_domains",
            ValueKind::TextList,
            "Optional domains to restrict results to; prefer official sources.",
        ),
    );
    properties.push(
        new_property(
            "limit",
            ValueKind::Integer,
            "Maximum number of results to return, up to 20.",
        ),
    );
    properties.push(new_property("query", ValueKind::Text, "Search query."));
    properties.push(
        new_property(
            "start_date",
            ValueKind::Text,
            "Optional start date filter in YYYY-MM-DD format.",
        ),
    );
    properties.push(
        new_property(
            "time_range",
            ValueKind::Choice(time_range_choices()),
            "Optional recency filter. Use month or year for latest/current questions.",
        ),
    );
    properties.push(
        new_property(
            "topic",
            ValueKind::Choice(topic_choices()),
            "Optional search topic. Use news for current events when publication dates matter.",
        ),
    );
    proof {
        assert(properties@.map_values(|p: ToolProperty| p@) =~= search_properties());
    }
    FunctionTool {
        name: WEB_SEARCH_TOOL_NAME.to_owned(),
        description: WEB_SEARCH_DESCRIPTION.to_owned(),
        strict: false,
        parameters: new_schema(properties, one_text("query"), None),
        output_schema: None,
    }
}

/// How the use of a web tool is announced.
#[derive(Debug, PartialEq, Eq)]
pub enum WebSearchAction {
    Search { query: String },
    OpenPage { url: String },
}

/// The use of a web tool, as it is announced when it starts and when it ends, however it
/// ends.
#[derive(Debug, PartialEq, Eq)]
pub struct WebSearchItem {
    pub id: String,
    pub query: String,
    pub action: WebSearchAction,
}

// ---------------------------------------------------------------------------
// Arguments
// ---------------------------------------------------------------------------

/// The arguments of a call.
#[derive(Debug, PartialEq, Eq)]
pub struct WebSearchArgs {
    pub query: String,
    pub limit: Option<usize>,
    pub time_range: Option<String>,
    pub start_date: Option<String>,
    pub end_date: Option<String>,
    pub topic: Option<String>,
    pub include_domains: Option<Vec<String>>,
    pub exclude_domains: Option<Vec<String>>,
    pub exact_match: Option<bool>,
}

/// What a list of domains is told where it is too long.
pub open spec fn domain_refusal(name: Seq<char>, max: nat) -> Seq<char> {
    name + " supports at most "@ + decimal(max) + " domains"@
}

/// Whether a list of domains is too long.
pub open spec fn too_many_domains(domains: Option<Vec<String>>, max: int) -> bool {
    domains is Some && domains->Some_0@.len() > max
}

/// A list of domains holds at most `max` of them.
pub fn validate_domain_count(name: &str, domains: &Option<Vec<String>>, max: usize) -> (result:
    Result<(), FunctionCallError>)
    ensures
        result is Err <==> too_many_domains(*domains, max as int),
        result matches Err(error) ==> error.spec_message() == domain_refusal(name@, max as nat),
{
    if let Some(list) = domains {
        if list.len() > max {
            let mut message = name.to_owned();
            message.append(" supports at most ");
            message.append(decimal_text(max as u64).as_str());
            message.append(" domains");
            return Err(FunctionCallError::RespondToModel(message));
        }
    }
    Ok(())
}

/// The number of results that a call asks for.
pub open spec fn asked_limit(args: WebSearchArgs, config: ClientWebConfig) -> usize {
    let asked = match args.limit {
        Some(limit) => limit,
        None => config.default_search_limit,
    };
    if asked > MAX_SEARCH_LIMIT {
        MAX_SEARCH_LIMIT
    } else {
        asked
    }
}

/// Why the arguments of a call are refused, as the model is told.
pub open spec fn search_refusal(args: WebSearchArgs, config: ClientWebConfig) -> Option<Seq<char>> {
    if trimmed(args.query@).len() == 0 {
        Some("query must not be empty"@)
    } else if asked_limit(args, config) == 0 {
        Some("limit must be greater than zero"@)
    } else if too_many_domains(args.include_domains, MAX_INCLUDE_DOMAINS as int) {
        Some(domain_refusal("include_domains"@, MAX_INCLUDE_DOMAINS as nat))
    } else if too_many_domains(args.exclude_domains, MAX_EXCLUDE_DOMAINS as int) {
        Some(domain_refusal("exclude_domains"@, MAX_EXCLUDE_DOMAINS as nat))
    } else {
        None
    }
}

/// A call that was accepted. Its query is announced.
#[derive(Debug, PartialEq, Eq)]
pub struct SearchPlan {
    pub query: String,
    pub limit: usize,
}

/// Checks the arguments of a call.
pub fn plan_search(args: &WebSearchArgs, config: &ClientWebConfig) -> (result: Result<
    SearchPlan,
    FunctionCallError,
>)
    ensures
        match search_refusal(*args, *config) {
            Some(message) => result is Err && result->Err_0.spec_message() == message,
            None => {
                &&& result is Ok
                &&& result->Ok_0.query@ == trimmed(args.query@)
                &&& result->Ok_0.limit == asked_limit(*args, *config)
            },
        },
{
    let query = trim(args.query.as_str());
    if is_empty(query.as_str()) {
        return Err(FunctionCallError::RespondToModel("query must not be empty".to_owned()));
    }
    let asked: usize = match args.limit {
        Some(limit) => limit,
        None => config.default_search_limit,
    };
    let limit: usize = if asked > MAX_SEARCH_LIMIT {
        MAX_SEARCH_LIMIT
    } else {
        asked
    };
    if limit == 0 {
        return Err(
            FunctionCallError::RespondToModel("limit must be greater than zero".to_owned()),
        );
    }
    if let Err(error) = validate_domain_count(
        "include_domains",
        &args.include_domains,
        MAX_INCLUDE_DOMAINS,
    ) {
        return Err(error);
    }
    if let Err(error) = validate_domain_count(
        "exclude_domains",
        &args.exclude_domains,
        MAX_EXCLUDE_DOMAINS,
    ) {
        return Err(error);
    }
    Ok(SearchPlan { query, limit })
}

/// The announcement of a search.
pub fn search_item(call_id: &str, plan: &SearchPlan) -> (result: WebSearchItem)
    ensures
        result.id@ == call_id@,
        result.query@ == plan.query@,
        result.action == (WebSearchAction::Search { query: plan.query }),
{
    WebSearchItem {
        id: call_id.to_owned(),
        query: plan.query.clone(),
        action: WebSearchAction::Search { query: plan.query.clone() },
    }
}

/// What is asked of the search service.
#[derive(Debug, PartialEq, Eq)]
pub struct TavilySearchRequest {
    pub query: String,
    pub max_results: usize,
    pub search_depth: String,
    /// Only for the advanced depth.
    pub chunks_per_source: Option<usize>,
    pub include_raw_content: String,
    pub include_images: bool,
    pub include_usage: bool,
    pub time_range: Option<String>,
    pub start_date: Option<String>,
    pub end_date: Option<String>,
    pub topic: Option<String>,
    pub include_domains: Option<Vec<String>>,
    pub exclude_domains: Option<Vec<String>>,
    pub exact_match: Option<bool>,
}

/// Whether a request asks what a call asks for.
pub open spec fn asks(
    request: TavilySearchRequest,
    plan: SearchPlan,
    args: WebSearchArgs,
    config: ClientWebConfig,
) -> bool {
    &&& request.query@ == plan.query@
    &&& request.max_results == plan.limit
    &&& request.search_depth@ == config.tavily_search_depth@
    &&& request.chunks_per_source == if config.tavily_search_depth@
        == DEFAULT_TAVILY_SEARCH_DEPTH@ {
        Some(DEFAULT_TAVILY_CHUNKS_PER_SOURCE)
    } else {
        None
    }
    &&& request.include_raw_content@ == TAVILY_INCLUDE_RAW_CONTENT@
    &&& request.include_images
    &&& request.include_usage
    &&& request.time_range == args.time_range
    &&& request.start_date == args.start_date
    &&& request.end_date == args.end_date
    &&& request.topic == args.topic
    &&& request.include_domains == args.include_domains
    &&& request.exclude_domains == args.exclude_domains
    &&& request.exact_match == args.exact_match
}

/// A request to the search service: where it goes, with which key, and what it asks.
#[derive(Debug, PartialEq, Eq)]
pub struct SearchCall {
    pub url: ParsedUrl,
    pub api_key: String,
    pub request: TavilySearchRequest,
}

/// Why a call cannot be sent, as the model is told.
pub open spec fn send_refusal(
    config: ClientWebConfig,
    parsed: Result<(Seq<char>, Seq<char>, Seq<char>), Seq<char>>,
) -> Option<Seq<char>> {
    if config.tavily_api_key is None {
        Some(
            "web_search is not configured; set "@ + TAVILY_API_KEY_ENV@ + " to use Tavily search"@,
        )
    } else {
        match parsed {
            Err(error) => Some("configured Tavily search URL is not valid: "@ + error),
            Ok(_) => None,
        }
    }
}

/// Puts a request to the search service together, given what parsing its URL gave.
pub fn search_call_to(
    config: &ClientWebConfig,
    plan: &SearchPlan,
    args: WebSearchArgs,
    parsed: Result<ParsedUrl, String>,
) -> (result: Result<SearchCall, FunctionCallError>)
    ensures
        match send_refusal(
            *config,
            match parsed {
                Ok(url) => Ok(url_parts(url)),
                Err(error) => Err(error@),
            },
        ) {
            Some(message) => result is Err && result->Err_0.spec_message() == message,
            None => {
                &&& result is Ok
                &&& opt_text(config.tavily_api_key) == Some(result->Ok_0.api_key@)
                &&& parsed == Ok::<ParsedUrl, String>(result->Ok_0.url)
                &&& asks(result->Ok_0.request, *plan, args, *config)
            },
        },
{
    let api_key = match &config.tavily_api_key {
        Some(key) => key.clone(),
        None => {
            let mut message = "web_search is not configured; set ".to_owned();
            message.append(TAVILY_API_KEY_ENV);
            message.append(" to use Tavily search");
            return Err(FunctionCallError::RespondToModel(message));
        },
    };
    let url = match parsed {
        Ok(url) => url,
        Err(error) => {
            let mut message = "configured Tavily search URL is not valid: ".to_owned();
            message.append(error.as_str());
            return Err(FunctionCallError::RespondToModel(message));
        },
    };
    let chunks_per_source = if same_text(
        config.tavily_search_depth.as_str(),
        DEFAULT_TAVILY_SEARCH_DEPTH,
    ) {
        Some(DEFAULT_TAVILY_CHUNKS_PER_SOURCE)
    } else {
        None
    };
    let request = TavilySearchRequest {
        query: plan.query.clone(),
        max_results: plan.limit,
        search_depth: config.tavily_search_depth.clone(),
        chunks_per_source,
        include_raw_content: TAVILY_INCLUDE_RAW_CONTENT.to_owned(),
        include_images: true,
        include_usage: true,
        time_range: args.time_range,
        start_date: args.start_date,
        end_date: args.end_date,
        topic: args.topic,
        include_domains: args.include_domains,
        exclude_domains: args.exclude_domains,
        exact_match: args.exact_match,
    };
    Ok(SearchCall { url, api_key, request })
}

/// Puts a request to the search service together.
pub fn search_call(config: &ClientWebConfig, plan: &SearchPlan, args: WebSearchArgs) -> (result:
    Result<SearchCall, FunctionCallError>)
    ensures
        match send_refusal(*config, url_parsed(config.tavily_search_url@)) {
            Some(message) => result is Err && result->Err_0.spec_message() == message,
            None => {
                &&& result is Ok
                &&& opt_text(config.tavily_api_key) == Some(result->Ok_0.api_key@)
                &&& url_parsed(config.tavily_search_url@) == Ok::<
                    (Seq<char>, Seq<char>, Seq<char>),
                    Seq<char>,
                >(url_parts(result->Ok_0.url))
                &&& asks(result->Ok_0.request, *plan, args, *config)
            },
        },
{
    search_call_to(config, plan, args, parse_url(config.tavily_search_url.as_str()))
}

// ---------------------------------------------------------------------------
// Results
// ---------------------------------------------------------------------------

/// An image of a result, in either of the shapes that the service sends.
#[derive(Debug, PartialEq, Eq)]
pub enum TavilyImage {
    Url(String),
    Obj { url: String },
}

impl TavilyImage {
    /// The URL of an image.
    pub open spec fn spec_url(&self) -> Seq<char> {
        match self {
            TavilyImage::Url(url) => url@,
            TavilyImage::Obj { url } => url@,
        }
    }

    /// The URL of an image.
    pub fn url(&self) -> (result: &str)
        ensures
            result@ == self.spec_url(),
    {
        match self {
            TavilyImage::Url(url) => url.as_str(),
            TavilyImage::Obj { url } => url.as_str(),
        }
    }
}

/// One result of a search.
#[derive(Debug, PartialEq, Eq)]
pub struct TavilySearchResult {
    pub title: Option<String>,
    pub url: Option<String>,
    pub content: Option<String>,
    /// The score, written with three decimals.
    pub score: Option<String>,
    pub raw_content: Option<String>,
    pub published_date: Option<String>,
    pub images: Vec<TavilyImage>,
}

/// The answer of the search service.
#[derive(Debug, PartialEq, Eq)]
pub struct TavilySearchResponse {
    pub results: Vec<TavilySearchResult>,
}

/// The body of a result: its raw content, where that is not blank, else its content with
/// white space collapsed; nothing where that is blank too.
pub open spec fn body_of(result: TavilySearchResult) -> Option<Seq<char>> {
    if result.raw_content is Some && trimmed(result.raw_content->Some_0@).len() > 0 {
        Some(
            truncated(trimmed(result.raw_content->Some_0@), PER_RESULT_BODY_MAX_BYTES as nat),
        )
    } else if result.content is Some && normalized(result.content->Some_0@).len() > 0 {
        Some(truncated(normalized(result.content->Some_0@), PER_RESULT_BODY_MAX_BYTES as nat))
    } else {
        None
    }
}

/// The body of a result.
pub fn result_body(result: &TavilySearchResult) -> (body: Option<String>)
    ensures
        opt_text(body) == body_of(*result),
{
    if let Some(raw_content) = &result.raw_content {
        let raw = trim(raw_content.as_str());
        if !is_empty(raw.as_str()) {
            return Some(truncate_text(raw.as_str(), PER_RESULT_BODY_MAX_BYTES));
        }
    }
    match &result.content {
        Some(content) => {
            let content = normalize_whitespace(content.as_str());
            if is_empty(content.as_str()) {
                None
            } else {
                Some(truncate_text(content.as_str(), PER_RESULT_BODY_MAX_BYTES))
            }
        },
        None => None,
    }
}

/// The URLs of some images that are not blank, up to the limit.
pub open spec fn shown_images(images: Seq<TavilyImage>) -> Seq<Seq<char>>
    decreases images.len(),
{
    if images.len() == 0 {
        Seq::empty()
    } else {
        let before = shown_images(images.drop_last());
        let url = trimmed(images.last().spec_url());
        if url.len() > 0 && before.len() < MAX_IMAGES_PER_RESULT {
            before.push(url)
        } else {
            before
        }
    }
}

fn image_urls(images: &Vec<TavilyImage>) -> (result: Vec<String>)
    ensures
        texts(result@) == shown_images(images@),
{
    let mut urls: Vec<String> = Vec::new();
    let mut i: usize = 0;
    proof {
        assert(images@.take(0) =~= Seq::empty());
        assert(texts(urls@) =~= Seq::empty());
    }
    while i < images.len()
        invariant
            i <= images@.len(),
            texts(urls@) == shown_images(images@.take(i as int)),
        decreases images.len() - i,
    {
        let url = trim(images[i].url());
        let ghost before = urls@;
        proof {
            assert(images@.take(i + 1).drop_last() =~= images@.take(i as int));
            assert(texts(before).len() == before.len());
        }
        if !is_empty(url.as_str()) && urls.len() < MAX_IMAGES_PER_RESULT {
            urls.push(url);
            proof {
                assert(texts(urls@) =~= texts(before).push(url@));
            }
        }
        i = i + 1;
    }
    proof {
        assert(images@.take(i as int) =~= images@);
    }
    urls
}

/// Some texts with a prefix before each.
pub open spec fn prefixed(prefix: Seq<char>, parts: Seq<Seq<char>>) -> Seq<Seq<char>> {
    parts.map_values(|part: Seq<char>| prefix + part)
}

fn push_prefixed(lines: &mut Vec<String>, prefix: &str, parts: &Vec<String>)
    ensures
        texts(final(lines)@) == texts(old(lines)@) + prefixed(prefix@, texts(parts@)),
{
    let mut i: usize = 0;
    let ghost start = texts(lines@);
    let ghost all = prefixed(prefix@, texts(parts@));
    proof {
        assert(start + all.take(0) =~= start);
    }
    while i < parts.len()
        invariant
            i <= parts@.len(),
            all == prefixed(prefix@, texts(parts@)),
            texts(lines@) == start + all.take(i as int),
        decreases parts.len() - i,
    {
        let mut line = prefix.to_owned();
        line.append(parts[i].as_str());
        let ghost before = lines@;
        lines.push(line);
        proof {
            assert(texts(lines@) =~= texts(before).push(line@));
            assert(all.take(i + 1) =~= all.take(i as int).push(line@));
            assert(start + all.take(i as int).push(line@) =~= (start + all.take(i as int)).push(
                line@,
            ));
        }
        i = i + 1;
    }
    proof {
        assert(all.take(i as int) =~= all);
    }
}

fn push_line(lines: &mut Vec<String>, line: String)
    ensures
        texts(final(lines)@) == texts(old(lines)@).push(line@),
{
    let ghost before = lines@;
    lines.push(line);
    proof {
        assert(texts(lines@) =~= texts(before).push(line@));
    }
}

/// No line, or one.
pub open spec fn line_if(shown: bool, line: Seq<char>) -> Seq<Seq<char>> {
    if shown {
        seq![line]
    } else {
        Seq::empty()
    }
}

/// The text of an optional string, or a stand-in.
pub open spec fn text_or(text: Option<String>, otherwise: Seq<char>) -> Seq<char> {
    match text {
        Some(t) => t@,
        None => otherwise,
    }
}

/// The first lines of the result at `index`: its title, and below it its URL, score and date,
/// as far as it has them.
pub open spec fn result_head(result: TavilySearchResult, index: nat) -> Seq<Seq<char>> {
    let url = text_or(result.url, Seq::empty());
    let date = trimmed(text_or(result.published_date, Seq::empty()));
    line_if(true, decimal(index + 1) + ". "@ + text_or(result.title, "Untitled"@)) + line_if(
        url.len() > 0,
        "   URL: "@ + url,
    ) + line_if(result.score is Some, "   Score: "@ + text_or(result.score, Seq::empty()))
        + line_if(date.len() > 0, "   Published: "@ + date)
}

/// The lines of the body of a result, where it has one.
pub open spec fn result_body_lines(result: TavilySearchResult) -> Seq<Seq<char>> {
    match body_of(result) {
        Some(body) => seq!["   Body:"@] + prefixed("   "@, lines_of(body)),
        None => Seq::empty(),
    }
}

/// The lines of the images of a result, where it has some.
pub open spec fn result_image_lines(result: TavilySearchResult) -> Seq<Seq<char>> {
    let images = shown_images(result.images@);
    if images.len() > 0 {
        seq!["   Images:"@] + prefixed("   - "@, images)
    } else {
        Seq::empty()
    }
}

/// The lines of the result at `index`.
pub open spec fn result_lines(result: TavilySearchResult, index: nat) -> Seq<Seq<char>> {
    result_head(result, index) + result_body_lines(result) + result_image_lines(result)
}

fn labelled(label: &str, value: &str) -> (result: String)
    ensures
        result@ == label@ + value@,
{
    let mut line = label.to_owned();
    line.append(value);
    line
}

fn push_result_head(lines: &mut Vec<String>, result: &TavilySearchResult, index: usize)
    requires
        index < usize::MAX,
    ensures
        texts(final(lines)@) == texts(old(lines)@) + result_head(*result, index as nat),
{
    let ghost start = texts(lines@);
    let mut title = decimal_text((index + 1) as u64);
    title.append(". ");
    match &result.title {
        Some(text) => {
            title.append(text.as_str());
        },
        None => {
            title.append("Untitled");
        },
    }
    push_line(lines, title);
    let ghost titled = start + line_if(true, title@);
    proof {
        assert(texts(lines@) =~= titled);
        assert(trimmed(Seq::<char>::empty()).len() == 0);
    }
    if let Some(url) = &result.url {
        if !is_empty(url.as_str()) {
            push_line(lines, labelled("   URL: ", url.as_str()));
        }
    }
    let ghost url = text_or(result.url, Seq::empty());
    let ghost located = titled + line_if(url.len() > 0, "   URL: "@ + url);
    proof {
        assert(texts(lines@) =~= located);
    }
    if let Some(score) = &result.score {
        push_line(lines, labelled("   Score: ", score.as_str()));
    }
    let ghost scored = located + line_if(
        result.score is Some,
        "   Score: "@ + text_or(result.score, Seq::empty()),
    );
    proof {
        assert(texts(lines@) =~= scored);
    }
    if let Some(published_date) = &result.published_date {
        let date = trim(published_date.as_str());
        if !is_empty(date.as_str()) {
            push_line(lines, labelled("   Published: ", date.as_str()));
        }
    }
    proof {
        let date = trimmed(text_or(result.published_date, Seq::empty()));
        assert(texts(lines@) =~= scored + line_if(date.len() > 0, "   Published: "@ + date));
        assert(texts(lines@) =~= start + result_head(*result, index as nat));
    }
}

fn push_result_body(lines: &mut Vec<String>, result: &TavilySearchResult)
    ensures
        texts(final(lines)@) == texts(old(lines)@) + result_body_lines(*result),
{
    let ghost start = texts(lines@);
    if let Some(body) = result_body(result) {
        push_line(lines, "   Body:".to_owned());
        push_prefixed(lines, "   ", &crate::text::lines(body.as_str()));
    }
    proof {
        assert(texts(lines@) =~= start + result_body_lines(*result));
    }
}

fn push_result_images(lines: &mut Vec<String>, result: &TavilySearchResult)
    ensures
        texts(final(lines)@) == texts(old(lines)@) + result_image_lines(*result),
{
    let ghost start = texts(lines@);
    let images = image_urls(&result.images);
    proof {
        assert(texts(images@).len() == images@.len());
    }
    if images.len() > 0 {
        push_line(lines, "   Images:".to_owned());
        push_prefixed(lines, "   - ", &images);
    }
    proof {
        assert(texts(lines@) =~= start + result_image_lines(*result));
    }
}

proof fn lemma_appended(start: Seq<Seq<char>>, a: Seq<Seq<char>>, b: Seq<Seq<char>>, c: Seq<Seq<char>>)
    ensures
        start + a + b + c == start + (a + b + c),
{
    assert(start + a + b + c =~= start + (a + b + c));
}

fn push_result(lines: &mut Vec<String>, result: &TavilySearchResult, index: usize)
    requires
        index < usize::MAX,
    ensures
        texts(final(lines)@) == texts(old(lines)@) + result_lines(*result, index as nat),
{
    let ghost start = texts(lines@);
    push_result_head(lines, result, index);
    push_result_body(lines, result);
    push_result_images(lines, result);
    proof {
        lemma_appended(
            start,
            result_head(*result, index as nat),
            result_body_lines(*result),
            result_image_lines(*result),
        );
    }
}

/// The lines of the first `n` results.
pub open spec fn all_result_lines(results: Seq<TavilySearchResult>, n: nat) -> Seq<Seq<char>>
    decreases n,
{
    if n == 0 {
        Seq::empty()
    } else {
        all_result_lines(results, (n - 1) as nat) + result_lines(results[n - 1], (n - 1) as nat)
    }
}

/// What the model is shown of an answer: the results up to the limit, and how many they are.
pub open spec fn results_text(results: Seq<TavilySearchResult>, limit: nat) -> Seq<char> {
    if results.len() == 0 {
        "No results."@
    } else {
        let shown = if results.len() < limit {
            results.len()
        } else {
            limit
        };
        truncated(
            joined(
                seq!["Search results ("@ + decimal(shown) + " shown):"@] + all_result_lines(
                    results,
                    shown,
                ),
                "\n"@,
            ),
            SEARCH_OUTPUT_MAX_BYTES as nat,
        )
    }
}

/// What the model is shown of an answer.
pub fn format_search_results(body: &TavilySearchResponse, limit: usize) -> (result: String)
    ensures
        result@ == results_text(body.results@, limit as nat),
{
    if body.results.len() == 0 {
        return "No results.".to_owned();
    }
    let shown: usize = if body.results.len() < limit {
        body.results.len()
    } else {
        limit
    };
    let mut header = "Search results (".to_owned();
    header.append(decimal_text(shown as u64).as_str());
    header.append(" shown):");
    let mut output: Vec<String> = Vec::new();
    proof {
        assert(texts(output@) =~= Seq::empty());
    }
    push_line(&mut output, header);
    let ghost head = seq![header@];
    let mut i: usize = 0;
    proof {
        assert(texts(output@) =~= head + all_result_lines(body.results@, 0));
    }
    while i < shown
        invariant
            i <= shown <= body.results.len(),
            texts(output@) == head + all_result_lines(body.results@, i as nat),
        decreases shown - i,
    {
        push_result(&mut output, &body.results[i], i);
        proof {
            let before = all_result_lines(body.results@, i as nat);
            let more = result_lines(body.results@[i as int], i as nat);
            assert(head + before + more =~= head + (before + more));
        }
        i = i + 1;
    }
    truncate_text(join(&output, "\n").as_str(), SEARCH_OUTPUT_MAX_BYTES)
}

// ---------------------------------------------------------------------------
// Errors
// ---------------------------------------------------------------------------

/// What a status of the search service stands for.
pub open spec fn status_detail(status: u16) -> Seq<char> {
    if status == 400 {
        "invalid Tavily request"@
    } else if status == 401 {
        "Tavily authentication failed; check TAVILY_API_KEY"@
    } else if status == 429 {
        "Tavily rate limit exceeded"@
    } else if status == 432 {
        "Tavily plan or API key quota exceeded"@
    } else if status == 433 {
        "Tavily pay-as-you-go limit exceeded"@
    } else if 500 <= status < 600 {
        "Tavily server error"@
    } else {
        "Tavily request failed"@
    }
}

/// What the model is told of an answer that is no success, given the written form of its
/// status.
pub open spec fn service_error(
    status: u16,
    written_status: Seq<char>,
    url: Seq<char>,
    body: Seq<char>,
) -> Seq<char> {
    "web_search "@ + status_detail(status) + " for "@ + url + " with status "@ + written_status
        + ": "@ + truncated(body, SEARCH_OUTPUT_MAX_BYTES as nat)
}

/// What the model is told of an answer that is no success, given the written form of its
/// status.
pub fn tavily_error_text(status: u16, written_status: &str, url: &str, body: &str) -> (result:
    String)
    ensures
        result@ == service_error(status, written_status@, url@, body@),
{
    let detail = if status == 400 {
        "invalid Tavily request"
    } else if status == 401 {
        "Tavily authentication failed; check TAVILY_API_KEY"
    } else if status == 429 {
        "Tavily rate limit exceeded"
    } else if status == 432 {
        "Tavily plan or API key quota exceeded"
    } else if status == 433 {
        "Tavily pay-as-you-go limit exceeded"
    } else if is_server_error(status) {
        "Tavily server error"
    } else {
        "Tavily request failed"
    };
    let mut message = "web_search ".to_owned();
    message.append(detail);
    message.append(" for ");
    message.append(url);
    message.append(" with status ");
    message.append(written_status);
    message.append(": ");
    message.append(truncate_text(body, SEARCH_OUTPUT_MAX_BYTES).as_str());
    message
}

/// What the model is told of an answer that is no success.
pub fn format_tavily_error(status: u16, url: &str, body: &str) -> (result: String)
    requires
        100 <= status < 1000,
    ensures
        result@ == service_error(status, status_line(status), url@, body@),
{
    tavily_error_text(status, status_text(status).as_str(), url, body)
}

/// What came of a request to the search service.
#[derive(Debug, PartialEq, Eq)]
pub enum SearchReply {
    /// The request could not be sent, for the given reason.
    RequestFailed(String),
    /// The service answered with a status that is no success.
    Refused { status: u16, body: String },
    /// The answer could not be read, for the given reason.
    NotJson(String),
    Results(TavilySearchResponse),
}

/// What a call is answered, given what came of its request.
pub open spec fn search_answer(
    url: Seq<char>,
    limit: nat,
    reply: SearchReply,
) -> Result<Seq<char>, Seq<char>> {
    match reply {
        SearchReply::RequestFailed(error) => Err("web_search request failed: "@ + error@),
        SearchReply::Refused { status, body } => Err(
            service_error(status, status_line(status), url, body@),
        ),
        SearchReply::NotJson(error) => Err("web_search response was not JSON: "@ + error@),
        SearchReply::Results(response) => Ok(results_text(response.results@, limit)),
    }
}

/// Answers a call, given what came of its request.
pub fn finish_search(url: &ParsedUrl, plan: &SearchPlan, reply: SearchReply) -> (result: Result<
    String,
    FunctionCallError,
>)
    requires
        reply matches SearchReply::Refused { status, .. } ==> 100 <= status < 1000,
    ensures
        match search_answer(url.text@, plan.limit as nat, reply) {
            Ok(text) => result is Ok && result->Ok_0@ == text,
            Err(message) => result is Err && result->Err_0.spec_message() == message,
        },
{
    match reply {
        SearchReply::RequestFailed(error) => Err(
            FunctionCallError::RespondToModel(
                labelled("web_search request failed: ", error.as_str()),
            ),
        ),
        SearchReply::Refused { status, body } => Err(
            FunctionCallError::RespondToModel(
                format_tavily_error(status, url.text.as_str(), body.as_str()),
            ),
        ),
        SearchReply::NotJson(error) => Err(
            FunctionCallError::RespondToModel(
                labelled("web_search response was not JSON: ", error.as_str()),
            ),
        ),
        SearchReply::Results(response) => Ok(format_search_results(&response, plan.limit)),
    }
}

// ---------------------------------------------------------------------------
// The call as a whole
// ---------------------------------------------------------------------------

/// What is to be done next in a call.
#[derive(Debug, PartialEq, Eq)]
pub enum SearchStage {
    /// Refuse the call. Nothing is announced.
    Refused { error: FunctionCallError },
    /// Announce the start.
    Announce { item: WebSearchItem, plan: SearchPlan, args: WebSearchArgs },
    /// Send the request.
    Send { item: WebSearchItem, plan: SearchPlan, call: SearchCall },
    /// Announce the end, and answer the call.
    Finish { item: WebSearchItem, answer: Result<String, FunctionCallError> },
}

/// What came of a stage.
#[derive(Debug, PartialEq, Eq)]
pub enum SearchEvent {
    Announced,
    Replied(SearchReply),
}

/// Whether an answer is the given text, or the given error.
pub open spec fn answers(
    answer: Result<String, FunctionCallError>,
    expected: Result<Seq<char>, Seq<char>>,
) -> bool {
    match expected {
        Ok(text) => answer is Ok && answer->Ok_0@ == text,
        Err(message) => answer is Err && answer->Err_0.spec_message() == message,
    }
}

/// Whether an event leads from one stage to another. An event that cannot come of a stage
/// changes nothing.
pub open spec fn search_leads(
    stage: SearchStage,
    event: SearchEvent,
    config: ClientWebConfig,
    after: SearchStage,
) -> bool {
    match (stage, event) {
        (SearchStage::Announce { item, plan, args }, SearchEvent::Announced) => match send_refusal(
            config,
            url_parsed(config.tavily_search_url@),
        ) {
            Some(message) => {
                &&& after matches SearchStage::Finish { item: announced, answer }
                &&& announced == item
                &&& answers(answer, Err(message))
            },
            None => {
                &&& after matches SearchStage::Send { item: announced, plan: kept, call }
                &&& announced == item
                &&& kept == plan
                &&& opt_text(config.tavily_api_key) == Some(call.api_key@)
                &&& url_parsed(config.tavily_search_url@) == Ok::<
                    (Seq<char>, Seq<char>, Seq<char>),
                    Seq<char>,
                >(url_parts(call.url))
                &&& asks(call.request, plan, args, config)
            },
        },
        (SearchStage::Send { item, plan, call }, SearchEvent::Replied(reply)) => {
            &&& after matches SearchStage::Finish { item: announced, answer }
            &&& announced == item
            &&& answers(answer, search_answer(call.url.text@, plan.limit as nat, reply))
        },
        _ => after == stage,
    }
}

impl SearchStage {
    /// The first stage of a call.
    pub fn start(call_id: &str, args: WebSearchArgs, config: &ClientWebConfig) -> (result: Self)
        ensures
            match search_refusal(args, *config) {
                Some(message) => result matches SearchStage::Refused { error }
                    && error.spec_message() == message,
                None => {
                    &&& result matches SearchStage::Announce { item, plan, args: kept }
                    &&& kept == args
                    &&& plan.query@ == trimmed(args.query@)
                    &&& plan.limit == asked_limit(args, *config)
                    &&& item.id@ == call_id@
                    &&& item.query@ == plan.query@
                    &&& item.action == (WebSearchAction::Search { query: plan.query })
                },
            },
    {
        match plan_search(&args, config) {
            Ok(plan) => {
                let item = search_item(call_id, &plan);
                SearchStage::Announce { item, plan, args }
            },
            Err(error) => SearchStage::Refused { error },
        }
    }

    /// The stage that an event leads to.
    pub fn next(self, event: SearchEvent, config: &ClientWebConfig) -> (result: Self)
        requires
            event matches SearchEvent::Replied(SearchReply::Refused { status, .. }) ==> 100
                <= status < 1000,
        ensures
            search_leads(self, event, *config, result),
    {
        match (self, event) {
            (SearchStage::Announce { item, plan, args }, SearchEvent::Announced) => {
                match search_call(config, &plan, args) {
                    Ok(call) => SearchStage::Send { item, plan, call },
                    Err(error) => SearchStage::Finish { item, answer: Err(error) },
                }
            },
            (SearchStage::Send { item, plan, call }, SearchEvent::Replied(reply)) => {
                let answer = finish_search(&call.url, &plan, reply);
                SearchStage::Finish { item, answer }
            },
            (stage, _) => stage,
        }
    }
}

/// What was announced is kept: a call whose start was announced ends with the announcement
/// of the same item, whatever goes wrong in between, and it is never refused any more.
pub proof fn lemma_announced_search_is_finished(
    stage: SearchStage,
    event: SearchEvent,
    config: ClientWebConfig,
    after: SearchStage,
    item: WebSearchItem,
)
    requires
        search_leads(stage, event, config, after),
        announced_item(stage) == Some(item),
    ensures
        announced_item(after) == Some(item),
        !(after is Refused),
{
}

/// The item that a call announces, where it announces one.
pub open spec fn announced_item(stage: SearchStage) -> Option<WebSearchItem> {
    match stage {
        SearchStage::Refused { .. } => None,
        SearchStage::Announce { item, .. } => Some(item),
        SearchStage::Send { item, .. } => Some(item),
        SearchStage::Finish { item, .. } => Some(item),
    }
}

/// A search that is not refused asks for something, and for at least one result and at most
/// the maximum.
pub proof fn lemma_accepted_search(args: WebSearchArgs, config: ClientWebConfig)
    requires
        search_refusal(args, config) is None,
    ensures
        trimmed(args.query@).len() > 0,
        1 <= asked_limit(args, config) <= MAX_SEARCH_LIMIT,
{
}

} // verus!
