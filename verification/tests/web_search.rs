use gemini_orchestration::protocol::FunctionCallError;
use gemini_orchestration::tool_spec::{function_arguments, ToolPayload, ValueKind};
use gemini_orchestration::web_search::{
    finish_search, format_search_results, format_tavily_error, parse_tavily_default_search_limit,
    parse_tavily_search_depth, plan_search, result_body, search_call, search_call_to, search_item,
    tavily_error_text, validate_domain_count, web_search_spec, ClientWebConfig, SearchEvent,
    SearchPlan, SearchReply, SearchStage, TavilyImage, TavilySearchRequest, TavilySearchResponse, TavilySearchResult, WebSearchAction, WebSearchArgs,
    WebSearchItem, DEFAULT_SEARCH_LIMIT, DEFAULT_TAVILY_SEARCH_DEPTH, MAX_SEARCH_LIMIT,
    PER_RESULT_BODY_MAX_BYTES, WEB_SEARCH_TOOL_NAME,
};
use gemini_orchestration::web_url::ParsedUrl;

fn config() -> ClientWebConfig {
    ClientWebConfig {
        tavily_api_key: Some("test-key".to_string()),
        tavily_search_url: "http://127.0.0.1:80/search".to_string(),
        tavily_search_depth: DEFAULT_TAVILY_SEARCH_DEPTH.to_string(),
        default_search_limit: DEFAULT_SEARCH_LIMIT,
    }
}

fn args(query: &str) -> WebSearchArgs {
    WebSearchArgs {
        query: query.to_string(),
        limit: None,
        time_range: None,
        start_date: None,
        end_date: None,
        topic: None,
        include_domains: None,
        exclude_domains: None,
        exact_match: None,
    }
}

fn result(title: Option<&str>) -> TavilySearchResult {
    TavilySearchResult {
        title: title.map(str::to_string),
        url: None,
        content: None,
        score: None,
        raw_content: None,
        published_date: None,
        images: vec![],
    }
}

fn refusal<T: std::fmt::Debug>(result: Result<T, FunctionCallError>) -> String {
    let FunctionCallError::RespondToModel(message) =
        result.expect_err("the call should be refused");
    message
}

#[test]
fn web_search_executes_client_side_backend() {
    let mut args = args(" weather paris ");
    args.limit = Some(2);
    let plan = plan_search(&args, &config()).expect("the search should be accepted");
    assert_eq!(
        search_item("call-web_search", &plan),
        WebSearchItem {
            id: "call-web_search".to_string(),
            query: "weather paris".to_string(),
            action: WebSearchAction::Search {
                query: "weather paris".to_string()
            },
        }
    );
    let call = search_call(&config(), &plan, args).expect("the request should be put together");
    assert_eq!(call.api_key, "test-key");
    assert_eq!(call.url.text, "http://127.0.0.1/search");
    assert_eq!(call.url.scheme, "http");
    assert_eq!(call.url.path, "/search");
    assert_eq!(
        call.request,
        TavilySearchRequest {
            query: "weather paris".to_string(),
            max_results: 2,
            search_depth: "advanced".to_string(),
            chunks_per_source: Some(3),
            include_raw_content: "markdown".to_string(),
            include_images: true,
            include_usage: true,
            time_range: None,
            start_date: None,
            end_date: None,
            topic: None,
            include_domains: None,
            exclude_domains: None,
            exact_match: None,
        }
    );
    let response = TavilySearchResponse {
        results: vec![
            TavilySearchResult {
                title: Some("Paris forecast".to_string()),
                url: Some("https://example.com/paris".to_string()),
                content: Some("Fallback content should not be shown".to_string()),
                raw_content: Some("Clear skies\nWind: light".to_string()),
                score: Some("0.988".to_string()),
                published_date: Some("2026-06-09".to_string()),
                images: vec![
                    TavilyImage::Url("https://example.com/paris.jpg".to_string()),
                    TavilyImage::Obj {
                        url: "https://example.com/paris-map.jpg".to_string(),
                    },
                ],
            },
            TavilySearchResult {
                title: Some("Paris climate".to_string()),
                url: Some("https://example.com/climate".to_string()),
                content: Some("Temperate climate".to_string()),
                score: Some("0.500".to_string()),
                ..result(None)
            },
        ],
    };
    assert_eq!(
        finish_search(&call.url, &plan, SearchReply::Results(response)),
        Ok("Search results (2 shown):\n1. Paris forecast\n   URL: https://example.com/paris\n   Score: 0.988\n   Published: 2026-06-09\n   Body:\n   Clear skies\n   Wind: light\n   Images:\n   - https://example.com/paris.jpg\n   - https://example.com/paris-map.jpg\n2. Paris climate\n   URL: https://example.com/climate\n   Score: 0.500\n   Body:\n   Temperate climate".to_string())
    );
}

#[test]
fn web_search_requires_tavily_api_key() {
    let config = ClientWebConfig {
        tavily_api_key: None,
        ..config()
    };
    let plan = plan_search(&args("weather paris"), &config).expect("the search is accepted");
    assert_eq!(
        refusal(search_call(&config, &plan, args("weather paris"))),
        "web_search is not configured; set TAVILY_API_KEY to use Tavily search"
    );
}

fn announced() -> WebSearchItem {
    WebSearchItem {
        id: "call-web_search".to_string(),
        query: "weather paris".to_string(),
        action: WebSearchAction::Search {
            query: "weather paris".to_string(),
        },
    }
}

#[test]
fn web_search_emits_item_completed_when_tavily_returns_error() {
    let started = SearchStage::start("call-web_search", args("weather paris"), &config());
    let SearchStage::Announce { item, .. } = &started else {
        panic!("the search is announced");
    };
    assert_eq!(item, &announced());

    let finished = started
        .next(SearchEvent::Announced, &config())
        .next(
            SearchEvent::Replied(SearchReply::Refused {
                status: 500,
                body: "upstream unavailable".to_string(),
            }),
            &config(),
        );
    let SearchStage::Finish { item, answer } = finished else {
        panic!("the end of the search is announced");
    };
    assert_eq!(item, announced());
    assert_eq!(
        refusal(answer),
        "web_search Tavily server error for http://127.0.0.1/search with status 500 Internal Server Error: upstream unavailable"
    );
}

#[test]
fn a_search_is_refused_before_it_is_announced_or_finished_after() {
    let SearchStage::Refused { error } = SearchStage::start("call", args("  "), &config()) else {
        panic!("a blank query is refused");
    };
    assert_eq!(
        error,
        FunctionCallError::RespondToModel("query must not be empty".to_string())
    );

    let keyless = ClientWebConfig {
        tavily_api_key: None,
        ..config()
    };
    let finished = SearchStage::start("call-web_search", args("weather paris"), &keyless)
        .next(SearchEvent::Announced, &keyless);
    let SearchStage::Finish { item, answer } = finished else {
        panic!("the end of the search is announced");
    };
    assert_eq!(item, announced());
    assert_eq!(
        refusal(answer),
        "web_search is not configured; set TAVILY_API_KEY to use Tavily search"
    );

    let sent = SearchStage::start("call-web_search", args("weather paris"), &config())
        .next(SearchEvent::Announced, &config());
    let SearchStage::Send { call, .. } = &sent else {
        panic!("the request is sent");
    };
    assert_eq!(call.api_key, "test-key");
    let answered = sent.next(
        SearchEvent::Replied(SearchReply::Results(TavilySearchResponse {
            results: vec![result(Some("Paris"))],
        })),
        &config(),
    );
    assert_eq!(
        answered,
        SearchStage::Finish {
            item: announced(),
            answer: Ok("Search results (1 shown):\n1. Paris".to_string()),
        }
    );
}

#[test]
fn service_errors_show_the_written_status() {
    assert_eq!(
        tavily_error_text(429, "429 Slow Down", "https://x.test/", "wait"),
        "web_search Tavily rate limit exceeded for https://x.test/ with status 429 Slow Down: wait"
    );
}

#[test]
fn web_search_serializes_recency_and_source_filters() {
    let args = || WebSearchArgs {
        query: "OpenAI GPT-5 benchmark".to_string(),
        limit: Some(1),
        time_range: Some("month".to_string()),
        start_date: Some("2026-01-01".to_string()),
        end_date: Some("2026-02-01".to_string()),
        topic: Some("news".to_string()),
        include_domains: Some(vec!["openai.com".to_string()]),
        exclude_domains: Some(vec!["example.com".to_string()]),
        exact_match: Some(true),
    };
    let plan = plan_search(&args(), &config()).expect("the search should be accepted");
    let call = search_call(&config(), &plan, args()).expect("a request");
    assert_eq!(
        call.request,
        TavilySearchRequest {
            query: "OpenAI GPT-5 benchmark".to_string(),
            max_results: 1,
            search_depth: "advanced".to_string(),
            chunks_per_source: Some(3),
            include_raw_content: "markdown".to_string(),
            include_images: true,
            include_usage: true,
            time_range: Some("month".to_string()),
            start_date: Some("2026-01-01".to_string()),
            end_date: Some("2026-02-01".to_string()),
            topic: Some("news".to_string()),
            include_domains: Some(vec!["openai.com".to_string()]),
            exclude_domains: Some(vec!["example.com".to_string()]),
            exact_match: Some(true),
        }
    );
    assert_eq!(
        format_search_results(&TavilySearchResponse { results: vec![] }, 1),
        "No results."
    );
}

#[test]
fn web_search_omits_chunks_per_source_for_non_advanced_depth() {
    let config = ClientWebConfig {
        tavily_search_depth: "fast".to_string(),
        ..config()
    };
    let plan = plan_search(&args("weather paris"), &config).expect("the search is accepted");
    let call = search_call(&config, &plan, args("weather paris")).expect("a request");
    assert_eq!(call.request.search_depth, "fast");
    assert_eq!(call.request.chunks_per_source, None);
    assert_eq!(call.request.max_results, 5);
}

#[test]
fn web_search_deserializes_string_and_object_images() {
    let response = TavilySearchResponse {
        results: vec![TavilySearchResult {
            title: Some("Image result".to_string()),
            url: Some("https://example.com".to_string()),
            content: Some("Result body".to_string()),
            images: vec![
                TavilyImage::Url("https://example.com/one.png".to_string()),
                TavilyImage::Obj {
                    url: "https://example.com/two.png".to_string(),
                },
            ],
            ..result(None)
        }],
    };

    let output = format_search_results(&response, 1);

    assert!(
        output.contains("   - https://example.com/one.png"),
        "missing string image URL: {output}"
    );
    assert!(
        output.contains("   - https://example.com/two.png"),
        "missing object image URL: {output}"
    );
}

#[test]
fn web_search_formats_raw_content_and_caps_body_and_images() {
    let raw_content = format!("raw {}", "x".repeat(PER_RESULT_BODY_MAX_BYTES + 20));
    let response = TavilySearchResponse {
        results: vec![TavilySearchResult {
            title: Some("Rich result".to_string()),
            url: Some("https://example.com/rich".to_string()),
            content: Some("fallback content should not be shown".to_string()),
            score: Some("0.123".to_string()),
            raw_content: Some(raw_content),
            published_date: Some("2026-06-09".to_string()),
            images: vec![
                TavilyImage::Url("https://example.com/1.png".to_string()),
                TavilyImage::Obj {
                    url: "https://example.com/2.png".to_string(),
                },
                TavilyImage::Url("https://example.com/3.png".to_string()),
                TavilyImage::Url("https://example.com/4.png".to_string()),
            ],
        }],
    };

    let output = format_search_results(&response, 1);

    assert!(
        output.contains("   Body:\n   raw "),
        "missing raw body: {output}"
    );
    assert!(
        !output.contains("fallback content should not be shown"),
        "content fallback should not be shown when raw_content is present: {output}"
    );
    assert!(
        output.contains("[truncated]"),
        "body should be truncated: {output}"
    );
    assert!(
        output.contains("https://example.com/3.png"),
        "third image should be included: {output}"
    );
    assert!(
        !output.contains("https://example.com/4.png"),
        "fourth image should be capped: {output}"
    );
}

#[test]
fn tavily_error_messages_distinguish_statuses() {
    let cases = [
        (400, "invalid Tavily request", "400 Bad Request"),
        (
            401,
            "Tavily authentication failed; check TAVILY_API_KEY",
            "401 Unauthorized",
        ),
        (429, "Tavily rate limit exceeded", "429 Too Many Requests"),
        (
            432,
            "Tavily plan or API key quota exceeded",
            "432 <unknown status code>",
        ),
        (
            433,
            "Tavily pay-as-you-go limit exceeded",
            "433 <unknown status code>",
        ),
        (500, "Tavily server error", "500 Internal Server Error"),
    ];

    for (status, expected, status_text) in cases {
        let message = format_tavily_error(status, "https://api.tavily.com/search", "body");
        assert!(
            message.contains(expected),
            "message should contain {expected:?}: {message}"
        );
        assert!(
            message.contains(&format!("status {status_text}")),
            "message should include status {status}: {message}"
        );
        assert!(
            message.ends_with(": body"),
            "message should include response body: {message}"
        );
    }
    assert_eq!(
        format_tavily_error(418, "https://x.test/", ""),
        "web_search Tavily request failed for https://x.test/ with status 418 I'm a teapot: "
    );
}

#[test]
fn tavily_search_depth_parser_validates_and_falls_back() {
    assert_eq!(parse_tavily_search_depth(None), "advanced");
    assert_eq!(parse_tavily_search_depth(Some("")), "advanced");
    assert_eq!(parse_tavily_search_depth(Some(" FAST ")), "fast");
    assert_eq!(parse_tavily_search_depth(Some("ultra-fast")), "ultra-fast");
    assert_eq!(parse_tavily_search_depth(Some("deep")), "advanced");
}

#[test]
fn tavily_default_search_limit_parser_validates_clamps_and_falls_back() {
    assert_eq!(
        parse_tavily_default_search_limit(None),
        DEFAULT_SEARCH_LIMIT
    );
    assert_eq!(
        parse_tavily_default_search_limit(Some("")),
        DEFAULT_SEARCH_LIMIT
    );
    assert_eq!(
        parse_tavily_default_search_limit(Some("0")),
        DEFAULT_SEARCH_LIMIT
    );
    assert_eq!(
        parse_tavily_default_search_limit(Some("invalid")),
        DEFAULT_SEARCH_LIMIT
    );
    assert_eq!(parse_tavily_default_search_limit(Some("12")), 12);
    assert_eq!(
        parse_tavily_default_search_limit(Some("100")),
        MAX_SEARCH_LIMIT
    );
    assert_eq!(parse_tavily_default_search_limit(Some(" +7 ")), 7);
    assert_eq!(
        parse_tavily_default_search_limit(Some("99999999999999999999999")),
        DEFAULT_SEARCH_LIMIT
    );
}

#[test]
fn the_configuration_follows_the_environment() {
    assert_eq!(
        ClientWebConfig::from_env(Some(" key "), Some("Basic"), Some("9")),
        ClientWebConfig {
            tavily_api_key: Some("key".to_string()),
            tavily_search_url: "https://api.tavily.com/search".to_string(),
            tavily_search_depth: "basic".to_string(),
            default_search_limit: 9,
        }
    );
    assert_eq!(
        ClientWebConfig::from_env(Some("  "), None, None).tavily_api_key,
        None
    );
}

#[test]
fn search_arguments_are_checked() {
    assert_eq!(
        refusal(plan_search(&args(" \t"), &config())),
        "query must not be empty"
    );
    let mut none = args("q");
    none.limit = Some(0);
    assert_eq!(
        refusal(plan_search(&none, &config())),
        "limit must be greater than zero"
    );
    let mut many = args("q");
    many.limit = Some(1_000);
    assert_eq!(
        plan_search(&many, &config()),
        Ok(SearchPlan {
            query: "q".to_string(),
            limit: 20,
        })
    );
    let domains = |n: usize| Some(vec!["a.test".to_string(); n]);
    let mut wide = args("q");
    wide.include_domains = domains(301);
    assert_eq!(
        refusal(plan_search(&wide, &config())),
        "include_domains supports at most 300 domains"
    );
    wide.include_domains = domains(300);
    wide.exclude_domains = domains(151);
    assert_eq!(
        refusal(plan_search(&wide, &config())),
        "exclude_domains supports at most 150 domains"
    );
    assert_eq!(validate_domain_count("x", &domains(2), 2), Ok(()));
}

#[test]
fn search_failures_are_worded() {
    let config = ClientWebConfig {
        tavily_search_url: "not a url".to_string(),
        ..config()
    };
    let plan = plan_search(&args("q"), &config).expect("the search is accepted");
    assert_eq!(
        refusal(search_call(&config, &plan, args("q"))),
        "configured Tavily search URL is not valid: relative URL without a base"
    );
    assert_eq!(
        refusal(search_call_to(
            &config,
            &plan,
            args("q"),
            Err("broken".to_string())
        )),
        "configured Tavily search URL is not valid: broken"
    );
    let url = ParsedUrl {
        text: "https://x.test/".to_string(),
        scheme: "https".to_string(),
        path: "/".to_string(),
    };
    assert_eq!(
        refusal(finish_search(
            &url,
            &plan,
            SearchReply::RequestFailed("timeout".to_string())
        )),
        "web_search request failed: timeout"
    );
    assert_eq!(
        refusal(finish_search(
            &url,
            &plan,
            SearchReply::NotJson("eof".to_string())
        )),
        "web_search response was not JSON: eof"
    );
    assert_eq!(
        refusal(function_arguments(WEB_SEARCH_TOOL_NAME, ToolPayload::Other)),
        "web_search handler received unsupported payload"
    );
}

#[test]
fn a_body_falls_back_to_the_content() {
    let mut blank = result(Some("t"));
    assert_eq!(result_body(&blank), None);
    blank.raw_content = Some("  \n ".to_string());
    blank.content = Some(" a \n  b\u{a0}c ".to_string());
    assert_eq!(result_body(&blank), Some("a b c".to_string()));
    blank.content = Some(" \t".to_string());
    assert_eq!(result_body(&blank), None);
}

#[test]
fn results_are_shown_up_to_the_limit() {
    let mut second = result(Some("second"));
    second.url = Some(String::new());
    second.published_date = Some("  ".to_string());
    second.images = vec![TavilyImage::Url("  ".to_string())];
    let response = TavilySearchResponse {
        results: vec![result(None), second, result(Some("third"))],
    };
    assert_eq!(
        format_search_results(&response, 2),
        "Search results (2 shown):\n1. Untitled\n2. second"
    );
    assert_eq!(
        format_search_results(&response, 9),
        "Search results (3 shown):\n1. Untitled\n2. second\n3. third"
    );
}

#[test]
fn the_search_tool_requires_a_query_only() {
    let tool = web_search_spec();
    assert_eq!(tool.name, "web_search");
    assert!(!tool.strict);
    assert_eq!(tool.parameters.required, vec!["query".to_string()]);
    let names: Vec<&str> = tool
        .parameters
        .properties
        .iter()
        .map(|property| property.name.as_str())
        .collect();
    assert_eq!(
        names,
        vec![
            "end_date",
            "exact_match",
            "exclude_domains",
            "include_domains",
            "limit",
            "query",
            "start_date",
            "time_range",
            "topic",
        ]
    );
    assert_eq!(
        tool.parameters.properties[7].kind,
        ValueKind::Choice(vec![
            "day".to_string(),
            "week".to_string(),
            "month".to_string(),
            "year".to_string(),
        ])
    );
    assert_eq!(
        tool.description,
        concat_description()
    );
}

fn concat_description() -> String {
    [
        "Search the web through Codex's client-side Tavily backend. ",
        "For latest, newest, or current questions, set time_range to \"month\" or ",
        "\"year\" to avoid stale results. Prefer include_domains for primary or ",
        "official sources. Use exact_match for precise version strings, model ",
        "names, benchmark names, or quoted phrases.",
    ]
    .join("")
}
