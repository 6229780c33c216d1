use gemini_orchestration::html::{
    append_image_urls, decode_basic_html_entities, extract_image_urls, extract_src_attr,
    html_to_text, is_img_tag_boundary, keep_image_url, MAX_IMAGES_ON_PAGE,
};
use gemini_orchestration::protocol::FunctionCallError;
use gemini_orchestration::text::normalize_whitespace;
use gemini_orchestration::web_fetch::{
    fetch_item, finish_fetch, is_html, page_body, page_output, plan_fetch, plan_fetch_of,
    web_fetch_spec, FetchPlan, FetchReply, FetchStage, WebFetchArgs,
};
use gemini_orchestration::web_search::{WebSearchAction, WebSearchItem};
use gemini_orchestration::web_url::ParsedUrl;

fn plan(url: &str, max_bytes: Option<usize>) -> Result<FetchPlan, FunctionCallError> {
    plan_fetch(&WebFetchArgs {
        url: url.to_string(),
        max_bytes,
    })
}

fn page(plan: &FetchPlan, content_type: Option<&str>, body: &str) -> String {
    finish_fetch(
        plan,
        FetchReply::Page {
            status: 200,
            content_type: content_type.map(str::to_string),
            body: body.to_string(),
        },
    )
    .expect("the page should be shown")
}

fn refusal<T: std::fmt::Debug>(result: Result<T, FunctionCallError>) -> String {
    let FunctionCallError::RespondToModel(message) =
        result.expect_err("the call should be refused");
    message
}

#[test]
fn web_fetch_executes_client_side_http_get() {
    let plan = plan("http://127.0.0.1:8080/page", Some(2000)).expect("the fetch is accepted");
    let text = page(
        &plan,
        Some("text/html; charset=utf-8"),
        "<html><body><h1>Title</h1><p>Hello &amp; welcome.</p></body></html>",
    );

    assert!(
        text.contains(
            "Status: 200 OK\nContent-Type: text/html; charset=utf-8\n\nTitle Hello & welcome."
        ),
        "unexpected web_fetch output: {text}"
    );
    assert!(
        !text.contains("Images on page:"),
        "unexpected image list: {text}"
    );
    assert_eq!(
        fetch_item("call-web_fetch", &plan),
        WebSearchItem {
            id: "call-web_fetch".to_string(),
            query: "http://127.0.0.1:8080/page".to_string(),
            action: WebSearchAction::OpenPage {
                url: "http://127.0.0.1:8080/page".to_string()
            },
        }
    );
}

#[test]
fn web_fetch_appends_image_urls_from_html() {
    let plan =
        plan("http://127.0.0.1:8080/reports/page.html", Some(2000)).expect("a plan");
    let text = page(
        &plan,
        Some("text/html; charset=utf-8"),
        r#"
            <html>
              <body>
                <h1>Report</h1>
                <img src="chart.png">
                <IMG SRC='/figures/plot.webp'>
                <img src="https://cdn.example.com/abs.jpg">
                <img src='//assets.example.com/protocol.png'>
                <img data-src="/lazy.png">
                <img src="chart.png">
                <img src=unquoted.gif>
              </body>
            </html>
            "#,
    );

    let relative_chart = "http://127.0.0.1:8080/reports/chart.png";
    assert!(
        text.contains("\n\nImages on page:\n- "),
        "missing image list: {text}"
    );
    for expected in [
        "- http://127.0.0.1:8080/reports/chart.png",
        "- http://127.0.0.1:8080/figures/plot.webp",
        "- https://cdn.example.com/abs.jpg",
        "- http://assets.example.com/protocol.png",
        "- http://127.0.0.1:8080/reports/unquoted.gif",
    ] {
        assert!(text.contains(expected), "missing {expected}: {text}");
    }
    assert_eq!(text.matches(relative_chart).count(), 1);
    assert!(
        !text.contains("/lazy.png"),
        "data-src should be ignored: {text}"
    );
}

#[test]
fn web_fetch_image_url_extraction_caps_and_deduplicates() {
    let base = "https://example.com/dir/page.html";
    let html = (0..25)
        .map(|index| format!(r#"<img src="image-{index}.png"><img src="image-{index}.png">"#))
        .collect::<String>();

    let image_urls = extract_image_urls(&html, base);

    assert_eq!(image_urls.len(), MAX_IMAGES_ON_PAGE);
    assert_eq!(image_urls[0], "https://example.com/dir/image-0.png");
    assert_eq!(image_urls[19], "https://example.com/dir/image-19.png");
    assert!(!image_urls.iter().any(|url| url.ends_with("image-20.png")));
}

#[test]
fn web_fetch_emits_item_completed_when_request_fails() {
    let url = "http://127.0.0.1:1/page";
    let announced = || WebSearchItem {
        id: "call-web_fetch".to_string(),
        query: url.to_string(),
        action: WebSearchAction::OpenPage {
            url: url.to_string(),
        },
    };
    let args = WebFetchArgs {
        url: url.to_string(),
        max_bytes: None,
    };
    let started = FetchStage::start("call-web_fetch", &args);
    let FetchStage::Request { item, .. } = &started else {
        panic!("the fetch is announced");
    };
    assert_eq!(item, &announced());
    let finished = started.next(FetchReply::RequestFailed("connection closed".to_string()));
    let FetchStage::Finish { item, answer } = finished else {
        panic!("the end of the fetch is announced");
    };
    assert_eq!(item, announced());
    let message = refusal(answer);
    assert!(
        message.starts_with("web_fetch request failed:"),
        "unexpected error message: {message}"
    );
    assert_eq!(
        refusal(finish_fetch(
            &plan(url, None).expect("a plan"),
            FetchReply::ReadFailed("eof".to_string())
        )),
        "web_fetch response read failed: eof"
    );
}

#[test]
fn a_fetch_is_refused_before_it_is_announced() {
    let args = WebFetchArgs {
        url: "ftp://example.com/".to_string(),
        max_bytes: None,
    };
    assert_eq!(
        FetchStage::start("call", &args),
        FetchStage::Refused {
            error: FunctionCallError::RespondToModel(
                "unsupported URL scheme `ftp`; use http or https".to_string()
            ),
        }
    );
}

#[test]
fn a_page_is_put_together_from_its_parts() {
    assert!(is_html("text/HTML; charset=utf-8"));
    assert!(!is_html("text/plain"));
    let images = || vec!["https://x.test/a.png".to_string()];
    assert_eq!(
        page_body("text/html", "<p>Hi &amp; bye</p>", images(), 100),
        "Hi & bye\n\nImages on page:\n- https://x.test/a.png"
    );
    assert_eq!(
        page_body("text/html", "<p>Hi &amp; bye</p>", images(), 2),
        "Hi\n[truncated]\n\nImages on page:\n- https://x.test/a.png"
    );
    assert_eq!(page_body("text/plain", "<p>Hi</p>", images(), 100), "<p>Hi</p>");
    assert_eq!(
        page_output("https://x.test/", "200 Fine", "text/plain", "Hi"),
        "URL: https://x.test/\nStatus: 200 Fine\nContent-Type: text/plain\n\nHi"
    );
}

#[test]
fn fetch_arguments_are_checked() {
    assert_eq!(
        refusal(plan("not a url", None)),
        "url must be a valid URL: relative URL without a base"
    );
    assert_eq!(
        refusal(plan(" file:///etc/hosts ", None)),
        "unsupported URL scheme `file`; use http or https"
    );
    assert_eq!(
        refusal(plan("https://example.com", Some(0))),
        "max_bytes must be greater than zero"
    );
    let accepted = plan("  HTTPS://Example.COM  ", Some(99_999)).expect("a plan");
    assert_eq!(
        accepted,
        FetchPlan {
            requested: "HTTPS://Example.COM".to_string(),
            url: ParsedUrl {
                text: "https://example.com/".to_string(),
                scheme: "https".to_string(),
                path: "/".to_string(),
            },
            max_bytes: 50_000,
        }
    );
    assert_eq!(
        plan("https://example.com", None).map(|plan| plan.max_bytes),
        Ok(20_000)
    );
    assert_eq!(
        refusal(plan_fetch_of(
            &WebFetchArgs {
                url: "x".to_string(),
                max_bytes: None,
            },
            Err("no".to_string())
        )),
        "no"
    );
}

#[test]
fn pages_are_shown_by_their_content_type() {
    let plan = plan("https://example.com/a", Some(5)).expect("a plan");
    assert_eq!(
        page(&plan, None, "<b>raw</b>"),
        "URL: https://example.com/a\nStatus: 200 OK\nContent-Type: unknown\n\n<b>ra\n[truncated]"
    );
    assert_eq!(
        page(&plan, Some("application/XHTML+xml"), "<p>a&lt;b</p><img src=c.png>"),
        "URL: https://example.com/a\nStatus: 200 OK\nContent-Type: application/XHTML+xml\n\na<b\n\nImages on page:\n- https://example.com/c.png"
    );
    assert_eq!(
        page(&plan, Some("text/html"), "<img src=c.png>"),
        "URL: https://example.com/a\nStatus: 200 OK\nContent-Type: text/html\n\nImages on page:\n- https://example.com/c.png"
    );
}

#[test]
fn tags_are_stripped_and_entities_read() {
    assert_eq!(html_to_text("a<b>c</b>d > e"), "a c d e");
    assert_eq!(html_to_text("x &nbsp; y&quot;z&#39;"), "x y\"z'");
    assert_eq!(decode_basic_html_entities("&amp;lt;"), "<");
    assert_eq!(decode_basic_html_entities("&lt;&gt;&"), "<>&");
    assert_eq!(normalize_whitespace(" a \n\t b\u{2003}c "), "a b c");
    assert_eq!(normalize_whitespace(" \n "), "");
}

#[test]
fn the_source_of_a_tag_is_read() {
    for (tag, expected) in [
        ("<img src=\"a.png\"", Some("a.png")),
        ("<img SRC='a b.png'", Some("a b.png")),
        ("<img alt=x src=a.png", Some("a.png")),
        ("<img alt src=a.png/", Some("a.png/")),
        ("<img src = \" a&amp;b \"", Some("a&b")),
        ("<img data-src=a.png", None),
        ("<img =x src=a.png", None),
        ("<img src=\"a.png", Some("a.png")),
        ("<img src=", Some("")),
        ("<img", None),
        ("<im", None),
        ("", None),
        ("<img alt=\"é\" src=ü.png", Some("ü.png")),
        ("ééalt=1 src=a", Some("a")),
    ] {
        assert_eq!(
            extract_src_attr(tag),
            expected.map(str::to_string),
            "{tag}"
        );
    }
}

#[test]
fn the_name_of_an_image_tag_ends_at_a_boundary() {
    let chars: Vec<char> = "<img/ x>\u{b}".chars().collect();
    assert!(is_img_tag_boundary(&chars, 4));
    assert!(is_img_tag_boundary(&chars, 5));
    assert!(!is_img_tag_boundary(&chars, 6));
    assert!(is_img_tag_boundary(&chars, 7));
    assert!(!is_img_tag_boundary(&chars, 8));
    assert!(is_img_tag_boundary(&chars, 9));
    assert_eq!(
        extract_image_urls("<image src=a.png><img\tsrc=b.png", "https://x.test/"),
        vec!["https://x.test/b.png".to_string()]
    );
    assert_eq!(
        extract_image_urls("<img src='data:image/png;base64,AA'>", "https://x.test/"),
        Vec::<String>::new()
    );
    assert_eq!(
        extract_image_urls("<img src=a.png>", "not a url"),
        Vec::<String>::new()
    );
}

#[test]
fn an_image_is_kept_once() {
    let url = |text: &str, scheme: &str| {
        Some(ParsedUrl {
            text: text.to_string(),
            scheme: scheme.to_string(),
            path: "/".to_string(),
        })
    };
    let mut urls = Vec::new();
    keep_image_url(&mut urls, url("https://x.test/", "https"));
    keep_image_url(&mut urls, url("https://x.test/", "https"));
    keep_image_url(&mut urls, url("ftp://x.test/", "ftp"));
    keep_image_url(&mut urls, None);
    assert_eq!(urls, vec!["https://x.test/".to_string()]);
}

#[test]
fn images_are_listed_behind_the_body() {
    assert_eq!(append_image_urls("body".to_string(), vec![]), "body");
    assert_eq!(
        append_image_urls("body".to_string(), vec!["u".to_string(), "v".to_string()]),
        "body\n\nImages on page:\n- u\n- v"
    );
    assert_eq!(
        append_image_urls(String::new(), vec!["u".to_string()]),
        "Images on page:\n- u"
    );
}

#[test]
fn the_fetch_tool_requires_a_url_only() {
    let tool = web_fetch_spec();
    assert_eq!(tool.name, "web_fetch");
    assert_eq!(tool.parameters.required, vec!["url".to_string()]);
    assert_eq!(tool.parameters.properties.len(), 2);
    assert_eq!(tool.output_schema, None);
}
