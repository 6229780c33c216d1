use gemini_orchestration::protocol::FunctionCallError;
use gemini_orchestration::tool_spec::{ToolPayload, ValueKind};
use gemini_orchestration::view_image_url::{
    check_image_head, check_image_response, create_view_image_url_tool, image_read_failed,
    image_request_failed, is_supported_image_content_type, plan_view_image,
    read_response_bytes_limited, unprocessable_image, view_image_arguments, ImageResponseHead,
    ViewImageEvent, ViewImageStage, MAX_REMOTE_IMAGE_BYTES,
    VIEW_IMAGE_URL_TOOL_NAME, VIEW_IMAGE_URL_UNSUPPORTED_MESSAGE,
};
use gemini_orchestration::web_url::{path_hint_for_url, split_text, ParsedUrl};

fn refusal<T: std::fmt::Debug>(result: Result<T, FunctionCallError>) -> String {
    let FunctionCallError::RespondToModel(message) =
        result.expect_err("the call should be refused");
    message
}

fn url(text: &str) -> ParsedUrl {
    plan_view_image(text).expect("the URL should be accepted")
}

fn head(status: u16, content_type: Option<&str>, length: Option<&str>) -> ImageResponseHead {
    ImageResponseHead {
        status,
        content_type: content_type.map(str::to_string),
        content_length: length.map(str::to_string),
    }
}

#[test]
fn spec_exposes_required_url() {
    let tool = create_view_image_url_tool();

    assert_eq!(tool.name, VIEW_IMAGE_URL_TOOL_NAME);
    assert_eq!(tool.parameters.required, vec!["url".to_string()]);
    assert!(tool
        .parameters
        .properties
        .iter()
        .any(|property| property.name == "url"));
    assert_eq!(tool.parameters.additional_properties, Some(false));
    let output = tool.output_schema.expect("the tool says what it gives");
    assert_eq!(
        output.required,
        vec!["image_url".to_string(), "detail".to_string()]
    );
    assert_eq!(
        output.properties[0].kind,
        ValueKind::Choice(vec!["high".to_string()])
    );
}

#[test]
fn rejects_unsupported_image_modality() {
    let payload = || ToolPayload::Function {
        arguments: "{\"url\":\"https://example.com/chart.png\"}".to_string(),
    };
    assert_eq!(
        refusal(view_image_arguments(false, payload())),
        VIEW_IMAGE_URL_UNSUPPORTED_MESSAGE
    );
    assert!(view_image_arguments(true, payload()).is_ok());
    assert!(payload().is_function());
    assert_eq!(
        refusal(view_image_arguments(true, ToolPayload::Other)),
        "view_image_url handler received unsupported payload"
    );
}

#[test]
fn rejects_invalid_and_non_http_urls() {
    for (url, expected) in [
        ("not a url", "url must be a valid URL:"),
        (
            "file:///tmp/chart.png",
            "unsupported URL scheme `file`; use http or https",
        ),
    ] {
        let message = refusal(plan_view_image(url));
        assert!(
            message.starts_with(expected),
            "expected {expected:?}, got {message:?}"
        );
    }
}

#[test]
fn rejects_non_image_content_type() {
    let message = refusal(check_image_response(
        &url("http://127.0.0.1/page"),
        &head(200, Some("text/plain"), None),
    ));
    assert!(
        message.contains("expected an image response"),
        "unexpected message: {message}"
    );
    assert_eq!(
        refusal(check_image_response(
            &url("http://127.0.0.1/page"),
            &head(200, None, None)
        )),
        "view_image_url expected an image response, got Content-Type `unknown`"
    );
}

#[test]
fn rejects_oversized_content_length() {
    let message = refusal(check_image_response(
        &url("http://127.0.0.1/image.png"),
        &head(
            200,
            Some("image/png"),
            Some(&(MAX_REMOTE_IMAGE_BYTES + 1).to_string()),
        ),
    ));
    assert!(
        message.contains("exceeds the 10485760 byte limit"),
        "unexpected message: {message}"
    );
    assert_eq!(
        message,
        "view_image_url image is too large: 10485761 bytes exceeds the 10485760 byte limit"
    );
    for length in [None, Some("10485760"), Some("many"), Some("-1")] {
        assert_eq!(
            check_image_response(
                &url("http://127.0.0.1/image.png"),
                &head(200, Some("image/png"), length)
            ),
            Ok(())
        );
    }
}

#[test]
fn rejects_failed_status() {
    assert_eq!(
        refusal(check_image_response(
            &url("http://127.0.0.1/image.png"),
            &head(404, Some("image/png"), None)
        )),
        "view_image_url request failed for http://127.0.0.1/image.png with status 404 Not Found"
    );
}

#[test]
fn rejects_stream_that_exceeds_byte_cap() {
    let mut body = vec![1, 2, 3];
    assert_eq!(
        read_response_bytes_limited(&mut body, &vec![4, 5], 5),
        Ok(())
    );
    assert_eq!(body, vec![1, 2, 3, 4, 5]);
    assert_eq!(
        refusal(read_response_bytes_limited(&mut body, &vec![6], 5)),
        "view_image_url image is too large: response exceeds the 5 byte limit"
    );
    assert_eq!(body.len(), 5);
}

#[test]
fn image_types_are_read_without_parameters_and_case() {
    for content_type in [
        "image/png",
        "IMAGE/JPEG; charset=binary",
        " image/gif ;q=1",
        "image/webp;",
    ] {
        assert!(is_supported_image_content_type(content_type), "{content_type}");
    }
    for content_type in ["", "image/svg+xml", "text/html; image/png", "image"] {
        assert!(!is_supported_image_content_type(content_type), "{content_type}");
    }
}

#[test]
fn the_path_ends_with_a_file_name() {
    for (text, expected) in [
        ("https://example.com/a/b/chart.png?x=1", "chart.png"),
        ("https://example.com/a/b//", "b"),
        ("https://example.com", "remote-image"),
        ("https://example.com/vi%E1%BB%87t nam", "vi%E1%BB%87t%20nam"),
    ] {
        assert_eq!(path_hint_for_url(&url(text)), expected);
    }
    assert_eq!(
        path_hint_for_url(&ParsedUrl {
            text: "data:x".to_string(),
            scheme: "data".to_string(),
            path: "x".to_string(),
        }),
        "remote-image"
    );
    assert_eq!(
        split_text("a//b", '/'),
        vec!["a".to_string(), String::new(), "b".to_string()]
    );
    assert_eq!(split_text("", '/'), vec![String::new()]);
}

#[test]
fn image_failures_are_worded() {
    let FunctionCallError::RespondToModel(message) =
        unprocessable_image(&url("https://x.test/a.png"), "bad data");
    assert_eq!(
        message,
        "unable to process image from `https://x.test/a.png`: bad data"
    );
    let FunctionCallError::RespondToModel(message) = image_request_failed("dns");
    assert_eq!(message, "view_image_url request failed: dns");
    let FunctionCallError::RespondToModel(message) = image_read_failed("eof");
    assert_eq!(message, "view_image_url response read failed: eof");
}

#[test]
fn fetches_remote_image_as_input_image_content_item() {
    let loading = ViewImageStage::start(" https://x.test/charts/chart.png ")
        .next(ViewImageEvent::Head(head(200, Some("image/png"), Some("5"))))
        .next(ViewImageEvent::Chunk(vec![1, 2, 3]))
        .next(ViewImageEvent::Chunk(vec![4, 5]))
        .next(ViewImageEvent::BodyEnded);
    assert_eq!(
        loading,
        ViewImageStage::Load {
            url: url("https://x.test/charts/chart.png"),
            path_hint: "chart.png".to_string(),
            body: vec![1, 2, 3, 4, 5],
        }
    );
    let data_url = "data:image/png;base64,AQIDBAU=";
    assert_eq!(
        loading.next(ViewImageEvent::Loaded(data_url.to_string())),
        ViewImageStage::Show {
            image_url: data_url.to_string(),
        }
    );
}

#[test]
fn an_image_is_refused_wherever_it_fails() {
    let refused = |stage: ViewImageStage| match stage {
        ViewImageStage::Refused {
            error: FunctionCallError::RespondToModel(message),
        } => message,
        other => panic!("expected a refusal, got {other:?}"),
    };
    let started = || ViewImageStage::start("https://x.test/a.png");
    let reading = || started().next(ViewImageEvent::Head(head(200, Some("image/gif"), None)));

    assert_eq!(
        refused(ViewImageStage::start("file:///a.png")),
        "unsupported URL scheme `file`; use http or https"
    );
    assert_eq!(
        refused(started().next(ViewImageEvent::RequestFailed("dns".to_string()))),
        "view_image_url request failed: dns"
    );
    assert_eq!(
        refused(started().next(ViewImageEvent::Head(head(404, None, None)))),
        "view_image_url request failed for https://x.test/a.png with status 404 Not Found"
    );
    assert_eq!(
        refused(reading().next(ViewImageEvent::ReadFailed("eof".to_string()))),
        "view_image_url response read failed: eof"
    );
    assert_eq!(
        refused(reading().next(ViewImageEvent::Chunk(vec![0; MAX_REMOTE_IMAGE_BYTES + 1]))),
        "view_image_url image is too large: response exceeds the 10485760 byte limit"
    );
    assert_eq!(
        refused(
            reading()
                .next(ViewImageEvent::BodyEnded)
                .next(ViewImageEvent::LoadFailed("bad data".to_string()))
        ),
        "unable to process image from `https://x.test/a.png`: bad data"
    );
    assert_eq!(
        refusal(check_image_head(&url("https://x.test/a.png"), &head(503, None, None), "503 Busy")),
        "view_image_url request failed for https://x.test/a.png with status 503 Busy"
    );
}
