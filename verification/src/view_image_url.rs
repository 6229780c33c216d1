//! The tool `view_image_url`: which image is fetched, and what is taken of the answer.

use crate::protocol::FunctionCallError;
use crate::text::{
    chars_of, decimal, decimal_text, find_char, index_of_char, lowered, parse_usize, parsed_usize,
    same_text, string_of, to_lower, trim, trimmed,
};
use crate::tool_spec::{
    and_text, function_arguments, new_property, new_schema, one_text, property, FunctionTool,
    KindView, ObjectSchema, SchemaView, ToolPayload, ToolProperty, ToolView, ValueKind,
};
use crate::web_url::{
    file_name, is_success, path_hint_for_url, status_line, status_text, url_parsed, url_parts,
    url_refusal, web_url, ParsedUrl,
};
use vstd::prelude::*;

verus! {

pub const VIEW_IMAGE_URL_TOOL_NAME: &'static str = "view_image_url";

pub const VIEW_IMAGE_URL_DESCRIPTION: &'static str = "Fetch and view a remote HTTP or HTTPS image when visual inspection is needed.";

pub const VIEW_IMAGE_URL_UNSUPPORTED_MESSAGE: &'static str = "view_image_url is not allowed because you do not support image inputs";

/// The most bytes that an image may take: ten mebibytes.
pub const MAX_REMOTE_IMAGE_BYTES: usize = 10_485_760;

// ---------------------------------------------------------------------------
// Description
// ---------------------------------------------------------------------------

/// What the tool gives: the image, and how closely it is looked at.
pub open spec fn output_schema() -> SchemaView {
    SchemaView {
        properties: seq![
            property(
                "detail"@,
                KindView::Choice(seq!["high"@]),
                "Image detail hint returned by view_image_url."@,
            ),
            property("image_url"@, KindView::Text, "Data URL for the loaded image."@),
        ],
        required: seq!["image_url"@].push("detail"@),
        additional_properties: Some(false),
    }
}

/// The description of the tool: it takes a URL, and nothing else.
pub open spec fn view_image_tool() -> ToolView {
    ToolView {
        name: VIEW_IMAGE_URL_TOOL_NAME@,
        description: VIEW_IMAGE_URL_DESCRIPTION@,
        strict: false,
        parameters: SchemaView {
            properties: seq![
                property("url"@, KindView::Text, "HTTP or HTTPS URL of the image to view."@),
            ],
            required: seq!["url"@],
            additional_properties: Some(false),
        },
        output_schema: Some(output_schema()),
    }
}

/// What the tool gives.
pub fn view_image_url_output_schema() -> (result: ObjectSchema)
    ensures
        result@ == output_schema(),
{
    let mut properties: Vec<ToolProperty> = Vec::new();
    properties.push(
        new_property(
            "detail",
            ValueKind::Choice(one_text("high")),
            "Image detail hint returned by view_image_url.",
        ),
    );
    properties.push(
        new_property("image_url", ValueKind::Text, "Data URL for the loaded image."),
    );
    proof {
        assert(properties@.map_values(|p: ToolProperty| p@) =~= output_schema().properties);
    }
    new_schema(properties, and_text(one_text("image_url"), "detail"), Some(false))
}

/// The description of the tool.
pub fn create_view_image_url_tool() -> (result: FunctionTool)
    ensures
        result@ == view_image_tool(),
{
    let mut properties: Vec<ToolProperty> = Vec::new();
    properties.push(
        new_property("url", ValueKind::Text, "HTTP or HTTPS URL of the image to view."),
    );
    proof {
        assert(properties@.map_values(|p: ToolProperty| p@)
            =~= view_image_tool().parameters.properties);
    }
    FunctionTool {
        name: VIEW_IMAGE_URL_TOOL_NAME.to_owned(),
        description: VIEW_IMAGE_URL_DESCRIPTION.to_owned(),
        strict: false,
        parameters: new_schema(properties, one_text("url"), Some(false)),
        output_schema: Some(view_image_url_output_schema()),
    }
}

// ---------------------------------------------------------------------------
// The request
// ---------------------------------------------------------------------------

/// A call needs a model that takes images.
pub fn check_image_input(supports_images: bool) -> (result: Result<(), FunctionCallError>)
    ensures
        result is Err <==> !supports_images,
        result matches Err(error) ==> error.spec_message() == VIEW_IMAGE_URL_UNSUPPORTED_MESSAGE@,
{
    if supports_images {
        Ok(())
    } else {
        Err(FunctionCallError::RespondToModel(VIEW_IMAGE_URL_UNSUPPORTED_MESSAGE.to_owned()))
    }
}

/// The arguments of a call: a model that takes no images is refused before anything else.
pub fn view_image_arguments(supports_images: bool, payload: ToolPayload) -> (result: Result<
    String,
    FunctionCallError,
>)
    ensures
        match payload {
            ToolPayload::Function { arguments } => if supports_images {
                result == Ok::<String, FunctionCallError>(arguments)
            } else {
                result is Err && result->Err_0.spec_message() == VIEW_IMAGE_URL_UNSUPPORTED_MESSAGE@
            },
            ToolPayload::Other => result is Err && result->Err_0.spec_message()
                == if supports_images {
                VIEW_IMAGE_URL_TOOL_NAME@ + " handler received unsupported payload"@
            } else {
                VIEW_IMAGE_URL_UNSUPPORTED_MESSAGE@
            },
        },
{
    if let Err(error) = check_image_input(supports_images) {
        return Err(error);
    }
    function_arguments(VIEW_IMAGE_URL_TOOL_NAME, payload)
}

/// The URL that a call stands for.
pub fn plan_view_image(url: &str) -> (result: Result<ParsedUrl, FunctionCallError>)
    ensures
        match url_refusal(url_parsed(trimmed(url@))) {
            Some(message) => result is Err && result->Err_0.spec_message() == message,
            None => result is Ok && url_parsed(trimmed(url@)) == Ok::<
                (Seq<char>, Seq<char>, Seq<char>),
                Seq<char>,
            >(url_parts(result->Ok_0)),
        },
{
    match web_url(trim(url).as_str()) {
        Ok(url) => Ok(url),
        Err(message) => Err(FunctionCallError::RespondToModel(message)),
    }
}

// ---------------------------------------------------------------------------
// The answer
// ---------------------------------------------------------------------------

/// The media type of a content type: what stands before the first semicolon, trimmed and in
/// lower case.
pub open spec fn media_type(content_type: Seq<char>) -> Seq<char> {
    lowered(trimmed(content_type.take(index_of_char(content_type, ';') as int)))
}

/// Whether a content type is that of an image that can be shown.
pub open spec fn shows_image(content_type: Seq<char>) -> bool {
    let media = media_type(content_type);
    media == "image/png"@ || media == "image/jpeg"@ || media == "image/gif"@ || media
        == "image/webp"@
}

/// Whether a content type is that of an image that can be shown.
pub fn is_supported_image_content_type(content_type: &str) -> (result: bool)
    ensures
        result == shows_image(content_type@),
{
    let chars = chars_of(content_type);
    let end: usize = find_char(&chars, 0, ';');
    let first = string_of(&chars, 0, end);
    proof {
        assert(chars@.skip(0) =~= chars@);
        assert(first@ =~= content_type@.take(end as int));
    }
    let media = to_lower(trim(first.as_str()).as_str());
    same_text(media.as_str(), "image/png") || same_text(media.as_str(), "image/jpeg")
        || same_text(media.as_str(), "image/gif") || same_text(media.as_str(), "image/webp")
}

/// The head of an answer. The content type and length are given where they can be read.
#[derive(Debug, PartialEq, Eq)]
pub struct ImageResponseHead {
    pub status: u16,
    pub content_type: Option<String>,
    pub content_length: Option<String>,
}

/// The content type of an answer, or a stand-in.
pub open spec fn head_content_type(head: ImageResponseHead) -> Seq<char> {
    match head.content_type {
        Some(text) => text@,
        None => "unknown"@,
    }
}

/// The length that an answer announces, where it can be read as a number.
pub open spec fn announced_length(head: ImageResponseHead) -> Option<usize> {
    match head.content_length {
        Some(text) => parsed_usize(text@),
        None => None,
    }
}

/// Why an answer is refused by its head, as the model is told, given the written form of its
/// status.
pub open spec fn head_refusal(
    url: Seq<char>,
    head: ImageResponseHead,
    written_status: Seq<char>,
) -> Option<Seq<char>> {
    if !(200 <= head.status < 300) {
        Some("view_image_url request failed for "@ + url + " with status "@ + written_status)
    } else if !shows_image(head_content_type(head)) {
        Some(
            "view_image_url expected an image response, got Content-Type `"@ + head_content_type(
                head,
            ) + "`"@,
        )
    } else if announced_length(head) is Some && announced_length(head)->Some_0
        > MAX_REMOTE_IMAGE_BYTES {
        Some(
            "view_image_url image is too large: "@ + decimal(
                announced_length(head)->Some_0 as nat,
            ) + " bytes exceeds the "@ + decimal(MAX_REMOTE_IMAGE_BYTES as nat) + " byte limit"@,
        )
    } else {
        None
    }
}

/// Checks the head of an answer, given the written form of its status.
pub fn check_image_head(url: &ParsedUrl, head: &ImageResponseHead, written_status: &str) -> (result:
    Result<(), FunctionCallError>)
    ensures
        match head_refusal(url.text@, *head, written_status@) {
            Some(message) => result is Err && result->Err_0.spec_message() == message,
            None => result is Ok,
        },
{
    if !is_success(head.status) {
        let mut message = "view_image_url request failed for ".to_owned();
        message.append(url.text.as_str());
        message.append(" with status ");
        message.append(written_status);
        return Err(FunctionCallError::RespondToModel(message));
    }
    let content_type = match &head.content_type {
        Some(text) => text.clone(),
        None => "unknown".to_owned(),
    };
    if !is_supported_image_content_type(content_type.as_str()) {
        let mut message =
            "view_image_url expected an image response, got Content-Type `".to_owned();
        message.append(content_type.as_str());
        message.append("`");
        return Err(FunctionCallError::RespondToModel(message));
    }
    let announced = match &head.content_length {
        Some(text) => parse_usize(text.as_str()),
        None => None,
    };
    if let Some(length) = announced {
        if length > MAX_REMOTE_IMAGE_BYTES {
            let mut message = "view_image_url image is too large: ".to_owned();
            message.append(decimal_text(length as u64).as_str());
            message.append(" bytes exceeds the ");
            message.append(decimal_text(MAX_REMOTE_IMAGE_BYTES as u64).as_str());
            message.append(" byte limit");
            return Err(FunctionCallError::RespondToModel(message));
        }
    }
    Ok(())
}

/// Checks the head of an answer before its body is read.
pub fn check_image_response(url: &ParsedUrl, head: &ImageResponseHead) -> (result: Result<
    (),
    FunctionCallError,
>)
    requires
        100 <= head.status < 1000,
    ensures
        match head_refusal(url.text@, *head, status_line(head.status)) {
            Some(message) => result is Err && result->Err_0.spec_message() == message,
            None => result is Ok,
        },
{
    check_image_head(url, head, status_text(head.status).as_str())
}

/// Takes one more chunk of a body, which holds at most `max_bytes`. A chunk that is too much
/// is refused, and leaves the body as it was.
pub fn read_response_bytes_limited(body: &mut Vec<u8>, chunk: &Vec<u8>, max_bytes: usize) -> (result:
    Result<(), FunctionCallError>)
    ensures
        ({
            let length = old(body)@.len() + chunk@.len();
            if length > usize::MAX {
                &&& result is Err
                &&& result->Err_0.spec_message() == "view_image_url image is too large to read"@
                &&& final(body)@ == old(body)@
            } else if length > max_bytes {
                &&& result is Err
                &&& result->Err_0.spec_message()
                    == "view_image_url image is too large: response exceeds the "@ + decimal(
                    max_bytes as nat,
                ) + " byte limit"@
                &&& final(body)@ == old(body)@
            } else {
                &&& result is Ok
                &&& final(body)@ == old(body)@ + chunk@
            }
        }),
        old(body)@.len() <= max_bytes ==> final(body)@.len() <= max_bytes,
{
    let length: usize = match body.len().checked_add(chunk.len()) {
        Some(length) => length,
        None => {
            return Err(
                FunctionCallError::RespondToModel(
                    "view_image_url image is too large to read".to_owned(),
                ),
            );
        },
    };
    if length > max_bytes {
        let mut message = "view_image_url image is too large: response exceeds the ".to_owned();
        message.append(decimal_text(max_bytes as u64).as_str());
        message.append(" byte limit");
        return Err(FunctionCallError::RespondToModel(message));
    }
    let ghost start = body@;
    let mut i: usize = 0;
    proof {
        assert(start + chunk@.take(0) =~= start);
    }
    while i < chunk.len()
        invariant
            i <= chunk@.len(),
            body@ == start + chunk@.take(i as int),
        decreases chunk.len() - i,
    {
        body.push(chunk[i]);
        proof {
            assert(start + chunk@.take(i + 1) =~= (start + chunk@.take(i as int)).push(
                chunk@[i as int],
            ));
        }
        i = i + 1;
    }
    proof {
        assert(chunk@.take(i as int) =~= chunk@);
    }
    Ok(())
}

/// What the model is told where an image cannot be shown, for the given reason.
pub fn unprocessable_image(url: &ParsedUrl, error: &str) -> (result: FunctionCallError)
    ensures
        result.spec_message() == "unable to process image from `"@ + url.text@ + "`: "@ + error@,
{
    let mut message = "unable to process image from `".to_owned();
    message.append(url.text.as_str());
    message.append("`: ");
    message.append(error);
    FunctionCallError::RespondToModel(message)
}

/// What the model is told where an image cannot be asked for, for the given reason.
pub fn image_request_failed(error: &str) -> (result: FunctionCallError)
    ensures
        result.spec_message() == "view_image_url request failed: "@ + error@,
{
    let mut message = "view_image_url request failed: ".to_owned();
    message.append(error);
    FunctionCallError::RespondToModel(message)
}

/// What the model is told where an image cannot be read, for the given reason.
pub fn image_read_failed(error: &str) -> (result: FunctionCallError)
    ensures
        result.spec_message() == "view_image_url response read failed: "@ + error@,
{
    let mut message = "view_image_url response read failed: ".to_owned();
    message.append(error);
    FunctionCallError::RespondToModel(message)
}

// ---------------------------------------------------------------------------
// The call as a whole
// ---------------------------------------------------------------------------

/// What is to be done next in a call.
#[derive(Debug, PartialEq, Eq)]
pub enum ViewImageStage {
    /// Ask for the image.
    Request { url: ParsedUrl },
    /// Read on in the body.
    Read { url: ParsedUrl, body: Vec<u8> },
    /// Load the image from its bytes, by the hint at its type.
    Load { url: ParsedUrl, path_hint: String, body: Vec<u8> },
    /// Show the image.
    Show { image_url: String },
    /// Refuse the call.
    Refused { error: FunctionCallError },
}

/// What came of a stage.
#[derive(Debug, PartialEq, Eq)]
pub enum ViewImageEvent {
    RequestFailed(String),
    Head(ImageResponseHead),
    Chunk(Vec<u8>),
    ReadFailed(String),
    BodyEnded,
    LoadFailed(String),
    /// The image as a data URL.
    Loaded(String),
}

/// Whether a stage refuses a call with a message.
pub open spec fn refuses(stage: ViewImageStage, message: Seq<char>) -> bool {
    stage matches ViewImageStage::Refused { error } && error.spec_message() == message
}

/// Whether an event leads from one stage to another. An event that cannot come of a stage
/// changes nothing.
pub open spec fn view_image_leads(
    stage: ViewImageStage,
    event: ViewImageEvent,
    after: ViewImageStage,
) -> bool {
    match (stage, event) {
        (ViewImageStage::Request { url }, ViewImageEvent::RequestFailed(error)) => refuses(
            after,
            "view_image_url request failed: "@ + error@,
        ),
        (ViewImageStage::Request { url }, ViewImageEvent::Head(head)) => match head_refusal(
            url.text@,
            head,
            status_line(head.status),
        ) {
            Some(message) => refuses(after, message),
            None => {
                &&& after matches ViewImageStage::Read { url: kept, body }
                &&& kept == url
                &&& body@.len() == 0
            },
        },
        (ViewImageStage::Read { url, body }, ViewImageEvent::ReadFailed(error)) => refuses(
            after,
            "view_image_url response read failed: "@ + error@,
        ),
        (ViewImageStage::Read { url, body }, ViewImageEvent::Chunk(chunk)) => {
            let length = body@.len() + chunk@.len();
            if length > usize::MAX {
                refuses(after, "view_image_url image is too large to read"@)
            } else if length > MAX_REMOTE_IMAGE_BYTES {
                refuses(
                    after,
                    "view_image_url image is too large: response exceeds the "@ + decimal(
                        MAX_REMOTE_IMAGE_BYTES as nat,
                    ) + " byte limit"@,
                )
            } else {
                &&& after matches ViewImageStage::Read { url: kept, body: longer }
                &&& kept == url
                &&& longer@ == body@ + chunk@
            }
        },
        (ViewImageStage::Read { url, body }, ViewImageEvent::BodyEnded) => {
            &&& after matches ViewImageStage::Load { url: kept, path_hint, body: whole }
            &&& kept == url
            &&& path_hint@ == file_name(url.path@)
            &&& whole == body
        },
        (ViewImageStage::Load { url, path_hint, body }, ViewImageEvent::LoadFailed(error)) =>
        refuses(after, "unable to process image from `"@ + url.text@ + "`: "@ + error@),
        (ViewImageStage::Load { url, path_hint, body }, ViewImageEvent::Loaded(image_url)) => after
            == (ViewImageStage::Show { image_url }),
        _ => after == stage,
    }
}

impl ViewImageStage {
    /// The first stage of a call with the given URL.
    pub fn start(url: &str) -> (result: Self)
        ensures
            match url_refusal(url_parsed(trimmed(url@))) {
                Some(message) => refuses(result, message),
                None => result is Request && url_parsed(trimmed(url@)) == Ok::<
                    (Seq<char>, Seq<char>, Seq<char>),
                    Seq<char>,
                >(url_parts(result->Request_url)),
            },
    {
        match plan_view_image(url) {
            Ok(url) => ViewImageStage::Request { url },
            Err(error) => ViewImageStage::Refused { error },
        }
    }

    /// The stage that an event leads to.
    pub fn next(self, event: ViewImageEvent) -> (result: Self)
        requires
            event matches ViewImageEvent::Head(head) ==> 100 <= head.status < 1000,
        ensures
            view_image_leads(self, event, result),
    {
        match (self, event) {
            (ViewImageStage::Request { url: _ }, ViewImageEvent::RequestFailed(error)) =>
            ViewImageStage::Refused { error: image_request_failed(error.as_str()) },
            (ViewImageStage::Request { url }, ViewImageEvent::Head(head)) => {
                match check_image_response(&url, &head) {
                    Ok(_) => ViewImageStage::Read { url, body: Vec::new() },
                    Err(error) => ViewImageStage::Refused { error },
                }
            },
            (ViewImageStage::Read { url: _, body: _ }, ViewImageEvent::ReadFailed(error)) =>
            ViewImageStage::Refused { error: image_read_failed(error.as_str()) },
            (ViewImageStage::Read { url, body }, ViewImageEvent::Chunk(chunk)) => {
                let mut body = body;
                match read_response_bytes_limited(&mut body, &chunk, MAX_REMOTE_IMAGE_BYTES) {
                    Ok(_) => ViewImageStage::Read { url, body },
                    Err(error) => ViewImageStage::Refused { error },
                }
            },
            (ViewImageStage::Read { url, body }, ViewImageEvent::BodyEnded) => {
                let path_hint = path_hint_for_url(&url);
                ViewImageStage::Load { url, path_hint, body }
            },
            (
                ViewImageStage::Load { url, path_hint: _, body: _ },
                ViewImageEvent::LoadFailed(error),
            ) => ViewImageStage::Refused { error: unprocessable_image(&url, error.as_str()) },
            (
                ViewImageStage::Load { url: _, path_hint: _, body: _ },
                ViewImageEvent::Loaded(image_url),
            ) => ViewImageStage::Show { image_url },
            (stage, _) => stage,
        }
    }
}

/// However a body is cut into chunks, no more of it is kept than the limit, and it is loaded
/// only as it was read.
pub proof fn lemma_image_body_is_limited(
    stage: ViewImageStage,
    event: ViewImageEvent,
    after: ViewImageStage,
)
    requires
        view_image_leads(stage, event, after),
        kept_body(stage).len() <= MAX_REMOTE_IMAGE_BYTES,
    ensures
        kept_body(after).len() <= MAX_REMOTE_IMAGE_BYTES,
        after is Load && !(stage is Load) ==> kept_body(after) == kept_body(stage),
{
}

/// The bytes that a stage keeps of a body.
pub open spec fn kept_body(stage: ViewImageStage) -> Seq<u8> {
    match stage {
        ViewImageStage::Read { body, .. } => body@,
        ViewImageStage::Load { body, .. } => body@,
        _ => Seq::empty(),
    }
}

} // verus!
