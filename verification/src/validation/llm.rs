//! The content check: what is sent to the vision model, how often, and how
//! its answer is read. Sending is left to the caller.

use crate::text::{
    find_last, has_prefix, join, last_position, lemma_last_position, same_text, slice,
    starts_with, text_of,
};
use std::path::Path;
use vstd::prelude::*;

verus! {

/// Why the content check could not be made.
#[derive(Debug)]
pub enum LlmError {
    Http(String),
    Io(String),
    Json(String),
    Api(String),
    InvalidImage(String),
    Timeout,
    MaxRetriesExceeded,
}

/// An `LlmError` as mathematical data.
pub enum LlmErrorView {
    Http(Seq<char>),
    Io(Seq<char>),
    Json(Seq<char>),
    Api(Seq<char>),
    InvalidImage(Seq<char>),
    Timeout,
    MaxRetriesExceeded,
}

impl View for LlmError {
    type V = LlmErrorView;

    open spec fn view(&self) -> LlmErrorView {
        match self {
            LlmError::Http(s) => LlmErrorView::Http(s@),
            LlmError::Io(s) => LlmErrorView::Io(s@),
            LlmError::Json(s) => LlmErrorView::Json(s@),
            LlmError::Api(s) => LlmErrorView::Api(s@),
            LlmError::InvalidImage(s) => LlmErrorView::InvalidImage(s@),
            LlmError::Timeout => LlmErrorView::Timeout,
            LlmError::MaxRetriesExceeded => LlmErrorView::MaxRetriesExceeded,
        }
    }
}

impl LlmErrorView {
    /// The message of the error.
    pub open spec fn message(self) -> Seq<char> {
        match self {
            LlmErrorView::Http(s) => "HTTP request error: "@ + s,
            LlmErrorView::Io(s) => "IO error reading image: "@ + s,
            LlmErrorView::Json(s) => "JSON parsing error: "@ + s,
            LlmErrorView::Api(s) => "API error: "@ + s,
            LlmErrorView::InvalidImage(s) => "Invalid image format: "@ + s,
            LlmErrorView::Timeout => "Timeout error"@,
            LlmErrorView::MaxRetriesExceeded => "Maximum retries exceeded"@,
        }
    }
}

impl LlmError {
    /// The message of the error.
    pub fn to_string(&self) -> (text: String)
        ensures
            text@ == self@.message(),
    {
        match self {
            LlmError::Http(s) => join("HTTP request error: ", s.as_str()),
            LlmError::Io(s) => join("IO error reading image: ", s.as_str()),
            LlmError::Json(s) => join("JSON parsing error: ", s.as_str()),
            LlmError::Api(s) => join("API error: ", s.as_str()),
            LlmError::InvalidImage(s) => join("Invalid image format: ", s.as_str()),
            LlmError::Timeout => "Timeout error".to_owned(),
            LlmError::MaxRetriesExceeded => "Maximum retries exceeded".to_owned(),
        }
    }
}

/// The file name that `std::path::Path::file_name` finds in a path.
pub uninterp spec fn file_name_of(path: Seq<char>) -> Option<Seq<char>>;

/// The text that `str::to_lowercase` makes of a text.
pub uninterp spec fn lowercased(text: Seq<char>) -> Seq<char>;

/// The text that `str::to_uppercase` makes of a text.
pub uninterp spec fn uppercased(text: Seq<char>) -> Seq<char>;

/// The text that `str::trim` leaves of a text.
pub uninterp spec fn trimmed(text: Seq<char>) -> Seq<char>;

/// The text that the standard base64 engine, with padding, makes of bytes.
pub uninterp spec fn base64_text(bytes: Seq<u8>) -> Seq<char>;

/// Calls `std::path::Path::file_name` on the path. Trusted: the result is a
/// function of the path's text alone, named `file_name_of`.
#[verifier::external_body]
fn path_file_name(path: &str) -> (res: Option<String>)
    ensures
        text_of(res) == file_name_of(path@),
{
    let name = Path::new(path).file_name()?;
    Some(name.to_str()?.to_owned())
}

/// The extension of a file name: what follows its last point, unless the
/// name has no point or only the one it begins with.
pub open spec fn extension_in(name: Seq<char>) -> Option<Seq<char>> {
    match last_position(name, '.') {
        Some(at) => if at == 0 {
            None
        } else {
            Some(name.subrange(at + 1, name.len() as int))
        },
        None => None,
    }
}

/// The extension that a path carries: that of its file name, if it has one.
pub open spec fn extension_of(path: Seq<char>) -> Option<Seq<char>> {
    match file_name_of(path) {
        Some(name) => extension_in(name),
        None => None,
    }
}

/// Reads the extension off a file name.
pub fn file_extension(name: &str) -> (res: Option<String>)
    ensures
        text_of(res) == extension_in(name@),
{
    let n = name.unicode_len();
    match find_last(name, '.') {
        Some(at) => {
            proof {
                lemma_last_position(name@, '.');
            }
            if at == 0 {
                None
            } else {
                Some(slice(name, at + 1, n))
            }
        },
        None => None,
    }
}

/// Calls `str::to_lowercase`. Trusted: the result is a function of the text
/// alone, named `lowercased`.
#[verifier::external_body]
fn to_lowercase(text: &str) -> (res: String)
    ensures
        res@ == lowercased(text@),
{
    text.to_lowercase()
}

/// Calls `str::to_uppercase`. Trusted: the result is a function of the text
/// alone, named `uppercased`.
#[verifier::external_body]
fn to_uppercase(text: &str) -> (res: String)
    ensures
        res@ == uppercased(text@),
{
    text.to_uppercase()
}

/// Calls `str::trim`. Trusted: the result is a function of the text alone,
/// named `trimmed`.
#[verifier::external_body]
fn trim(text: &str) -> (res: String)
    ensures
        res@ == trimmed(text@),
{
    text.trim().to_owned()
}

/// Calls `base64::Engine::encode` on the engine
/// `base64::engine::general_purpose::STANDARD`. Trusted: the text is a
/// function of the bytes alone, named `base64_text`. The call panics where
/// the length of the text does not fit a `usize`; such inputs are left out.
#[verifier::external_body]
fn encode_standard(bytes: &[u8]) -> (res: String)
    requires
        (bytes@.len() / 3 + 1) * 4 <= usize::MAX,
    ensures
        res@ == base64_text(bytes@),
{
    base64::Engine::encode(&base64::engine::general_purpose::STANDARD, bytes)
}

/// The kinds of image that the model is given.
#[derive(Clone, Copy, Debug, PartialEq, Eq, Structural)]
pub enum ImageKind {
    Jpeg,
    Png,
    Gif,
    Bmp,
    Webp,
}

/// The kind of image that a lower-case extension stands for.
pub open spec fn kind_of_extension(extension: Seq<char>) -> Option<ImageKind> {
    if extension == "jpg"@ || extension == "jpeg"@ {
        Some(ImageKind::Jpeg)
    } else if extension == "png"@ {
        Some(ImageKind::Png)
    } else if extension == "gif"@ {
        Some(ImageKind::Gif)
    } else if extension == "bmp"@ {
        Some(ImageKind::Bmp)
    } else if extension == "webp"@ {
        Some(ImageKind::Webp)
    } else {
        None
    }
}

/// Whether the bytes begin as a file of the kind does: JPEG with FF D8 FF,
/// PNG with 89 50 4E 47 0D 0A 1A 0A, GIF with `GIF87a` or `GIF89a`, BMP with
/// `BM`; WebP carries `WEBP` from the ninth byte on.
pub open spec fn has_signature(kind: ImageKind, bytes: Seq<u8>) -> bool {
    match kind {
        ImageKind::Jpeg => bytes.len() >= 3 && bytes[0] == 0xFF && bytes[1] == 0xD8 && bytes[2]
            == 0xFF,
        ImageKind::Png => bytes.len() >= 8 && bytes[0] == 0x89 && bytes[1] == 0x50 && bytes[2]
            == 0x4E && bytes[3] == 0x47 && bytes[4] == 0x0D && bytes[5] == 0x0A && bytes[6] == 0x1A
            && bytes[7] == 0x0A,
        ImageKind::Gif => bytes.len() >= 6 && bytes[0] == 0x47 && bytes[1] == 0x49 && bytes[2]
            == 0x46 && bytes[3] == 0x38 && (bytes[4] == 0x37 || bytes[4] == 0x39) && bytes[5]
            == 0x61,
        ImageKind::Bmp => bytes.len() >= 2 && bytes[0] == 0x42 && bytes[1] == 0x4D,
        ImageKind::Webp => bytes.len() >= 12 && bytes[8] == 0x57 && bytes[9] == 0x45 && bytes[10]
            == 0x42 && bytes[11] == 0x50,
    }
}

/// What the format check says of a file with the given lower-case extension
/// and content: the extension must be a supported one, the file at least
/// eight bytes long, and the bytes must carry the signature of the kind.
pub open spec fn format_verdict(extension: Seq<char>, bytes: Seq<u8>) -> Result<(), LlmErrorView> {
    match kind_of_extension(extension) {
        None => Err(LlmErrorView::InvalidImage("Unsupported image extension: "@ + extension)),
        Some(kind) => if bytes.len() < 8 {
            Err(LlmErrorView::InvalidImage("Image file too small"@))
        } else if !has_signature(kind, bytes) {
            Err(LlmErrorView::InvalidImage("Invalid "@ + extension + " file format"@))
        } else {
            Ok(())
        },
    }
}

/// The media type of each kind of image.
pub open spec fn media_type(kind: ImageKind) -> Seq<char> {
    match kind {
        ImageKind::Jpeg => "image/jpeg"@,
        ImageKind::Png => "image/png"@,
        ImageKind::Gif => "image/gif"@,
        ImageKind::Bmp => "image/bmp"@,
        ImageKind::Webp => "image/webp"@,
    }
}

/// The extension by which the kind of an image file is told: the one that
/// the path carries, in lower case; empty where the path carries none.
pub open spec fn image_extension_of(path: Seq<char>) -> Seq<char> {
    match extension_of(path) {
        Some(ext) => lowercased(ext),
        None => lowercased(""@),
    }
}

/// Reads the kind of image off a lower-case extension.
pub fn image_kind(extension: &str) -> (res: Option<ImageKind>)
    ensures
        res == kind_of_extension(extension@),
{
    if same_text(extension, "jpg") || same_text(extension, "jpeg") {
        Some(ImageKind::Jpeg)
    } else if same_text(extension, "png") {
        Some(ImageKind::Png)
    } else if same_text(extension, "gif") {
        Some(ImageKind::Gif)
    } else if same_text(extension, "bmp") {
        Some(ImageKind::Bmp)
    } else if same_text(extension, "webp") {
        Some(ImageKind::Webp)
    } else {
        None
    }
}

/// Tests whether the bytes carry the signature of the kind.
pub fn check_signature(kind: ImageKind, bytes: &[u8]) -> (found: bool)
    ensures
        found == has_signature(kind, bytes@),
{
    let n = bytes.len();
    match kind {
        ImageKind::Jpeg => n >= 3 && bytes[0] == 0xFF && bytes[1] == 0xD8 && bytes[2] == 0xFF,
        ImageKind::Png => n >= 8 && bytes[0] == 0x89 && bytes[1] == 0x50 && bytes[2] == 0x4E
            && bytes[3] == 0x47 && bytes[4] == 0x0D && bytes[5] == 0x0A && bytes[6] == 0x1A
            && bytes[7] == 0x0A,
        ImageKind::Gif => n >= 6 && bytes[0] == 0x47 && bytes[1] == 0x49 && bytes[2] == 0x46
            && bytes[3] == 0x38 && (bytes[4] == 0x37 || bytes[4] == 0x39) && bytes[5] == 0x61,
        ImageKind::Bmp => n >= 2 && bytes[0] == 0x42 && bytes[1] == 0x4D,
        ImageKind::Webp => n >= 12 && bytes[8] == 0x57 && bytes[9] == 0x45 && bytes[10] == 0x42
            && bytes[11] == 0x50,
    }
}

/// Checks a file by its lower-case extension and its content.
pub fn check_image_format(extension: &str, bytes: &[u8]) -> (res: Result<(), LlmError>)
    ensures
        match res {
            Ok(_) => format_verdict(extension@, bytes@) is Ok,
            Err(e) => format_verdict(extension@, bytes@) == Err::<(), LlmErrorView>(e@),
        },
{
    match image_kind(extension) {
        None => Err(LlmError::InvalidImage(join("Unsupported image extension: ", extension))),
        Some(kind) => {
            if bytes.len() < 8 {
                return Err(LlmError::InvalidImage("Image file too small".to_owned()));
            }
            if !check_signature(kind, bytes) {
                let mut message = join("Invalid ", extension);
                message.append(" file format");
                return Err(LlmError::InvalidImage(message));
            }
            Ok(())
        },
    }
}

/// The media type for a lower-case extension.
pub fn mime_type_for(extension: &str) -> (res: Result<String, LlmError>)
    ensures
        match res {
            Ok(name) => kind_of_extension(extension@) is Some && name@ == media_type(
                kind_of_extension(extension@)->0,
            ),
            Err(e) => kind_of_extension(extension@) is None && e@ == LlmErrorView::InvalidImage(
                "Unknown MIME type for extension: "@ + extension@,
            ),
        },
{
    match image_kind(extension) {
        Some(ImageKind::Jpeg) => Ok("image/jpeg".to_owned()),
        Some(ImageKind::Png) => Ok("image/png".to_owned()),
        Some(ImageKind::Gif) => Ok("image/gif".to_owned()),
        Some(ImageKind::Bmp) => Ok("image/bmp".to_owned()),
        Some(ImageKind::Webp) => Ok("image/webp".to_owned()),
        None => Err(LlmError::InvalidImage(join("Unknown MIME type for extension: ", extension))),
    }
}

/// The extension by which the kind of an image file is told.
pub fn image_extension(path: &str) -> (extension: String)
    ensures
        extension@ == image_extension_of(path@),
{
    let extension = match path_file_name(path) {
        Some(name) => file_extension(name.as_str()),
        None => None,
    };
    match extension {
        Some(ext) => to_lowercase(ext.as_str()),
        None => to_lowercase(""),
    }
}

/// The words before the description in the prompt.
pub open spec fn prompt_opening() -> Seq<char> {
    "You are an image validation assistant. Please analyze this image and determine if it matches the following description: \""@
}

/// The words after the description in the prompt.
pub open spec fn prompt_closing() -> Seq<char> {
    "\"\n\nRespond with either:\n- \"ACCEPTED\" if the image clearly matches the description\n- \"REJECTED: [reason]\" if the image does not match, followed by a brief explanation\n\nBe precise and focus on the key elements mentioned in the description. If the description mentions specific objects, locations, or characteristics, verify their presence in the image."@
}

/// The prompt that asks whether an image matches a description.
pub open spec fn prompt_for(description: Seq<char>) -> Seq<char> {
    prompt_opening() + description + prompt_closing()
}

/// Whether an answer of the model accepts the image: trimmed and in upper
/// case, it begins with `ACCEPTED`.
pub open spec fn accepts(response: Seq<char>) -> bool {
    has_prefix(uppercased(trimmed(response)), "ACCEPTED"@)
}

/// Reads the verdict off an answer of the model. Anything but an answer
/// that begins with `ACCEPTED`, in any case and after any blank space, is a
/// rejection.
pub fn validate_image_content(response: &str) -> (accepted: bool)
    ensures
        accepted == accepts(response@),
{
    let stripped = trim(response);
    let upper = to_uppercase(stripped.as_str());
    starts_with(upper.as_str(), "ACCEPTED")
}

/// One message of a request to the model.
#[derive(Clone, Debug)]
pub struct Message {
    pub role: String,
    pub content: String,
    pub images: Option<Vec<String>>,
}

/// The sampling options of a request to the model that are whole numbers.
#[derive(Clone, Copy, Debug)]
pub struct Options {
    pub num_predict: u32,
}

/// The body of a request to the model.
#[derive(Clone, Debug)]
pub struct ChatCompletionRequest {
    pub model: String,
    pub messages: Vec<Message>,
    pub stream: bool,
    pub options: Options,
}

/// Where a call to the model stands between attempts.
#[derive(Clone, Copy, Debug, PartialEq, Eq, Structural)]
pub struct RetryState {
    /// The attempts that have failed.
    pub attempt: u32,
    /// The wait before the next attempt, in milliseconds.
    pub delay_ms: u64,
}

/// What to do after a failed attempt.
#[derive(Clone, Copy, Debug, PartialEq, Eq, Structural)]
pub enum RetryStep {
    /// Wait `delay_ms`, then try again from `next`.
    Wait { delay_ms: u64, next: RetryState },
    /// Give up: the attempts are used up.
    GiveUp,
}

/// The wait doubles from one failure to the next, up to thirty seconds.
pub open spec fn next_delay(delay_ms: u64) -> u64 {
    if delay_ms >= 15000 {
        30000
    } else {
        (2 * delay_ms) as u64
    }
}

/// What follows a failed attempt where `max_retries` attempts are allowed.
pub open spec fn retry_step(max_retries: u32, state: RetryState) -> RetryStep {
    if state.attempt + 1 >= max_retries {
        RetryStep::GiveUp
    } else {
        RetryStep::Wait {
            delay_ms: state.delay_ms,
            next: RetryState {
                attempt: (state.attempt + 1) as u32,
                delay_ms: next_delay(state.delay_ms),
            },
        }
    }
}

/// The settings of the content check.
#[derive(Clone, Debug)]
pub struct LlmClient {
    pub api_url: String,
    pub model_name: String,
    pub timeout_ms: u64,
    pub max_retries: u32,
}

impl LlmClient {
    /// A client for the model at `api_url`, with three attempts per call.
    pub fn new(api_url: String, model_name: String, timeout_ms: u64) -> (res: Self)
        ensures
            res.api_url == api_url,
            res.model_name == model_name,
            res.timeout_ms == timeout_ms,
            res.max_retries == 3,
    {
        LlmClient { api_url, model_name, timeout_ms, max_retries: 3 }
    }

    /// Checks an image file by the extension of its path and by its content,
    /// before anything is sent.
    pub fn validate_image_format(&self, path: &str, bytes: &[u8]) -> (res: Result<(), LlmError>)
        ensures
            match res {
                Ok(_) => format_verdict(image_extension_of(path@), bytes@) is Ok,
                Err(e) => format_verdict(image_extension_of(path@), bytes@) == Err::<
                    (),
                    LlmErrorView,
                >(e@),
            },
    {
        let extension = image_extension(path);
        check_image_format(extension.as_str(), bytes)
    }

    /// The media type of an image file, by the extension of its path.
    pub fn get_mime_type(&self, path: &str) -> (res: Result<String, LlmError>)
        ensures
            match res {
                Ok(name) => kind_of_extension(image_extension_of(path@)) is Some && name@
                    == media_type(kind_of_extension(image_extension_of(path@))->0),
                Err(e) => kind_of_extension(image_extension_of(path@)) is None && e@
                    == LlmErrorView::InvalidImage(
                    "Unknown MIME type for extension: "@ + image_extension_of(path@),
                ),
            },
    {
        let extension = image_extension(path);
        mime_type_for(extension.as_str())
    }

    /// Checks an image file and encodes its content for the model: plain
    /// base64, no data-URI prefix. A file that fails the format check is
    /// refused before anything is sent.
    pub fn read_and_encode_image(&self, path: &str, bytes: &[u8]) -> (res: Result<String, LlmError>)
        ensures
            match res {
                Ok(data) => {
                    &&& format_verdict(image_extension_of(path@), bytes@) is Ok
                    &&& (bytes@.len() / 3 + 1) * 4 <= usize::MAX
                    &&& data@ == base64_text(bytes@)
                },
                Err(e) => match format_verdict(image_extension_of(path@), bytes@) {
                    Err(refusal) => e@ == refusal,
                    Ok(_) => (bytes@.len() / 3 + 1) * 4 > usize::MAX && e@
                        == LlmErrorView::InvalidImage("Image file too large"@),
                },
            },
    {
        match self.validate_image_format(path, bytes) {
            Err(e) => { return Err(e); },
            Ok(_) => {},
        }
        if bytes.len() / 3 >= usize::MAX / 4 {
            return Err(LlmError::InvalidImage("Image file too large".to_owned()));
        }
        Ok(encode_standard(bytes))
    }

    /// The prompt that asks whether an image matches a description.
    pub fn construct_validation_prompt(&self, content_description: &str) -> (prompt: String)
        ensures
            prompt@ == prompt_for(content_description@),
    {
        let mut prompt = join(
            "You are an image validation assistant. Please analyze this image and determine if it matches the following description: \"",
            content_description,
        );
        prompt.append(
            "\"\n\nRespond with either:\n- \"ACCEPTED\" if the image clearly matches the description\n- \"REJECTED: [reason]\" if the image does not match, followed by a brief explanation\n\nBe precise and focus on the key elements mentioned in the description. If the description mentions specific objects, locations, or characteristics, verify their presence in the image.",
        );
        prompt
    }

    /// The body of the request: one message of the user with the prompt and
    /// the encoded image, no streaming, at most 500 tokens in the answer.
    pub fn build_request(&self, prompt: &str, image_data: &str) -> (request: ChatCompletionRequest)
        ensures
            request.model@ == self.model_name@,
            request.messages@.len() == 1,
            request.messages@[0].role@ == "user"@,
            request.messages@[0].content@ == prompt@,
            request.messages@[0].images is Some,
            request.messages@[0].images->0@.len() == 1,
            request.messages@[0].images->0@[0]@ == image_data@,
            !request.stream,
            request.options.num_predict == 500,
    {
        let mut images: Vec<String> = Vec::new();
        images.push(image_data.to_owned());
        let mut messages: Vec<Message> = Vec::new();
        messages.push(
            Message { role: "user".to_owned(), content: prompt.to_owned(), images: Some(images) },
        );
        ChatCompletionRequest {
            model: self.model_name.clone(),
            messages,
            stream: false,
            options: Options { num_predict: 500 },
        }
    }

    /// Where a call stands before its first attempt: nothing has failed,
    /// and the first wait would be one second.
    pub fn first_attempt(&self) -> (state: RetryState)
        ensures
            state == (RetryState { attempt: 0, delay_ms: 1000 }),
    {
        RetryState { attempt: 0, delay_ms: 1000 }
    }

    /// What to do after an attempt has failed, whether in transport or with
    /// a status other than success: give up once the attempts are used up,
    /// else wait and try again, with the wait doubled for the time after.
    pub fn after_failure(&self, state: RetryState) -> (step: RetryStep)
        ensures
            step == retry_step(self.max_retries, state),
    {
        if state.attempt >= self.max_retries || state.attempt + 1 >= self.max_retries {
            return RetryStep::GiveUp;
        }
        let delay_ms = if state.delay_ms >= 15000 {
            30000
        } else {
            2 * state.delay_ms
        };
        RetryStep::Wait {
            delay_ms: state.delay_ms,
            next: RetryState { attempt: state.attempt + 1, delay_ms },
        }
    }

    /// Reads what came back from the model: under a status of success, the
    /// text is the answer and is given trimmed; under any other status, the
    /// text is the body of an error of the service.
    pub fn interpret_reply(&self, code: u16, status: &str, text: &str) -> (res: Result<
        String,
        LlmError,
    >)
        ensures
            match res {
                Ok(answer) => 200 <= code < 300 && answer@ == trimmed(text@),
                Err(e) => !(200 <= code < 300) && e@ == LlmErrorView::Api(
                    "HTTP "@ + status@ + ": "@ + text@,
                ),
            },
    {
        if 200 <= code && code < 300 {
            Ok(trim(text))
        } else {
            let mut message = join("HTTP ", status);
            message.append(": ");
            message.append(text);
            Err(LlmError::Api(message))
        }
    }
}

/// With three attempts allowed, a call that keeps failing waits one second
/// after the first failure and two after the second, and gives up at the
/// third.
pub proof fn lemma_three_attempts()
    ensures
        ({
            let start = RetryState { attempt: 0, delay_ms: 1000 };
            let second = RetryState { attempt: 1, delay_ms: 2000 };
            let third = RetryState { attempt: 2, delay_ms: 4000 };
            &&& retry_step(3, start) == (RetryStep::Wait { delay_ms: 1000, next: second })
            &&& retry_step(3, second) == (RetryStep::Wait { delay_ms: 2000, next: third })
            &&& retry_step(3, third) == RetryStep::GiveUp
        }),
{
}

/// The wait never exceeds thirty seconds once it is within them.
pub proof fn lemma_delay_is_capped(delay_ms: u64)
    requires
        delay_ms <= 30000,
    ensures
        next_delay(delay_ms) <= 30000,
        delay_ms <= next_delay(delay_ms),
{
}

} // verus!
