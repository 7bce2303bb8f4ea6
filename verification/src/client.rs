//! The response dispatcher's decisions and the client-facing error taxonomy.
//!
//! The transport itself (sending requests, reading bodies) lives outside the
//! library; what is decided about a response -- whether a status is a
//! success, and how a non-2xx body is classified into a structured API error
//! or the unexpected-response fallback -- is decided and verified here.

use vstd::prelude::*;

use crate::decode::DecodeError;
use crate::decode::str_eq;
use crate::json::get_str_field;
use crate::json::json_parses;
use crate::json::json_str_field;
use crate::models::ResponseError;
use crate::models::ResponseErrorCode;
use crate::path::dec_spec;
use crate::path::dec_string;

verus! {

/// Everything that can go wrong when talking to the API.
#[derive(Debug, Clone, PartialEq)]
pub enum Error {
    /// A network or connection-level failure, carried through from the
    /// transport as its message.
    Transport(String),
    /// A payload decoded as JSON but did not fit its target shape, or was not
    /// JSON at all; carries the decode path and the raw text.
    Decode(DecodeError),
    /// A non-2xx response whose body matched the structured error envelope.
    ApiError { status: u16, error: ResponseError },
    /// A non-2xx response whose body did not match the envelope, with the
    /// literal status and body preserved for diagnostics.
    UnexpectedResponse { status: u16, body: String },
    /// The byte source closed while a partial frame was still buffered.
    Truncated,
}

/// The wire name of each error code, as the envelope's `code` field holds it.
pub open spec fn code_wire_spec(c: ResponseErrorCode) -> Seq<char> {
    match c {
        ResponseErrorCode::ServerError => "server_error"@,
        ResponseErrorCode::RateLimitExceeded => "rate_limit_exceeded"@,
        ResponseErrorCode::InvalidPrompt => "invalid_prompt"@,
        ResponseErrorCode::VectorStoreTimeout => "vector_store_timeout"@,
        ResponseErrorCode::InvalidImage => "invalid_image"@,
        ResponseErrorCode::InvalidImageFormat => "invalid_image_format"@,
        ResponseErrorCode::InvalidBase64Image => "invalid_base64_image"@,
        ResponseErrorCode::InvalidImageUrl => "invalid_image_url"@,
        ResponseErrorCode::ImageTooLarge => "image_too_large"@,
        ResponseErrorCode::ImageTooSmall => "image_too_small"@,
        ResponseErrorCode::ImageParseError => "image_parse_error"@,
        ResponseErrorCode::ImageContentPolicyViolation => "image_content_policy_violation"@,
        ResponseErrorCode::InvalidImageMode => "invalid_image_mode"@,
        ResponseErrorCode::ImageFileTooLarge => "image_file_too_large"@,
        ResponseErrorCode::UnsupportedImageMediaType => "unsupported_image_media_type"@,
        ResponseErrorCode::EmptyImageFile => "empty_image_file"@,
        ResponseErrorCode::FailedToDownloadImage => "failed_to_download_image"@,
        ResponseErrorCode::ImageFileNotFound => "image_file_not_found"@,
    }
}

/// Which error code a wire string names, if any.
pub open spec fn parse_code_spec(s: Seq<char>) -> Option<ResponseErrorCode> {
    if s == "server_error"@ {
        Some(ResponseErrorCode::ServerError)
    } else if s == "rate_limit_exceeded"@ {
        Some(ResponseErrorCode::RateLimitExceeded)
    } else if s == "invalid_prompt"@ {
        Some(ResponseErrorCode::InvalidPrompt)
    } else if s == "vector_store_timeout"@ {
        Some(ResponseErrorCode::VectorStoreTimeout)
    } else if s == "invalid_image"@ {
        Some(ResponseErrorCode::InvalidImage)
    } else if s == "invalid_image_format"@ {
        Some(ResponseErrorCode::InvalidImageFormat)
    } else if s == "invalid_base64_image"@ {
        Some(ResponseErrorCode::InvalidBase64Image)
    } else if s == "invalid_image_url"@ {
        Some(ResponseErrorCode::InvalidImageUrl)
    } else if s == "image_too_large"@ {
        Some(ResponseErrorCode::ImageTooLarge)
    } else if s == "image_too_small"@ {
        Some(ResponseErrorCode::ImageTooSmall)
    } else if s == "image_parse_error"@ {
        Some(ResponseErrorCode::ImageParseError)
    } else if s == "image_content_policy_violation"@ {
        Some(ResponseErrorCode::ImageContentPolicyViolation)
    } else if s == "invalid_image_mode"@ {
        Some(ResponseErrorCode::InvalidImageMode)
    } else if s == "image_file_too_large"@ {
        Some(ResponseErrorCode::ImageFileTooLarge)
    } else if s == "unsupported_image_media_type"@ {
        Some(ResponseErrorCode::UnsupportedImageMediaType)
    } else if s == "empty_image_file"@ {
        Some(ResponseErrorCode::EmptyImageFile)
    } else if s == "failed_to_download_image"@ {
        Some(ResponseErrorCode::FailedToDownloadImage)
    } else if s == "image_file_not_found"@ {
        Some(ResponseErrorCode::ImageFileNotFound)
    } else {
        None
    }
}

/// Maps a wire string to its error code.
#[verifier::rlimit(60)]
pub fn parse_error_code(s: &str) -> (r: Option<ResponseErrorCode>)
    ensures
        r == parse_code_spec(s@),
{
    if str_eq(s, "server_error") {
        Some(ResponseErrorCode::ServerError)
    } else if str_eq(s, "rate_limit_exceeded") {
        Some(ResponseErrorCode::RateLimitExceeded)
    } else if str_eq(s, "invalid_prompt") {
        Some(ResponseErrorCode::InvalidPrompt)
    } else if str_eq(s, "vector_store_timeout") {
        Some(ResponseErrorCode::VectorStoreTimeout)
    } else if str_eq(s, "invalid_image") {
        Some(ResponseErrorCode::InvalidImage)
    } else if str_eq(s, "invalid_image_format") {
        Some(ResponseErrorCode::InvalidImageFormat)
    } else if str_eq(s, "invalid_base64_image") {
        Some(ResponseErrorCode::InvalidBase64Image)
    } else if str_eq(s, "invalid_image_url") {
        Some(ResponseErrorCode::InvalidImageUrl)
    } else if str_eq(s, "image_too_large") {
        Some(ResponseErrorCode::ImageTooLarge)
    } else if str_eq(s, "image_too_small") {
        Some(ResponseErrorCode::ImageTooSmall)
    } else if str_eq(s, "image_parse_error") {
        Some(ResponseErrorCode::ImageParseError)
    } else if str_eq(s, "image_content_policy_violation") {
        Some(ResponseErrorCode::ImageContentPolicyViolation)
    } else if str_eq(s, "invalid_image_mode") {
        Some(ResponseErrorCode::InvalidImageMode)
    } else if str_eq(s, "image_file_too_large") {
        Some(ResponseErrorCode::ImageFileTooLarge)
    } else if str_eq(s, "unsupported_image_media_type") {
        Some(ResponseErrorCode::UnsupportedImageMediaType)
    } else if str_eq(s, "empty_image_file") {
        Some(ResponseErrorCode::EmptyImageFile)
    } else if str_eq(s, "failed_to_download_image") {
        Some(ResponseErrorCode::FailedToDownloadImage)
    } else if str_eq(s, "image_file_not_found") {
        Some(ResponseErrorCode::ImageFileNotFound)
    } else {
        None
    }
}

/// The wire name of an error code.
pub fn code_wire_str(c: &ResponseErrorCode) -> (r: &'static str)
    ensures
        r@ == code_wire_spec(*c),
{
    match c {
        ResponseErrorCode::ServerError => "server_error",
        ResponseErrorCode::RateLimitExceeded => "rate_limit_exceeded",
        ResponseErrorCode::InvalidPrompt => "invalid_prompt",
        ResponseErrorCode::VectorStoreTimeout => "vector_store_timeout",
        ResponseErrorCode::InvalidImage => "invalid_image",
        ResponseErrorCode::InvalidImageFormat => "invalid_image_format",
        ResponseErrorCode::InvalidBase64Image => "invalid_base64_image",
        ResponseErrorCode::InvalidImageUrl => "invalid_image_url",
        ResponseErrorCode::ImageTooLarge => "image_too_large",
        ResponseErrorCode::ImageTooSmall => "image_too_small",
        ResponseErrorCode::ImageParseError => "image_parse_error",
        ResponseErrorCode::ImageContentPolicyViolation => "image_content_policy_violation",
        ResponseErrorCode::InvalidImageMode => "invalid_image_mode",
        ResponseErrorCode::ImageFileTooLarge => "image_file_too_large",
        ResponseErrorCode::UnsupportedImageMediaType => "unsupported_image_media_type",
        ResponseErrorCode::EmptyImageFile => "empty_image_file",
        ResponseErrorCode::FailedToDownloadImage => "failed_to_download_image",
        ResponseErrorCode::ImageFileNotFound => "image_file_not_found",
    }
}

/// The variant name of each error code, as the original's debug rendering
/// printed it.
pub open spec fn code_debug_spec(c: ResponseErrorCode) -> Seq<char> {
    match c {
        ResponseErrorCode::ServerError => "ServerError"@,
        ResponseErrorCode::RateLimitExceeded => "RateLimitExceeded"@,
        ResponseErrorCode::InvalidPrompt => "InvalidPrompt"@,
        ResponseErrorCode::VectorStoreTimeout => "VectorStoreTimeout"@,
        ResponseErrorCode::InvalidImage => "InvalidImage"@,
        ResponseErrorCode::InvalidImageFormat => "InvalidImageFormat"@,
        ResponseErrorCode::InvalidBase64Image => "InvalidBase64Image"@,
        ResponseErrorCode::InvalidImageUrl => "InvalidImageUrl"@,
        ResponseErrorCode::ImageTooLarge => "ImageTooLarge"@,
        ResponseErrorCode::ImageTooSmall => "ImageTooSmall"@,
        ResponseErrorCode::ImageParseError => "ImageParseError"@,
        ResponseErrorCode::ImageContentPolicyViolation => "ImageContentPolicyViolation"@,
        ResponseErrorCode::InvalidImageMode => "InvalidImageMode"@,
        ResponseErrorCode::ImageFileTooLarge => "ImageFileTooLarge"@,
        ResponseErrorCode::UnsupportedImageMediaType => "UnsupportedImageMediaType"@,
        ResponseErrorCode::EmptyImageFile => "EmptyImageFile"@,
        ResponseErrorCode::FailedToDownloadImage => "FailedToDownloadImage"@,
        ResponseErrorCode::ImageFileNotFound => "ImageFileNotFound"@,
    }
}

/// The variant name of an error code, as its debug rendering prints it.
pub fn code_debug_str(c: &ResponseErrorCode) -> (r: &'static str)
    ensures
        r@ == code_debug_spec(*c),
{
    match c {
        ResponseErrorCode::ServerError => "ServerError",
        ResponseErrorCode::RateLimitExceeded => "RateLimitExceeded",
        ResponseErrorCode::InvalidPrompt => "InvalidPrompt",
        ResponseErrorCode::VectorStoreTimeout => "VectorStoreTimeout",
        ResponseErrorCode::InvalidImage => "InvalidImage",
        ResponseErrorCode::InvalidImageFormat => "InvalidImageFormat",
        ResponseErrorCode::InvalidBase64Image => "InvalidBase64Image",
        ResponseErrorCode::InvalidImageUrl => "InvalidImageUrl",
        ResponseErrorCode::ImageTooLarge => "ImageTooLarge",
        ResponseErrorCode::ImageTooSmall => "ImageTooSmall",
        ResponseErrorCode::ImageParseError => "ImageParseError",
        ResponseErrorCode::ImageContentPolicyViolation => "ImageContentPolicyViolation",
        ResponseErrorCode::InvalidImageMode => "InvalidImageMode",
        ResponseErrorCode::ImageFileTooLarge => "ImageFileTooLarge",
        ResponseErrorCode::UnsupportedImageMediaType => "UnsupportedImageMediaType",
        ResponseErrorCode::EmptyImageFile => "EmptyImageFile",
        ResponseErrorCode::FailedToDownloadImage => "FailedToDownloadImage",
        ResponseErrorCode::ImageFileNotFound => "ImageFileNotFound",
    }
}

/// Whether a status code counts as success, exactly the 2xx range.
pub fn is_success_status(status: u16) -> (r: bool)
    ensures
        r == (200 <= status < 300),
{
    200 <= status && status < 300
}

/// Builds the structured error envelope from its extracted fields: it exists
/// exactly when the `code` field names a known error code and the `message`
/// field is a string.
pub fn response_error_from_fields(code: Option<String>, message: Option<String>) -> (r: Option<
    ResponseError,
>)
    ensures
        r is Some <==> (code matches Some(c) && parse_code_spec(c@) is Some
            && message is Some),
        r matches Some(re) ==> {
            &&& code matches Some(c) && parse_code_spec(c@) == Some(re.code)
            &&& message matches Some(m) && re.message@ == m@
        },
{
    match (code, message) {
        (Some(c), Some(m)) => match parse_error_code(c.as_str()) {
            Some(cc) => Some(ResponseError { code: cc, message: m }),
            None => None,
        },
        _ => None,
    }
}

/// Whether a body text carries the structured error envelope: a `code`
/// field naming a known error code, and a string `message` field.
pub open spec fn envelope_decodable(t: Seq<char>) -> bool {
    match json_str_field(t, "code"@) {
        Some(c) => parse_code_spec(c) is Some && json_str_field(t, "message"@) is Some,
        None => false,
    }
}

/// What a classified envelope states of the body text it came from.
pub open spec fn envelope_wf(err: ResponseError, t: Seq<char>) -> bool {
    &&& match json_str_field(t, "code"@) {
        Some(c) => parse_code_spec(c) == Some(err.code),
        None => false,
    }
    &&& json_str_field(t, "message"@) == Some(err.message@)
}

/// Classifies a non-2xx response body: a body that parses as the structured
/// error envelope becomes the API error for that status, carrying exactly
/// the envelope's code and message; any other body becomes the
/// unexpected-response fallback with the literal status and body text
/// preserved.
pub fn classify_error_response(status: u16, body: String) -> (e: Error)
    ensures
        e is ApiError || e is UnexpectedResponse,
        (e is ApiError) == envelope_decodable(body@),
        e matches Error::ApiError { status: s, error } ==> s == status && envelope_wf(
            error,
            body@,
        ),
        e matches Error::UnexpectedResponse { status: s, body: b } ==> s == status && b@
            == body@,
        !json_parses(body@) ==> e is UnexpectedResponse,
{
    let code = get_str_field(body.as_str(), "code");
    let message = get_str_field(body.as_str(), "message");
    match response_error_from_fields(code, message) {
        Some(re) => Error::ApiError { status, error: re },
        None => Error::UnexpectedResponse { status, body },
    }
}

/// The outcome of a delete-style operation: unit on any 2xx status; a
/// failure goes through the same non-2xx handling as every other request,
/// so an envelope body becomes the API error and anything else the
/// unexpected-response fallback.
pub fn delete_outcome(status: u16, body: String) -> (r: Result<(), Error>)
    ensures
        (r is Ok) == (200 <= status < 300),
        !(200 <= status < 300) ==> (r matches Err(e) && (e is ApiError || e
            is UnexpectedResponse) && ((e is ApiError) == envelope_decodable(body@))),
        r matches Err(e) ==> (e matches Error::ApiError { status: s, error } ==> s == status
            && envelope_wf(error, body@)),
        r matches Err(e) ==> (e matches Error::UnexpectedResponse { status: s, body: b } ==> s
            == status && b@ == body@),
{
    if is_success_status(status) {
        Ok(())
    } else {
        Err(classify_error_response(status, body))
    }
}

/// What `describe` renders for each error.
pub open spec fn describe_spec(e: Error) -> Seq<char> {
    match e {
        Error::Transport(m) => "Request error: "@ + m@,
        Error::Decode(d) => "Serialization/deserialization error at "@ + d.path@,
        Error::ApiError { status, error } => "API error (status "@ + dec_spec(status as nat)
            + "): ["@ + code_debug_spec(error.code) + "] "@ + error.message@,
        Error::UnexpectedResponse { status, body } => "Unexpected API response: Status: "@
            + dec_spec(status as nat) + ", Body: "@ + body@,
        Error::Truncated => "Stream ended with incomplete data"@,
    }
}

impl Error {
    /// A human-readable description of the error.  A decode error renders
    /// the decode path; the parser's own message lives outside the library
    /// and cannot be carried here.
    pub fn describe(&self) -> (r: String)
        ensures
            r@ == describe_spec(*self),
    {
        let mut out = String::new();
        match self {
            Error::Transport(m) => {
                out.append("Request error: ");
                out.append(m.as_str());
            },
            Error::Decode(d) => {
                out.append("Serialization/deserialization error at ");
                out.append(d.path.as_str());
            },
            Error::ApiError { status, error } => {
                out.append("API error (status ");
                let n = dec_string(*status as u64);
                out.append(n.as_str());
                out.append("): [");
                out.append(code_debug_str(&error.code));
                out.append("] ");
                out.append(error.message.as_str());
            },
            Error::UnexpectedResponse { status, body } => {
                out.append("Unexpected API response: Status: ");
                let n = dec_string(*status as u64);
                out.append(n.as_str());
                out.append(", Body: ");
                out.append(body.as_str());
            },
            Error::Truncated => {
                out.append("Stream ended with incomplete data");
            },
        }
        out
    }
}

} // verus!
