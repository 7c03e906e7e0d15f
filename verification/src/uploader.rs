//! What the upload client decides: where a batch is sent, what goes with
//! it, and what the sink's answer means.
//!
//! Sending is the caller's business. The caller posts an [`UploadRequest`]
//! and hands back either the answer's status and body or the text of the
//! transport failure. Nothing here retries: that belongs to the backoff.

use crate::reading::{copy_readings, CreateReadingsBatch, TiltReading};
use crate::text::{trim_end, trim_end_matches};
use serde_json::Value;
use vstd::prelude::*;
use vstd::string::StringExecFns;

verus! {

/// `serde_json::Value`, a parsed JSON document. The library hands it on
/// without looking inside.
#[verifier::external_type_specification]
#[verifier::external_body]
pub struct ExJsonValue(Value);

/// The document that a text is when read as JSON, if it is one. What
/// `serde_json::from_str` makes of a text depends on the text alone.
pub uninterp spec fn json_of(text: Seq<char>) -> Option<Value>;

/// Calls `serde_json::from_str` for a `Value` and drops the error: `Some`
/// where the text parses as JSON, `None` where it does not.
#[verifier::external_body]
fn parse_json(text: &str) -> (parsed: Option<Value>)
    ensures
        parsed == json_of(text@),
{
    serde_json::from_str::<Value>(text).ok()
}

/// The path of the readings endpoint below the sink's base address.
pub open spec fn readings_path() -> Seq<char> {
    "/api/v1/readings"@
}

/// The address to which batches for the sink at `server_url` are posted.
pub open spec fn readings_url_of(server_url: Seq<char>) -> Seq<char> {
    trim_end(server_url, '/') + readings_path()
}

/// Whether a status code reports success.
pub open spec fn is_success(status: u16) -> bool {
    200 <= status < 300
}

/// Why an upload failed.
#[derive(Debug)]
pub enum UploadError {
    /// No answer was obtained; the text says what the transport reported.
    Network(String),
    /// The sink answered with a status outside 200 to 299 and this body.
    ServerError(u16, String),
}

/// What the sink said to a batch that it accepted.
#[derive(Debug)]
pub enum Acknowledgement {
    /// The body as the JSON document that it is.
    Json(Value),
    /// The body as it came, where it is no JSON.
    Raw(String),
}

/// One request to the sink: a POST of `batch` to `url`, with the credential
/// in the `X-API-Key` header where there is one.
#[derive(Debug)]
pub struct UploadRequest {
    pub url: String,
    pub api_key: Option<String>,
    pub batch: CreateReadingsBatch,
}

/// The upload client's configuration.
pub struct Uploader {
    readings_url: String,
    api_key: Option<String>,
}

/// The name of the header that carries the credential.
pub fn api_key_header() -> (name: &'static str)
    ensures
        name@ == "X-API-Key"@,
{
    "X-API-Key"
}

/// Sorts an answer with a body: a status from 200 to 299 is a success and
/// yields the body, any other status is a server error with status and body.
pub fn classify_response(status: u16, body: String) -> (outcome: Result<String, UploadError>)
    ensures
        outcome == (if is_success(status) {
            Ok::<String, UploadError>(body)
        } else {
            Err::<String, UploadError>(UploadError::ServerError(status, body))
        }),
{
    if 200 <= status && status < 300 {
        Ok(body)
    } else {
        Err(UploadError::ServerError(status, body))
    }
}

/// The acknowledgement for an accepted batch, from the answer's body and
/// what parsing it as JSON gave.
pub fn acknowledge(body: String, parsed: Option<Value>) -> (ack: Acknowledgement)
    ensures
        ack == (match parsed {
            Some(value) => Acknowledgement::Json(value),
            None => Acknowledgement::Raw(body),
        }),
{
    match parsed {
        Some(value) => Acknowledgement::Json(value),
        None => Acknowledgement::Raw(body),
    }
}

impl Uploader {
    /// A client for the sink at `server_url`, with or without a credential.
    /// Slashes at the end of the address do not count.
    pub fn new(server_url: &str, api_key: Option<String>) -> (uploader: Uploader)
        ensures
            uploader.readings_url() == readings_url_of(server_url@),
            uploader.api_key() == api_key,
    {
        let base = trim_end_matches(server_url, '/');
        let mut readings_url = String::from_str(base);
        readings_url.append("/api/v1/readings");
        Uploader { readings_url, api_key }
    }

    /// The address to which batches are posted.
    pub closed spec fn readings_url(&self) -> Seq<char> {
        self.readings_url@
    }

    /// The credential, if one is configured.
    pub closed spec fn api_key(&self) -> Option<String> {
        self.api_key
    }

    /// The address to which batches are posted.
    pub fn url(&self) -> (url: &str)
        ensures
            url@ == self.readings_url(),
    {
        self.readings_url.as_str()
    }

    /// The request that uploads `readings`: all of them, in order, to the
    /// readings address, with the credential where one is configured.
    pub fn request(&self, readings: &[TiltReading]) -> (request: UploadRequest)
        ensures
            request.url@ == self.readings_url(),
            request.api_key == self.api_key(),
            request.batch@ == readings@,
    {
        let batch = copy_readings(readings);
        let api_key = match &self.api_key {
            Some(key) => Some(key.clone()),
            None => None,
        };
        UploadRequest {
            url: self.readings_url.clone(),
            api_key,
            batch: CreateReadingsBatch::new(batch),
        }
    }

    /// What an answer with the given status and body means. A success
    /// carries the body as JSON where it parses and as raw text where it
    /// does not; any other status is a server error with status and body.
    pub fn interpret(status: u16, body: String) -> (outcome: Result<Acknowledgement, UploadError>)
        ensures
            outcome == (if is_success(status) {
                Ok::<Acknowledgement, UploadError>(
                    match json_of(body@) {
                        Some(value) => Acknowledgement::Json(value),
                        None => Acknowledgement::Raw(body),
                    },
                )
            } else {
                Err::<Acknowledgement, UploadError>(UploadError::ServerError(status, body))
            }),
    {
        match classify_response(status, body) {
            Ok(body) => {
                let parsed = parse_json(body.as_str());
                Ok(acknowledge(body, parsed))
            },
            Err(error) => Err(error),
        }
    }

    /// What a transport failure means: a network error with the failure's
    /// text.
    pub fn transport_failure(message: String) -> (error: UploadError)
        ensures
            error == UploadError::Network(message),
    {
        UploadError::Network(message)
    }
}

} // verus!
