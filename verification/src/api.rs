//! The HTTP protocol types: the generation request and its admission
//! check, the response envelopes, and the error envelope with its fixed
//! category texts.

use vstd::prelude::*;
use crate::numfmt::{spec_parse_size, parse_size_text};

verus! {

/// A generation request at the protocol boundary, before the required
/// prompt has been checked.
#[derive(Debug)]
pub struct RawGenerationRequest {
    pub prompt: Option<String>,
    pub model: Option<String>,
    pub n: Option<u32>,
    pub size: Option<String>,
    pub negative_prompt: Option<String>,
    pub steps: Option<u32>,
    pub cfg_scale: Option<String>,
    pub guidance: Option<String>,
    pub seed: Option<i64>,
    pub sampler: Option<String>,
    pub scheduler: Option<String>,
}

/// An admitted generation request: the prompt is present, every other
/// field is an optional override. The two scale parameters are carried as
/// their decimal text.
#[derive(Debug)]
pub struct ImageGenerationRequest {
    pub prompt: String,
    pub model: Option<String>,
    pub n: Option<u32>,
    pub size: Option<String>,
    pub negative_prompt: Option<String>,
    pub steps: Option<u32>,
    pub cfg_scale: Option<String>,
    pub guidance: Option<String>,
    pub seed: Option<i64>,
    pub sampler: Option<String>,
    pub scheduler: Option<String>,
}

/// The width and height the request's size descriptor resolves to.
pub open spec fn spec_request_size(r: ImageGenerationRequest) -> Option<(u32, u32)> {
    match r.size {
        Some(s) => spec_parse_size(s@),
        None => None,
    }
}

impl ImageGenerationRequest {
    /// Accepts a request only when the required prompt is present; one
    /// without it is refused with the protocol's status for an
    /// unprocessable body.
    pub fn accept(raw: RawGenerationRequest) -> (r: Result<ImageGenerationRequest, u16>)
        ensures
            r is Ok <==> raw.prompt is Some,
            r matches Ok(q) ==> {
                &&& Some(q.prompt) == raw.prompt
                &&& q.model == raw.model
                &&& q.n == raw.n
                &&& q.size == raw.size
                &&& q.negative_prompt == raw.negative_prompt
                &&& q.steps == raw.steps
                &&& q.cfg_scale == raw.cfg_scale
                &&& q.guidance == raw.guidance
                &&& q.seed == raw.seed
                &&& q.sampler == raw.sampler
                &&& q.scheduler == raw.scheduler
            },
            r matches Err(c) ==> c == 422,
    {
        match raw.prompt {
            None => Err(422),
            Some(prompt) => Ok(
                ImageGenerationRequest {
                    prompt,
                    model: raw.model,
                    n: raw.n,
                    size: raw.size,
                    negative_prompt: raw.negative_prompt,
                    steps: raw.steps,
                    cfg_scale: raw.cfg_scale,
                    guidance: raw.guidance,
                    seed: raw.seed,
                    sampler: raw.sampler,
                    scheduler: raw.scheduler,
                },
            ),
        }
    }

    /// Reads the size descriptor as `<width>x<height>`; an absent or
    /// ill-formed descriptor resolves to nothing.
    pub fn parse_size(&self) -> (r: Option<(u32, u32)>)
        ensures
            r == spec_request_size(*self),
    {
        match &self.size {
            Some(s) => parse_size_text(s.as_str()),
            None => None,
        }
    }
}

/// The success envelope: a creation time in seconds since the epoch and
/// one entry per returned image.
#[derive(Debug)]
pub struct ImageGenerationResponse {
    pub created: u64,
    pub data: Vec<ImageData>,
}

/// One returned image, carried as its base64 text.
#[derive(Debug)]
pub struct ImageData {
    pub b64_json: String,
}

/// The model-listing envelope.
#[derive(Debug)]
pub struct ModelsResponse {
    pub object: &'static str,
    pub data: Vec<ModelInfo>,
}

/// One listed model.
#[derive(Debug)]
pub struct ModelInfo {
    pub id: String,
    pub object: &'static str,
    pub owned_by: &'static str,
}

/// The error envelope.
#[derive(Debug)]
pub struct ErrorResponse {
    pub error: ErrorBody,
}

/// The body of an error envelope: a message, a category, and an optional
/// machine-readable code.
#[derive(Debug)]
pub struct ErrorBody {
    pub message: String,
    pub error_type: String,
    pub code: Option<String>,
}

impl ErrorResponse {
    /// An invalid-request error with no code.
    pub fn new(message: String) -> (r: ErrorResponse)
        ensures
            r.error.message == message,
            r.error.error_type@ == "invalid_request_error"@,
            r.error.code is None,
    {
        ErrorResponse {
            error: ErrorBody {
                message,
                error_type: String::from_str("invalid_request_error"),
                code: None,
            },
        }
    }

    /// A not-found error carrying the model-not-found code.
    pub fn not_found(message: String) -> (r: ErrorResponse)
        ensures
            r.error.message == message,
            r.error.error_type@ == "not_found_error"@,
            r.error.code matches Some(c) && c@ == "model_not_found"@,
    {
        ErrorResponse {
            error: ErrorBody {
                message,
                error_type: String::from_str("not_found_error"),
                code: Some(String::from_str("model_not_found")),
            },
        }
    }

    /// A server error with no code.
    pub fn server_error(message: String) -> (r: ErrorResponse)
        ensures
            r.error.message == message,
            r.error.error_type@ == "server_error"@,
            r.error.code is None,
    {
        ErrorResponse {
            error: ErrorBody {
                message,
                error_type: String::from_str("server_error"),
                code: None,
            },
        }
    }
}

} // verus!
