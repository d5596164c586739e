//! The HTTP-facing translator: listing models, planning a generation from
//! a request (name fallback, lookup, three-tier merge), and mapping
//! pipeline outcomes onto protocol replies.

use vstd::prelude::*;
use crate::api::{ErrorResponse, ImageData, ImageGenerationRequest, ImageGenerationResponse,
    ModelInfo, ModelsResponse, spec_request_size};
use crate::config::{AppConfig, find_model};
use crate::error::{Error, spec_message};
use crate::sd_cli::{GenerateArgs, opt_or};

verus! {

/// What the standard base64 alphabet with padding encodes the bytes to.
pub uninterp spec fn base64_standard_of(bytes: Seq<u8>) -> Seq<char>;

/// Relies on base64's `Engine::encode` with the `STANDARD` engine: the
/// output is a pure function of the input bytes, four characters for
/// every started group of three bytes.
#[verifier::external_body]
fn encode_base64(data: &Vec<u8>) -> (r: String)
    requires
        data@.len() < 0x1000_0000_0000_0000,
    ensures
        r@ == base64_standard_of(data@),
        r@.len() == ((data@.len() + 2) / 3) * 4,
{
    base64::Engine::encode(&base64::engine::general_purpose::STANDARD, data.as_slice())
}

/// Relies on uuid's `Uuid::new_v4` and its display form: a fresh random
/// identifier rendered as the 36-character hyphenated text. Nothing is
/// assumed about which identifier comes back.
#[verifier::external_body]
fn fresh_request_id() -> (r: String)
    ensures
        r@.len() == 36,
{
    uuid::Uuid::new_v4().to_string()
}

/// A file name for the temporary output artifact of one request, built
/// around a fresh random identifier.
pub fn temp_output_name() -> (r: String)
    ensures
        r@.len() == 43,
        r@.subrange(0, 3) == "sd-"@,
        r@.subrange(39, 43) == ".png"@,
{
    let id = fresh_request_id();
    let r = String::from_str("sd-").concat(id.as_str()).concat(".png");
    proof {
        reveal_strlit("sd-");
        reveal_strlit(".png");
        assert(r@.subrange(0, 3) =~= "sd-"@);
        assert(r@.subrange(39, 43) =~= ".png"@);
    }
    r
}

/// The model-listing reply: one entry per registered model, in registry
/// order, each owned locally.
pub fn list_models(config: &AppConfig) -> (r: ModelsResponse)
    ensures
        r.object@ == "list"@,
        r.data@.len() == config.models@.len(),
        forall|i: int|
            0 <= i < r.data@.len() ==> (#[trigger] r.data@[i]).id@ == config.models@[i].0@
                && r.data@[i].object@ == "model"@ && r.data@[i].owned_by@ == "local"@,
{
    let n = config.models.len();
    let mut data: Vec<ModelInfo> = Vec::new();
    let mut i: usize = 0;
    while i < n
        invariant
            0 <= i <= n,
            n == config.models@.len(),
            data@.len() == i,
            forall|j: int|
                0 <= j < i ==> (#[trigger] data@[j]).id@ == config.models@[j].0@
                    && data@[j].object@ == "model"@ && data@[j].owned_by@ == "local"@,
        decreases n - i,
    {
        let entry = &config.models[i];
        data.push(ModelInfo { id: entry.0.clone(), object: "model", owned_by: "local" });
        i = i + 1;
    }
    ModelsResponse { object: "list", data }
}

/// The model name a request resolves to at the HTTP boundary: the
/// request's own name if given, else the first registered model. Unlike
/// the command-line path, no configured default is consulted.
pub open spec fn spec_http_model_name(config: AppConfig, req: ImageGenerationRequest) -> Option<
    Seq<char>,
> {
    match req.model {
        Some(m) => Some(m@),
        None => if config.models@.len() > 0 {
            Some(config.models@[0].0@)
        } else {
            None
        },
    }
}

/// Plans one generation: resolves the model name with the HTTP fallback,
/// looks the definition up, and merges its defaults with the request's
/// overrides into a complete invocation writing to the given output path.
/// A request with no resolvable name is refused as a bad request; an
/// unknown name is refused as not found.
pub fn plan_generation(
    config: &AppConfig,
    sd_cli_path: &str,
    req: &ImageGenerationRequest,
    output_path: &str,
) -> (r: Result<GenerateArgs, (u16, ErrorResponse)>)
    ensures
        spec_http_model_name(*config, *req) is None ==> (r matches Err(e) && e.0 == 400
            && e.1.error.message@ == "no model specified and no models configured"@
            && e.1.error.error_type@ == "invalid_request_error"@ && e.1.error.code is None),
        (match spec_http_model_name(*config, *req) {
            Some(nm) => find_model(config.models@, nm) is None ==> (r matches Err(e) && e.0 == 404
                && e.1.error.message@ == "model '"@ + nm + "' not found in config"@
                && e.1.error.error_type@ == "not_found_error"@ && (e.1.error.code matches Some(c)
                && c@ == "model_not_found"@)),
            None => true,
        }),
        (match spec_http_model_name(*config, *req) {
            Some(nm) => match find_model(config.models@, nm) {
                Some(mc) => r matches Ok(a) && {
                    &&& a.sd_cli_path@ == sd_cli_path@
                    &&& a.model == mc.model
                    &&& a.clip_l == mc.clip_l
                    &&& a.clip_g == mc.clip_g
                    &&& a.t5xxl == mc.t5xxl
                    &&& a.diffusion_model == mc.diffusion_model
                    &&& a.vae == mc.vae
                    &&& a.prompt == req.prompt
                    &&& a.negative_prompt == (if req.negative_prompt is Some {
                        req.negative_prompt
                    } else {
                        mc.negative_prompt
                    })
                    &&& a.width == (match spec_request_size(*req) {
                        Some(wh) => wh.0,
                        None => opt_or(mc.width, 512u32),
                    })
                    &&& a.height == (match spec_request_size(*req) {
                        Some(wh) => wh.1,
                        None => opt_or(mc.height, 512u32),
                    })
                    &&& a.steps == (match req.steps {
                        Some(s) => s,
                        None => opt_or(mc.steps, 20u32),
                    })
                    &&& a.cfg_scale@ == (match req.cfg_scale {
                        Some(c) => c@,
                        None => match mc.cfg_scale {
                            Some(s) => s@,
                            None => "7"@,
                        },
                    })
                    &&& a.guidance == (if req.guidance is Some {
                        req.guidance
                    } else {
                        mc.guidance
                    })
                    &&& a.seed == (match req.seed {
                        Some(s) => s,
                        None => opt_or(mc.seed, -1i64),
                    })
                    &&& a.sampling_method@ == (match req.sampler {
                        Some(s) => s@,
                        None => match mc.sampling_method {
                            Some(m) => m@,
                            None => "euler_a"@,
                        },
                    })
                    &&& a.scheduler@ == (match req.scheduler {
                        Some(s) => s@,
                        None => match mc.scheduler {
                            Some(m) => m@,
                            None => "discrete"@,
                        },
                    })
                    &&& a.batch_count == (match req.n {
                        Some(n) => n,
                        None => opt_or(mc.batch_count, 1u32),
                    })
                    &&& a.output@ == output_path@
                },
                None => true,
            },
            None => true,
        }),
{
    let name: &str = match &req.model {
        Some(m) => m.as_str(),
        None => {
            if config.models.len() > 0 {
                config.models[0].0.as_str()
            } else {
                return Err(
                    (
                        400,
                        ErrorResponse::new(
                            String::from_str("no model specified and no models configured"),
                        ),
                    ),
                );
            }
        },
    };
    let model_config = match config.resolve_model(name) {
        Ok(mc) => mc,
        Err(_) => {
            let msg = String::from_str("model '").concat(name).concat("' not found in config");
            proof {
                assert(msg@ =~= "model '"@ + name@ + "' not found in config"@);
            }
            return Err((404, ErrorResponse::not_found(msg)));
        },
    };
    let mut a = GenerateArgs::from_model_config(sd_cli_path, model_config);
    a.prompt = req.prompt.clone();
    if let Some(neg) = &req.negative_prompt {
        a.negative_prompt = Some(neg.clone());
    }
    if let Some(wh) = req.parse_size() {
        a.width = wh.0;
        a.height = wh.1;
    }
    if let Some(steps) = req.steps {
        a.steps = steps;
    }
    if let Some(cfg) = &req.cfg_scale {
        a.cfg_scale = cfg.clone();
    }
    if let Some(g) = &req.guidance {
        a.guidance = Some(g.clone());
    }
    if let Some(seed) = req.seed {
        a.seed = seed;
    }
    if let Some(s) = &req.sampler {
        a.sampling_method = s.clone();
    }
    if let Some(s) = &req.scheduler {
        a.scheduler = s.clone();
    }
    if let Some(n) = req.n {
        a.batch_count = n;
    }
    a.output = output_path.to_owned();
    Ok(a)
}

/// One step of the result extractor, over the slot that holds the
/// temporary artifact: the bytes come back exactly when the artifact was
/// there, and the artifact is gone afterwards on every outcome.
pub fn extract_artifact(file: Option<Vec<u8>>) -> (r: (Option<Vec<u8>>, Option<Vec<u8>>))
    ensures
        r.0 == file,
        r.1 is None,
{
    (file, None)
}

/// The success reply: one image entry holding the base64 text of the
/// artifact's bytes, stamped with the given creation time.
pub fn success_reply(image: &Vec<u8>, created: u64) -> (r: ImageGenerationResponse)
    requires
        image@.len() < 0x1000_0000_0000_0000,
    ensures
        r.created == created,
        r.data@.len() == 1,
        r.data@[0].b64_json@ == base64_standard_of(image@),
{
    let b64 = encode_base64(image);
    let mut data: Vec<ImageData> = Vec::new();
    data.push(ImageData { b64_json: b64 });
    ImageGenerationResponse { created, data }
}

/// The reply for a run that failed: a server error carrying the error's
/// own message.
pub fn run_failure_reply(e: &Error) -> (r: (u16, ErrorResponse))
    ensures
        r.0 == 500,
        r.1.error.message@ == spec_message(*e),
        r.1.error.error_type@ == "server_error"@,
        r.1.error.code is None,
{
    (500, ErrorResponse::server_error(e.message()))
}

/// The reply for an artifact that could not be read back: a server error
/// naming the cause.
pub fn read_failure_reply(detail: &str) -> (r: (u16, ErrorResponse))
    ensures
        r.0 == 500,
        r.1.error.message@ == "failed to read output: "@ + detail@,
        r.1.error.error_type@ == "server_error"@,
        r.1.error.code is None,
{
    let msg = String::from_str("failed to read output: ").concat(detail);
    (500, ErrorResponse::server_error(msg))
}

} // verus!
