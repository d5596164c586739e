use sdx::api::ImageGenerationRequest;
use sdx::server::{extract_artifact, list_models, plan_generation, read_failure_reply,
    run_failure_reply, success_reply, temp_output_name};
use sdx::{AppConfig, Error, ModelConfig};

fn test_config() -> AppConfig {
    AppConfig {
        sd_cli_path: Some("/usr/bin/true".to_string()),
        default_model: None,
        models: vec![("sd15".to_string(), ModelConfig {
            model: Some("/models/sd15.safetensors".to_string()),
            width: Some(512),
            height: Some(512),
            steps: Some(20),
            ..Default::default()
        })],
    }
}

fn bare_request(prompt: &str) -> ImageGenerationRequest {
    ImageGenerationRequest {
        prompt: prompt.to_string(),
        model: None,
        n: None,
        size: None,
        negative_prompt: None,
        steps: None,
        cfg_scale: None,
        guidance: None,
        seed: None,
        sampler: None,
        scheduler: None,
    }
}

#[test]
fn list_models_returns_configured() {
    let resp = list_models(&test_config());
    assert_eq!(resp.object, "list");
    assert_eq!(resp.data.len(), 1);
    assert_eq!(resp.data[0].id, "sd15");
    assert_eq!(resp.data[0].object, "model");
    assert_eq!(resp.data[0].owned_by, "local");
}

#[test]
fn generate_unknown_model_returns_404() {
    let mut req = bare_request("a cat");
    req.model = Some("nonexistent".to_string());
    let err = plan_generation(&test_config(), "/usr/bin/true", &req, "/tmp/out.png").unwrap_err();
    assert_eq!(err.0, 404);
    assert!(err.1.error.message.contains("nonexistent"));
    assert_eq!(err.1.error.code.as_deref(), Some("model_not_found"));
    assert_eq!(err.1.error.error_type, "not_found_error");
}

#[test]
fn generate_without_models_returns_400() {
    let config = AppConfig { sd_cli_path: None, default_model: None, models: vec![] };
    let req = bare_request("a cat");
    let err = plan_generation(&config, "sd-cli", &req, "/tmp/out.png").unwrap_err();
    assert_eq!(err.0, 400);
    assert_eq!(err.1.error.message, "no model specified and no models configured");
}

#[test]
fn generate_falls_back_to_first_model() {
    let req = bare_request("a cat");
    let args = plan_generation(&test_config(), "/usr/bin/true", &req, "/tmp/out.png")
        .expect("plans");
    assert_eq!(args.model.as_deref(), Some("/models/sd15.safetensors"));
    assert_eq!(args.prompt, "a cat");
    assert_eq!(args.output, "/tmp/out.png");
}

#[test]
fn generate_applies_request_overrides() {
    let mut req = bare_request("a dog");
    req.size = Some("640x384".to_string());
    req.steps = Some(30);
    req.cfg_scale = Some("5".to_string());
    req.guidance = Some("3.5".to_string());
    req.seed = Some(42);
    req.sampler = Some("euler".to_string());
    req.scheduler = Some("simple".to_string());
    req.n = Some(3);
    req.negative_prompt = Some("ugly".to_string());
    let args = plan_generation(&test_config(), "/usr/bin/true", &req, "/tmp/out.png")
        .expect("plans");
    assert_eq!(args.width, 640);
    assert_eq!(args.height, 384);
    assert_eq!(args.steps, 30);
    assert_eq!(args.cfg_scale, "5");
    assert_eq!(args.guidance.as_deref(), Some("3.5"));
    assert_eq!(args.seed, 42);
    assert_eq!(args.sampling_method, "euler");
    assert_eq!(args.scheduler, "simple");
    assert_eq!(args.batch_count, 3);
    assert_eq!(args.negative_prompt.as_deref(), Some("ugly"));
}

#[test]
fn consolidated_only_args_scenario() {
    let config = AppConfig {
        sd_cli_path: None,
        default_model: None,
        models: vec![("sd15".to_string(), ModelConfig {
            model: Some("/m/sd15.st".to_string()),
            ..Default::default()
        })],
    };
    let req = bare_request("a cat");
    let args = plan_generation(&config, "sd-cli", &req, "/tmp/img.png").expect("plans");
    let argv = args.to_args();
    let expected: Vec<String> = [
        "-m", "/m/sd15.st", "-p", "a cat", "-W", "512", "-H", "512", "--steps", "20",
        "--cfg-scale", "7", "-s", "-1", "--sampling-method", "euler_a", "--scheduler", "discrete",
        "-o", "/tmp/img.png",
    ]
        .iter()
        .map(|s| s.to_string())
        .collect();
    assert_eq!(argv, expected);
    assert!(!argv.contains(&"--guidance".to_string()));
    assert!(!argv.contains(&"-b".to_string()));
    assert!(!argv.contains(&"-n".to_string()));
}

#[test]
fn component_only_args_scenario() {
    let flux = ModelConfig {
        diffusion_model: Some("/m/flux.gguf".to_string()),
        clip_l: Some("/m/clip_l.st".to_string()),
        t5xxl: Some("/m/t5xxl.st".to_string()),
        vae: Some("/m/ae.st".to_string()),
        guidance: Some("3.5".to_string()),
        ..Default::default()
    };
    let args = sdx::GenerateArgs::from_model_config("sd-cli", &flux);
    let argv = args.to_args();
    assert!(argv.contains(&"--diffusion-model".to_string()));
    assert!(argv.contains(&"--clip_l".to_string()));
    assert!(argv.contains(&"--t5xxl".to_string()));
    assert!(argv.contains(&"--vae".to_string()));
    assert!(argv.contains(&"--guidance".to_string()));
    assert!(argv.contains(&"3.5".to_string()));
    assert!(!argv.contains(&"-m".to_string()));
}

#[test]
fn extract_artifact_always_clears_slot() {
    let (bytes, slot) = extract_artifact(Some(vec![1, 2, 3]));
    assert_eq!(bytes, Some(vec![1, 2, 3]));
    assert!(slot.is_none());

    let (bytes, slot) = extract_artifact(None);
    assert!(bytes.is_none());
    assert!(slot.is_none());
}

#[test]
fn success_reply_encodes_base64() {
    let resp = success_reply(&b"Man".to_vec(), 1234567890);
    assert_eq!(resp.created, 1234567890);
    assert_eq!(resp.data.len(), 1);
    assert_eq!(resp.data[0].b64_json, "TWFu");
}

#[test]
fn success_reply_pads_base64() {
    let resp = success_reply(&b"M".to_vec(), 0);
    assert_eq!(resp.data[0].b64_json, "TQ==");
}

#[test]
fn run_failure_reply_is_server_error() {
    let e = Error::SdCliKilled;
    let (status, body) = run_failure_reply(&e);
    assert_eq!(status, 500);
    assert_eq!(body.error.message, "sd-cli was killed by signal");
    assert_eq!(body.error.error_type, "server_error");
}

#[test]
fn read_failure_reply_names_cause() {
    let (status, body) = read_failure_reply("No such file or directory (os error 2)");
    assert_eq!(status, 500);
    assert_eq!(
        body.error.message,
        "failed to read output: No such file or directory (os error 2)"
    );
}

#[test]
fn temp_output_name_shape() {
    let name = temp_output_name();
    assert_eq!(name.len(), 43);
    assert!(name.starts_with("sd-"));
    assert!(name.ends_with(".png"));
}
