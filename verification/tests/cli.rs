use sdx::cli::{model_row, prepare_generate, sorted_model_names, GenerateCmd};
use sdx::{AppConfig, ModelConfig};

fn bare_cmd(prompt: &str) -> GenerateCmd {
    GenerateCmd {
        model: None,
        prompt: prompt.to_string(),
        negative_prompt: None,
        width: None,
        height: None,
        steps: None,
        cfg_scale: None,
        guidance: None,
        seed: None,
        sampler: None,
        scheduler: None,
        output: "output.png".to_string(),
        batch_count: None,
    }
}

fn config_with_default() -> AppConfig {
    AppConfig {
        sd_cli_path: Some("/usr/bin/sd-cli".to_string()),
        default_model: Some("sd15".to_string()),
        models: vec![("sd15".to_string(), ModelConfig {
            model: Some("/models/sd15.safetensors".to_string()),
            width: Some(512),
            steps: Some(20),
            sampling_method: Some("euler_a".to_string()),
            ..Default::default()
        })],
    }
}

#[test]
fn prepare_generate_uses_default_model() {
    let config = config_with_default();
    let args = prepare_generate(&config, "/usr/bin/sd-cli", &bare_cmd("a cat")).expect("plans");
    assert_eq!(args.model.as_deref(), Some("/models/sd15.safetensors"));
    assert_eq!(args.prompt, "a cat");
    assert_eq!(args.output, "output.png");
}

#[test]
fn prepare_generate_without_default_fails() {
    let mut config = config_with_default();
    config.default_model = None;
    let err = prepare_generate(&config, "sd-cli", &bare_cmd("a cat")).unwrap_err();
    assert!(err.message().contains("no --model"));
}

#[test]
fn prepare_generate_unknown_model_fails() {
    let config = config_with_default();
    let mut cmd = bare_cmd("a cat");
    cmd.model = Some("missing".to_string());
    let err = prepare_generate(&config, "sd-cli", &cmd).unwrap_err();
    assert_eq!(err.message(), "model not found: missing");
}

#[test]
fn prepare_generate_applies_overrides() {
    let config = config_with_default();
    let mut cmd = bare_cmd("a dog");
    cmd.width = Some(1024);
    cmd.height = Some(768);
    cmd.steps = Some(30);
    cmd.cfg_scale = Some("5".to_string());
    cmd.guidance = Some("3.5".to_string());
    cmd.seed = Some(42);
    cmd.sampler = Some("euler".to_string());
    cmd.scheduler = Some("simple".to_string());
    cmd.batch_count = Some(2);
    cmd.negative_prompt = Some("ugly".to_string());
    cmd.output = "my.png".to_string();
    let args = prepare_generate(&config, "sd-cli", &cmd).expect("plans");
    assert_eq!(args.width, 1024);
    assert_eq!(args.height, 768);
    assert_eq!(args.steps, 30);
    assert_eq!(args.cfg_scale, "5");
    assert_eq!(args.guidance.as_deref(), Some("3.5"));
    assert_eq!(args.seed, 42);
    assert_eq!(args.sampling_method, "euler");
    assert_eq!(args.scheduler, "simple");
    assert_eq!(args.batch_count, 2);
    assert_eq!(args.negative_prompt.as_deref(), Some("ugly"));
    assert_eq!(args.output, "my.png");
}

#[test]
fn model_row_single_file() {
    let m = ModelConfig {
        model: Some("/models/sd15.safetensors".to_string()),
        width: Some(512),
        height: Some(512),
        steps: Some(20),
        sampling_method: Some("euler_a".to_string()),
        ..Default::default()
    };
    let row = model_row("sd15", &m, true);
    assert_eq!(row.name, "sd15");
    assert_eq!(row.kind, "single");
    assert_eq!(row.files, "model");
    assert_eq!(row.status, "ok");
    assert_eq!(row.defaults, "512x512, 20 steps, euler_a");
}

#[test]
fn model_row_component_missing_files() {
    let m = ModelConfig {
        diffusion_model: Some("/m/flux.gguf".to_string()),
        clip_l: Some("/m/clip_l.st".to_string()),
        t5xxl: Some("/m/t5xxl.st".to_string()),
        vae: Some("/m/ae.st".to_string()),
        width: Some(1024),
        ..Default::default()
    };
    let row = model_row("flux", &m, false);
    assert_eq!(row.kind, "component");
    assert_eq!(row.files, "clip_l, t5xxl, diffusion_model, vae");
    assert_eq!(row.status, "MISSING");
    assert_eq!(row.defaults, "1024x1024");
}

#[test]
fn sorted_model_names_are_ordered() {
    let m = ModelConfig { model: Some("/m/a.st".to_string()), ..Default::default() };
    let config = AppConfig {
        sd_cli_path: None,
        default_model: None,
        models: vec![
            ("zeta".to_string(), m.clone()),
            ("alpha".to_string(), m.clone()),
            ("mid".to_string(), m),
        ],
    };
    let names = sorted_model_names(&config);
    assert_eq!(names, vec!["alpha", "mid", "zeta"]);
}

#[test]
fn model_row_no_defaults() {
    let m = ModelConfig { model: Some("/m/a.st".to_string()), ..Default::default() };
    let row = model_row("a", &m, true);
    assert_eq!(row.defaults, "");
}
