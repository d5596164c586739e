use sdx::{AppConfig, GenerateArgs, ModelConfig};

fn sample_config() -> AppConfig {
    AppConfig {
        sd_cli_path: Some("/usr/bin/sd-cli".to_string()),
        default_model: None,
        models: vec![
            ("sd15".to_string(), ModelConfig {
                model: Some("/models/sd15.safetensors".to_string()),
                width: Some(512),
                height: Some(512),
                steps: Some(20),
                cfg_scale: Some("7".to_string()),
                sampling_method: Some("euler_a".to_string()),
                scheduler: Some("discrete".to_string()),
                ..Default::default()
            }),
            ("flux".to_string(), ModelConfig {
                diffusion_model: Some("/models/flux-dev.gguf".to_string()),
                clip_l: Some("/models/clip_l.safetensors".to_string()),
                t5xxl: Some("/models/t5xxl.safetensors".to_string()),
                vae: Some("/models/ae.safetensors".to_string()),
                width: Some(1024),
                height: Some(1024),
                steps: Some(20),
                guidance: Some("3.5".to_string()),
                sampling_method: Some("euler".to_string()),
                scheduler: Some("simple".to_string()),
                ..Default::default()
            }),
        ],
    }
}

fn cli_path(config: &AppConfig) -> &str {
    config.sd_cli_path.as_deref().expect("sd_cli_path set")
}

#[test]
fn from_model_config_single_file() {
    let config = sample_config();
    let model = config.resolve_model("sd15").expect("sd15 exists");
    let args = GenerateArgs::from_model_config(cli_path(&config), model);

    assert_eq!(args.width, 512);
    assert_eq!(args.height, 512);
    assert_eq!(args.steps, 20);
    assert_eq!(args.cfg_scale, "7");
    assert_eq!(args.sampling_method, "euler_a");
    assert!(args.model.is_some());
    assert!(args.diffusion_model.is_none());
}

#[test]
fn from_model_config_component_paths() {
    let config = sample_config();
    let model = config.resolve_model("flux").expect("flux exists");
    let args = GenerateArgs::from_model_config(cli_path(&config), model);

    assert_eq!(args.width, 1024);
    assert_eq!(args.guidance.as_deref(), Some("3.5"));
    assert!(args.diffusion_model.is_some());
    assert!(args.clip_l.is_some());
    assert!(args.t5xxl.is_some());
    assert!(args.vae.is_some());
    assert!(args.model.is_none());
}

#[test]
fn to_args_single_file_model() {
    let config = sample_config();
    let model = config.resolve_model("sd15").expect("sd15 exists");
    let mut ga = GenerateArgs::from_model_config(cli_path(&config), model);
    ga.prompt = "a cat".into();
    ga.output = "out.png".into();

    let args = ga.to_args();
    assert!(args.contains(&"-m".to_string()));
    assert!(args.contains(&"/models/sd15.safetensors".to_string()));
    assert!(args.contains(&"-p".to_string()));
    assert!(args.contains(&"a cat".to_string()));
    assert!(args.contains(&"-o".to_string()));
    assert!(args.contains(&"out.png".to_string()));
    // No --guidance for SD1.5
    assert!(!args.contains(&"--guidance".to_string()));
}

#[test]
fn to_args_component_model() {
    let config = sample_config();
    let model = config.resolve_model("flux").expect("flux exists");
    let mut ga = GenerateArgs::from_model_config(cli_path(&config), model);
    ga.prompt = "a dog".into();

    let args = ga.to_args();
    assert!(args.contains(&"--diffusion-model".to_string()));
    assert!(args.contains(&"--clip_l".to_string()));
    assert!(args.contains(&"--t5xxl".to_string()));
    assert!(args.contains(&"--vae".to_string()));
    assert!(args.contains(&"--guidance".to_string()));
    assert!(args.contains(&"3.5".to_string()));
    // No -m for component model
    assert!(!args.contains(&"-m".to_string()));
}

#[test]
fn to_args_negative_prompt() {
    let config = sample_config();
    let model = config.resolve_model("sd15").expect("sd15 exists");
    let mut ga = GenerateArgs::from_model_config(cli_path(&config), model);
    ga.prompt = "a cat".into();
    ga.negative_prompt = Some("ugly, blurry".into());

    let args = ga.to_args();
    assert!(args.contains(&"-n".to_string()));
    assert!(args.contains(&"ugly, blurry".to_string()));
}

#[test]
fn to_args_empty_negative_prompt_omitted() {
    let config = sample_config();
    let model = config.resolve_model("sd15").expect("sd15 exists");
    let mut ga = GenerateArgs::from_model_config(cli_path(&config), model);
    ga.prompt = "a cat".into();
    ga.negative_prompt = Some(String::new());

    let args = ga.to_args();
    assert!(!args.contains(&"-n".to_string()));
}

#[test]
fn to_args_batch_count_omitted_when_one() {
    let config = sample_config();
    let model = config.resolve_model("sd15").expect("sd15 exists");
    let mut ga = GenerateArgs::from_model_config(cli_path(&config), model);
    ga.prompt = "test".into();
    ga.batch_count = 1;

    let args = ga.to_args();
    assert!(!args.contains(&"-b".to_string()));
}

#[test]
fn to_args_batch_count_included_when_greater_than_one() {
    let config = sample_config();
    let model = config.resolve_model("sd15").expect("sd15 exists");
    let mut ga = GenerateArgs::from_model_config(cli_path(&config), model);
    ga.prompt = "test".into();
    ga.batch_count = 4;

    let args = ga.to_args();
    let idx = args.iter().position(|a| a == "-b").expect("-b present");
    assert_eq!(args[idx + 1], "4");
}

#[test]
fn defaults_when_model_config_is_sparse() {
    let config = AppConfig {
        sd_cli_path: None,
        default_model: None,
        models: vec![("minimal".to_string(), ModelConfig {
            model: Some("/models/m.safetensors".to_string()),
            ..Default::default()
        })],
    };
    let model = config.resolve_model("minimal").expect("exists");
    let args = GenerateArgs::from_model_config("sd-cli", model);

    assert_eq!(args.width, 512);
    assert_eq!(args.height, 512);
    assert_eq!(args.steps, 20);
    assert_eq!(args.cfg_scale, "7");
    assert_eq!(args.seed, -1);
    assert_eq!(args.sampling_method, "euler_a");
    assert_eq!(args.scheduler, "discrete");
    assert_eq!(args.batch_count, 1);
}

#[test]
fn validate_missing_sd_cli() {
    let config = sample_config();
    let model = config.resolve_model("sd15").expect("sd15 exists");
    let mut args = GenerateArgs::from_model_config(cli_path(&config), model);
    args.sd_cli_path = "/nonexistent/sd-cli".to_string();
    args.prompt = "test".into();

    let err = args.validate(false).unwrap_err();
    assert!(err.message().contains("sd-cli binary not found"));
}

#[test]
fn validate_accepts_present_sd_cli() {
    let config = sample_config();
    let model = config.resolve_model("sd15").expect("sd15 exists");
    let args = GenerateArgs::from_model_config(cli_path(&config), model);
    assert!(args.validate(true).is_ok());
}

#[test]
fn run_outcome_success_returns_output() {
    let config = sample_config();
    let model = config.resolve_model("sd15").expect("sd15 exists");
    let mut args = GenerateArgs::from_model_config(cli_path(&config), model);
    args.output = "/tmp/test.png".to_string();

    let out = args.run_outcome(true, Some(0), String::new()).expect("should succeed");
    assert_eq!(out, "/tmp/test.png");
}

#[test]
fn run_outcome_failure_carries_code_and_stderr() {
    let config = sample_config();
    let model = config.resolve_model("sd15").expect("sd15 exists");
    let args = GenerateArgs::from_model_config(cli_path(&config), model);

    let err = args.run_outcome(false, Some(1), "boom".to_string()).unwrap_err();
    assert_eq!(err.message(), "sd-cli failed (exit code 1): boom");
}

#[test]
fn run_outcome_no_code_means_killed() {
    let config = sample_config();
    let model = config.resolve_model("sd15").expect("sd15 exists");
    let args = GenerateArgs::from_model_config(cli_path(&config), model);

    let err = args.run_outcome(false, None, String::new()).unwrap_err();
    assert_eq!(err.message(), "sd-cli was killed by signal");
}
