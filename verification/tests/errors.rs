use sdx::Error;

#[test]
fn config_not_found_display() {
    let err = Error::ConfigNotFound("/foo/config.toml".to_string());
    assert_eq!(err.message(), "config file not found: /foo/config.toml");
}

#[test]
fn model_not_found_display() {
    let err = Error::ModelNotFound { name: "sd15".to_string() };
    assert_eq!(err.message(), "model not found: sd15");
}

#[test]
fn sd_cli_not_found_display() {
    let err = Error::SdCliNotFound("/usr/bin/sd-cli".to_string());
    assert_eq!(err.message(), "sd-cli binary not found: /usr/bin/sd-cli");
}

#[test]
fn sd_cli_failed_display() {
    let err = Error::SdCliFailed { exit_code: 1, stderr: "boom".to_string() };
    assert_eq!(err.message(), "sd-cli failed (exit code 1): boom");
}

#[test]
fn sd_cli_failed_negative_code_display() {
    let err = Error::SdCliFailed { exit_code: -9, stderr: "killed".to_string() };
    assert_eq!(err.message(), "sd-cli failed (exit code -9): killed");
}

#[test]
fn sd_cli_killed_display() {
    let err = Error::SdCliKilled;
    assert_eq!(err.message(), "sd-cli was killed by signal");
}

#[test]
fn invalid_config_display() {
    let err = Error::InvalidConfig("bad toml".to_string());
    assert_eq!(err.message(), "failed to parse config: bad toml");
}

#[test]
fn model_file_not_found_display() {
    let err = Error::ModelFileNotFound("/models/v1.safetensors".to_string());
    assert_eq!(err.message(), "model file not found: /models/v1.safetensors");
}

#[test]
fn io_error_transparent() {
    let err = Error::Io("gone".to_string());
    assert!(err.message().contains("gone"));
}

#[test]
fn toml_error_transparent() {
    let err = Error::TomlParse("expected a table".to_string());
    assert_eq!(err.message(), "expected a table");
}
