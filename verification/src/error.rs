//! The closed error taxonomy of the generation pipeline, with the exact
//! message text of each variant pinned down.

use vstd::prelude::*;
use crate::numfmt::{dec_seq_signed, i32_to_dec};

verus! {

/// Everything that can go wrong while loading configuration, resolving a
/// model, or running the external generation executable.
#[derive(Debug, Clone)]
pub enum Error {
    /// The configuration file does not exist at the given path.
    ConfigNotFound(String),
    /// The configuration text was rejected, with the reason.
    InvalidConfig(String),
    /// No model of the given name is configured.
    ModelNotFound { name: String },
    /// No model name was given and the configuration names no default model.
    NoDefaultModel,
    /// The generation executable does not exist at the given path.
    SdCliNotFound(String),
    /// A configured model weight file does not exist at the given path.
    ModelFileNotFound(String),
    /// The generation executable exited with a non-zero code.
    SdCliFailed { exit_code: i32, stderr: String },
    /// The generation executable was terminated by a signal.
    SdCliKilled,
    /// An input or output operation failed, with its own message.
    Io(String),
    /// The configuration text is not well-formed, with the parser's message.
    TomlParse(String),
}

/// The message text of each error variant.
pub open spec fn spec_message(e: Error) -> Seq<char> {
    match e {
        Error::ConfigNotFound(p) => "config file not found: "@ + p@,
        Error::InvalidConfig(r) => "failed to parse config: "@ + r@,
        Error::ModelNotFound { name } => "model not found: "@ + name@,
        Error::NoDefaultModel => "no --model specified and no default_model in config"@,
        Error::SdCliNotFound(p) => "sd-cli binary not found: "@ + p@,
        Error::ModelFileNotFound(p) => "model file not found: "@ + p@,
        Error::SdCliFailed { exit_code, stderr } => "sd-cli failed (exit code "@
            + dec_seq_signed(exit_code as int) + "): "@ + stderr@,
        Error::SdCliKilled => "sd-cli was killed by signal"@,
        Error::Io(m) => m@,
        Error::TomlParse(m) => m@,
    }
}

impl Error {
    /// Renders the error as the message a user sees.
    pub fn message(&self) -> (r: String)
        ensures
            r@ == spec_message(*self),
    {
        match self {
            Error::ConfigNotFound(p) => String::from_str("config file not found: ").concat(
                p.as_str(),
            ),
            Error::InvalidConfig(r) => String::from_str("failed to parse config: ").concat(
                r.as_str(),
            ),
            Error::ModelNotFound { name } => String::from_str("model not found: ").concat(
                name.as_str(),
            ),
            Error::NoDefaultModel => String::from_str(
                "no --model specified and no default_model in config",
            ),
            Error::SdCliNotFound(p) => String::from_str("sd-cli binary not found: ").concat(
                p.as_str(),
            ),
            Error::ModelFileNotFound(p) => String::from_str("model file not found: ").concat(
                p.as_str(),
            ),
            Error::SdCliFailed { exit_code, stderr } => {
                let code = i32_to_dec(*exit_code);
                let r = String::from_str("sd-cli failed (exit code ").concat(code.as_str()).concat(
                    "): ",
                ).concat(stderr.as_str());
                proof {
                    assert(r@ =~= spec_message(*self));
                }
                r
            },
            Error::SdCliKilled => String::from_str("sd-cli was killed by signal"),
            Error::Io(m) => m.clone(),
            Error::TomlParse(m) => m.clone(),
        }
    }
}

} // verus!
