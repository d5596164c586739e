//! A thin orchestration layer around an external image-generation executable:
//! a registry of named model definitions with per-model defaults, a builder
//! that merges those defaults with per-request overrides into the exact
//! argument list the executable expects, an exclusive gate that serializes
//! accelerator use, and the translation of outcomes into protocol replies.

pub mod api;
pub mod cli;
pub mod config;
pub mod error;
pub mod gate;
pub mod numfmt;
pub mod sd_cli;
pub mod server;
pub mod text;

pub use cli::{Cli, Commands, GenerateCmd, ServeCmd};
pub use config::{AppConfig, ModelConfig};
pub use error::Error;
pub use sd_cli::GenerateArgs;
