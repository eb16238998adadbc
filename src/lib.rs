//! Client core for a repository-hosting REST service: request signing,
//! the signed JSON envelope, and the mapping from operations to HTTP requests.

pub mod client;
pub mod command;
pub mod config;
pub mod digest;
pub mod envelope;
pub mod error;
pub mod json_text;
pub mod operation;
pub mod signer;

pub use client::{response_result, Blih, Request, URL};
pub use command::{repo_sub_cmd, sshkey_sub_cmd};
pub use config::{blih_from_config, config_path, Config, Credentials};
pub use error::BlihErr;
pub use json_text::JsonObject;
pub use operation::{HttpMethod, Operation, OperationPayload};
pub use signer::{derive_token, sign};
