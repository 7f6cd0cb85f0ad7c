//! A verified core for a command-line client to the Renku platform.
//!
//! The crate covers the logic of the client: the device-authorization
//! login flow and its polling state machine, the token cache file and
//! its format, the project linkage file, and the decisions of the
//! concurrent clone orchestrator.  All input and output — HTTP, git,
//! the file system — is left to the surrounding binary, which hands
//! plain values in and takes plain values back.

pub mod cli;
pub mod codec;
pub mod error;
pub mod data;
pub mod httpclient;
pub mod project_config;
pub mod util;
