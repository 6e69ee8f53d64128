//! Resolves a development tool to an executable inside one of several
//! configured SDK installations, and describes how to run it.

pub mod cli;
pub mod config;
pub mod invoke;
pub mod paths;
pub mod resolve;

pub use cli::{Outcome, Plan, Xcrun};
pub use config::{field_of, Sdk, SdkField, XcrunConfiguration};
pub use invoke::{environment_for, exit_code, invocation_for, log_line, Invocation};
pub use paths::{bin_candidate, join_path, usr_bin_candidate, Probe};
pub use resolve::{
    find_tool, locate_tool, not_found_message, probe_tool, resolve, select_sdk, select_sdk_among,
    Presence, Resolution, ResolveError, ResolvedTool, Selection,
};
