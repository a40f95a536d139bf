//! Verified decision logic of the OpenRustClaw command layer.

use vstd::prelude::*;

pub mod text;
pub mod order;
pub mod self_hosted;
pub mod onboarding;
pub mod security;
pub mod paths;
pub mod control;
pub mod orchestrate;
mod ids;
pub mod crypto;
pub mod vault;
pub mod runtime;
pub mod services;
pub mod schedule;
pub mod optimize;
pub mod models;
pub mod audit;
pub mod config_migration;
pub mod probes;
pub mod session;
pub mod listings;
pub mod env_file;
pub mod wizard;
pub mod model_setup;
pub mod orchestration;
mod clock;
pub mod toml_doc;

verus! {

} // verus!
