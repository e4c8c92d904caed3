//! Fern: deployment specifications, credential resolution and provider
//! request logic for running robotics simulations on Runpod Pods.

pub mod api_url;
pub mod config;
pub mod deploy;
pub mod env_vars;
pub mod error;
pub mod profile;
pub mod provider;
pub mod text;

pub use config::Config;
pub use error::Error;
