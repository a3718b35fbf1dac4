//! Validation, job planning and artifact bookkeeping for a multi-target
//! homebrew asset and binary bundler.
pub mod archive;
pub mod artifact;
pub mod asset;
pub mod cache;
pub mod cors;
pub mod downloads;
pub mod health;
pub mod logger;
pub mod paths;
pub mod orchestrator;
pub mod platform;
pub mod programs;
pub mod resources;
pub mod response;
pub mod tools;
