//! Build-and-package pipeline for deploying Rust binaries as AWS Lambda
//! functions: resolves a build specification from the project manifest,
//! composes a reproducible containerized build invocation, classifies its
//! outcome, and wraps the produced binaries into deployment archives.

pub mod config;
pub mod docker;
pub mod error;
pub mod lambda;
pub mod manifest;
pub mod pipeline;
