//! Domain rules of a live restreaming server and of its test harness.

pub mod db;
pub mod diag;
pub mod domain;
pub mod events;
pub mod ffmpeg_extract;
pub mod harness;
pub mod json;
pub mod matrix;
pub mod mcp;
pub mod number;
pub mod path;
pub mod reconcile;
pub mod record;
pub mod runtime;
pub mod sbom;
pub mod text;
