//! Conversion between Unix epoch timestamps and human-readable date/time text.
pub mod chrono_api;
pub mod civil;
pub mod cli;
pub mod config;
pub mod datetime_parsing;
pub mod laws;
pub mod patterns;
pub mod text;
