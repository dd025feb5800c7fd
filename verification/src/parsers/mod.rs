//! Parsers for the supported log formats.

pub mod json_log;
pub mod nginx_log;
pub mod regex_log;
