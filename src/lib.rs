//! A content search library: it turns search options into compiled
//! matchers, decides which files are read and which match, and formats
//! what is reported.

pub mod config;
pub mod error;
pub mod extensions;
pub mod matcher;
pub mod pattern;
pub mod report;
pub mod search;
pub mod text;
