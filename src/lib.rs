//! A small line-oriented text search: argument handling, substring matching
//! with an optional case-insensitive mode, and the report of matching lines.
pub mod config;
pub mod matcher;
pub mod report;
