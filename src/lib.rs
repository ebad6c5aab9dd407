//! Extraction and normalization of drug records that arrive as loosely shaped
//! JSON (converted from XML), into flat records ready for storage or export.

pub mod json;
pub mod model;
pub mod filter;
pub mod filter_target;
pub mod shell;
pub mod db;
