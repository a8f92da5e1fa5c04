//! Chapter discovery, parsing and page planning for a multi-language book.

pub mod orchestrator;
pub mod chapter;
pub mod front_matter;
pub mod pages;
pub mod parser;
pub mod scan;
