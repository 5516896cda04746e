//! Startup configuration for a multi-language code-intelligence proxy:
//! the registry of supported languages, the parser for a comma-separated
//! language selection, the resolution of command-line and environment input
//! into a startup configuration, and the decisions of the bootstrap sequence.
pub mod api_types;
pub mod bootstrap;
pub mod language_selection;
pub mod startup;
mod text;
