//! Routes a URL to a browser (and optionally one of its profiles) through an
//! ordered list of matching rules, and builds the command line that opens it.
pub mod pattern;
pub mod text;
pub mod types;
pub mod rule;
pub mod browser;
pub mod hints;
pub mod system;
pub mod discovery;
pub mod route;
