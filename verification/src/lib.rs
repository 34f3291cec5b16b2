//! Parsing of EDK2 build description files (INF and DSC): the lines of a
//! file are split into sections, headers that name several sections are
//! written out once per section, macros are replaced, and the lines of each
//! section are read into entries and table rows.

pub mod codec;
pub mod condition;
pub mod config;
pub mod err;
pub mod error;
pub mod grammar;
pub mod inf;
pub mod ini;
pub mod macros;
pub mod parser;
pub mod render;
pub mod rows;
pub mod section;
pub mod shapes;
pub mod text;

pub use crate::config::Config;
pub use crate::parser::{ConfigParser, DscParser, InfParser};
