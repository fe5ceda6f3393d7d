//! The schema grammar: recursive-descent parsers over raw bytes.
//!
//! Every parser takes the input bytes and a start position and returns the
//! parsed value with the position after it, or nothing where the grammar does
//! not match.  Each has a specification twin over `Seq<u8>` that its contract
//! ties it to.

pub mod command;
pub mod component;
pub mod data_type;
pub mod enum_decl;
pub mod event;
pub mod package_name;
pub mod schema_file;
pub mod member;
pub mod type_decl;
pub mod value;
pub mod variant;
pub mod utils;
