//! Turns a YAML description of a command line (program name, description and
//! argument definitions) into a normalised command specification.
//!
//! [`builder::build`] goes from text to [`builder::Specification`];
//! [`parser::ArgumentParser`] and [`argument::Argument`] are the typed
//! readings of a document and of one entry of its `args` list;
//! [`engine::command`] hands a specification to `clap`.

pub mod argument;
pub mod builder;
pub mod engine;
pub mod error;
pub mod inference;
pub mod loader;
pub mod node;
pub mod parser;

pub use argument::Argument;
pub use builder::{
    build, build_from_documents, load_documents, specification, validate_root_docs, Flag,
    Specification,
};
pub use error::Error;
pub use inference::extract_short_long_name;
pub use node::{Entry, Node};
pub use parser::ArgumentParser;
