//! The code-block parser of the compiler for the language Rusty Danda, with
//! the import bookkeeping of its linker and the plain-value logic of two of
//! its standard libraries, verified with Verus.
//!
//! - `text`: string equality and the byte order of strings;
//! - `tokens`, `tree`: the generic syntax tree that the grammar-driven parser builds;
//! - `statements`: the statement tree of a code block;
//! - `codeblock_spec`, `codeblock_parser`: what the code-block parser computes, and the parser;
//! - `imports`: merging import lists, declared imports, imports left to build;
//! - `errors`: where compiling a program can fail;
//! - `window_events`, `core_lib`, `lib_calls`: what the window and core libraries
//!   compute from plain values, and how they decode a call.

pub mod text;
pub mod tokens;
pub mod tree;
pub mod statements;
pub mod codeblock_spec;
pub mod codeblock_parser;
pub mod imports;
pub mod errors;
pub mod window_events;
pub mod core_lib;
pub mod core_ops;
pub mod lib_calls;

pub use codeblock_parser::{generate_tree, node_from_node};
pub use errors::{ErrorOrigin, LinkingError};
pub use imports::new_imports;
pub use statements::{Catch, Nodes};
