//! Where compiling a program can fail.
use vstd::prelude::*;
use crate::statements::ErrType;
use crate::tokens::Line;

verus! {

/// Why a source file could not be read.
#[derive(Debug)]
pub enum LinkingError {
    /// file, reason
    FileNotFound(String, String),
    /// file, reason
    CouldNotOpen(String, String),
}

/// The stage at which compiling a program failed, with what it reported.
/// The messages of the lexer, the tree walker, the dictionary builder and the
/// library loader are kept as text.
#[derive(Debug)]
pub enum ErrorOrigin {
    LexingError(Vec<String>),
    ParsingError((String, Line)),
    CodeBlockParserError(Vec<ErrType>),
    IntermediateError(Vec<String>),
    LibLoadError(Vec<String>),
    LinkingError(LinkingError),
}

} // verus!
