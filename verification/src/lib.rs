//! Source locations and diagnostics of the React compiler.
//!
//! The compiler takes a Babel syntax tree, works on an intermediate
//! representation, and hands a syntax tree back. Locations travel both ways
//! (`ast::location`, `location`), with their filenames interned (`filename`).
//! What goes wrong is reported in diagnostics (`diagnostic`), which have a
//! category (`category`) and are collected in errors (`error`).

pub mod ast;
pub mod category;
pub mod diagnostic;
pub mod error;
pub mod filename;
pub mod laws;
pub mod location;
pub mod text;

pub use crate::category::{format_category_heading, ErrorCategory, ErrorSeverity};
pub use crate::diagnostic::{
    CompilerDiagnostic, CompilerDiagnosticDetail, CompilerErrorDetail, CompilerSuggestion,
    CompilerSuggestionOperation,
};
pub use crate::error::{CompilerError, CompilerErrorOrDiagnostic};
pub use crate::filename::{FilenameInterner, SourceFilename};
pub use crate::location::{Position, SourceLocation, SourceOffset, GENERATED_SOURCE};
