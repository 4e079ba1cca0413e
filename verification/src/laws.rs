//! What the operations promise, stated of their calls: of the arguments and the
//! result, in terms of fields, text and other calls.

pub mod categories;
pub mod diagnostics;
pub mod errors;
pub mod filenames;
pub mod locations;
pub mod nodes;
pub mod texts;
