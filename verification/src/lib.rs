//! Field-name completion for a BibTeX-style bibliography language server.
//!
//! Given a parsed document and a cursor position, the provider decides whether
//! the cursor sits where a field name belongs (on an existing field-name
//! identifier, or structurally inside an entry body outside its type and key
//! tokens) and, if so, returns a fixed catalog of known field-name completion
//! items; otherwise it returns the empty list.

pub mod catalog;
pub mod completion;
pub mod syntax;
pub mod text;
