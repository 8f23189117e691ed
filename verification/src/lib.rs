//! An import-suggestion engine for unresolved references.
//!
//! Given a cursor position inside a parsed source file and an identifier that
//! does not resolve, the engine proposes a deduplicated, bounded set of import
//! paths that would make the identifier resolve, each wrapped as one
//! alternative of a grouped editor action.
//!
//! The host editor owns the syntax tree, the semantic resolver and the symbol
//! index; this crate consumes their answers as plain values:
//!
//! * [`syntax`] models the host's syntax tree as a table of nodes with
//!   backward parent links and a small closed set of node kinds;
//! * [`import_path`] models import paths, their rendered text form, and the
//!   filtering, deduplication and bounding of candidate paths;
//! * [`assist`] runs the whole pipeline and builds the grouped action;
//! * [`laws`] states and proves the properties the pipeline guarantees.

pub mod assist;
pub mod import_path;
pub mod laws;
pub mod syntax;
