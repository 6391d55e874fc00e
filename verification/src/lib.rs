//! Extraction of task records from markdown checklist items.
//!
//! A markdown document, parsed into a syntax tree, may hold checklist items
//! (`- [ ]` / `- [x]`) whose text carries icon-tagged deadline or completion
//! annotations.  This crate models the syntax tree, finds the checklist
//! items, parses and strips the annotations, and returns one [`task::Task`]
//! record per item.

pub mod annotation;
pub mod datetime;
pub mod node;
pub mod task;

pub use datetime::DateTime;
pub use node::MdNode;
pub use task::Task;
