//! Reconcile generated text with the file it is committed to.
//!
//! A code generator produces a text blob that is meant to live at a fixed
//! path.  [`sync::CodeGenArgs::write_str`] decides what must happen to bring
//! the two in line: in write mode the blob is persisted verbatim; in check
//! mode the blob is compared against what is on disk, with line endings
//! canonicalized first so that platform differences do not count as drift.
//!
//! File reading and writing stay with the caller: the decision takes the
//! file's contents (or their absence) as a plain value and returns the action
//! the caller must perform, so the comparison and the error taxonomy are
//! stated and proved here.

pub mod diff;
pub mod normalize;
pub mod sync;

pub use normalize::normalize_spec;
pub use sync::CodeGenArgs;
pub use sync::CodeGenError;
pub use sync::SyncAction;
