//! A verified engine for gathering files by category.
//!
//! Given a root directory, a destination directory and a set of enabled
//! file-type categories, the engine discovers the files under the root,
//! keeps those whose extension belongs to an enabled category, and plans
//! one copy per match into the flat destination directory. A run is driven
//! by a small state machine; a shared counter tracks successful copies.
//! The caller performs the actual file copies and feeds their outcomes
//! back into the run.

pub mod counter;
pub mod dispatch;
pub mod extensions;
pub mod run;
pub mod walker;
