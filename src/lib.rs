//! Loading the whole text of a file, as a state machine that decides what to
//! do next from what the file system answered.
//!
//! The file system itself is driven by the caller: the [`loader::Loader`]
//! asks for an action (open, create, read), the caller performs it and hands
//! back the result as an [`loader::Event`], and the loader answers with the
//! next action, until it finishes with the file's text or a failure, or asks
//! to terminate the process.
pub mod failure;
pub mod loader;
pub mod model;
