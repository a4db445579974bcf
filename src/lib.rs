//! A process-local mirror of a file's text, kept in step with the file by
//! filesystem change notifications, and readable from any thread without
//! waiting on the writer.
pub mod event;
pub mod laws;
pub mod mirror;
pub mod slot;
