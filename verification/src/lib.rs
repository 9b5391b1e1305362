//! What a host reports after trying to read a file as text.
//!
//! The host performs the blocking read and hands over what the file system
//! gave back: the file's bytes, or a description of why the read failed. This
//! crate turns that into the outcome shown to the caller, which is either the
//! file's contents as text or a failure message.
pub mod message;
pub mod text;
pub mod outcome;
