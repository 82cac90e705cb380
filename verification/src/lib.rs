//! Provisioning of the two command-line media tools that an audio downloader
//! drives, and the decisions of one download.
//!
//! The library performs no I/O. Every step that touches the file system, the
//! network or another process is described as an action for the embedding
//! program to carry out; what happened is handed back as an event.

pub mod archive;
pub mod binaries;
pub mod downloader;
pub mod error;
pub mod protocol;
pub mod slot;
pub mod text;
pub mod util;
