//! Replies of a desktop backend's two text-file commands.
//!
//! The backend answers `read_file` and `write_file`. Touching the disk is the
//! host's business; everything the backend decides once the file system has
//! answered lives here: which bytes stand for a text, whether bytes are a
//! text at all, and what the front-end is told when something went wrong.

pub mod commands;
pub mod encoding;
pub mod laws;
pub mod message;
