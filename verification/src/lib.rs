//! Verified core of a small archive-unpacking tool.
//!
//! The library models the logic of the tool: deriving a package name from
//! an archive filename, deciding what a run should do, computing progress
//! percentages, and turning the bytes of a compressed tar archive into a
//! list of entries.  File-system and terminal I/O live outside the library.

pub mod names;
pub mod plan;
pub mod progress;
pub mod messages;
pub mod unpack;
