//! Plans the linking of a source directory tree into a target tree.
//!
//! The library computes, for each target path, which filesystem mutations
//! (symlink creation, backup, delete) are needed and whether a tree walk
//! should descend further. It never touches the filesystem itself: a caller
//! classifies each target path, collects the planned operations, and executes
//! them afterwards in plan order.

pub mod fileutils;
pub mod operations;
pub mod stow;
pub mod test_utils;
