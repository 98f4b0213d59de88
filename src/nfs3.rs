//! The NFSv3 procedures' wire types, file handles and reply rules.
pub mod args;
pub mod handle;
pub mod procs;
pub mod readdir;
pub mod results;
pub mod types;
