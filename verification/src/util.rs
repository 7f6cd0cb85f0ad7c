//! Small helpers shared by the sub-commands.

pub mod file;
