//! A directory lister: recursive size accounting, byte formatting, path
//! classification, directory partitioning and the decisions of the command
//! runner, each with a verified contract.
pub mod cli;
pub mod error;
pub mod format;
pub mod info;
pub mod listing;
pub mod runner;
pub mod size;
