//! A scoped settings model for an installer.
//!
//! The crate keeps a hierarchical configuration tree whose leaves are
//! addressed by dotted string paths such as `"storage.lvm"`.  The tree is
//! populated partially from independent backend domains (users, software,
//! storage), mutated through typed `set`/`add` operations, overlaid with an
//! externally supplied profile through `merge`, and written back selectively:
//! only the domains that are actually present in the tree are ever touched.

pub mod attributes;
pub mod commands;
pub mod config;
pub mod error;
pub mod hwinfo;
pub mod install_settings;
pub mod printers;
pub mod profile;
pub mod progress;
pub mod settings;
pub mod software;
pub mod storage;
pub mod store;
pub mod text;
pub mod users;

pub use text::{split_once_char, str_eq};
