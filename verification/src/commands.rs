//! Top-level commands of a driver, as plain data.

use vstd::prelude::*;

use crate::config::ConfigCommands;
use crate::profile::ProfileCommands;

verus! {

/// The commands a driver accepts.
#[derive(Debug)]
pub enum Commands {
    /// Change or show installation settings
    Config(ConfigCommands),
    /// Display information about installation settings (e.g., possible values)
    Info { keys: Vec<String> },
    /// Analyze the system
    Probe,
    /// Handle installation profiles
    Profile(ProfileCommands),
    /// Start the installation
    Install,
}

} // verus!
