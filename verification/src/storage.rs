//! Storage device data.

use vstd::prelude::*;

verus! {

/// Represents a storage device
#[derive(Debug)]
pub struct StorageDevice {
    pub name: String,
    pub description: String,
}

} // verus!
