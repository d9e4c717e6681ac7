//! Profile handling: subcommands and validation outcomes.
//!
//! Downloading, schema compilation and evaluation are transport work and stay
//! outside the library; what is modelled here is the data they exchange and
//! the one decision they make — whether a list of validation errors means a
//! valid profile.

use vstd::prelude::*;

verus! {

/// The profile subcommands a driver offers.
#[derive(Debug)]
pub enum ProfileCommands {
    /// Download the profile from a given location
    Download { url: String },
    /// Validate a profile using JSON Schema
    Validate { path: String },
    /// Evaluate a profile, injecting the hardware information from D-Bus
    Evaluate { path: String },
}

/// The outcome of validating a profile document.
#[derive(Debug)]
pub enum ValidationResult {
    /// The profile conforms to the schema.
    Valid,
    /// The profile does not conform; one message per violation.
    NotValid(Vec<String>),
}

impl ValidationResult {
    /// Folds a list of validation error messages into an outcome: no
    /// messages means the profile is valid.
    pub fn from_errors(errors: Vec<String>) -> (r: ValidationResult)
        ensures
            errors@.len() == 0 ==> r is Valid,
            errors@.len() > 0 ==> (r matches ValidationResult::NotValid(msgs) && msgs == errors),
    {
        if errors.len() == 0 {
            ValidationResult::Valid
        } else {
            ValidationResult::NotValid(errors)
        }
    }
}

} // verus!
