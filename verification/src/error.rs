//! The error taxonomy of the settings model.
//!
//! Contracts speak about errors through [`ErrorView`], a single ghost type
//! that every executable error maps onto through its [`View`].

use vstd::prelude::*;

verus! {

/// Ghost form of every error the settings model reports.
pub enum ErrorView {
    /// The path holds no `.` separator.
    Malformed,
    /// The domain segment of the path names no known scope.
    UnknownScope,
    /// The scope exists but the field name is not registered in it.
    UnknownAttribute,
    /// The raw value cannot be converted to the type of the field.
    InvalidFormat,
    /// An object lacks a required key of the named element type.
    MissingKey(Seq<char>),
}

/// Failure to resolve a dotted path into a scope and a field name.
#[derive(Clone, Copy, Debug, PartialEq, Eq, Structural)]
pub enum PathError {
    /// The path holds no `.` separator.
    Malformed,
    /// The domain segment names no known scope.
    UnknownScope,
}

impl View for PathError {
    type V = ErrorView;

    open spec fn view(&self) -> ErrorView {
        match self {
            PathError::Malformed => ErrorView::Malformed,
            PathError::UnknownScope => ErrorView::UnknownScope,
        }
    }
}

/// Failure to convert a raw string or object into a typed value.
#[derive(Debug)]
pub enum ConversionError {
    /// The raw string does not denote a value of the target type.
    InvalidFormat,
    /// The object lacks the named required key.
    MissingKey(String),
}

impl View for ConversionError {
    type V = ErrorView;

    open spec fn view(&self) -> ErrorView {
        match self {
            ConversionError::InvalidFormat => ErrorView::InvalidFormat,
            ConversionError::MissingKey(key) => ErrorView::MissingKey(key@),
        }
    }
}

/// Any failure of a `set` or `add` operation on the settings tree.
#[derive(Debug)]
pub enum SettingsError {
    /// The path could not be resolved.
    Path(PathError),
    /// The resolved scope has no field of the given name.
    UnknownAttribute,
    /// The value or object could not be converted for the field.
    Conversion(ConversionError),
}

impl View for SettingsError {
    type V = ErrorView;

    open spec fn view(&self) -> ErrorView {
        match self {
            SettingsError::Path(e) => e@,
            SettingsError::UnknownAttribute => ErrorView::UnknownAttribute,
            SettingsError::Conversion(e) => e@,
        }
    }
}

/// A backend reported data that does not fit the requested parameters.
#[derive(Debug)]
pub enum WrongParameter {
    /// The product id is not among the available products.
    UnknownProduct(String, Vec<String>),
    /// The given user parameters were rejected.
    WrongUser(Vec<String>),
}

} // verus!
