//! Software product data.

use vstd::prelude::*;
use vstd::string::*;

verus! {

/// Represents a software product
#[derive(Debug)]
pub struct Product {
    /// Product ID (eg., "ALP", "Tumbleweed", etc.)
    pub id: String,
    /// Product name (e.g., "openSUSE Tumbleweed")
    pub name: String,
    /// Product description
    pub description: String,
}

impl Product {
    /// Builds a product from a backend entry; a missing description is left
    /// empty.
    pub fn from_parts(id: String, name: String, description: Option<String>) -> (r: Product)
        ensures
            r.id == id,
            r.name == name,
            r.description@ == match description {
                Some(d) => d@,
                None => Seq::<char>::empty(),
            },
    {
        Product {
            id,
            name,
            description: match description {
                Some(d) => d,
                None => String::new(),
            },
        }
    }
}

} // verus!
