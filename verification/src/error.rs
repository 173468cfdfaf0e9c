//! The one error that the driver reports.

use vstd::prelude::*;

verus! {

/// A failed operation, with the device library's own account of it.
///
/// The description is whatever the device library said of its last error; the
/// driver adds no text of its own.
#[derive(Clone, Debug, PartialEq, Eq)]
pub struct LidarError {
    pub description: String,
}

impl LidarError {
    /// An error that carries the given description.
    pub fn new(desc: &str) -> (error: Self)
        ensures
            error.description@ == desc@,
    {
        broadcast use vstd::string::to_string_from_display_ensures_for_str;

        Self { description: desc.to_string() }
    }
}

} // verus!
