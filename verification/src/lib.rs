//! Synchronisation core for a remote "theme" resource: an in-memory schema
//! model of the wire document, a codec between that model and a directory of
//! files, and the pure planning steps behind the two operations that download
//! or upload a theme.

use vstd::prelude::*;

pub mod codec;
pub mod driver;
pub mod error;
pub mod json_data;
pub mod json_value;
pub mod schema;
pub mod slots;

verus! {

/// Number of named template slots in a theme.
pub open spec fn slot_count() -> int {
    46
}

} // verus!
