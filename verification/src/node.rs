//! Items exposed to JavaScript alongside the classes.

use vstd::prelude::*;

verus! {

/// The export anchor of the native module.
#[derive(Debug, Clone, Copy)]
pub struct Exports {
    pub _phantom: (),
}

/// The version of the search engine that the bridge wraps.
pub const VENDORED_MEILISEARCH_VERSION: &'static str = "1.48.3";

} // verus!
