//! Builds the client-side loader artifact for an application page: a
//! synthetic entry module composed from a bootstrap template and the page's
//! route, the ordered chunk descriptors that the browser must fetch to run
//! it, the loader script that names them, and the complete reference set
//! that an incremental build graph needs to invalidate the artifact.

use vstd::prelude::*;

pub mod chunking;
pub mod content;
pub mod entry;
pub mod font;
pub mod js_literal;
pub mod loader;
pub mod references;
pub mod route;
pub mod runtime;
pub mod store;
pub mod text;
pub mod web_entry;

verus! {

/// The errors this library reports for a single artifact computation.
///
/// A failure is local to one `(route, inputs)` pair: nothing is cached for
/// it, and the next request with the same inputs recomputes from scratch.
#[derive(Debug, PartialEq, Eq)]
pub enum PageLoaderError {
    /// The bootstrap template asset is absent; fatal for this artifact.
    MissingTemplate,
    /// Delegated module or chunk resolution failed; the original cause is
    /// carried through unchanged.
    ResolutionFailure(Vec<char>),
    /// The entry module is of the wrong kind to serve as an evaluatable
    /// root; fatal for this artifact.
    NotEvaluatable,
}

} // verus!
