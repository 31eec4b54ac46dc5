//! Resolution of runtime bootstrap modules.
//!
//! A runtime request names a module of the runtime package by its path.
//! The request string is built here; resolving it is delegated to the
//! module pipeline, whose answer comes back as a plain value, and this
//! module decides what each answer means: a placeable module is returned,
//! a module of the wrong kind is fatal, and an unresolved request means
//! the runtime package is not installed.

use vstd::prelude::*;
use crate::PageLoaderError;
use crate::text::append_chars;
use crate::text::append_str;

verus! {

/// What the delegated resolution answered for a runtime request.
#[derive(Debug)]
pub enum RuntimeResolution {
    /// The request resolved to a module placeable into a chunk.
    Placeable(u64),
    /// The request resolved, but to a module of the wrong kind.
    NotPlaceable,
    /// The request did not resolve at all.
    NotFound,
}

/// The request string for a runtime module: the runtime package prefix
/// followed by the module's path.
pub open spec fn runtime_request_spec(path: Seq<char>) -> Seq<char> {
    "@vercel/turbopack-next/"@ + path
}

/// Builds the request string for a runtime module.
pub fn runtime_request_path(path: &Vec<char>) -> (r: Vec<char>)
    ensures
        r@ == runtime_request_spec(path@),
{
    let mut out: Vec<char> = Vec::new();
    append_str(&mut out, "@vercel/turbopack-next/");
    append_chars(&mut out, path);
    out
}

/// The failure cause reported when the runtime package is not installed.
pub open spec fn unresolved_message(path: Seq<char>) -> Seq<char> {
    "could not resolve the `"@ + runtime_request_spec(path) + "` module"@
}

/// Decides what the delegated resolution of a runtime request means.
/// Succeeds exactly when the answer is a placeable module; a module of
/// the wrong kind is fatal, and an unresolved request is reported with
/// the request string it was made under.
pub fn resolve_runtime_request(path: &Vec<char>, resolution: RuntimeResolution) -> (r: Result<
    u64,
    PageLoaderError,
>)
    ensures
        match r {
            Ok(m) => resolution == RuntimeResolution::Placeable(m),
            Err(e) => match e {
                PageLoaderError::NotEvaluatable => resolution is NotPlaceable,
                PageLoaderError::ResolutionFailure(msg) => resolution is NotFound && msg@
                    == unresolved_message(path@),
                PageLoaderError::MissingTemplate => false,
            },
        },
{
    match resolution {
        RuntimeResolution::Placeable(m) => Ok(m),
        RuntimeResolution::NotPlaceable => Err(PageLoaderError::NotEvaluatable),
        RuntimeResolution::NotFound => {
            let mut msg: Vec<char> = Vec::new();
            append_str(&mut msg, "could not resolve the `");
            let request = runtime_request_path(path);
            append_chars(&mut msg, &request);
            append_str(&mut msg, "` module");
            Err(PageLoaderError::ResolutionFailure(msg))
        },
    }
}

} // verus!
