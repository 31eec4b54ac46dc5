//! Route paths and the artifact's identity.
//!
//! The identity is where the loader artifact lives: the deployment root,
//! a fixed static-asset prefix, and a filename derived from the route path
//! alone. It is a pure function of the route, so consumers can address the
//! artifact before any chunk resolution has run, and no change to chunk
//! contents can move it.

use vstd::prelude::*;
use crate::text::append_chars;
use crate::text::append_str;
use crate::text::chars_eq_str;
use crate::text::starts_with_str;

verus! {

/// The filename the route maps to, with `ext` appended. The root route
/// maps to the index file, and routes under the index namespace are
/// prefixed once more so they cannot collide with the root's file.
pub open spec fn asset_path_for_route(p: Seq<char>, ext: Seq<char>) -> Seq<char> {
    if p == "/"@ {
        "/index"@ + ext
    } else if p == "/index"@ || (p.len() >= "/index/"@.len() && p.subrange(
        0,
        "/index/"@.len() as int,
    ) == "/index/"@) {
        "/index"@ + p + ext
    } else {
        p + ext
    }
}

/// Derives the asset filename for a route path.
pub fn get_asset_path_from_pathname(pathname: &Vec<char>, ext: &str) -> (r: Vec<char>)
    ensures
        r@ == asset_path_for_route(pathname@, ext@),
{
    let mut out: Vec<char> = Vec::new();
    if chars_eq_str(pathname, "/") {
        append_str(&mut out, "/index");
        append_str(&mut out, ext);
    } else if chars_eq_str(pathname, "/index") || starts_with_str(pathname, "/index/") {
        append_str(&mut out, "/index");
        append_chars(&mut out, pathname);
        append_str(&mut out, ext);
    } else {
        append_chars(&mut out, pathname);
        append_str(&mut out, ext);
    }
    out
}

/// The fixed prefix under which every page loader artifact lives.
pub open spec fn pages_prefix() -> Seq<char> {
    "/_next/static/chunks/pages"@
}

/// The artifact's identity: a pure function of the deployment root and
/// the route path, and of nothing else.
pub open spec fn loader_asset_ident(root: Seq<char>, pathname: Seq<char>) -> Seq<char> {
    root + pages_prefix() + asset_path_for_route(pathname, ".js"@)
}

/// Renders the artifact's identity.
pub fn render_loader_asset_ident(server_root: &Vec<char>, pathname: &Vec<char>) -> (r: Vec<char>)
    ensures
        r@ == loader_asset_ident(server_root@, pathname@),
{
    let mut out: Vec<char> = Vec::new();
    append_chars(&mut out, server_root);
    append_str(&mut out, "/_next/static/chunks/pages");
    let tail = get_asset_path_from_pathname(pathname, ".js");
    append_chars(&mut out, &tail);
    out
}

} // verus!
