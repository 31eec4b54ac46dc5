//! The entry synthesizer: the virtual source module that bootstraps a page.
//!
//! The synthesized module defines a constant holding the page's route path
//! as a string literal, then inlines the bootstrap template verbatim. The
//! user's real page module is not referenced by path: it is bound to a
//! fixed virtual import name through an inner-asset map that the module
//! pipeline consults before falling back to path-based resolution. The map
//! itself is an insertion-ordered map from the `indexmap` crate, specified
//! here through trusted declarations and used only through them.

use vstd::prelude::*;
use indexmap::IndexMap;
use crate::PageLoaderError;
use crate::js_literal::encode_js_string;
use crate::js_literal::js_string_literal;
use crate::text::append_chars;
use crate::text::append_str;
use crate::text::chars_of;

verus! {

#[verifier::external_type_specification]
#[verifier::external_body]
#[verifier::reject_recursive_types(K)]
#[verifier::reject_recursive_types(V)]
#[verifier::reject_recursive_types(S)]
/// The insertion-ordered map type of the `indexmap` crate, opaque to the
/// verifier; its contents are spoken of through [`inner_asset_entries`].
pub struct ExIndexMap<K, V, S>(IndexMap<K, V, S>);

/// What an inner-asset map holds: the bindings from virtual import names
/// to module handles.
pub uninterp spec fn inner_asset_entries(m: IndexMap<String, u64>) -> Map<Seq<char>, u64>;

/// The empty binding map.
pub open spec fn no_inner_assets() -> Map<Seq<char>, u64> {
    Map::empty()
}

/// Relies on `indexmap::IndexMap::new`: the new map is empty.
#[verifier::external_body]
fn new_inner_assets() -> (m: IndexMap<String, u64>)
    ensures
        inner_asset_entries(m) == no_inner_assets(),
{
    IndexMap::new()
}

/// Relies on `indexmap::IndexMap::insert`: the key now maps to the value,
/// no other binding changes, and the previously stored value, if any,
/// comes back.
#[verifier::external_body]
fn inner_assets_insert(m: &mut IndexMap<String, u64>, key: String, value: u64) -> (prev: Option<
    u64,
>)
    ensures
        inner_asset_entries(*final(m)) == inner_asset_entries(*old(m)).insert(key@, value),
        prev == if inner_asset_entries(*old(m)).dom().contains(key@) {
            Some(inner_asset_entries(*old(m))[key@])
        } else {
            None::<u64>
        },
{
    m.insert(key, value)
}

/// Relies on `indexmap::IndexMap::get`: the value stored for the key, if
/// the key is present.
#[verifier::external_body]
fn inner_assets_get(m: &IndexMap<String, u64>, key: &str) -> (r: Option<u64>)
    ensures
        r == if inner_asset_entries(*m).dom().contains(key@) {
            Some(inner_asset_entries(*m)[key@])
        } else {
            None::<u64>
        },
{
    m.get(key).copied()
}

/// The fixed virtual import name the page module is bound to.
pub open spec fn page_import_name() -> Seq<char> {
    "PAGE"@
}

/// The fixed virtual path the synthesized module is addressed by, so its
/// identity is stable across rebuilds.
pub open spec fn loader_entry_path() -> Seq<char> {
    "entry/page-loader.ts"@
}

/// The source text of the synthesized module: the route path constant,
/// then the bootstrap template verbatim.
pub open spec fn loader_entry_code(route: Seq<char>, template: Seq<char>) -> Seq<char> {
    "const PAGE_PATH = "@ + js_string_literal(route) + ";\n\n"@ + template
}

/// The synthesized entry: a virtual in-memory module, created fresh on
/// every computation and never written to a real filesystem path.
#[derive(Debug)]
pub struct SyntheticEntrySource {
    /// The fixed virtual path the module is addressed by.
    pub path: Vec<char>,
    /// The module's source text.
    pub code: Vec<char>,
    /// The bindings from virtual import names to already-resolved module
    /// handles, consulted by the resolver before path-based resolution.
    pub inner_assets: IndexMap<String, u64>,
}

/// Synthesizes the entry module for a route. The bootstrap template is
/// handed in by the caller, `None` standing for an absent template asset:
/// that is a broken installation, reported as [`PageLoaderError::MissingTemplate`]
/// and never retried, and no partial module is produced.
pub fn get_loader_entry_asset(
    route: &Vec<char>,
    template: &Option<Vec<char>>,
    page_module: u64,
) -> (r: Result<SyntheticEntrySource, PageLoaderError>)
    ensures
        match r {
            Ok(src) => {
                &&& template matches Some(t) && src.code@ == loader_entry_code(route@, t@)
                &&& src.path@ == loader_entry_path()
                &&& inner_asset_entries(src.inner_assets) == no_inner_assets().insert(
                    page_import_name(),
                    page_module,
                )
            },
            Err(e) => template is None && e == PageLoaderError::MissingTemplate,
        },
{
    match template {
        None => Err(PageLoaderError::MissingTemplate),
        Some(t) => {
            let mut code: Vec<char> = Vec::new();
            append_str(&mut code, "const PAGE_PATH = ");
            let route_lit = encode_js_string(route);
            append_chars(&mut code, &route_lit);
            append_str(&mut code, ";\n\n");
            append_chars(&mut code, t);
            let mut inner_assets = new_inner_assets();
            inner_assets_insert(&mut inner_assets, "PAGE".to_owned(), page_module);
            Ok(SyntheticEntrySource { path: chars_of("entry/page-loader.ts"), code, inner_assets })
        },
    }
}

/// Looks a virtual import name up in the synthesized entry's bindings, as
/// the module resolver does before falling back to path-based resolution.
pub fn resolve_inner_import(source: &SyntheticEntrySource, name: &str) -> (r: Option<u64>)
    ensures
        r == if inner_asset_entries(source.inner_assets).dom().contains(name@) {
            Some(inner_asset_entries(source.inner_assets)[name@])
        } else {
            None::<u64>
        },
{
    inner_assets_get(&source.inner_assets, name)
}

} // verus!
