//! The page loader artifact node: the composition of entry synthesis,
//! chunk group resolution, descriptor extraction, content rendering and
//! reference collection for one route.
//!
//! Chunk grouping itself is delegated: this node only supplies the root
//! module and the sole evaluatable entry, and accepts the policy's answer
//! unchanged — any resolution failure is surfaced as it came, never
//! swallowed, and no fallback content is substituted.

use vstd::prelude::*;
use crate::PageLoaderError;
use crate::chunking::Chunk;
use crate::chunking::ChunkDescriptor;
use crate::chunking::ChunkGroup;
use crate::chunking::ReferenceEdge;
use crate::chunking::chunks_data;
use crate::chunking::chunks_view;
use crate::chunking::descriptors_of;
use crate::chunking::descs_view;
use crate::chunking::edges_view;
use crate::chunking::runtime_chunks_data;
use crate::chunking::runtime_paths;
use crate::content::page_loader_content;
use crate::content::render_content;
use crate::entry::SyntheticEntrySource;
use crate::entry::get_loader_entry_asset;
use crate::references::collect_references;
use crate::references::collected_edges;
use crate::route::loader_asset_ident;
use crate::route::render_loader_asset_ident;
use crate::text::clone_chars;

verus! {

/// The page loader artifact node, keyed by the inputs the computation
/// depends on. Everything here is a value: recomputation under changed
/// inputs replaces the artifact, nothing mutates in place.
#[derive(Debug)]
pub struct PageLoaderAsset {
    /// The deployment root every emitted URL is relative to.
    pub server_root: Vec<char>,
    /// The client compilation context, an opaque handle owned by the
    /// module pipeline.
    pub client_context: u64,
    /// The client chunking policy, an opaque handle owned by the
    /// chunking pipeline.
    pub client_chunking_context: u64,
    /// The user's page module, an opaque handle threaded through, never
    /// inspected.
    pub entry_asset: u64,
    /// The route path the page is served under.
    pub pathname: Vec<char>,
}

/// A content source serving one asset graph from the deployment root,
/// compiled lazily on first request unless eager compilation is asked
/// for.
#[derive(Debug)]
pub struct ContentSource {
    /// The deployment root.
    pub server_root: Vec<char>,
    /// The asset at the graph's root.
    pub asset: PageLoaderAsset,
    /// Whether the graph is compiled eagerly.
    pub eager: bool,
}

/// What the delegated chunking policy answered for the synthesized entry:
/// the ordered chunk group, or the failure it reported.
#[derive(Debug)]
pub enum ChunkingOutcome {
    /// The policy produced the ordered chunk group.
    Chunks(Vec<Chunk>),
    /// Delegated resolution or compilation failed with this cause.
    Failed(Vec<char>),
}

/// The root and the evaluatable set handed to the chunking policy: the
/// compiled synthetic module is both the root of the chunk graph and its
/// sole evaluatable entry.
#[derive(Debug)]
pub struct ChunkingRequest {
    /// The root of the chunk graph.
    pub root: u64,
    /// The modules whose side effects must run on load.
    pub evaluatable: Vec<u64>,
}

/// Builds the chunking request for a compiled entry module: the module is
/// the root, and the one evaluatable entry.
pub fn chunking_request(compiled_entry: u64) -> (r: ChunkingRequest)
    ensures
        r.root == compiled_entry,
        r.evaluatable@ == seq![compiled_entry],
{
    let mut evaluatable: Vec<u64> = Vec::new();
    evaluatable.push(compiled_entry);
    proof {
        assert(evaluatable@ =~= seq![compiled_entry]);
    }
    ChunkingRequest { root: compiled_entry, evaluatable }
}

/// Creates the lazily compiled content source serving the page loader
/// artifact for one route.
pub fn create_page_loader(
    server_root: Vec<char>,
    client_context: u64,
    client_chunking_context: u64,
    entry_asset: u64,
    pathname: Vec<char>,
) -> (r: ContentSource)
    ensures
        r.server_root@ == server_root@,
        r.asset.server_root@ == server_root@,
        r.asset.client_context == client_context,
        r.asset.client_chunking_context == client_chunking_context,
        r.asset.entry_asset == entry_asset,
        r.asset.pathname@ == pathname@,
        !r.eager,
{
    let root_copy = clone_chars(&server_root);
    let asset = PageLoaderAsset {
        server_root,
        client_context,
        client_chunking_context,
        entry_asset,
        pathname,
    };
    ContentSource { server_root: root_copy, asset, eager: false }
}

impl PageLoaderAsset {
    /// Synthesizes this page's entry module from the bootstrap template.
    pub fn get_loader_entry_asset(&self, template: &Option<Vec<char>>) -> (r: Result<
        SyntheticEntrySource,
        PageLoaderError,
    >)
        ensures
            match r {
                Ok(src) => {
                    &&& template matches Some(t) && src.code@ == crate::entry::loader_entry_code(
                        self.pathname@,
                        t@,
                    )
                    &&& src.path@ == crate::entry::loader_entry_path()
                    &&& crate::entry::inner_asset_entries(src.inner_assets)
                        == crate::entry::no_inner_assets().insert(
                        crate::entry::page_import_name(),
                        self.entry_asset,
                    )
                },
                Err(e) => template is None && e == PageLoaderError::MissingTemplate,
            },
    {
        get_loader_entry_asset(&self.pathname, template, self.entry_asset)
    }

    /// Accepts the delegated chunking policy's answer for this page's
    /// synthesized entry. Succeeds exactly when the template was present
    /// and the policy produced a group; the group's order is kept
    /// unchanged, and a failure is surfaced with its original cause.
    pub fn get_page_chunks(&self, template: &Option<Vec<char>>, outcome: ChunkingOutcome) -> (r:
        Result<ChunkGroup, PageLoaderError>)
        ensures
            match r {
                Ok(group) => template is Some && (outcome matches ChunkingOutcome::Chunks(v)
                    && group@ == chunks_view(v@)),
                Err(e) => match e {
                    PageLoaderError::MissingTemplate => template is None,
                    PageLoaderError::ResolutionFailure(cause) => template is Some && (outcome
                        matches ChunkingOutcome::Failed(m) && cause@ == m@),
                    PageLoaderError::NotEvaluatable => false,
                },
            },
    {
        if template.is_none() {
            return Err(PageLoaderError::MissingTemplate);
        }
        match outcome {
            ChunkingOutcome::Chunks(v) => Ok(ChunkGroup { chunks: v }),
            ChunkingOutcome::Failed(cause) => Err(PageLoaderError::ResolutionFailure(cause)),
        }
    }

    /// Extracts the full build descriptors of a resolved group, in the
    /// group's order.
    pub fn chunks_data(&self, group: &ChunkGroup) -> (r: Vec<ChunkDescriptor>)
        ensures
            descs_view(r@) == descriptors_of(self.server_root@, group@),
    {
        chunks_data(&self.server_root, group)
    }

    /// The artifact's identity: a pure function of the deployment root
    /// and the route path, independent of every chunk.
    pub fn ident(&self) -> (r: Vec<char>)
        ensures
            r@ == loader_asset_ident(self.server_root@, self.pathname@),
    {
        render_loader_asset_ident(&self.server_root, &self.pathname)
    }

    /// The artifact's byte content, rendered from the route path and the
    /// runtime view of the full descriptors, in their order.
    pub fn content(&self, descs: &Vec<ChunkDescriptor>) -> (r: Vec<char>)
        ensures
            r@ == page_loader_content(self.pathname@, runtime_paths(descs_view(descs@))),
    {
        let runtime = runtime_chunks_data(descs);
        render_content(&self.pathname, &runtime)
    }

    /// The artifact's complete reference set: one labelled edge per chunk
    /// of the group, plus every nested reference of every descriptor.
    pub fn references(&self, group: &ChunkGroup, descs: &Vec<ChunkDescriptor>) -> (r: Vec<
        ReferenceEdge,
    >)
        ensures
            edges_view(r@) == collected_edges(group@, descs_view(descs@)),
    {
        collect_references(group, descs)
    }
}

/// Law: the artifact's identity does not move when anything but the
/// deployment root or the route path changes; in particular no change to
/// chunk contents, descriptors or the page module can move it.
pub proof fn lemma_identity_independence(a: PageLoaderAsset, b: PageLoaderAsset)
    requires
        a.server_root@ == b.server_root@,
        a.pathname@ == b.pathname@,
    ensures
        loader_asset_ident(a.server_root@, a.pathname@) == loader_asset_ident(
            b.server_root@,
            b.pathname@,
        ),
{
}

} // verus!
