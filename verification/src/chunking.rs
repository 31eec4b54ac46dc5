//! The chunk group and its two descriptor views.
//!
//! A chunk group is the ordered set of compiled output files needed to
//! evaluate the synthesized entry; grouping itself is delegated to the
//! chunking policy, so chunks arrive here as plain records. The extractor
//! turns each chunk into a full build descriptor (server-relative URL plus
//! the chunk's own nested references) and a reduced runtime descriptor
//! (only what the browser-side loader reads), preserving the group's order
//! exactly: the runtime executes chunks in the order given.

use vstd::prelude::*;
use crate::text::append_chars;
use crate::text::clone_chars;

verus! {

/// A directed dependency edge from the loader artifact to another node of
/// the build graph, used for invalidation, never for content.
#[derive(Debug)]
pub struct ReferenceEdge {
    /// The referenced node.
    pub target: Vec<char>,
    /// A human-readable label for the edge.
    pub description: Vec<char>,
}

/// The mathematical value of a [`ReferenceEdge`].
#[verifier::ext_equal]
pub struct ReferenceModel {
    /// The referenced node.
    pub target: Seq<char>,
    /// A human-readable label for the edge.
    pub description: Seq<char>,
}

impl View for ReferenceEdge {
    type V = ReferenceModel;

    open spec fn view(&self) -> ReferenceModel {
        ReferenceModel { target: self.target@, description: self.description@ }
    }
}

/// The values of a sequence of edges.
pub open spec fn edges_view(s: Seq<ReferenceEdge>) -> Seq<ReferenceModel> {
    s.map_values(|e: ReferenceEdge| e@)
}

/// The values of a sequence of chunks.
pub open spec fn chunks_view(s: Seq<Chunk>) -> Seq<ChunkModel> {
    s.map_values(|c: Chunk| c@)
}

/// One compiled output file, as the chunking policy reports it: its path
/// relative to the deployment root, and the references it carries itself
/// (auxiliary files the chunk depends on).
#[derive(Debug)]
pub struct Chunk {
    /// The chunk's path relative to the deployment root.
    pub relative_path: Vec<char>,
    /// The chunk's own nested references.
    pub references: Vec<ReferenceEdge>,
}

/// The mathematical value of a [`Chunk`].
#[verifier::ext_equal]
pub struct ChunkModel {
    /// The chunk's path relative to the deployment root.
    pub relative_path: Seq<char>,
    /// The chunk's own nested references.
    pub references: Seq<ReferenceModel>,
}

impl View for Chunk {
    type V = ChunkModel;

    open spec fn view(&self) -> ChunkModel {
        ChunkModel { relative_path: self.relative_path@, references: edges_view(self.references@) }
    }
}

/// The ordered chunks needed to evaluate the synthesized entry. Order is
/// load-bearing: a chunk comes before every chunk that depends on it.
#[derive(Debug)]
pub struct ChunkGroup {
    /// The chunks, in evaluation order.
    pub chunks: Vec<Chunk>,
}

impl View for ChunkGroup {
    type V = Seq<ChunkModel>;

    open spec fn view(&self) -> Seq<ChunkModel> {
        self.chunks@.map_values(|c: Chunk| c@)
    }
}

/// The full build descriptor of one chunk: its server-relative URL and its
/// nested references. This view feeds the reference collector.
#[derive(Debug)]
pub struct ChunkDescriptor {
    /// The chunk's server-relative URL.
    pub path: Vec<char>,
    /// The chunk's own nested references.
    pub references: Vec<ReferenceEdge>,
}

/// The mathematical value of a [`ChunkDescriptor`].
#[verifier::ext_equal]
pub struct DescriptorModel {
    /// The chunk's server-relative URL.
    pub path: Seq<char>,
    /// The chunk's own nested references.
    pub references: Seq<ReferenceModel>,
}

impl View for ChunkDescriptor {
    type V = DescriptorModel;

    open spec fn view(&self) -> DescriptorModel {
        DescriptorModel { path: self.path@, references: edges_view(self.references@) }
    }
}

/// The values of a sequence of descriptors.
pub open spec fn descs_view(s: Seq<ChunkDescriptor>) -> Seq<DescriptorModel> {
    s.map_values(|d: ChunkDescriptor| d@)
}

/// The reduced runtime descriptor: exactly the fields the browser-side
/// loader reads. Keeping it minimal keeps the shipped payload small.
#[derive(Debug)]
pub struct RuntimeChunkDescriptor {
    /// The chunk's server-relative URL.
    pub path: Vec<char>,
}

/// A chunk's server-relative URL: the deployment root joined with the
/// chunk's own relative path.
pub open spec fn server_chunk_path(root: Seq<char>, rel: Seq<char>) -> Seq<char> {
    root + seq!['/'] + rel
}

/// The full descriptor of one chunk.
pub open spec fn descriptor_of(root: Seq<char>, c: ChunkModel) -> DescriptorModel {
    DescriptorModel { path: server_chunk_path(root, c.relative_path), references: c.references }
}

/// The full descriptors of a group, in the group's order.
pub open spec fn descriptors_of(root: Seq<char>, chunks: Seq<ChunkModel>) -> Seq<DescriptorModel> {
    chunks.map_values(|c: ChunkModel| descriptor_of(root, c))
}

/// The runtime view of a descriptor sequence: the paths, in order.
pub open spec fn runtime_paths(descs: Seq<DescriptorModel>) -> Seq<Seq<char>> {
    descs.map_values(|d: DescriptorModel| d.path)
}

/// The values of a sequence of runtime descriptors: the paths, in order.
pub open spec fn runtime_view(s: Seq<RuntimeChunkDescriptor>) -> Seq<Seq<char>> {
    s.map_values(|d: RuntimeChunkDescriptor| d.path@)
}

/// Law: descriptor extraction preserves the chunk group's order for every
/// group length, zero included: the sequence has exactly the group's
/// length, and the descriptor at each position describes the chunk at that
/// position.
pub proof fn lemma_order_preservation(root: Seq<char>, chunks: Seq<ChunkModel>)
    ensures
        descriptors_of(root, chunks).len() == chunks.len(),
        forall|i: int|
            0 <= i < chunks.len() ==> descriptors_of(root, chunks)[i] == descriptor_of(
                root,
                chunks[i],
            ),
        runtime_paths(descriptors_of(root, chunks)).len() == chunks.len(),
        forall|i: int|
            0 <= i < chunks.len() ==> runtime_paths(descriptors_of(root, chunks))[i]
                == server_chunk_path(root, chunks[i].relative_path),
{
}

/// A copy of an edge list.
pub fn clone_edges(v: &Vec<ReferenceEdge>) -> (r: Vec<ReferenceEdge>)
    ensures
        edges_view(r@) == edges_view(v@),
{
    let mut out: Vec<ReferenceEdge> = Vec::new();
    let mut i: usize = 0;
    while i < v.len()
        invariant
            i <= v@.len(),
            edges_view(out@) == edges_view(v@.subrange(0, i as int)),
        decreases v@.len() - i,
    {
        let e = ReferenceEdge {
            target: clone_chars(&v[i].target),
            description: clone_chars(&v[i].description),
        };
        proof {
            assert(e@ =~= v@[i as int]@);
        }
        let ghost pre = out@;
        out.push(e);
        proof {
            assert(out@ == pre.push(e));
            assert(edges_view(pre).len() == pre.len());
            assert(pre.len() == i);
            assert forall|j: int| 0 <= j < i + 1 implies edges_view(out@)[j] == edges_view(
                v@.subrange(0, i + 1 as int),
            )[j] by {
                assert(edges_view(out@)[j] == out@[j]@);
                assert(edges_view(v@.subrange(0, i + 1 as int))[j] == v@.subrange(
                    0,
                    i + 1 as int,
                )[j]@);
                assert(v@.subrange(0, i + 1 as int)[j] == v@[j]);
                if j < i {
                    assert(out@[j] == pre[j]);
                    assert(edges_view(pre)[j] == edges_view(v@.subrange(0, i as int))[j]);
                    assert(edges_view(pre)[j] == pre[j]@);
                    assert(edges_view(v@.subrange(0, i as int))[j] == v@.subrange(0, i as int)[j]@);
                    assert(v@.subrange(0, i as int)[j] == v@[j]);
                } else {
                    assert(out@[j] == e);
                }
            }
            assert(edges_view(out@) =~= edges_view(v@.subrange(0, i + 1 as int)));
        }
        i += 1;
    }
    proof {
        assert(v@.subrange(0, v@.len() as int) =~= v@);
    }
    out
}

/// Extracts the full build descriptor of every chunk, in the group's
/// order: each chunk's URL is the deployment root joined with its relative
/// path, and its nested references are carried over unchanged.
pub fn chunks_data(server_root: &Vec<char>, group: &ChunkGroup) -> (r: Vec<ChunkDescriptor>)
    ensures
        descs_view(r@) == descriptors_of(server_root@, group@),
{
    let mut out: Vec<ChunkDescriptor> = Vec::new();
    let mut i: usize = 0;
    while i < group.chunks.len()
        invariant
            i <= group.chunks@.len(),
            descs_view(out@) == descriptors_of(server_root@, group@.subrange(0, i as int)),
        decreases group.chunks@.len() - i,
    {
        let mut path = clone_chars(server_root);
        path.push('/');
        append_chars(&mut path, &group.chunks[i].relative_path);
        let d = ChunkDescriptor { path, references: clone_edges(&group.chunks[i].references) };
        proof {
            assert(group@[i as int] == group.chunks@[i as int]@);
            assert(d@ =~= descriptor_of(server_root@, group@[i as int]));
        }
        let ghost pre = out@;
        out.push(d);
        proof {
            assert(out@ == pre.push(d));
            assert(descs_view(pre).len() == pre.len());
            assert(pre.len() == i);
            let whole = group@;
            assert forall|j: int| 0 <= j < i + 1 implies descs_view(out@)[j] == descriptors_of(
                server_root@,
                whole.subrange(0, i + 1 as int),
            )[j] by {
                assert(descs_view(out@)[j] == out@[j]@);
                assert(descriptors_of(server_root@, whole.subrange(0, i + 1 as int))[j]
                    == descriptor_of(server_root@, whole.subrange(0, i + 1 as int)[j]));
                assert(whole.subrange(0, i + 1 as int)[j] == whole[j]);
                if j < i {
                    assert(out@[j] == pre[j]);
                    assert(descs_view(pre)[j] == descriptors_of(
                        server_root@,
                        whole.subrange(0, i as int),
                    )[j]);
                    assert(descs_view(pre)[j] == pre[j]@);
                    assert(descriptors_of(server_root@, whole.subrange(0, i as int))[j]
                        == descriptor_of(server_root@, whole.subrange(0, i as int)[j]));
                    assert(whole.subrange(0, i as int)[j] == whole[j]);
                } else {
                    assert(out@[j] == d);
                }
            }
            assert(descs_view(out@).len() == i + 1);
            assert(descriptors_of(server_root@, whole.subrange(0, i + 1 as int)).len() == i + 1);
            assert(descs_view(out@) =~= descriptors_of(
                server_root@,
                whole.subrange(0, i + 1 as int),
            ));
        }
        i += 1;
    }
    proof {
        assert(group@.subrange(0, group@.len() as int) =~= group@);
        assert(group@.len() == group.chunks@.len());
    }
    out
}

/// Reduces full descriptors to the runtime view, preserving order.
pub fn runtime_chunks_data(descs: &Vec<ChunkDescriptor>) -> (r: Vec<RuntimeChunkDescriptor>)
    ensures
        runtime_view(r@) == runtime_paths(descs_view(descs@)),
{
    let mut out: Vec<RuntimeChunkDescriptor> = Vec::new();
    let mut i: usize = 0;
    while i < descs.len()
        invariant
            i <= descs@.len(),
            runtime_view(out@) == runtime_paths(descs_view(descs@.subrange(0, i as int))),
        decreases descs@.len() - i,
    {
        let rd = RuntimeChunkDescriptor { path: clone_chars(&descs[i].path) };
        proof {
            assert(rd.path@ == descs@[i as int]@.path);
        }
        let ghost pre = out@;
        out.push(rd);
        proof {
            assert(out@ == pre.push(rd));
            assert(runtime_view(pre).len() == pre.len());
            assert(pre.len() == i);
            assert forall|j: int| 0 <= j < i + 1 implies runtime_view(out@)[j] == runtime_paths(
                descs_view(descs@.subrange(0, i + 1 as int)),
            )[j] by {
                assert(runtime_view(out@)[j] == out@[j].path@);
                assert(descs_view(descs@.subrange(0, i + 1 as int))[j] == descs@.subrange(
                    0,
                    i + 1 as int,
                )[j]@);
                assert(runtime_paths(descs_view(descs@.subrange(0, i + 1 as int)))[j]
                    == descs_view(descs@.subrange(0, i + 1 as int))[j].path);
                assert(descs@.subrange(0, i + 1 as int)[j] == descs@[j]);
                if j < i {
                    assert(out@[j] == pre[j]);
                    assert(runtime_view(pre)[j] == runtime_paths(
                        descs_view(descs@.subrange(0, i as int)),
                    )[j]);
                    assert(runtime_view(pre)[j] == pre[j].path@);
                    assert(descs_view(descs@.subrange(0, i as int))[j] == descs@.subrange(
                        0,
                        i as int,
                    )[j]@);
                    assert(runtime_paths(descs_view(descs@.subrange(0, i as int)))[j]
                        == descs_view(descs@.subrange(0, i as int))[j].path);
                    assert(descs@.subrange(0, i as int)[j] == descs@[j]);
                } else {
                    assert(out@[j] == rd);
                }
            }
            assert(runtime_view(out@).len() == i + 1);
            assert(runtime_paths(descs_view(descs@.subrange(0, i + 1 as int))).len() == i + 1);
            assert(runtime_view(out@) =~= runtime_paths(
                descs_view(descs@.subrange(0, i + 1 as int)),
            ));
        }
        i += 1;
    }
    proof {
        assert(descs@.subrange(0, descs@.len() as int) =~= descs@);
    }
    out
}

} // verus!

