//! The reference collector: the complete dependency edge set of the loader
//! artifact.
//!
//! The build graph invalidates the artifact through these edges, so the set
//! must be complete: one edge per chunk of the group, plus every nested
//! reference that any chunk's full descriptor carries. Omitting an edge
//! would let a stale artifact survive a dependency change; an extra edge
//! only costs recomputation, so the collection favors completeness.

use vstd::prelude::*;
use crate::chunking::Chunk;
use crate::chunking::ChunkDescriptor;
use crate::chunking::ChunkGroup;
use crate::chunking::ChunkModel;
use crate::chunking::DescriptorModel;
use crate::chunking::ReferenceEdge;
use crate::chunking::ReferenceModel;
use crate::chunking::clone_edges;
use crate::chunking::descs_view;
use crate::chunking::edges_view;
use crate::text::chars_of;
use crate::text::clone_chars;

verus! {

/// The label every direct chunk edge carries.
pub open spec fn chunk_reference_label() -> Seq<char> {
    "page loader chunk"@
}

/// The label for a direct chunk edge.
pub fn page_loader_chunk_reference_description() -> (r: Vec<char>)
    ensures
        r@ == chunk_reference_label(),
{
    chars_of("page loader chunk")
}

/// The direct edge for one chunk.
pub open spec fn chunk_edge(c: ChunkModel) -> ReferenceModel {
    ReferenceModel { target: c.relative_path, description: chunk_reference_label() }
}

/// The direct edges of a group, in the group's order.
pub open spec fn chunk_edges(chunks: Seq<ChunkModel>) -> Seq<ReferenceModel> {
    chunks.map_values(|c: ChunkModel| chunk_edge(c))
}

/// The nested references of a descriptor sequence, concatenated in order.
pub open spec fn nested_edges(descs: Seq<DescriptorModel>) -> Seq<ReferenceModel>
    decreases descs.len(),
{
    if descs.len() == 0 {
        Seq::empty()
    } else {
        nested_edges(descs.drop_last()) + descs.last().references
    }
}

/// The complete edge set of the artifact: the direct chunk edges followed
/// by every nested reference.
pub open spec fn collected_edges(chunks: Seq<ChunkModel>, descs: Seq<DescriptorModel>) -> Seq<
    ReferenceModel,
> {
    chunk_edges(chunks) + nested_edges(descs)
}

/// A nested reference of any descriptor stands in the nested edge
/// sequence.
proof fn lemma_nested_edges_contains(descs: Seq<DescriptorModel>, i: int, j: int)
    requires
        0 <= i < descs.len(),
        0 <= j < descs[i].references.len(),
    ensures
        nested_edges(descs).contains(descs[i].references[j]),
    decreases descs.len(),
{
    let e = descs[i].references[j];
    if i == descs.len() - 1 {
        let k = nested_edges(descs.drop_last()).len() + j;
        assert(nested_edges(descs)[k] == e);
        assert(nested_edges(descs).contains(e));
    } else {
        lemma_nested_edges_contains(descs.drop_last(), i, j);
        let k = choose|k: int|
            0 <= k < nested_edges(descs.drop_last()).len() && nested_edges(descs.drop_last())[k]
                == e;
        assert(nested_edges(descs)[k] == e);
        assert(nested_edges(descs).contains(e));
    }
}

/// Law: the collected edge set is complete. Every chunk of the group
/// stands in it as a direct edge at its own position, and every nested
/// reference of every descriptor stands in it as well; nothing is omitted.
pub proof fn lemma_reference_completeness(chunks: Seq<ChunkModel>, descs: Seq<DescriptorModel>)
    ensures
        forall|i: int|
            0 <= i < chunks.len() ==> collected_edges(chunks, descs)[i] == chunk_edge(chunks[i]),
        forall|i: int, j: int|
            0 <= i < descs.len() && 0 <= j < descs[i].references.len() ==> collected_edges(
                chunks,
                descs,
            ).contains(descs[i].references[j]),
{
    assert forall|i: int, j: int|
        0 <= i < descs.len() && 0 <= j < descs[i].references.len() implies collected_edges(
        chunks,
        descs,
    ).contains(descs[i].references[j]) by {
        lemma_nested_edges_contains(descs, i, j);
        let e = descs[i].references[j];
        let k = choose|k: int|
            0 <= k < nested_edges(descs).len() && nested_edges(descs)[k] == e;
        assert(collected_edges(chunks, descs)[chunk_edges(chunks).len() + k] == e);
        assert(collected_edges(chunks, descs).contains(e));
    }
}

/// Collects the complete reference set of the artifact: one labelled edge
/// per chunk of the group, in order, followed by every nested reference of
/// every full descriptor, in order.
pub fn collect_references(group: &ChunkGroup, descs: &Vec<ChunkDescriptor>) -> (r: Vec<
    ReferenceEdge,
>)
    ensures
        edges_view(r@) == collected_edges(group@, descs_view(descs@)),
{
    let mut out: Vec<ReferenceEdge> = Vec::new();
    let mut i: usize = 0;
    while i < group.chunks.len()
        invariant
            i <= group.chunks@.len(),
            edges_view(out@) == chunk_edges(group@.subrange(0, i as int)),
        decreases group.chunks@.len() - i,
    {
        let e = ReferenceEdge {
            target: clone_chars(&group.chunks[i].relative_path),
            description: page_loader_chunk_reference_description(),
        };
        proof {
            assert(group@[i as int] == group.chunks@[i as int]@);
            assert(e@ =~= chunk_edge(group@[i as int]));
        }
        let ghost pre = out@;
        out.push(e);
        proof {
            assert(out@ == pre.push(e));
            assert(edges_view(pre).len() == pre.len());
            assert(pre.len() == i);
            let whole = group@;
            assert forall|j: int| 0 <= j < i + 1 implies edges_view(out@)[j] == chunk_edges(
                whole.subrange(0, i + 1 as int),
            )[j] by {
                assert(edges_view(out@)[j] == out@[j]@);
                assert(chunk_edges(whole.subrange(0, i + 1 as int))[j] == chunk_edge(
                    whole.subrange(0, i + 1 as int)[j],
                ));
                assert(whole.subrange(0, i + 1 as int)[j] == whole[j]);
                if j < i {
                    assert(out@[j] == pre[j]);
                    assert(edges_view(pre)[j] == chunk_edges(whole.subrange(0, i as int))[j]);
                    assert(edges_view(pre)[j] == pre[j]@);
                    assert(chunk_edges(whole.subrange(0, i as int))[j] == chunk_edge(
                        whole.subrange(0, i as int)[j],
                    ));
                    assert(whole.subrange(0, i as int)[j] == whole[j]);
                } else {
                    assert(out@[j] == e);
                }
            }
            assert(edges_view(out@).len() == i + 1);
            assert(chunk_edges(whole.subrange(0, i + 1 as int)).len() == i + 1);
            assert(edges_view(out@) =~= chunk_edges(whole.subrange(0, i + 1 as int)));
        }
        i += 1;
    }
    proof {
        assert(group@.subrange(0, group@.len() as int) =~= group@);
        assert(group@.len() == group.chunks@.len());
    }
    let mut k: usize = 0;
    while k < descs.len()
        invariant
            k <= descs@.len(),
            edges_view(out@) == chunk_edges(group@) + nested_edges(
                descs_view(descs@.subrange(0, k as int)),
            ),
        decreases descs@.len() - k,
    {
        let mut nested = clone_edges(&descs[k].references);
        let ghost nv = nested@;
        let ghost pre = out@;
        out.append(&mut nested);
        proof {
            assert(out@ == pre + nv);
            lemma_edges_view_append(pre, nv);
            assert(descs@[k as int]@.references == edges_view(descs@[k as int].references@));
            assert(edges_view(nv) == descs@[k as int]@.references);
            let step = descs_view(descs@.subrange(0, k + 1 as int));
            assert(step.drop_last() =~= descs_view(descs@.subrange(0, k as int)));
            assert(step.last() == descs@.subrange(0, k + 1 as int)[k as int]@);
            assert(step.last() == descs@[k as int]@);
            assert(nested_edges(step) == nested_edges(descs_view(descs@.subrange(0, k as int)))
                + descs@[k as int]@.references);
            assert(edges_view(out@) =~= chunk_edges(group@) + nested_edges(step));
        }
        k += 1;
    }
    proof {
        assert(descs@.subrange(0, descs@.len() as int) =~= descs@);
    }
    out
}

/// Mapping edges to their values distributes over concatenation.
proof fn lemma_edges_view_append(a: Seq<ReferenceEdge>, b: Seq<ReferenceEdge>)
    ensures
        edges_view(a + b) == edges_view(a) + edges_view(b),
{
    assert forall|j: int| 0 <= j < a.len() + b.len() implies edges_view(a + b)[j] == (edges_view(a)
        + edges_view(b))[j] by {
        assert(edges_view(a + b)[j] == (a + b)[j]@);
        if j < a.len() {
            assert((a + b)[j] == a[j]);
            assert(edges_view(a)[j] == a[j]@);
        } else {
            assert((a + b)[j] == b[j - a.len()]);
            assert(edges_view(b)[j - a.len()] == b[j - a.len()]@);
        }
    }
    assert(edges_view(a + b) =~= edges_view(a) + edges_view(b));
}

} // verus!
