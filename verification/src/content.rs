//! The content synthesizer: the bytes of the loader artifact.
//!
//! The artifact is a single statement that calls the well-known runtime
//! entry point with two literal-encoded arguments: the route path and the
//! array of runtime chunk descriptors, in the chunk group's order. Both
//! arguments are rendered as language literals, never by raw
//! concatenation, and the rendering is a pure function of its inputs:
//! byte-identical inputs give a byte-identical artifact.

use vstd::prelude::*;
use crate::chunking::RuntimeChunkDescriptor;
use crate::chunking::runtime_view;
use crate::js_literal::encode_js_string;
use crate::js_literal::js_string_literal;
use crate::text::append_chars;
use crate::text::append_str;

verus! {

/// One runtime descriptor, rendered as an object literal.
pub open spec fn runtime_descriptor_literal(path: Seq<char>) -> Seq<char> {
    "{\"path\": "@ + js_string_literal(path) + "}"@
}

/// The body of the descriptor array literal: the descriptors in order,
/// separated by commas.
pub open spec fn descriptor_array_body(paths: Seq<Seq<char>>) -> Seq<char>
    decreases paths.len(),
{
    if paths.len() == 0 {
        Seq::empty()
    } else if paths.len() == 1 {
        runtime_descriptor_literal(paths[0])
    } else {
        descriptor_array_body(paths.drop_last()) + ", "@ + runtime_descriptor_literal(paths.last())
    }
}

/// The call head and the open parenthesis of the loader statement.
pub open spec fn loader_call_head() -> Seq<char> {
    "__turbopack_load_page_chunks__("@
}

/// Everything of the statement up to and including the descriptors
/// rendered so far.
pub open spec fn content_prefix(route: Seq<char>, paths: Seq<Seq<char>>) -> Seq<char> {
    loader_call_head() + js_string_literal(route) + ", ["@ + descriptor_array_body(paths)
}

/// The whole artifact content for a route and its runtime descriptor
/// paths: one statement calling the runtime entry point with the route
/// path literal and the descriptor array literal, closed by a newline. An
/// empty group yields an empty array, not an error.
pub open spec fn page_loader_content(route: Seq<char>, paths: Seq<Seq<char>>) -> Seq<char> {
    content_prefix(route, paths) + "])\n"@
}

/// Law: the content is a function of the route path and the descriptor
/// paths alone; computing it twice from equal inputs gives byte-identical
/// artifacts.
pub proof fn lemma_content_deterministic(
    route1: Seq<char>,
    paths1: Seq<Seq<char>>,
    route2: Seq<char>,
    paths2: Seq<Seq<char>>,
)
    requires
        route1 == route2,
        paths1 == paths2,
    ensures
        page_loader_content(route1, paths1) == page_loader_content(route2, paths2),
{
}

/// Growing the path sequence extends the array body at its end.
proof fn lemma_array_body_snoc(paths: Seq<Seq<char>>, i: int)
    requires
        0 <= i < paths.len(),
    ensures
        i == 0 ==> descriptor_array_body(paths.take(1)) == runtime_descriptor_literal(paths[0]),
        i > 0 ==> descriptor_array_body(paths.take(i + 1)) == descriptor_array_body(paths.take(i))
            + ", "@ + runtime_descriptor_literal(paths[i]),
{
    let step = paths.take(i + 1);
    assert(step.len() == i + 1);
    if i == 0 {
        assert(step[0] == paths[0]);
        assert(descriptor_array_body(step) == runtime_descriptor_literal(paths[0]));
    } else {
        assert(step.drop_last() =~= paths.take(i));
        assert(step.last() == paths[i]);
    }
}

/// Renders the loader statement for a route and the runtime descriptors,
/// in the descriptors' order.
pub fn render_content(route: &Vec<char>, descriptors: &Vec<RuntimeChunkDescriptor>) -> (r: Vec<
    char,
>)
    ensures
        r@ == page_loader_content(route@, runtime_view(descriptors@)),
{
    let mut out: Vec<char> = Vec::new();
    append_str(&mut out, "__turbopack_load_page_chunks__(");
    let route_lit = encode_js_string(route);
    append_chars(&mut out, &route_lit);
    append_str(&mut out, ", [");
    proof {
        assert(runtime_view(descriptors@).take(0) =~= Seq::<Seq<char>>::empty());
        assert(out@ =~= content_prefix(route@, runtime_view(descriptors@).take(0)));
    }
    let mut i: usize = 0;
    while i < descriptors.len()
        invariant
            i <= descriptors@.len(),
            out@ == content_prefix(route@, runtime_view(descriptors@).take(i as int)),
        decreases descriptors@.len() - i,
    {
        let ghost paths = runtime_view(descriptors@);
        if i > 0 {
            append_str(&mut out, ", ");
        }
        append_str(&mut out, "{\"path\": ");
        let path_lit = encode_js_string(&descriptors[i].path);
        append_chars(&mut out, &path_lit);
        append_str(&mut out, "}");
        proof {
            assert(paths[i as int] == descriptors@[i as int].path@);
            lemma_array_body_snoc(paths, i as int);
            if i == 0 {
                assert(out@ =~= content_prefix(route@, paths.take(1)));
            } else {
                assert(out@ =~= content_prefix(route@, paths.take(i + 1 as int)));
            }
        }
        i += 1;
    }
    append_str(&mut out, "])\n");
    proof {
        assert(runtime_view(descriptors@).take(descriptors@.len() as int) =~= runtime_view(
            descriptors@,
        ));
        assert(out@ =~= page_loader_content(route@, runtime_view(descriptors@)));
    }
    out
}

} // verus!
