use page_loader::PageLoaderError;
use page_loader::chunking::Chunk;
use page_loader::chunking::ReferenceEdge;
use page_loader::loader::ChunkingOutcome;
use page_loader::loader::chunking_request;
use page_loader::loader::create_page_loader;

fn chars(s: &str) -> Vec<char> {
    s.chars().collect()
}

fn text(v: &[char]) -> String {
    v.iter().collect()
}

fn chunk(path: &str) -> Chunk {
    Chunk { relative_path: chars(path), references: Vec::new() }
}

#[test]
fn about_scenario_content_and_identity() {
    let source = create_page_loader(chars(""), 1, 2, 42, chars("/about"));
    let asset = source.asset;
    let template = Some(chars("bootstrap();\n"));
    let outcome = ChunkingOutcome::Chunks(vec![chunk("chunkA.js"), chunk("chunkB.js")]);
    let group = asset.get_page_chunks(&template, outcome).unwrap();
    let descs = asset.chunks_data(&group);
    let content = asset.content(&descs);
    assert_eq!(
        text(&content),
        "__turbopack_load_page_chunks__(\"/about\", [{\"path\": \"/chunkA.js\"}, {\"path\": \"/chunkB.js\"}])\n"
    );
    let ident = asset.ident();
    assert_eq!(text(&ident), "/_next/static/chunks/pages/about.js");
}

#[test]
fn identity_has_root_prefix_and_route_filename() {
    let source = create_page_loader(chars("root"), 0, 0, 7, chars("/blog/post"));
    assert_eq!(text(&source.asset.ident()), "root/_next/static/chunks/pages/blog/post.js");
}

#[test]
fn identity_of_index_routes() {
    let root = create_page_loader(chars(""), 0, 0, 1, chars("/"));
    assert_eq!(text(&root.asset.ident()), "/_next/static/chunks/pages/index.js");
    let index = create_page_loader(chars(""), 0, 0, 1, chars("/index"));
    assert_eq!(text(&index.asset.ident()), "/_next/static/chunks/pages/index/index.js");
    let nested = create_page_loader(chars(""), 0, 0, 1, chars("/index/a"));
    assert_eq!(text(&nested.asset.ident()), "/_next/static/chunks/pages/index/index/a.js");
}

#[test]
fn identity_does_not_depend_on_chunks() {
    let source = create_page_loader(chars(""), 0, 0, 1, chars("/about"));
    let asset = source.asset;
    let before = text(&asset.ident());
    let template = Some(chars("x"));
    let outcome = ChunkingOutcome::Chunks(vec![chunk("other.js")]);
    let _ = asset.get_page_chunks(&template, outcome).unwrap();
    assert_eq!(text(&asset.ident()), before);
}

#[test]
fn empty_group_yields_empty_array() {
    let source = create_page_loader(chars(""), 0, 0, 1, chars("/about"));
    let asset = source.asset;
    let template = Some(chars("x"));
    let group = asset.get_page_chunks(&template, ChunkingOutcome::Chunks(Vec::new())).unwrap();
    let descs = asset.chunks_data(&group);
    assert_eq!(descs.len(), 0);
    let content = asset.content(&descs);
    assert_eq!(text(&content), "__turbopack_load_page_chunks__(\"/about\", [])\n");
}

#[test]
fn descriptor_order_matches_group_order() {
    let source = create_page_loader(chars("r"), 0, 0, 1, chars("/p"));
    let asset = source.asset;
    let template = Some(chars("x"));
    let outcome = ChunkingOutcome::Chunks(vec![chunk("a.js"), chunk("b.js"), chunk("c.js")]);
    let group = asset.get_page_chunks(&template, outcome).unwrap();
    let descs = asset.chunks_data(&group);
    let paths: Vec<String> = descs.iter().map(|d| text(&d.path)).collect();
    assert_eq!(paths, vec!["r/a.js", "r/b.js", "r/c.js"]);
}

#[test]
fn missing_template_fails_without_partial_artifact() {
    let source = create_page_loader(chars(""), 0, 0, 1, chars("/about"));
    let asset = source.asset;
    let outcome = ChunkingOutcome::Chunks(vec![chunk("a.js")]);
    let r = asset.get_page_chunks(&None, outcome);
    assert_eq!(r.unwrap_err(), PageLoaderError::MissingTemplate);
}

#[test]
fn resolution_failure_is_surfaced_unchanged() {
    let source = create_page_loader(chars(""), 0, 0, 1, chars("/about"));
    let asset = source.asset;
    let template = Some(chars("x"));
    let r = asset.get_page_chunks(&template, ChunkingOutcome::Failed(chars("policy broke")));
    assert_eq!(r.unwrap_err(), PageLoaderError::ResolutionFailure(chars("policy broke")));
}

#[test]
fn chunking_request_has_single_evaluatable_root() {
    let r = chunking_request(99);
    assert_eq!(r.root, 99);
    assert_eq!(r.evaluatable, vec![99]);
}

#[test]
fn references_cover_chunks_and_nested_edges() {
    let source = create_page_loader(chars(""), 0, 0, 1, chars("/about"));
    let asset = source.asset;
    let template = Some(chars("x"));
    let with_refs = Chunk {
        relative_path: chars("a.js"),
        references: vec![ReferenceEdge {
            target: chars("a.js.map"),
            description: chars("source map"),
        }],
    };
    let outcome = ChunkingOutcome::Chunks(vec![with_refs, chunk("b.js")]);
    let group = asset.get_page_chunks(&template, outcome).unwrap();
    let descs = asset.chunks_data(&group);
    let refs = asset.references(&group, &descs);
    assert_eq!(refs.len(), 3);
    assert_eq!(text(&refs[0].target), "a.js");
    assert_eq!(text(&refs[0].description), "page loader chunk");
    assert_eq!(text(&refs[1].target), "b.js");
    assert_eq!(text(&refs[1].description), "page loader chunk");
    assert_eq!(text(&refs[2].target), "a.js.map");
    assert_eq!(text(&refs[2].description), "source map");
}

#[test]
fn content_is_deterministic() {
    let source = create_page_loader(chars(""), 0, 0, 1, chars("/about"));
    let asset = source.asset;
    let template = Some(chars("x"));
    let make = || {
        let outcome = ChunkingOutcome::Chunks(vec![chunk("a.js"), chunk("b.js")]);
        let group = asset.get_page_chunks(&template, outcome).unwrap();
        let descs = asset.chunks_data(&group);
        text(&asset.content(&descs))
    };
    assert_eq!(make(), make());
}
