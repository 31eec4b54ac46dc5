use page_loader::PageLoaderError;
use page_loader::chunking::Chunk;
use page_loader::font::FontDescriptor;
use page_loader::font::FontDescriptors;
use page_loader::font::FontError;
use page_loader::font::NextFontLocalOptions;
use page_loader::font::build_font_face_definitions;
use page_loader::font::build_stylesheet;
use page_loader::font::ext_to_format;
use page_loader::loader::ChunkingOutcome;
use page_loader::loader::create_page_loader;
use page_loader::runtime::RuntimeResolution;
use page_loader::runtime::resolve_runtime_request;
use page_loader::runtime::runtime_request_path;
use page_loader::store::ArtifactCache;
use page_loader::store::ArtifactInputs;
use page_loader::store::compute_artifact;
use page_loader::web_entry::DefineValue;
use page_loader::web_entry::EntryModule;
use page_loader::web_entry::RuntimeEntry;
use page_loader::web_entry::create_web_entry_source;
use page_loader::web_entry::get_compile_time_info;
use page_loader::web_entry::get_web_runtime_entries;
use page_loader::web_entry::web_defines;
use page_loader::web_entry::web_free_vars;

fn chars(s: &str) -> Vec<char> {
    s.chars().collect()
}

fn text(v: &[char]) -> String {
    v.iter().collect()
}

fn chunk(path: &str) -> Chunk {
    Chunk { relative_path: chars(path), references: Vec::new() }
}

fn inputs(route: &str, template: Option<&str>, outcome: ChunkingOutcome) -> ArtifactInputs {
    let source = create_page_loader(chars(""), 0, 0, 1, chars(route));
    ArtifactInputs { asset: source.asset, template: template.map(chars), outcome }
}

#[test]
fn repeated_request_shares_one_evaluation() {
    let mut cache = ArtifactCache::new();
    assert_eq!(cache.evaluation_count(), 0);
    let first = cache
        .request(inputs("/about", Some("t"), ChunkingOutcome::Chunks(vec![chunk("a.js")])))
        .unwrap();
    assert_eq!(cache.evaluation_count(), 1);
    let second = cache
        .request(inputs("/about", Some("t"), ChunkingOutcome::Chunks(vec![chunk("a.js")])))
        .unwrap();
    assert_eq!(cache.evaluation_count(), 1);
    assert_eq!(text(&first.content), text(&second.content));
    assert_eq!(text(&first.identity), text(&second.identity));
}

#[test]
fn changed_input_recomputes() {
    let mut cache = ArtifactCache::new();
    let a = cache
        .request(inputs("/a", Some("t"), ChunkingOutcome::Chunks(vec![chunk("a.js")])))
        .unwrap();
    let b = cache
        .request(inputs("/a", Some("t"), ChunkingOutcome::Chunks(vec![chunk("b.js")])))
        .unwrap();
    assert_eq!(cache.evaluation_count(), 2);
    assert_ne!(text(&a.content), text(&b.content));
    assert_eq!(text(&a.identity), text(&b.identity));
}

#[test]
fn failures_are_reported_and_not_cached() {
    let mut cache = ArtifactCache::new();
    let r = cache.request(inputs("/a", None, ChunkingOutcome::Chunks(Vec::new())));
    assert_eq!(r.unwrap_err(), PageLoaderError::MissingTemplate);
    assert_eq!(cache.evaluation_count(), 1);
    let r = cache.request(inputs("/a", None, ChunkingOutcome::Chunks(Vec::new())));
    assert_eq!(r.unwrap_err(), PageLoaderError::MissingTemplate);
    assert_eq!(cache.evaluation_count(), 2);
}

#[test]
fn compute_artifact_assembles_all_three_facets() {
    let r = compute_artifact(&inputs(
        "/about",
        Some("t"),
        ChunkingOutcome::Chunks(vec![chunk("a.js")]),
    ))
    .unwrap();
    assert_eq!(text(&r.identity), "/_next/static/chunks/pages/about.js");
    assert_eq!(
        text(&r.content),
        "__turbopack_load_page_chunks__(\"/about\", [{\"path\": \"/a.js\"}])\n"
    );
    assert_eq!(r.references.len(), 1);
    assert_eq!(text(&r.references[0].target), "a.js");
}

#[test]
fn runtime_request_is_prefixed() {
    assert_eq!(
        text(&runtime_request_path(&chars("dev/runtime"))),
        "@vercel/turbopack-next/dev/runtime"
    );
}

#[test]
fn runtime_resolution_outcomes() {
    assert_eq!(resolve_runtime_request(&chars("dev/runtime"), RuntimeResolution::Placeable(9)), Ok(9));
    assert_eq!(
        resolve_runtime_request(&chars("dev/runtime"), RuntimeResolution::NotPlaceable),
        Err(PageLoaderError::NotEvaluatable)
    );
    assert_eq!(
        resolve_runtime_request(&chars("dev/runtime"), RuntimeResolution::NotFound),
        Err(PageLoaderError::ResolutionFailure(chars(
            "could not resolve the `@vercel/turbopack-next/dev/runtime` module"
        )))
    );
}

#[test]
fn web_defines_hold_bundler_marker_and_node_env() {
    let d = web_defines();
    assert_eq!(d.len(), 2);
    let path0: Vec<String> = d[0].path.iter().map(|p| text(p)).collect();
    assert_eq!(path0, vec!["process", "turbopack"]);
    assert!(matches!(d[0].value, DefineValue::Boolean(true)));
    let path1: Vec<String> = d[1].path.iter().map(|p| text(p)).collect();
    assert_eq!(path1, vec!["process", "env", "NODE_ENV"]);
    match &d[1].value {
        DefineValue::Text(v) => assert_eq!(text(v), "development"),
        DefineValue::Boolean(_) => panic!("NODE_ENV must be a string define"),
    }
    assert_eq!(web_free_vars().len(), 2);
}

#[test]
fn compile_time_info_describes_a_browser() {
    let info = get_compile_time_info(&chars("last 1 chrome versions"));
    assert!(info.environment.dom);
    assert!(!info.environment.web_worker);
    assert!(!info.environment.service_worker);
    assert_eq!(text(&info.environment.browserslist_query), "last 1 chrome versions");
    assert_eq!(info.defines.len(), 2);
    assert_eq!(info.free_var_references.len(), 2);
}

#[test]
fn refresh_runtime_comes_before_bootstrap() {
    let entries = get_web_runtime_entries(&chars("proj"), Some(5));
    assert_eq!(entries.len(), 2);
    match &entries[0] {
        RuntimeEntry::Request(m, p) => {
            assert_eq!(*m, 5);
            assert_eq!(text(p), "proj/_");
        },
        RuntimeEntry::Source(_) => panic!("refresh must come first"),
    }
    match &entries[1] {
        RuntimeEntry::Source(p) => assert_eq!(text(p), "dev/bootstrap.ts"),
        RuntimeEntry::Request(..) => panic!("bootstrap must come last"),
    }
    let plain = get_web_runtime_entries(&chars("proj"), None);
    assert_eq!(plain.len(), 1);
    assert!(matches!(&plain[0], RuntimeEntry::Source(_)));
}

#[test]
fn web_entries_classify_in_order_and_drop_unresolved() {
    let resolved = vec![
        Some(EntryModule::Ecmascript(1)),
        None,
        Some(EntryModule::Chunkable(2)),
    ];
    let src = create_web_entry_source(&chars("root"), &resolved, 7, true).unwrap();
    assert_eq!(text(&src.html_path), "root/index.html");
    assert!(src.eager);
    assert_eq!(src.entries.len(), 2);
    assert_eq!(src.entries[0].module, 1);
    assert!(src.entries[0].has_runtime_entries);
    assert_eq!(src.entries[0].chunking_context, 7);
    assert_eq!(src.entries[1].module, 2);
    assert!(!src.entries[1].has_runtime_entries);
}

#[test]
fn unsupported_entry_is_not_evaluatable() {
    let resolved = vec![Some(EntryModule::Ecmascript(1)), Some(EntryModule::Unsupported)];
    let r = create_web_entry_source(&chars("root"), &resolved, 7, false);
    assert_eq!(r.unwrap_err(), PageLoaderError::NotEvaluatable);
}

#[test]
fn ext_to_format_maps_known_extensions() {
    assert_eq!(text(&ext_to_format(&chars("woff")).unwrap()), "woff");
    assert_eq!(text(&ext_to_format(&chars("woff2")).unwrap()), "woff2");
    assert_eq!(text(&ext_to_format(&chars("ttf")).unwrap()), "truetype");
    assert_eq!(text(&ext_to_format(&chars("otf")).unwrap()), "opentype");
    assert_eq!(text(&ext_to_format(&chars("eot")).unwrap()), "embedded-opentype");
    assert_eq!(ext_to_format(&chars("svg")).unwrap_err(), FontError::UnknownExtension);
}

fn font(path: &str, ext: &str, weight: Option<&str>, style: Option<&str>) -> FontDescriptor {
    FontDescriptor {
        path: chars(path),
        ext: chars(ext),
        weight: weight.map(chars),
        style: style.map(chars),
    }
}

#[test]
fn font_face_definition_for_one_font() {
    let options = NextFontLocalOptions {
        fonts: FontDescriptors::One(font("./inter.woff2", "woff2", Some("400"), None)),
        display: chars("swap"),
        default_weight: None,
        default_style: Some(chars("normal")),
    };
    let css = build_font_face_definitions(&chars("Inter_abc123"), &options).unwrap();
    assert_eq!(
        text(&css),
        "@font-face {\n    font-family: 'Inter_abc123';\n    src: url('./inter.woff2') format('woff2');\n    font-display: swap;\n    font-weight: 400;font-style: normal;\n}\n"
    );
}

#[test]
fn unknown_font_extension_fails() {
    let options = NextFontLocalOptions {
        fonts: FontDescriptors::Many(vec![
            font("a.woff", "woff", None, None),
            font("b.svg", "svg", None, None),
        ]),
        display: chars("swap"),
        default_weight: None,
        default_style: None,
    };
    let r = build_font_face_definitions(&chars("F"), &options);
    assert_eq!(r.unwrap_err(), FontError::UnknownExtension);
}

#[test]
fn stylesheet_stacks_definitions_fallback_and_rules() {
    let options = NextFontLocalOptions {
        fonts: FontDescriptors::Many(Vec::new()),
        display: chars("swap"),
        default_weight: None,
        default_style: None,
    };
    let css = build_stylesheet(&chars("F"), &options, &chars("fallback"), &chars("rules")).unwrap();
    assert_eq!(text(&css), "\nfallback\nrules\n");
}
