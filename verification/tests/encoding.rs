use page_loader::PageLoaderError;
use page_loader::entry::get_loader_entry_asset;
use page_loader::entry::resolve_inner_import;
use page_loader::js_literal::encode_js_string;
use page_loader::loader::ChunkingOutcome;
use page_loader::loader::create_page_loader;

fn chars(s: &str) -> Vec<char> {
    s.chars().collect()
}

fn text(v: &[char]) -> String {
    v.iter().collect()
}

#[test]
fn plain_text_is_quoted_verbatim() {
    assert_eq!(text(&encode_js_string(&chars("/about"))), "\"/about\"");
}

#[test]
fn quotes_and_backslashes_are_escaped() {
    assert_eq!(text(&encode_js_string(&chars("a\"b\\c"))), "\"a\\\"b\\\\c\"");
}

#[test]
fn control_and_separator_characters_become_unicode_escapes() {
    assert_eq!(text(&encode_js_string(&chars("a\nb"))), "\"a\\u000ab\"");
    assert_eq!(text(&encode_js_string(&chars("a\tb"))), "\"a\\u0009b\"");
    assert_eq!(text(&encode_js_string(&chars("a\u{2028}b"))), "\"a\\u2028b\"");
    assert_eq!(text(&encode_js_string(&chars("a\u{2029}b"))), "\"a\\u2029b\"");
}

#[test]
fn unicode_text_passes_through() {
    assert_eq!(text(&encode_js_string(&chars("/héllo/日本"))), "\"/héllo/日本\"");
}

#[test]
fn hostile_route_is_contained_in_content() {
    let route = "/x\"), attack(); (\"";
    let source = create_page_loader(chars(""), 0, 0, 1, chars(route));
    let asset = source.asset;
    let template = Some(chars("t"));
    let group = asset.get_page_chunks(&template, ChunkingOutcome::Chunks(Vec::new())).unwrap();
    let descs = asset.chunks_data(&group);
    let content = text(&asset.content(&descs));
    assert_eq!(
        content,
        "__turbopack_load_page_chunks__(\"/x\\\"), attack(); (\\\"\", [])\n"
    );
}

#[test]
fn entry_code_holds_route_constant_then_template() {
    let r = get_loader_entry_asset(&chars("/about"), &Some(chars("boot();\n")), 42).unwrap();
    assert_eq!(text(&r.path), "entry/page-loader.ts");
    assert_eq!(text(&r.code), "const PAGE_PATH = \"/about\";\n\nboot();\n");
}

#[test]
fn entry_binds_page_module_to_fixed_import_name() {
    let r = get_loader_entry_asset(&chars("/about"), &Some(chars("t")), 42).unwrap();
    assert_eq!(resolve_inner_import(&r, "PAGE"), Some(42));
    assert_eq!(resolve_inner_import(&r, "OTHER"), None);
}

#[test]
fn entry_without_template_is_missing_template() {
    let r = get_loader_entry_asset(&chars("/about"), &None, 42);
    assert_eq!(r.unwrap_err(), PageLoaderError::MissingTemplate);
}

#[test]
fn loader_entry_escapes_route_in_constant() {
    let r = get_loader_entry_asset(&chars("/a\"b"), &Some(chars("t")), 1).unwrap();
    assert_eq!(text(&r.code), "const PAGE_PATH = \"/a\\\"b\";\n\nt");
}
