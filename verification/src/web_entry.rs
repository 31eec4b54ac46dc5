//! The web entry source: the compile-time environment of the client build
//! and the decisions that turn resolved entry requests into a servable
//! asset graph.
//!
//! Resolution and compilation are delegated; their answers arrive as
//! plain values. What is decided here: the fixed compile-time defines,
//! the browser environment, the runtime entries and their order, and the
//! classification of each resolved entry module into one of a closed set
//! of kinds — an already-compiled module, a generically chunkable asset,
//! or an unsupported one, which is fatal.

use vstd::prelude::*;
use crate::PageLoaderError;
use crate::text::append_chars;
use crate::text::append_str;
use crate::text::chars_of;

verus! {

/// A compile-time define's value.
#[derive(Debug)]
pub enum DefineValue {
    /// A boolean constant.
    Boolean(bool),
    /// A string constant.
    Text(Vec<char>),
}

/// One compile-time define: a dotted reference path and the constant it
/// is replaced with.
#[derive(Debug)]
pub struct CompileTimeDefine {
    /// The segments of the dotted reference path.
    pub path: Vec<Vec<char>>,
    /// The constant.
    pub value: DefineValue,
}

/// The defines of the client build: the bundler marker set to true, and
/// the environment name set to development.
pub open spec fn is_web_defines(s: Seq<CompileTimeDefine>) -> bool {
    &&& s.len() == 2
    &&& s[0].path@.len() == 2
    &&& s[0].path@[0]@ == "process"@
    &&& s[0].path@[1]@ == "turbopack"@
    &&& s[0].value == DefineValue::Boolean(true)
    &&& s[1].path@.len() == 3
    &&& s[1].path@[0]@ == "process"@
    &&& s[1].path@[1]@ == "env"@
    &&& s[1].path@[2]@ == "NODE_ENV"@
    &&& (s[1].value matches DefineValue::Text(v) && v@ == "development"@)
}

/// Builds the compile-time defines of the client build.
fn defines() -> (r: Vec<CompileTimeDefine>)
    ensures
        is_web_defines(r@),
{
    let mut turbopack_path: Vec<Vec<char>> = Vec::new();
    turbopack_path.push(chars_of("process"));
    turbopack_path.push(chars_of("turbopack"));
    let mut node_env_path: Vec<Vec<char>> = Vec::new();
    node_env_path.push(chars_of("process"));
    node_env_path.push(chars_of("env"));
    node_env_path.push(chars_of("NODE_ENV"));
    let mut out: Vec<CompileTimeDefine> = Vec::new();
    out.push(CompileTimeDefine { path: turbopack_path, value: DefineValue::Boolean(true) });
    out.push(
        CompileTimeDefine { path: node_env_path, value: DefineValue::Text(chars_of("development")) },
    );
    out
}

/// The compile-time defines of the client build.
pub fn web_defines() -> (r: Vec<CompileTimeDefine>)
    ensures
        is_web_defines(r@),
{
    defines()
}

/// The free-variable references of the client build: one per define, for
/// the same paths and constants.
pub fn web_free_vars() -> (r: Vec<CompileTimeDefine>)
    ensures
        is_web_defines(r@),
{
    defines()
}

/// The browser execution environment the client build compiles for.
#[derive(Debug)]
pub struct BrowserEnvironment {
    /// Whether the DOM is available.
    pub dom: bool,
    /// Whether the code runs in a web worker.
    pub web_worker: bool,
    /// Whether the code runs in a service worker.
    pub service_worker: bool,
    /// The browserslist query naming the supported browsers.
    pub browserslist_query: Vec<char>,
}

/// What the compiled code is intended for.
#[derive(Debug)]
pub enum EnvironmentIntention {
    /// Code intended for the browser.
    Client,
}

/// The compile-time information of the client build.
#[derive(Debug)]
pub struct CompileTimeInfo {
    /// The execution environment.
    pub environment: BrowserEnvironment,
    /// What the environment is intended for.
    pub intention: EnvironmentIntention,
    /// The compile-time defines.
    pub defines: Vec<CompileTimeDefine>,
    /// The free-variable references.
    pub free_var_references: Vec<CompileTimeDefine>,
}

/// Builds the compile-time information of the client build: a browser
/// environment with the DOM available and no worker contexts, intended
/// for the client, carrying the web defines and their free-variable
/// references.
pub fn get_compile_time_info(browserslist_query: &Vec<char>) -> (r: CompileTimeInfo)
    ensures
        r.environment.dom,
        !r.environment.web_worker,
        !r.environment.service_worker,
        r.environment.browserslist_query@ == browserslist_query@,
        r.intention is Client,
        is_web_defines(r.defines@),
        is_web_defines(r.free_var_references@),
{
    let mut query: Vec<char> = Vec::new();
    append_chars(&mut query, browserslist_query);
    CompileTimeInfo {
        environment: BrowserEnvironment {
            dom: true,
            web_worker: false,
            service_worker: false,
            browserslist_query: query,
        },
        intention: EnvironmentIntention::Client,
        defines: web_defines(),
        free_var_references: web_free_vars(),
    }
}

/// One runtime entry of the client build.
#[derive(Debug)]
pub enum RuntimeEntry {
    /// A request to resolve, relative to the given path.
    Request(u64, Vec<char>),
    /// An already-known source asset at the given path.
    Source(Vec<char>),
}

/// The path of the bootstrap source asset.
pub open spec fn bootstrap_path() -> Seq<char> {
    "dev/bootstrap.ts"@
}

/// Builds the runtime entries of the client build. The refresh runtime,
/// when it can be resolved, must come before the bootstrap file: the
/// bootstrap contains code that needs the refresh runtime's globals to be
/// available already.
pub fn get_web_runtime_entries(project_root: &Vec<char>, react_refresh: Option<u64>) -> (r: Vec<
    RuntimeEntry,
>)
    ensures
        match react_refresh {
            Some(m) => r@.len() == 2 && (r@[0] matches RuntimeEntry::Request(q, p) && q == m && p@
                == project_root@ + seq!['/', '_']) && (r@[1] matches RuntimeEntry::Source(p) && p@
                == bootstrap_path()),
            None => r@.len() == 1 && (r@[0] matches RuntimeEntry::Source(p) && p@
                == bootstrap_path()),
        },
{
    let mut out: Vec<RuntimeEntry> = Vec::new();
    match react_refresh {
        Some(m) => {
            let mut anchor: Vec<char> = Vec::new();
            append_chars(&mut anchor, project_root);
            append_str(&mut anchor, "/_");
            proof {
                reveal_strlit("/_");
                assert(anchor@ =~= project_root@ + seq!['/', '_']);
            }
            out.push(RuntimeEntry::Request(m, anchor));
        },
        None => {},
    }
    out.push(RuntimeEntry::Source(chars_of("dev/bootstrap.ts")));
    out
}

/// How one resolved entry request classifies: the closed set of kinds the
/// pipeline can report.
#[derive(Clone, Copy, Debug)]
pub enum EntryModule {
    /// An already-compiled ecmascript module; it gets the runtime entries.
    Ecmascript(u64),
    /// A generically chunkable asset; it is served without runtime
    /// entries.
    Chunkable(u64),
    /// A module that cannot bootstrap the application.
    Unsupported,
}

/// One entry of the servable asset graph.
#[derive(Clone, Copy, Debug)]
pub struct WebEntry {
    /// The module to serve.
    pub module: u64,
    /// The chunking policy the module is chunked under.
    pub chunking_context: u64,
    /// Whether the runtime entries are prepended to the module.
    pub has_runtime_entries: bool,
}

/// The servable asset graph of the web entry source.
#[derive(Debug)]
pub struct WebEntrySource {
    /// Where the page document is served.
    pub html_path: Vec<char>,
    /// The entries, in request order.
    pub entries: Vec<WebEntry>,
    /// Whether the graph compiles eagerly.
    pub eager: bool,
}

/// Classifies the resolved entry requests, in order. A request that did
/// not resolve is dropped; an unsupported module makes the whole
/// classification fail.
pub open spec fn classify(s: Seq<Option<EntryModule>>, ctx: u64) -> Option<Seq<WebEntry>>
    decreases s.len(),
{
    if s.len() == 0 {
        Some(Seq::empty())
    } else {
        match classify(s.drop_last(), ctx) {
            None => None,
            Some(t) => match s.last() {
                None => Some(t),
                Some(EntryModule::Ecmascript(m)) => Some(
                    t.push(WebEntry { module: m, chunking_context: ctx, has_runtime_entries: true }),
                ),
                Some(EntryModule::Chunkable(m)) => Some(
                    t.push(
                        WebEntry { module: m, chunking_context: ctx, has_runtime_entries: false },
                    ),
                ),
                Some(EntryModule::Unsupported) => None,
            },
        }
    }
}

/// A failed classification stays failed however the list goes on.
proof fn lemma_classify_none(s: Seq<Option<EntryModule>>, ctx: u64, j: int)
    requires
        0 <= j <= s.len(),
        classify(s.take(j), ctx) is None,
    ensures
        classify(s, ctx) is None,
    decreases s.len() - j,
{
    if j == s.len() {
        assert(s.take(j) =~= s);
    } else {
        assert(s.take(j + 1).drop_last() =~= s.take(j));
        assert(classify(s.take(j + 1), ctx) is None);
        lemma_classify_none(s, ctx, j + 1);
    }
}

/// Builds the servable asset graph from the resolved entry requests.
/// Succeeds exactly when no resolved module is unsupported: each
/// ecmascript module is served with the runtime entries, each merely
/// chunkable one without, in request order, under the page document at
/// the deployment root; an unsupported module is fatal. The graph
/// compiles eagerly exactly when asked to.
pub fn create_web_entry_source(
    server_root: &Vec<char>,
    resolved: &Vec<Option<EntryModule>>,
    chunking_context: u64,
    eager_compile: bool,
) -> (r: Result<WebEntrySource, PageLoaderError>)
    ensures
        match r {
            Ok(src) => (classify(resolved@, chunking_context) matches Some(es) && src.entries@
                == es) && src.html_path@ == server_root@ + seq!['/'] + "index.html"@ && src.eager
                == eager_compile,
            Err(e) => classify(resolved@, chunking_context) is None && e
                == PageLoaderError::NotEvaluatable,
        },
{
    let mut entries: Vec<WebEntry> = Vec::new();
    let mut i: usize = 0;
    while i < resolved.len()
        invariant
            i <= resolved@.len(),
            classify(resolved@.take(i as int), chunking_context) == Some(entries@),
        decreases resolved@.len() - i,
    {
        let ghost before = entries@;
        match resolved[i] {
            None => {},
            Some(EntryModule::Ecmascript(m)) => {
                entries.push(
                    WebEntry {
                        module: m,
                        chunking_context,
                        has_runtime_entries: true,
                    },
                );
            },
            Some(EntryModule::Chunkable(m)) => {
                entries.push(
                    WebEntry {
                        module: m,
                        chunking_context,
                        has_runtime_entries: false,
                    },
                );
            },
            Some(EntryModule::Unsupported) => {
                proof {
                    assert(resolved@.take(i + 1 as int).drop_last() =~= resolved@.take(i as int));
                    assert(resolved@.take(i + 1 as int).last() == resolved@[i as int]);
                    assert(classify(resolved@.take(i + 1 as int), chunking_context) is None);
                    lemma_classify_none(resolved@, chunking_context, i + 1 as int);
                }
                return Err(PageLoaderError::NotEvaluatable);
            },
        }
        proof {
            assert(resolved@.take(i + 1 as int).drop_last() =~= resolved@.take(i as int));
            assert(resolved@.take(i + 1 as int).last() == resolved@[i as int]);
            assert(classify(resolved@.take(i + 1 as int), chunking_context) == Some(entries@));
        }
        i += 1;
    }
    proof {
        assert(resolved@.take(resolved@.len() as int) =~= resolved@);
    }
    let mut html_path: Vec<char> = Vec::new();
    append_chars(&mut html_path, server_root);
    html_path.push('/');
    append_str(&mut html_path, "index.html");
    proof {
        assert(html_path@ =~= server_root@ + seq!['/'] + "index.html"@);
    }
    Ok(WebEntrySource { html_path, entries, eager: eager_compile })
}

} // verus!
