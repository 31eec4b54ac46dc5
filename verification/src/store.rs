//! The artifact store: explicit memoization of the loader computation.
//!
//! The incremental substrate evaluates each computation at most once per
//! distinct input set; concurrent requests for the same inputs share one
//! in-flight evaluation and its single result. This module realizes that
//! contract as a value: a cache keyed by the structural fingerprint of the
//! whole input set. A changed input is a different key and recomputes; a
//! repeated input is answered from the cache without redoing the delegated
//! work. Failures are never cached: a failed input set is re-attempted
//! from scratch on its next request.

use vstd::prelude::*;
use crate::PageLoaderError;
use crate::chunking::Chunk;
use crate::chunking::ChunkModel;
use crate::chunking::ReferenceEdge;
use crate::chunking::ReferenceModel;
use crate::chunking::chunks_view;
use crate::chunking::clone_edges;
use crate::chunking::descriptors_of;
use crate::chunking::descs_view;
use crate::chunking::edges_view;
use crate::chunking::runtime_paths;
use crate::content::page_loader_content;
use crate::loader::ChunkingOutcome;
use crate::loader::PageLoaderAsset;
use crate::references::collected_edges;
use crate::route::loader_asset_ident;
use crate::text::chars_eq;
use crate::text::clone_chars;

verus! {

/// The finished artifact: the three facets consumers fetch independently.
#[derive(Debug)]
pub struct LoaderArtifact {
    /// Where the artifact lives.
    pub identity: Vec<char>,
    /// The loader script's bytes.
    pub content: Vec<char>,
    /// The complete dependency edge set.
    pub references: Vec<ReferenceEdge>,
}

/// The mathematical value of a [`LoaderArtifact`].
#[verifier::ext_equal]
pub struct ArtifactModel {
    /// Where the artifact lives.
    pub identity: Seq<char>,
    /// The loader script's bytes.
    pub content: Seq<char>,
    /// The complete dependency edge set.
    pub references: Seq<ReferenceModel>,
}

impl View for LoaderArtifact {
    type V = ArtifactModel;

    open spec fn view(&self) -> ArtifactModel {
        ArtifactModel {
            identity: self.identity@,
            content: self.content@,
            references: edges_view(self.references@),
        }
    }
}

/// The mathematical value of a [`ChunkingOutcome`].
#[verifier::ext_equal]
pub enum OutcomeModel {
    /// The policy produced the ordered chunk group.
    Chunks(Seq<ChunkModel>),
    /// Delegated resolution failed with this cause.
    Failed(Seq<char>),
}

/// The value of a chunking outcome.
pub open spec fn outcome_view(o: ChunkingOutcome) -> OutcomeModel {
    match o {
        ChunkingOutcome::Chunks(v) => OutcomeModel::Chunks(chunks_view(v@)),
        ChunkingOutcome::Failed(m) => OutcomeModel::Failed(m@),
    }
}

/// The value of an optional template.
pub open spec fn template_view(t: Option<Vec<char>>) -> Option<Seq<char>> {
    match t {
        Some(v) => Some(v@),
        None => None,
    }
}

/// Everything one artifact computation depends on.
#[derive(Debug)]
pub struct ArtifactInputs {
    /// The artifact node with its route and handles.
    pub asset: PageLoaderAsset,
    /// The bootstrap template, if the asset is present.
    pub template: Option<Vec<char>>,
    /// What the delegated chunking policy answered.
    pub outcome: ChunkingOutcome,
}

/// The structural fingerprint of an input set: the whole inputs as a
/// value. Equal fingerprints mean equal inputs, so a changed input always
/// misses the cache and recomputes.
#[verifier::ext_equal]
pub struct InputsModel {
    /// The deployment root.
    pub server_root: Seq<char>,
    /// The client compilation context handle.
    pub client_context: u64,
    /// The client chunking policy handle.
    pub client_chunking_context: u64,
    /// The page module handle.
    pub entry_asset: u64,
    /// The route path.
    pub pathname: Seq<char>,
    /// The bootstrap template, if present.
    pub template: Option<Seq<char>>,
    /// The chunking policy's answer.
    pub outcome: OutcomeModel,
}

/// The fingerprint of an input set.
pub open spec fn inputs_view(inp: ArtifactInputs) -> InputsModel {
    InputsModel {
        server_root: inp.asset.server_root@,
        client_context: inp.asset.client_context,
        client_chunking_context: inp.asset.client_chunking_context,
        entry_asset: inp.asset.entry_asset,
        pathname: inp.asset.pathname@,
        template: template_view(inp.template),
        outcome: outcome_view(inp.outcome),
    }
}

/// Whether an input set lets the computation succeed: the template is
/// present and the delegated policy produced a group.
pub open spec fn computes(k: InputsModel) -> bool {
    k.template is Some && k.outcome is Chunks
}

/// The artifact an input set computes to, when [`computes`] holds.
pub open spec fn artifact_of(k: InputsModel) -> ArtifactModel {
    let chunks = k.outcome->Chunks_0;
    let descs = descriptors_of(k.server_root, chunks);
    ArtifactModel {
        identity: loader_asset_ident(k.server_root, k.pathname),
        content: page_loader_content(k.pathname, runtime_paths(descs)),
        references: collected_edges(chunks, descs),
    }
}

/// The value of an error, for stating which failure came back.
#[verifier::ext_equal]
pub enum ErrorModel {
    /// The bootstrap template asset is absent.
    MissingTemplate,
    /// Delegated resolution failed with this cause.
    ResolutionFailure(Seq<char>),
    /// The entry module is of the wrong kind.
    NotEvaluatable,
}

/// The value of an error.
pub open spec fn error_view(e: PageLoaderError) -> ErrorModel {
    match e {
        PageLoaderError::MissingTemplate => ErrorModel::MissingTemplate,
        PageLoaderError::ResolutionFailure(m) => ErrorModel::ResolutionFailure(m@),
        PageLoaderError::NotEvaluatable => ErrorModel::NotEvaluatable,
    }
}

/// The failure value of an input set, when [`computes`] does not hold.
pub open spec fn failure_view_of(k: InputsModel) -> ErrorModel {
    if k.template is None {
        ErrorModel::MissingTemplate
    } else {
        ErrorModel::ResolutionFailure(k.outcome->Failed_0)
    }
}

/// Computes the whole artifact for one input set: identity, content and
/// references, exactly as the fingerprint determines them; or the failure
/// the input set owes, with no partial artifact.
pub fn compute_artifact(inputs: &ArtifactInputs) -> (r: Result<LoaderArtifact, PageLoaderError>)
    ensures
        ({
            let k = inputs_view(*inputs);
            match r {
                Ok(a) => computes(k) && a@ == artifact_of(k),
                Err(e) => !computes(k) && error_view(e) == failure_view_of(k),
            }
        }),
{
    let outcome = clone_outcome(&inputs.outcome);
    let group = match inputs.asset.get_page_chunks(&inputs.template, outcome) {
        Ok(g) => g,
        Err(e) => {
            return Err(e);
        },
    };
    let descs = inputs.asset.chunks_data(&group);
    let identity = inputs.asset.ident();
    let content = inputs.asset.content(&descs);
    let references = inputs.asset.references(&group, &descs);
    let artifact = LoaderArtifact { identity, content, references };
    proof {
        let k = inputs_view(*inputs);
        assert(group@ == k.outcome->Chunks_0);
        assert(descs_view(descs@) == descriptors_of(k.server_root, k.outcome->Chunks_0));
        assert(artifact@ =~= artifact_of(k));
    }
    Ok(artifact)
}

/// A copy of a chunk list.
fn clone_chunks(v: &Vec<Chunk>) -> (r: Vec<Chunk>)
    ensures
        chunks_view(r@) == chunks_view(v@),
{
    let mut out: Vec<Chunk> = Vec::new();
    let mut i: usize = 0;
    while i < v.len()
        invariant
            i <= v@.len(),
            chunks_view(out@) == chunks_view(v@.subrange(0, i as int)),
        decreases v@.len() - i,
    {
        let c = Chunk {
            relative_path: clone_chars(&v[i].relative_path),
            references: clone_edges(&v[i].references),
        };
        proof {
            assert(c@ =~= v@[i as int]@);
        }
        let ghost pre = out@;
        out.push(c);
        proof {
            assert(out@ == pre.push(c));
            assert(chunks_view(pre).len() == pre.len());
            assert(pre.len() == i);
            assert forall|j: int| 0 <= j < i + 1 implies chunks_view(out@)[j] == chunks_view(
                v@.subrange(0, i + 1 as int),
            )[j] by {
                assert(chunks_view(out@)[j] == out@[j]@);
                assert(chunks_view(v@.subrange(0, i + 1 as int))[j] == v@.subrange(
                    0,
                    i + 1 as int,
                )[j]@);
                assert(v@.subrange(0, i + 1 as int)[j] == v@[j]);
                if j < i {
                    assert(out@[j] == pre[j]);
                    assert(chunks_view(pre)[j] == chunks_view(v@.subrange(0, i as int))[j]);
                    assert(chunks_view(pre)[j] == pre[j]@);
                    assert(chunks_view(v@.subrange(0, i as int))[j] == v@.subrange(
                        0,
                        i as int,
                    )[j]@);
                    assert(v@.subrange(0, i as int)[j] == v@[j]);
                } else {
                    assert(out@[j] == c);
                }
            }
            assert(chunks_view(out@).len() == i + 1);
            assert(chunks_view(v@.subrange(0, i + 1 as int)).len() == i + 1);
            assert(chunks_view(out@) =~= chunks_view(v@.subrange(0, i + 1 as int)));
        }
        i += 1;
    }
    proof {
        assert(v@.subrange(0, v@.len() as int) =~= v@);
    }
    out
}

/// A copy of a chunking outcome.
fn clone_outcome(o: &ChunkingOutcome) -> (r: ChunkingOutcome)
    ensures
        outcome_view(r) == outcome_view(*o),
{
    match o {
        ChunkingOutcome::Chunks(v) => ChunkingOutcome::Chunks(clone_chunks(v)),
        ChunkingOutcome::Failed(m) => ChunkingOutcome::Failed(clone_chars(m)),
    }
}

/// A copy of an artifact.
fn clone_artifact(a: &LoaderArtifact) -> (r: LoaderArtifact)
    ensures
        r@ == a@,
{
    let r = LoaderArtifact {
        identity: clone_chars(&a.identity),
        content: clone_chars(&a.content),
        references: clone_edges(&a.references),
    };
    proof {
        assert(r@ =~= a@);
    }
    r
}

/// Whether two edges hold the same value.
fn edge_eq(a: &ReferenceEdge, b: &ReferenceEdge) -> (r: bool)
    ensures
        r == (a@ == b@),
{
    let t = chars_eq(&a.target, &b.target);
    let d = chars_eq(&a.description, &b.description);
    proof {
        if a.target@ == b.target@ && a.description@ == b.description@ {
            assert(a@ =~= b@);
        }
    }
    t && d
}

/// Whether two edge lists hold the same values.
fn edges_eq(a: &Vec<ReferenceEdge>, b: &Vec<ReferenceEdge>) -> (r: bool)
    ensures
        r == (edges_view(a@) == edges_view(b@)),
{
    if a.len() != b.len() {
        proof {
            assert(edges_view(a@).len() == a@.len());
            assert(edges_view(b@).len() == b@.len());
        }
        return false;
    }
    let mut i: usize = 0;
    while i < a.len()
        invariant
            a@.len() == b@.len(),
            i <= a@.len(),
            forall|j: int| 0 <= j < i ==> a@[j]@ == b@[j]@,
        decreases a@.len() - i,
    {
        if !edge_eq(&a[i], &b[i]) {
            proof {
                assert(edges_view(a@)[i as int] == a@[i as int]@);
                assert(edges_view(b@)[i as int] == b@[i as int]@);
            }
            return false;
        }
        i += 1;
    }
    proof {
        assert forall|j: int| 0 <= j < a@.len() implies edges_view(a@)[j] == edges_view(b@)[j] by {
            assert(edges_view(a@)[j] == a@[j]@);
            assert(edges_view(b@)[j] == b@[j]@);
        }
        assert(edges_view(a@) =~= edges_view(b@));
    }
    true
}

/// Whether two chunks hold the same value.
fn chunk_eq(a: &Chunk, b: &Chunk) -> (r: bool)
    ensures
        r == (a@ == b@),
{
    let p = chars_eq(&a.relative_path, &b.relative_path);
    let e = edges_eq(&a.references, &b.references);
    proof {
        if a.relative_path@ == b.relative_path@ && edges_view(a.references@) == edges_view(
            b.references@,
        ) {
            assert(a@ =~= b@);
        }
    }
    p && e
}

/// Whether two chunk lists hold the same values.
fn chunks_eq(a: &Vec<Chunk>, b: &Vec<Chunk>) -> (r: bool)
    ensures
        r == (chunks_view(a@) == chunks_view(b@)),
{
    if a.len() != b.len() {
        proof {
            assert(chunks_view(a@).len() == a@.len());
            assert(chunks_view(b@).len() == b@.len());
        }
        return false;
    }
    let mut i: usize = 0;
    while i < a.len()
        invariant
            a@.len() == b@.len(),
            i <= a@.len(),
            forall|j: int| 0 <= j < i ==> a@[j]@ == b@[j]@,
        decreases a@.len() - i,
    {
        if !chunk_eq(&a[i], &b[i]) {
            proof {
                assert(chunks_view(a@)[i as int] == a@[i as int]@);
                assert(chunks_view(b@)[i as int] == b@[i as int]@);
            }
            return false;
        }
        i += 1;
    }
    proof {
        assert forall|j: int| 0 <= j < a@.len() implies chunks_view(a@)[j] == chunks_view(b@)[j]
            by {
            assert(chunks_view(a@)[j] == a@[j]@);
            assert(chunks_view(b@)[j] == b@[j]@);
        }
        assert(chunks_view(a@) =~= chunks_view(b@));
    }
    true
}

/// Whether two outcomes hold the same value.
fn outcome_eq(a: &ChunkingOutcome, b: &ChunkingOutcome) -> (r: bool)
    ensures
        r == (outcome_view(*a) == outcome_view(*b)),
{
    match (a, b) {
        (ChunkingOutcome::Chunks(x), ChunkingOutcome::Chunks(y)) => chunks_eq(x, y),
        (ChunkingOutcome::Failed(x), ChunkingOutcome::Failed(y)) => chars_eq(x, y),
        _ => false,
    }
}

/// Whether two optional templates hold the same value.
fn template_eq(a: &Option<Vec<char>>, b: &Option<Vec<char>>) -> (r: bool)
    ensures
        r == (template_view(*a) == template_view(*b)),
{
    match (a, b) {
        (Some(x), Some(y)) => chars_eq(x, y),
        (None, None) => true,
        _ => false,
    }
}

/// Whether two input sets have the same fingerprint.
fn inputs_eq(a: &ArtifactInputs, b: &ArtifactInputs) -> (r: bool)
    ensures
        r == (inputs_view(*a) == inputs_view(*b)),
{
    let same = chars_eq(&a.asset.server_root, &b.asset.server_root) && a.asset.client_context
        == b.asset.client_context && a.asset.client_chunking_context
        == b.asset.client_chunking_context && a.asset.entry_asset == b.asset.entry_asset
        && chars_eq(&a.asset.pathname, &b.asset.pathname) && template_eq(&a.template, &b.template)
        && outcome_eq(&a.outcome, &b.outcome);
    proof {
        if same {
            assert(inputs_view(*a) =~= inputs_view(*b));
        }
    }
    same
}

/// One memoized computation: its input fingerprint and its artifact.
struct CacheEntry {
    /// The inputs the artifact was computed from.
    inputs: ArtifactInputs,
    /// The computed artifact.
    artifact: LoaderArtifact,
}

/// The fingerprint an entry is keyed by.
spec fn entry_key(e: CacheEntry) -> InputsModel {
    inputs_view(e.inputs)
}

/// The memo table a sequence of entries denotes.
spec fn entries_map(s: Seq<CacheEntry>) -> Map<InputsModel, ArtifactModel>
    decreases s.len(),
{
    if s.len() == 0 {
        Map::empty()
    } else {
        entries_map(s.drop_last()).insert(entry_key(s.last()), s.last().artifact@)
    }
}

/// The empty memo table.
pub open spec fn empty_store() -> Map<InputsModel, ArtifactModel> {
    Map::empty()
}

/// How one request changes the memo table: a hit changes nothing, a miss
/// that computes stores the artifact, a failure stores nothing.
pub open spec fn step_cache(m: Map<InputsModel, ArtifactModel>, k: InputsModel) -> Map<
    InputsModel,
    ArtifactModel,
> {
    if m.dom().contains(k) {
        m
    } else if computes(k) {
        m.insert(k, artifact_of(k))
    } else {
        m
    }
}

/// How one request changes the count of evaluations performed: only a
/// miss evaluates.
pub open spec fn step_evals(m: Map<InputsModel, ArtifactModel>, evals: nat, k: InputsModel) -> nat {
    if m.dom().contains(k) {
        evals
    } else {
        evals + 1
    }
}

/// The artifact one request answers with, when it answers at all.
pub open spec fn step_result(m: Map<InputsModel, ArtifactModel>, k: InputsModel) -> ArtifactModel {
    if m.dom().contains(k) {
        m[k]
    } else {
        artifact_of(k)
    }
}

/// A well-formed memo table: every stored artifact is the artifact its
/// key computes to.
pub open spec fn wf_map(m: Map<InputsModel, ArtifactModel>) -> bool {
    forall|k: InputsModel| #[trigger] m.dom().contains(k) ==> computes(k) && m[k] == artifact_of(k)
}

/// Law: requests for one input fingerprint share a single evaluation.
/// From any well-formed store, two requests for the same computable key
/// answer with the same artifact — the artifact those inputs determine —
/// and perform the delegated work at most once between them.
pub proof fn lemma_shared_computation(
    m: Map<InputsModel, ArtifactModel>,
    evals: nat,
    k: InputsModel,
)
    requires
        computes(k),
        wf_map(m),
    ensures
        step_result(m, k) == artifact_of(k),
        step_result(step_cache(m, k), k) == step_result(m, k),
        step_evals(step_cache(m, k), step_evals(m, evals, k), k) <= evals + 1,
{
}

/// An entry found in a unique-keyed sequence is what the memo table maps
/// its key to.
proof fn lemma_entries_map_found(s: Seq<CacheEntry>, i: int)
    requires
        0 <= i < s.len(),
        forall|p: int, q: int| 0 <= p < q < s.len() ==> entry_key(s[p]) != entry_key(s[q]),
    ensures
        entries_map(s).dom().contains(entry_key(s[i])),
        entries_map(s)[entry_key(s[i])] == s[i].artifact@,
    decreases s.len(),
{
    if i == s.len() - 1 {
    } else {
        assert(s.drop_last()[i] == s[i]);
        assert forall|p: int, q: int| 0 <= p < q < s.drop_last().len() implies entry_key(
            s.drop_last()[p],
        ) != entry_key(s.drop_last()[q]) by {
            assert(s.drop_last()[p] == s[p]);
            assert(s.drop_last()[q] == s[q]);
        }
        lemma_entries_map_found(s.drop_last(), i);
        assert(entry_key(s.last()) != entry_key(s[i]));
    }
}

/// A key no entry carries is not in the memo table.
proof fn lemma_entries_map_absent(s: Seq<CacheEntry>, k: InputsModel)
    requires
        forall|i: int| 0 <= i < s.len() ==> entry_key(s[i]) != k,
    ensures
        !entries_map(s).dom().contains(k),
    decreases s.len(),
{
    if s.len() > 0 {
        assert forall|i: int| 0 <= i < s.drop_last().len() implies entry_key(s.drop_last()[i]) != k
            by {
            assert(s.drop_last()[i] == s[i]);
        }
        lemma_entries_map_absent(s.drop_last(), k);
        assert(entry_key(s.last()) != k);
    }
}

/// A sequence of sound entries denotes a well-formed memo table.
proof fn lemma_entries_map_wf(s: Seq<CacheEntry>)
    requires
        forall|i: int|
            0 <= i < s.len() ==> computes(entry_key(#[trigger] s[i])) && s[i].artifact@
                == artifact_of(entry_key(s[i])),
    ensures
        wf_map(entries_map(s)),
    decreases s.len(),
{
    if s.len() > 0 {
        assert forall|i: int|
            0 <= i < s.drop_last().len() implies computes(entry_key(#[trigger] s.drop_last()[i]))
            && s.drop_last()[i].artifact@ == artifact_of(entry_key(s.drop_last()[i])) by {
            assert(s.drop_last()[i] == s[i]);
        }
        lemma_entries_map_wf(s.drop_last());
        assert(entry_key(s.last()) == entry_key(s[s.len() - 1]));
    }
}

/// The artifact store: the memoized loader computation, keyed by the
/// structural fingerprint of the whole input set, together with the count
/// of evaluations actually performed. Under the substrate's scheduling,
/// one evaluation per key is exactly the sharing concurrent callers
/// observe: both receive the one computed result.
pub struct ArtifactCache {
    entries: Vec<CacheEntry>,
    evaluations: u64,
}

impl ArtifactCache {
    /// The memo table this store denotes.
    pub closed spec fn cache(&self) -> Map<InputsModel, ArtifactModel> {
        entries_map(self.entries@)
    }

    /// How many evaluations the store has performed.
    pub closed spec fn evals(&self) -> nat {
        self.evaluations as nat
    }

    /// Every stored artifact is the artifact of its key, and keys are
    /// stored once.
    pub closed spec fn wf(&self) -> bool {
        &&& forall|p: int, q: int|
            0 <= p < q < self.entries@.len() ==> entry_key(self.entries@[p]) != entry_key(
                self.entries@[q],
            )
        &&& forall|i: int|
            0 <= i < self.entries@.len() ==> computes(entry_key(#[trigger] self.entries@[i]))
                && self.entries@[i].artifact@ == artifact_of(entry_key(self.entries@[i]))
    }

    /// A well-formed store denotes a well-formed memo table.
    pub proof fn lemma_wf_map(&self)
        requires
            self.wf(),
        ensures
            wf_map(self.cache()),
    {
        lemma_entries_map_wf(self.entries@);
    }

    /// How many evaluations the store has performed.
    pub fn evaluation_count(&self) -> (r: u64)
        ensures
            r as nat == self.evals(),
    {
        self.evaluations
    }

    /// An empty store.
    pub fn new() -> (r: ArtifactCache)
        ensures
            r.wf(),
            r.cache() == empty_store(),
            r.evals() == 0,
    {
        ArtifactCache { entries: Vec::new(), evaluations: 0 }
    }

    /// Answers one request. A repeated input set is answered from the
    /// store without redoing any work; a new computable input set is
    /// evaluated once and stored; a failing input set is evaluated,
    /// reported, and not stored, so it is re-attempted from scratch next
    /// time. The answer is always the one [`step_result`] determines.
    pub fn request(&mut self, inputs: ArtifactInputs) -> (r: Result<
        LoaderArtifact,
        PageLoaderError,
    >)
        requires
            old(self).wf(),
            old(self).evals() < u64::MAX,
        ensures
            final(self).wf(),
            ({
                let k = inputs_view(inputs);
                let hit = old(self).cache().dom().contains(k);
                &&& final(self).cache() == step_cache(old(self).cache(), k)
                &&& final(self).evals() == step_evals(old(self).cache(), old(self).evals(), k)
                &&& match r {
                    Ok(a) => (hit || computes(k)) && a@ == step_result(old(self).cache(), k),
                    Err(e) => !hit && !computes(k) && error_view(e) == failure_view_of(k),
                }
            }),
    {
        let ghost k = inputs_view(inputs);
        let n = self.entries.len();
        let mut idx: usize = 0;
        while idx < n
            invariant
                n == self.entries@.len(),
                idx <= n,
                self.entries@ == old(self).entries@,
                self.evaluations == old(self).evaluations,
                k == inputs_view(inputs),
                forall|j: int| 0 <= j < idx ==> entry_key(self.entries@[j]) != k,
                old(self).wf(),
            decreases n - idx,
        {
            if inputs_eq(&self.entries[idx].inputs, &inputs) {
                proof {
                    assert(entry_key(self.entries@[idx as int]) == k);
                    lemma_entries_map_found(self.entries@, idx as int);
                }
                let a = clone_artifact(&self.entries[idx].artifact);
                return Ok(a);
            }
            idx += 1;
        }
        proof {
            lemma_entries_map_absent(self.entries@, k);
        }
        let result = compute_artifact(&inputs);
        self.evaluations = self.evaluations + 1;
        match result {
            Ok(a) => {
                let stored = clone_artifact(&a);
                let ghost pre = self.entries@;
                self.entries.push(CacheEntry { inputs, artifact: stored });
                proof {
                    assert(self.entries@.drop_last() =~= pre);
                    assert(self.entries@.last().artifact@ == artifact_of(k));
                    assert(entry_key(self.entries@.last()) == k);
                    assert(entries_map(self.entries@) == entries_map(pre).insert(
                        k,
                        artifact_of(k),
                    ));
                    assert forall|p: int, q: int|
                        0 <= p < q < self.entries@.len() implies entry_key(self.entries@[p])
                        != entry_key(self.entries@[q]) by {
                        if q < self.entries@.len() - 1 {
                            assert(self.entries@[p] == pre[p]);
                            assert(self.entries@[q] == pre[q]);
                        } else {
                            assert(self.entries@[p] == pre[p]);
                            assert(self.entries@[q] == self.entries@.last());
                        }
                    }
                    assert forall|i: int|
                        0 <= i < self.entries@.len() implies computes(
                        entry_key(#[trigger] self.entries@[i]),
                    ) && self.entries@[i].artifact@ == artifact_of(entry_key(self.entries@[i]))
                        by {
                        if i < self.entries@.len() - 1 {
                            assert(self.entries@[i] == pre[i]);
                        } else {
                            assert(self.entries@[i] == self.entries@.last());
                        }
                    }
                }
                Ok(a)
            },
            Err(e) => Err(e),
        }
    }
}

} // verus!
