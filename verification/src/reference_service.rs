//! Indexing documentation sources: which sources are loaded, in which order, what each
//! document is cut into, and what the whole run reports. The caller loads the files, embeds
//! the chunks and stores them.
use vstd::prelude::*;
use crate::chunking::{chunk_document, chunks};
use crate::config::{DocumentSource, SourceType};
use crate::domain::SearchQuery;
use crate::text::string_push_str;

verus! {

/// The name given to the source built from a bare documentation path.
pub const DEFAULT_SOURCE_NAME: &'static str = "default_mc_docs";

/// The error when indexing is asked for without a path.
pub const INDEX_NEEDS_PATH: &'static str = "index_documents requires a path when called directly";

/// The error of an indexing run in which some source could not be loaded.
pub const INDEXING_FAILED: &'static str =
    "One or more errors occurred during indexing. See logs for details.";

/// The source indexed for a bare documentation path: a local source named
/// `default_mc_docs`; without a path there is nothing to index, which is an error.
pub fn source_for_path(docs_path: Option<String>) -> (r: Result<DocumentSource, String>)
    ensures
        r is Ok <==> docs_path is Some,
        r matches Ok(s) ==> s.name@ == DEFAULT_SOURCE_NAME@ && s.source_type == SourceType::Local
            && s.path@ == docs_path->0@ && s.repo is None && s.branch is None
            && s.github_path is None,
        r matches Err(m) ==> m@ == INDEX_NEEDS_PATH@,
{
    match docs_path {
        Some(path) => Ok(
            DocumentSource {
                name: DEFAULT_SOURCE_NAME.to_string(),
                source_type: SourceType::Local,
                path,
                repo: None,
                branch: None,
                github_path: None,
            },
        ),
        None => Err(INDEX_NEEDS_PATH.to_string()),
    }
}

/// A chunk of a document, ready to be embedded and stored.
#[derive(Clone, Debug)]
pub struct ChunkRecord {
    /// The path of the document.
    pub file_path: String,
    /// The name of the source the document comes from.
    pub source: Option<String>,
    /// The text of the chunk.
    pub content_chunk: String,
}

/// The view of a chunk record: path, source and text.
pub open spec fn record_view(r: ChunkRecord) -> (Seq<char>, Option<Seq<char>>, Seq<char>) {
    (
        r.file_path@,
        match r.source {
            Some(s) => Some(s@),
            None => None,
        },
        r.content_chunk@,
    )
}

/// The records of a document of a source: one per chunk, in order, each naming the document
/// and the source.
pub open spec fn document_records(source: Seq<char>, path: Seq<char>, content: Seq<char>) -> Seq<
    (Seq<char>, Option<Seq<char>>, Seq<char>),
> {
    chunks(content).map_values(|c: Seq<char>| (path, Some(source), c))
}

/// Cuts a document of a source into the records to embed: one per paragraph chunk.
pub fn chunk_records(source_name: &str, file_path: &str, content: &str) -> (r: Vec<ChunkRecord>)
    ensures
        r@.map_values(|x: ChunkRecord| record_view(x)) == document_records(
            source_name@,
            file_path@,
            content@,
        ),
{
    let pieces = chunk_document(file_path, content);
    let mut records: Vec<ChunkRecord> = Vec::new();
    let mut i: usize = 0;
    while i < pieces.len()
        invariant
            0 <= i <= pieces.len(),
            pieces@.map_values(|c: String| c@) == chunks(content@),
            records@.map_values(|x: ChunkRecord| record_view(x)) == document_records(
                source_name@,
                file_path@,
                content@,
            ).take(i as int),
        decreases pieces.len() - i,
    {
        let record = ChunkRecord {
            file_path: file_path.to_string(),
            source: Some(source_name.to_string()),
            content_chunk: pieces[i].clone(),
        };
        proof {
            assert(pieces@.map_values(|c: String| c@)[i as int] == pieces@[i as int]@);
            assert(record_view(record) == document_records(source_name@, file_path@, content@)[i as int]);
        }
        let ghost before = records@;
        records.push(record);
        proof {
            assert(records@ == before.push(record));
            assert(records@.map_values(|x: ChunkRecord| record_view(x)) =~= before.map_values(
                |x: ChunkRecord| record_view(x),
            ).push(record_view(record)));
        }
        proof {
            assert(records@.map_values(|x: ChunkRecord| record_view(x)) =~= document_records(
                source_name@,
                file_path@,
                content@,
            ).take(i + 1));
        }
        i = i + 1;
    }
    proof {
        assert(document_records(source_name@, file_path@, content@).take(pieces.len() as int)
            =~= document_records(source_name@, file_path@, content@));
    }
    records
}

/// The error when no embedding came back for a query.
pub fn missing_embedding_error(query: &SearchQuery) -> (m: String)
    ensures
        m@ == "Failed to generate embedding for query: "@ + query.text@,
{
    let mut m = "Failed to generate embedding for query: ".to_string();
    string_push_str(&mut m, query.text.as_str());
    m
}

// ---------------------------------------------------------------------------
// An indexing run over the configured sources
// ---------------------------------------------------------------------------
/// What an indexing run asks of its caller next.
#[derive(Debug)]
pub enum IndexingAction {
    /// Load the documents of the source at this position (a local directory), then chunk,
    /// embed and store them.
    Load(usize),
    /// Pass over the source at this position: its kind is not indexed yet.
    Skip(usize),
    /// The run has ended with this result.
    Finish(Result<(), String>),
}

/// The view of an [`IndexingAction`].
pub enum IndexingActionView {
    Load(nat),
    Skip(nat),
    Finish(Result<(), Seq<char>>),
}

impl View for IndexingAction {
    type V = IndexingActionView;

    open spec fn view(&self) -> IndexingActionView {
        match self {
            IndexingAction::Load(i) => IndexingActionView::Load(*i as nat),
            IndexingAction::Skip(i) => IndexingActionView::Skip(*i as nat),
            IndexingAction::Finish(Ok(())) => IndexingActionView::Finish(Ok(())),
            IndexingAction::Finish(Err(e)) => IndexingActionView::Finish(Err(e@)),
        }
    }
}

/// An indexing run over a list of sources, one after the other.
pub struct IndexingRun {
    /// The kinds of the sources, in order.
    pub kinds: Vec<SourceType>,
    /// The position of the next source.
    pub next: usize,
    /// Whether some source could not be loaded.
    pub had_error: bool,
}

/// What the run does at a position: load a local source, pass over another, or end.
pub open spec fn indexing_action(kinds: Seq<SourceType>, next: nat, had_error: bool) -> IndexingActionView {
    if next >= kinds.len() {
        IndexingActionView::Finish(
            if had_error {
                Err(INDEXING_FAILED@)
            } else {
                Ok(())
            },
        )
    } else if kinds[next as int] == SourceType::Local {
        IndexingActionView::Load(next)
    } else {
        IndexingActionView::Skip(next)
    }
}

impl IndexingRun {
    /// Whether the run's position is within its sources.
    pub open spec fn valid(&self) -> bool {
        self.next <= self.kinds.len()
    }

    /// Starts a run over sources.
    pub fn start(sources: &Vec<DocumentSource>) -> (r: (IndexingRun, IndexingAction))
        ensures
            r.0.kinds@ == sources@.map_values(|s: DocumentSource| s.source_type),
            r.0.next == 0,
            !r.0.had_error,
            r.1@ == indexing_action(r.0.kinds@, 0, false),
    {
        let mut kinds: Vec<SourceType> = Vec::new();
        let mut i: usize = 0;
        while i < sources.len()
            invariant
                0 <= i <= sources.len(),
                kinds@ == sources@.take(i as int).map_values(|s: DocumentSource| s.source_type),
            decreases sources.len() - i,
        {
            kinds.push(sources[i].source_type);
            proof {
                assert(sources@.take(i + 1).map_values(|s: DocumentSource| s.source_type)
                    =~= sources@.take(i as int).map_values(|s: DocumentSource| s.source_type).push(
                    sources@[i as int].source_type,
                ));
            }
            i = i + 1;
        }
        proof {
            assert(sources@.take(sources.len() as int) == sources@);
        }
        let run = IndexingRun { kinds, next: 0, had_error: false };
        let action = run.action();
        (run, action)
    }

    fn action(&self) -> (a: IndexingAction)
        requires
            self.valid(),
        ensures
            a@ == indexing_action(self.kinds@, self.next as nat, self.had_error),
    {
        if self.next >= self.kinds.len() {
            if self.had_error {
                IndexingAction::Finish(Err(INDEXING_FAILED.to_string()))
            } else {
                IndexingAction::Finish(Ok(()))
            }
        } else if self.kinds[self.next] == SourceType::Local {
            IndexingAction::Load(self.next)
        } else {
            IndexingAction::Skip(self.next)
        }
    }

    /// Records what became of the current source (`loaded` is false when its documents
    /// could not be loaded; a skipped source counts as loaded) and moves on to the next.
    pub fn advance(&mut self, loaded: bool) -> (a: IndexingAction)
        requires
            old(self).valid(),
            old(self).next < old(self).kinds.len(),
        ensures
            final(self).kinds@ == old(self).kinds@,
            final(self).next == old(self).next + 1,
            final(self).had_error == (old(self).had_error || !loaded),
            final(self).valid(),
            a@ == indexing_action(final(self).kinds@, final(self).next as nat, final(self).had_error),
    {
        self.next = self.next + 1;
        if !loaded {
            self.had_error = true;
        }
        self.action()
    }
}

/// Whether some source of a run failed to load, by the outcomes reported so far.
pub open spec fn any_failed(loaded: Seq<bool>) -> bool {
    exists|i: int| 0 <= i < loaded.len() && !loaded[i]
}

/// The state of a run over sources of these kinds after these outcomes were reported.
pub open spec fn run_after(loaded: Seq<bool>) -> (nat, bool)
    decreases loaded.len(),
{
    if loaded.len() == 0 {
        (0, false)
    } else {
        let (next, had_error) = run_after(loaded.drop_last());
        (next + 1, had_error || !loaded.last())
    }
}

/// An indexing run visits every source once, in order, and ends in an error exactly when
/// some source could not be loaded: after one outcome per source, it finishes with `Ok` if all
/// loaded and with the indexing error otherwise.
pub proof fn law_indexing_reports_failures(kinds: Seq<SourceType>, loaded: Seq<bool>)
    requires
        loaded.len() == kinds.len(),
    ensures
        run_after(loaded).0 == kinds.len(),
        indexing_action(kinds, run_after(loaded).0, run_after(loaded).1) == IndexingActionView::Finish(
            if any_failed(loaded) {
                Err(INDEXING_FAILED@)
            } else {
                Ok(())
            },
        ),
{
    lemma_run_after(loaded);
}

proof fn lemma_run_after(loaded: Seq<bool>)
    ensures
        run_after(loaded).0 == loaded.len(),
        run_after(loaded).1 == any_failed(loaded),
    decreases loaded.len(),
{
    if loaded.len() > 0 {
        let prev = loaded.drop_last();
        lemma_run_after(prev);
        if any_failed(prev) {
            let i = choose|i: int| 0 <= i < prev.len() && !prev[i];
            assert(!loaded[i]);
        }
        if !loaded.last() {
            assert(!loaded[loaded.len() - 1]);
        }
        if any_failed(loaded) {
            let i = choose|i: int| 0 <= i < loaded.len() && !loaded[i];
            if i < prev.len() {
                assert(!prev[i]);
            }
        }
    }
}

} // verus!
