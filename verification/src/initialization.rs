//! What the background start-up of the server settles before it touches the network: where
//! Qdrant is, which collection and vector size it uses, and which release artifacts to fetch.
use vstd::prelude::*;
use crate::config::{
    get_latest_release_download_url, opt_view, release_download_url, ReferenceConfig,
    DOCS_ARCHIVE_FILENAME, GITHUB_REPO_NAME, GITHUB_REPO_OWNER, PREBUILT_INDEX_FILENAME,
};
use crate::text::{parse_u64, parse_u64_spec};

verus! {

/// Where the prebuilt index of the latest release is downloaded from.
pub const PREBUILT_INDEX_URL: &'static str =
    "https://github.com/metacontract/mc-mcp/releases/latest/download/prebuilt_index.jsonl.gz";

/// The Qdrant URL used when `QDRANT_URL` is not set.
pub const DEFAULT_QDRANT_URL: &'static str = "http://localhost:6334";

/// The collection used when `QDRANT_COLLECTION` is not set.
pub const DEFAULT_COLLECTION_NAME: &'static str = "mc_docs";

/// The vector size used when `EMBEDDING_DIM` is not set or is not a number.
pub const DEFAULT_EMBEDDING_DIM: u64 = 384;

/// Where the search service keeps its vectors.
#[derive(Clone, Debug)]
pub struct ServiceSettings {
    /// The URL of Qdrant.
    pub qdrant_url: String,
    /// The collection of the vectors.
    pub collection_name: String,
    /// The size of the vectors.
    pub vector_dim: u64,
}

/// The vector size a value of `EMBEDDING_DIM` gives: the number it holds, or 384.
pub open spec fn embedding_dim_of(value: Option<Seq<char>>) -> u64 {
    match value {
        Some(s) => match parse_u64_spec(s) {
            Some(n) => n,
            None => DEFAULT_EMBEDDING_DIM,
        },
        None => DEFAULT_EMBEDDING_DIM,
    }
}

/// The settings given the values of `QDRANT_URL`, `QDRANT_COLLECTION` and `EMBEDDING_DIM`
/// (each `None` when the variable is not set): each value, or its default.
pub fn service_settings(
    qdrant_url: Option<String>,
    collection_name: Option<String>,
    embedding_dim: Option<String>,
) -> (s: ServiceSettings)
    ensures
        s.qdrant_url@ == match qdrant_url {
            Some(u) => u@,
            None => DEFAULT_QDRANT_URL@,
        },
        s.collection_name@ == match collection_name {
            Some(c) => c@,
            None => DEFAULT_COLLECTION_NAME@,
        },
        s.vector_dim == embedding_dim_of(opt_view(embedding_dim)),
{
    let qdrant_url = match qdrant_url {
        Some(u) => u,
        None => DEFAULT_QDRANT_URL.to_string(),
    };
    let collection_name = match collection_name {
        Some(c) => c,
        None => DEFAULT_COLLECTION_NAME.to_string(),
    };
    let vector_dim = match &embedding_dim {
        Some(d) => match parse_u64(d.as_str()) {
            Some(n) => n,
            None => DEFAULT_EMBEDDING_DIM,
        },
        None => DEFAULT_EMBEDDING_DIM,
    };
    ServiceSettings { qdrant_url, collection_name, vector_dim }
}

/// A file to fetch unless it is already there.
#[derive(Clone, Debug)]
pub struct Download {
    /// Where it is fetched from.
    pub url: String,
    /// Where it is kept.
    pub dest: String,
}

/// The view of a download: its URL and its destination.
pub open spec fn download_view(d: Download) -> (Seq<char>, Seq<char>) {
    (d.url@, d.dest@)
}

/// The artifacts to fetch for a reference configuration: the prebuilt index when its path is
/// configured, then the documentation archive of the latest release when its path is
/// configured.
pub open spec fn artifact_downloads_of(
    prebuilt_index_path: Option<Seq<char>>,
    docs_archive_path: Option<Seq<char>>,
) -> Seq<(Seq<char>, Seq<char>)> {
    let first = match prebuilt_index_path {
        Some(p) => seq![(PREBUILT_INDEX_URL@, p)],
        None => seq![],
    };
    let second = match docs_archive_path {
        Some(p) => seq![
            (
                release_download_url(GITHUB_REPO_OWNER@, GITHUB_REPO_NAME@, DOCS_ARCHIVE_FILENAME@),
                p,
            ),
        ],
        None => seq![],
    };
    first + second
}

/// Lists the artifacts to fetch for a reference configuration.
pub fn artifact_downloads(reference: &ReferenceConfig) -> (r: Vec<Download>)
    ensures
        r@.map_values(|d: Download| download_view(d)) == artifact_downloads_of(
            opt_view(reference.prebuilt_index_path),
            opt_view(reference.docs_archive_path),
        ),
{
    let mut r: Vec<Download> = Vec::new();
    match &reference.prebuilt_index_path {
        Some(p) => {
            r.push(Download { url: PREBUILT_INDEX_URL.to_string(), dest: p.clone() });
        },
        None => {},
    }
    let ghost first = r@;
    match &reference.docs_archive_path {
        Some(p) => {
            let url = get_latest_release_download_url(
                GITHUB_REPO_OWNER,
                GITHUB_REPO_NAME,
                DOCS_ARCHIVE_FILENAME,
            );
            r.push(Download { url, dest: p.clone() });
            assert(r@ == first.push(r@.last()));
        },
        None => {},
    }
    assert(r@.map_values(|d: Download| download_view(d)) =~= artifact_downloads_of(
        opt_view(reference.prebuilt_index_path),
        opt_view(reference.docs_archive_path),
    ));
    r
}

/// The prebuilt index is fetched from the latest release of the project's repository, like
/// the documentation archive: its URL is the release download URL of its file name.
pub proof fn law_prebuilt_index_url_is_release_url()
    ensures
        PREBUILT_INDEX_URL@ == release_download_url(
            GITHUB_REPO_OWNER@,
            GITHUB_REPO_NAME@,
            PREBUILT_INDEX_FILENAME@,
        ),
{
    reveal_strlit("https://github.com/metacontract/mc-mcp/releases/latest/download/prebuilt_index.jsonl.gz");
    reveal_strlit("https://github.com/");
    reveal_strlit("/");
    reveal_strlit("/releases/latest/download/");
    reveal_strlit("metacontract");
    reveal_strlit("mc-mcp");
    reveal_strlit("prebuilt_index.jsonl.gz");
    assert(PREBUILT_INDEX_URL@ =~= release_download_url(
        GITHUB_REPO_OWNER@,
        GITHUB_REPO_NAME@,
        PREBUILT_INDEX_FILENAME@,
    ));
}

// ---------------------------------------------------------------------------
// The start-up run
// ---------------------------------------------------------------------------
/// How far the background start-up has come.
#[derive(Clone, Copy, Debug, PartialEq, Eq, Structural)]
pub enum StartupStage {
    /// Waiting for the Qdrant container check.
    CheckingQdrant,
    /// Waiting for the directory of this download to be made.
    PreparingDirectory(usize),
    /// Waiting for this download.
    Downloading(usize),
    /// Waiting for the Qdrant client to be built.
    Connecting,
    /// Waiting for the embedding model to load.
    LoadingEmbedder,
    /// Waiting for the collection to be opened (and created when missing).
    OpeningStore,
    /// Waiting for the prebuilt index to be loaded.
    LoadingPrebuilt,
    /// Waiting for the prebuilt documents to be stored.
    StoringPrebuilt,
    /// Waiting for the configured sources to be indexed.
    Indexing,
    /// The start-up has ended.
    Done,
}

/// What the start-up asks of its caller next.
#[derive(Debug)]
pub enum StartupAction {
    /// Make sure the Qdrant container runs.
    CheckQdrant,
    /// Make the parent directory of this destination, when it does not exist.
    PrepareDirectory(String),
    /// Fetch this file unless it is already there.
    Download(Download),
    /// Build the Qdrant client from the service settings.
    Connect,
    /// Load the embedding model.
    LoadEmbedder,
    /// Open the collection, creating it when missing.
    OpenStore,
    /// Load the prebuilt index at this path.
    LoadPrebuilt(String),
    /// Embed and store the documents of the prebuilt index.
    StorePrebuilt,
    /// Index the configured sources.
    IndexSources,
    /// Make the search service available; the start-up has succeeded.
    Publish,
    /// The start-up has failed with this error.
    Fail(String),
}

/// The view of a [`StartupAction`].
pub enum StartupActionView {
    CheckQdrant,
    PrepareDirectory(Seq<char>),
    Download((Seq<char>, Seq<char>)),
    Connect,
    LoadEmbedder,
    OpenStore,
    LoadPrebuilt(Seq<char>),
    StorePrebuilt,
    IndexSources,
    Publish,
    Fail(Seq<char>),
}

impl View for StartupAction {
    type V = StartupActionView;

    open spec fn view(&self) -> StartupActionView {
        match self {
            StartupAction::CheckQdrant => StartupActionView::CheckQdrant,
            StartupAction::PrepareDirectory(d) => StartupActionView::PrepareDirectory(d@),
            StartupAction::Download(d) => StartupActionView::Download(download_view(*d)),
            StartupAction::Connect => StartupActionView::Connect,
            StartupAction::LoadEmbedder => StartupActionView::LoadEmbedder,
            StartupAction::OpenStore => StartupActionView::OpenStore,
            StartupAction::LoadPrebuilt(p) => StartupActionView::LoadPrebuilt(p@),
            StartupAction::StorePrebuilt => StartupActionView::StorePrebuilt,
            StartupAction::IndexSources => StartupActionView::IndexSources,
            StartupAction::Publish => StartupActionView::Publish,
            StartupAction::Fail(e) => StartupActionView::Fail(e@),
        }
    }
}

/// What the caller reports back to the start-up. An `Err` carries the error's text. In the
/// nested results, the outer error is a blocking task that could not be joined.
#[derive(Debug)]
pub enum StartupEvent {
    /// The Qdrant container check ended.
    QdrantChecked(Result<(), String>),
    /// The directory of the current download was made, or was there.
    DirectoryPrepared(Result<(), String>),
    /// The current download ended.
    Downloaded(Result<Result<(), String>, String>),
    /// The Qdrant client was built.
    ClientBuilt(Result<(), String>),
    /// The embedding model loaded.
    EmbedderReady(Result<(), String>),
    /// The collection was opened.
    StoreReady(Result<(), String>),
    /// The prebuilt index was loaded, with this many documents.
    PrebuiltLoaded(Result<Result<usize, String>, String>),
    /// The prebuilt documents were stored.
    PrebuiltStored(Result<(), String>),
    /// The configured sources were indexed.
    SourcesIndexed(Result<(), String>),
}

/// Whether a stage waits for this kind of event, given how many downloads there are.
pub open spec fn startup_accepts(stage: StartupStage, downloads: nat, event: StartupEvent) -> bool {
    match stage {
        StartupStage::CheckingQdrant => event is QdrantChecked,
        StartupStage::PreparingDirectory(i) => i < downloads && event is DirectoryPrepared,
        StartupStage::Downloading(i) => i < downloads && event is Downloaded,
        StartupStage::Connecting => event is ClientBuilt,
        StartupStage::LoadingEmbedder => event is EmbedderReady,
        StartupStage::OpeningStore => event is StoreReady,
        StartupStage::LoadingPrebuilt => event is PrebuiltLoaded,
        StartupStage::StoringPrebuilt => event is PrebuiltStored,
        StartupStage::Indexing => event is SourcesIndexed,
        StartupStage::Done => false,
    }
}

/// The step that begins the downloads from position `i`, or connects when none is left.
pub open spec fn downloads_from(downloads: Seq<(Seq<char>, Seq<char>)>, i: nat) -> (
    StartupStage,
    StartupActionView,
) {
    if i < downloads.len() {
        (
            StartupStage::PreparingDirectory(i as usize),
            StartupActionView::PrepareDirectory(downloads[i as int].1),
        )
    } else {
        (StartupStage::Connecting, StartupActionView::Connect)
    }
}

/// The step after the collection is open: load the prebuilt index when one is configured,
/// otherwise index the sources.
pub open spec fn after_store(prebuilt: Option<Seq<char>>) -> (StartupStage, StartupActionView) {
    match prebuilt {
        Some(p) => (StartupStage::LoadingPrebuilt, StartupActionView::LoadPrebuilt(p)),
        None => (StartupStage::Indexing, StartupActionView::IndexSources),
    }
}

/// Ends the start-up with an error.
pub open spec fn abort(e: Seq<char>) -> (StartupStage, StartupActionView) {
    (StartupStage::Done, StartupActionView::Fail(e))
}

/// One step of the start-up. A failed container check, download, prebuilt load, prebuilt store
/// or indexing is only reported and the start-up goes on; a failure to make a directory, to
/// build the client, to load the model, to open the collection, or to join a blocking task
/// ends it. The service is published last.
pub open spec fn startup_next(
    stage: StartupStage,
    downloads: Seq<(Seq<char>, Seq<char>)>,
    prebuilt: Option<Seq<char>>,
    event: StartupEvent,
) -> (StartupStage, StartupActionView) {
    match (stage, event) {
        (StartupStage::CheckingQdrant, StartupEvent::QdrantChecked(_)) => downloads_from(
            downloads,
            0,
        ),
        (StartupStage::PreparingDirectory(i), StartupEvent::DirectoryPrepared(Err(e))) => abort(
            e@,
        ),
        (StartupStage::PreparingDirectory(i), StartupEvent::DirectoryPrepared(Ok(()))) => (
            StartupStage::Downloading(i),
            StartupActionView::Download(downloads[i as int]),
        ),
        (StartupStage::Downloading(i), StartupEvent::Downloaded(Err(e))) => abort(e@),
        (StartupStage::Downloading(i), StartupEvent::Downloaded(Ok(_))) => downloads_from(
            downloads,
            (i + 1) as nat,
        ),
        (StartupStage::Connecting, StartupEvent::ClientBuilt(Err(e))) => abort(e@),
        (StartupStage::Connecting, StartupEvent::ClientBuilt(Ok(()))) => (
            StartupStage::LoadingEmbedder,
            StartupActionView::LoadEmbedder,
        ),
        (StartupStage::LoadingEmbedder, StartupEvent::EmbedderReady(Err(e))) => abort(e@),
        (StartupStage::LoadingEmbedder, StartupEvent::EmbedderReady(Ok(()))) => (
            StartupStage::OpeningStore,
            StartupActionView::OpenStore,
        ),
        (StartupStage::OpeningStore, StartupEvent::StoreReady(Err(e))) => abort(e@),
        (StartupStage::OpeningStore, StartupEvent::StoreReady(Ok(()))) => after_store(prebuilt),
        (StartupStage::LoadingPrebuilt, StartupEvent::PrebuiltLoaded(Err(e))) => abort(e@),
        (StartupStage::LoadingPrebuilt, StartupEvent::PrebuiltLoaded(Ok(Ok(n)))) => if n > 0 {
            (StartupStage::StoringPrebuilt, StartupActionView::StorePrebuilt)
        } else {
            (StartupStage::Indexing, StartupActionView::IndexSources)
        },
        (StartupStage::LoadingPrebuilt, StartupEvent::PrebuiltLoaded(Ok(Err(_)))) => (
            StartupStage::Indexing,
            StartupActionView::IndexSources,
        ),
        (StartupStage::StoringPrebuilt, StartupEvent::PrebuiltStored(_)) => (
            StartupStage::Indexing,
            StartupActionView::IndexSources,
        ),
        (StartupStage::Indexing, StartupEvent::SourcesIndexed(_)) => (
            StartupStage::Done,
            StartupActionView::Publish,
        ),
        _ => abort(seq![]),
    }
}

/// The background start-up of the server.
pub struct Startup {
    /// How far the start-up has come.
    pub stage: StartupStage,
    /// The artifacts to fetch, in order.
    pub downloads: Vec<Download>,
    /// Where the prebuilt index is, when one is configured.
    pub prebuilt_index_path: Option<String>,
}

impl Startup {
    /// The views of the downloads.
    pub open spec fn downloads_view(&self) -> Seq<(Seq<char>, Seq<char>)> {
        self.downloads@.map_values(|d: Download| download_view(d))
    }

    /// Starts the start-up for a reference configuration: the caller is first to check the
    /// Qdrant container; the artifacts of the configuration are fetched next.
    pub fn start(reference: &ReferenceConfig) -> (r: (Startup, StartupAction))
        ensures
            r.0.stage == StartupStage::CheckingQdrant,
            r.0.downloads_view() == artifact_downloads_of(
                opt_view(reference.prebuilt_index_path),
                opt_view(reference.docs_archive_path),
            ),
            opt_view(r.0.prebuilt_index_path) == opt_view(reference.prebuilt_index_path),
            r.1@ == StartupActionView::CheckQdrant,
    {
        let startup = Startup {
            stage: StartupStage::CheckingQdrant,
            downloads: artifact_downloads(reference),
            prebuilt_index_path: reference.prebuilt_index_path.clone(),
        };
        (startup, StartupAction::CheckQdrant)
    }

    /// Whether the start-up waits for this kind of event.
    pub fn accepts(&self, event: &StartupEvent) -> (b: bool)
        ensures
            b == startup_accepts(self.stage, self.downloads@.len(), *event),
    {
        match self.stage {
            StartupStage::CheckingQdrant => matches!(event, StartupEvent::QdrantChecked(_)),
            StartupStage::PreparingDirectory(i) => i < self.downloads.len() && matches!(
                event,
                StartupEvent::DirectoryPrepared(_)
            ),
            StartupStage::Downloading(i) => i < self.downloads.len() && matches!(
                event,
                StartupEvent::Downloaded(_)
            ),
            StartupStage::Connecting => matches!(event, StartupEvent::ClientBuilt(_)),
            StartupStage::LoadingEmbedder => matches!(event, StartupEvent::EmbedderReady(_)),
            StartupStage::OpeningStore => matches!(event, StartupEvent::StoreReady(_)),
            StartupStage::LoadingPrebuilt => matches!(event, StartupEvent::PrebuiltLoaded(_)),
            StartupStage::StoringPrebuilt => matches!(event, StartupEvent::PrebuiltStored(_)),
            StartupStage::Indexing => matches!(event, StartupEvent::SourcesIndexed(_)),
            StartupStage::Done => false,
        }
    }

    fn begin_downloads(&self, i: usize) -> (r: (StartupStage, StartupAction))
        ensures
            (r.0, r.1@) == downloads_from(self.downloads_view(), i as nat),
    {
        if i < self.downloads.len() {
            (StartupStage::PreparingDirectory(i), StartupAction::PrepareDirectory(self.downloads[i].dest.clone()))
        } else {
            (StartupStage::Connecting, StartupAction::Connect)
        }
    }

    /// Takes the start-up one step further with what the caller reported.
    pub fn step(self, event: StartupEvent) -> (r: (Startup, StartupAction))
        requires
            startup_accepts(self.stage, self.downloads@.len(), event),
        ensures
            (r.0.stage, r.1@) == startup_next(
                self.stage,
                self.downloads_view(),
                opt_view(self.prebuilt_index_path),
                event,
            ),
            r.0.downloads@ == self.downloads@,
            r.0.prebuilt_index_path == self.prebuilt_index_path,
    {
        let n = self.downloads.len();
        let (stage, action) = match self.stage {
            StartupStage::CheckingQdrant => self.begin_downloads(0),
            StartupStage::PreparingDirectory(i) => match event {
                StartupEvent::DirectoryPrepared(Err(e)) => (StartupStage::Done, StartupAction::Fail(e)),
                _ => (StartupStage::Downloading(i), StartupAction::Download(self.downloads[i].clone_download())),
            },
            StartupStage::Downloading(i) => match event {
                StartupEvent::Downloaded(Err(e)) => (StartupStage::Done, StartupAction::Fail(e)),
                _ => {
                    assert(i < n);
                    self.begin_downloads(i + 1)
                },
            },
            StartupStage::Connecting => match event {
                StartupEvent::ClientBuilt(Err(e)) => (StartupStage::Done, StartupAction::Fail(e)),
                _ => (StartupStage::LoadingEmbedder, StartupAction::LoadEmbedder),
            },
            StartupStage::LoadingEmbedder => match event {
                StartupEvent::EmbedderReady(Err(e)) => (StartupStage::Done, StartupAction::Fail(e)),
                _ => (StartupStage::OpeningStore, StartupAction::OpenStore),
            },
            StartupStage::OpeningStore => match event {
                StartupEvent::StoreReady(Err(e)) => (StartupStage::Done, StartupAction::Fail(e)),
                _ => match &self.prebuilt_index_path {
                    Some(p) => (StartupStage::LoadingPrebuilt, StartupAction::LoadPrebuilt(p.clone())),
                    None => (StartupStage::Indexing, StartupAction::IndexSources),
                },
            },
            StartupStage::LoadingPrebuilt => match event {
                StartupEvent::PrebuiltLoaded(Err(e)) => (StartupStage::Done, StartupAction::Fail(e)),
                StartupEvent::PrebuiltLoaded(Ok(Ok(n))) => {
                    if n > 0 {
                        (StartupStage::StoringPrebuilt, StartupAction::StorePrebuilt)
                    } else {
                        (StartupStage::Indexing, StartupAction::IndexSources)
                    }
                },
                _ => (StartupStage::Indexing, StartupAction::IndexSources),
            },
            StartupStage::StoringPrebuilt => (StartupStage::Indexing, StartupAction::IndexSources),
            StartupStage::Indexing => (StartupStage::Done, StartupAction::Publish),
            StartupStage::Done => (StartupStage::Done, StartupAction::Fail(String::new())),
        };
        (Startup { stage, downloads: self.downloads, prebuilt_index_path: self.prebuilt_index_path }, action)
    }
}

impl Download {
    /// A copy of a download.
    pub fn clone_download(&self) -> (d: Download)
        ensures
            download_view(d) == download_view(*self),
    {
        Download { url: self.url.clone(), dest: self.dest.clone() }
    }
}

/// The stage the start-up reaches after the caller has reported these events in turn.
pub open spec fn startup_after(
    downloads: Seq<(Seq<char>, Seq<char>)>,
    prebuilt: Option<Seq<char>>,
    events: Seq<StartupEvent>,
) -> StartupStage
    decreases events.len(),
{
    if events.len() == 0 {
        StartupStage::CheckingQdrant
    } else {
        startup_next(startup_after(downloads, prebuilt, events.drop_last()), downloads, prebuilt, events.last()).0
    }
}

/// Whether an event reports that the collection was opened.
pub open spec fn store_opened(event: StartupEvent) -> bool {
    event matches StartupEvent::StoreReady(Ok(_))
}

proof fn lemma_late_stages_follow_store(
    downloads: Seq<(Seq<char>, Seq<char>)>,
    prebuilt: Option<Seq<char>>,
    events: Seq<StartupEvent>,
)
    ensures
        ({
            let s = startup_after(downloads, prebuilt, events);
            s is LoadingPrebuilt || s is StoringPrebuilt || s is Indexing
        }) ==> exists|i: int| 0 <= i < events.len() && #[trigger] store_opened(events[i]),
    decreases events.len(),
{
    if events.len() > 0 {
        let prev = events.drop_last();
        lemma_late_stages_follow_store(downloads, prebuilt, prev);
        let s = startup_after(downloads, prebuilt, prev);
        let t = startup_after(downloads, prebuilt, events);
        if t is LoadingPrebuilt || t is StoringPrebuilt || t is Indexing {
            if s is LoadingPrebuilt || s is StoringPrebuilt || s is Indexing {
                let i = choose|i: int| 0 <= i < prev.len() && #[trigger] store_opened(prev[i]);
                assert(events[i] == prev[i]);
                assert(store_opened(events[i]));
            } else {
                let last = events.len() - 1;
                assert(events[last] == events.last());
                assert(store_opened(events[last]));
            }
        }
    }
}

/// The search service is published only after the collection was opened: whatever the caller
/// reported, the start-up asks to publish only when some earlier event said the store was
/// ready.
pub proof fn law_publish_only_after_store_ready(
    downloads: Seq<(Seq<char>, Seq<char>)>,
    prebuilt: Option<Seq<char>>,
    events: Seq<StartupEvent>,
    event: StartupEvent,
)
    requires
        startup_next(startup_after(downloads, prebuilt, events), downloads, prebuilt, event).1
            is Publish,
    ensures
        exists|i: int| 0 <= i < events.len() && #[trigger] store_opened(events[i]),
{
    lemma_late_stages_follow_store(downloads, prebuilt, events);
}

/// Whether an event reports a failure that ends the start-up: making a directory, building
/// the client, loading the model, opening the collection, or joining a blocking task.
pub open spec fn aborting(event: StartupEvent) -> bool {
    ||| event matches StartupEvent::DirectoryPrepared(Err(_))
    ||| event matches StartupEvent::Downloaded(Err(_))
    ||| event matches StartupEvent::ClientBuilt(Err(_))
    ||| event matches StartupEvent::EmbedderReady(Err(_))
    ||| event matches StartupEvent::StoreReady(Err(_))
    ||| event matches StartupEvent::PrebuiltLoaded(Err(_))
}

/// Only the failures that end the start-up make it fail, and each of them does: a failed
/// container check, download, prebuilt load or store, or indexing is only reported.
pub proof fn law_only_fatal_failures_abort(
    stage: StartupStage,
    downloads: Seq<(Seq<char>, Seq<char>)>,
    prebuilt: Option<Seq<char>>,
    event: StartupEvent,
)
    requires
        startup_accepts(stage, downloads.len(), event),
    ensures
        startup_next(stage, downloads, prebuilt, event).1 is Fail <==> aborting(event),
{
}

/// How many steps the start-up has left at most.
pub open spec fn startup_rank(stage: StartupStage, downloads: nat) -> int {
    match stage {
        StartupStage::CheckingQdrant => 7 + 2 * (downloads as int),
        StartupStage::PreparingDirectory(i) => 6 + 2 * (downloads - i),
        StartupStage::Downloading(i) => 5 + 2 * (downloads - i),
        StartupStage::Connecting => 6,
        StartupStage::LoadingEmbedder => 5,
        StartupStage::OpeningStore => 4,
        StartupStage::LoadingPrebuilt => 3,
        StartupStage::StoringPrebuilt => 2,
        StartupStage::Indexing => 1,
        StartupStage::Done => 0,
    }
}

/// Every step of the start-up brings it closer to its end, and it ends exactly when it
/// publishes the service or fails.
pub proof fn law_startup_terminates(
    stage: StartupStage,
    downloads: Seq<(Seq<char>, Seq<char>)>,
    prebuilt: Option<Seq<char>>,
    event: StartupEvent,
)
    requires
        startup_accepts(stage, downloads.len(), event),
        downloads.len() <= usize::MAX,
    ensures
        0 <= startup_rank(startup_next(stage, downloads, prebuilt, event).0, downloads.len())
            < startup_rank(stage, downloads.len()),
        startup_next(stage, downloads, prebuilt, event).0 is Done <==> (startup_next(
            stage,
            downloads,
            prebuilt,
            event,
        ).1 is Publish || startup_next(stage, downloads, prebuilt, event).1 is Fail),
{
}

} // verus!
