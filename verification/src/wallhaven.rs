//! The synchronizer, as a state machine.
//!
//! A run alternates outside work (requests, file access, waiting) with
//! decisions. The machine takes the decisions: it is told what happened
//! by an [`Event`] and answers with the [`Action`] to perform next. It
//! performs no outside work itself.
//!
//! A run goes `Idle`, `ListingCollections`, then for every collection to
//! mirror and every page of it `ListingPage`, `Dispatching`, `Pacing`,
//! then `Reconciling`, `Pruning`, `Done`. A failure that is reported while
//! the run is under way ends it in `Failed`.

use crate::config::{ConfigView, WallhavenConfig};
use crate::download::{spec_file_name, spec_job, spec_jobs, DownloadJob, JobView};
use crate::error::{ErrorView, SyncError};
use crate::paging::{pacing_delay, spec_is_pacing_delay, FIRST_PAGE};
use crate::reconcile::{
    spec_is_stale_path,
    spec_stale_paths,
    stale_paths,
    EntryView,
    LocalEntry,
};
use crate::records::{
    Collection,
    CollectionView,
    Collections,
    Wallpaper,
    WallpaperView,
    Wallpapers,
    WallpapersView,
};
use crate::remote::{
    collection_names,
    collections_url,
    page_url,
    select,
    spec_collection_names,
    spec_collections_url,
    spec_page_url,
    spec_select,
};
use vstd::hash_set::StringHashSet;
use vstd::prelude::*;

verus! {

/// Where a run stands.
#[derive(Clone, Copy, Debug, PartialEq, Eq, Structural)]
pub enum Phase {
    /// Nothing has happened yet.
    Idle,
    /// The listing of the collections is awaited.
    ListingCollections,
    /// The listing of the current page is awaited.
    ListingPage,
    /// The downloads of the current page are awaited.
    Dispatching,
    /// The end of the pause after the current page is awaited.
    Pacing,
    /// The listing of the destination directory is awaited.
    Reconciling,
    /// The removal of the stale files is awaited.
    Pruning,
    /// The run has ended well.
    Done,
    /// The run has ended in a failure.
    Failed,
}

/// What the outside reports to the machine.
#[derive(Debug)]
pub enum Event {
    /// The run is to begin.
    Start,
    /// The remote side has listed the collections.
    CollectionsListed(Collections),
    /// The remote side has listed the page that was asked for.
    PageListed(Wallpapers),
    /// Every download of the page has ended; the failures among them, in
    /// the order of the page.
    BatchFinished(Vec<SyncError>),
    /// The pause has passed.
    PacingElapsed,
    /// The entries of the destination directory have been read.
    DirectoryListed(Vec<LocalEntry>),
    /// The stale files have been removed.
    Pruned,
    /// A request, or reading the directory, or removing a file has failed.
    Failed(SyncError),
}

/// An event as plain values.
pub enum EventView {
    Start,
    CollectionsListed(Seq<CollectionView>),
    PageListed(WallpapersView),
    BatchFinished(Seq<ErrorView>),
    PacingElapsed,
    DirectoryListed(Seq<EntryView>),
    Pruned,
    Failed(ErrorView),
}

impl View for Event {
    type V = EventView;

    open spec fn view(&self) -> EventView {
        match self {
            Event::Start => EventView::Start,
            Event::CollectionsListed(listed) => EventView::CollectionsListed(listed@),
            Event::PageListed(listing) => EventView::PageListed(listing@),
            Event::BatchFinished(failures) => EventView::BatchFinished(failures.deep_view()),
            Event::PacingElapsed => EventView::PacingElapsed,
            Event::DirectoryListed(entries) => EventView::DirectoryListed(entries.deep_view()),
            Event::Pruned => EventView::Pruned,
            Event::Failed(error) => EventView::Failed(error@),
        }
    }
}

/// What the machine asks the outside to do next.
#[derive(Debug)]
pub enum Action {
    /// Request the listing of the collections from `url`.
    ListCollections { url: String },
    /// Request the listing of a page from `url`. `opening` is the
    /// collection that this page is the first of, if it is a first page.
    ListPage { url: String, opening: Option<Collection> },
    /// Run these downloads, all at once, and wait for all of them.
    Dispatch { jobs: Vec<DownloadJob> },
    /// Wait for this many milliseconds.
    Pace { millis: u64 },
    /// Read the entries of the destination directory `dir` and of `dir`
    /// itself, without descending further.
    ListDirectory { dir: String },
    /// Remove the files at these paths.
    Prune { paths: Vec<String> },
    /// The run has ended well.
    Finish,
    /// The run has ended with this failure.
    Abort { error: SyncError },
    /// The event was not awaited; nothing has changed.
    Ignore,
}

/// An action as plain values.
pub enum ActionView {
    ListCollections { url: Seq<char> },
    ListPage { url: Seq<char>, opening: Option<CollectionView> },
    Dispatch { jobs: Seq<JobView> },
    Pace { millis: u64 },
    ListDirectory { dir: Seq<char> },
    Prune { paths: Seq<Seq<char>> },
    Finish,
    Abort { error: ErrorView },
    Ignore,
}

impl View for Action {
    type V = ActionView;

    open spec fn view(&self) -> ActionView {
        match self {
            Action::ListCollections { url } => ActionView::ListCollections { url: url@ },
            Action::ListPage { url, opening } => ActionView::ListPage {
                url: url@,
                opening: opening.deep_view(),
            },
            Action::Dispatch { jobs } => ActionView::Dispatch { jobs: jobs.deep_view() },
            Action::Pace { millis } => ActionView::Pace { millis: *millis },
            Action::ListDirectory { dir } => ActionView::ListDirectory { dir: dir@ },
            Action::Prune { paths } => ActionView::Prune { paths: paths.deep_view() },
            Action::Finish => ActionView::Finish,
            Action::Abort { error } => ActionView::Abort { error: error@ },
            Action::Ignore => ActionView::Ignore,
        }
    }
}

/// The names of the local files of `wallpapers`.
pub open spec fn spec_names(wallpapers: Seq<WallpaperView>) -> Set<Seq<char>> {
    Set::new(
        |name: Seq<char>|
            exists|i: int|
                0 <= i < wallpapers.len() && name == spec_file_name(
                    (#[trigger] wallpapers[i]).path,
                ),
    )
}

/// The state of a run, as plain values.
pub struct Model {
    /// The configuration of the run; it never changes.
    pub config: ConfigView,
    pub phase: Phase,
    /// The collections to mirror, in the order of their listing.
    pub queue: Seq<CollectionView>,
    /// Which collection of the queue is being mirrored.
    pub cursor: int,
    /// Which page of that collection is being mirrored.
    pub page: int,
    /// The number of the last page, as the latest listing reported it.
    pub last_page: int,
    /// The names of the local files of all wallpapers listed so far.
    pub seen: Set<Seq<char>>,
}

impl Model {
    /// The state in which a run with the given configuration begins.
    pub open spec fn initial(config: ConfigView) -> Model {
        Model {
            config,
            phase: Phase::Idle,
            queue: Seq::empty(),
            cursor: 0,
            page: FIRST_PAGE as int,
            last_page: FIRST_PAGE as int,
            seen: Set::empty(),
        }
    }

    /// Whether the run is at a page of a collection.
    pub open spec fn is_paging(self) -> bool {
        self.phase == Phase::ListingPage || self.phase == Phase::Dispatching || self.phase
            == Phase::Pacing
    }

    /// Whether the run has not ended.
    pub open spec fn is_live(self) -> bool {
        self.phase != Phase::Done && self.phase != Phase::Failed
    }

    /// What holds of every state that a run reaches: while it is at a
    /// page, there is a current collection.
    pub open spec fn wf(self) -> bool {
        self.is_paging() ==> 0 <= self.cursor < self.queue.len()
    }

    /// The request for the current page.
    pub open spec fn list_page(self, first: bool) -> ActionView {
        ActionView::ListPage {
            url: spec_page_url(self.config, self.queue[self.cursor].id as int, self.page),
            opening: if first {
                Some(self.queue[self.cursor])
            } else {
                None
            },
        }
    }

    /// The state after `event`. An event that is not awaited changes
    /// nothing.
    pub open spec fn step(self, event: EventView) -> Model {
        match (self.phase, event) {
            (Phase::Idle, EventView::Start) => Model { phase: Phase::ListingCollections, ..self },
            (Phase::ListingCollections, EventView::CollectionsListed(listed)) => {
                let queue = spec_select(spec_collection_names(self.config.collections), listed);
                if queue.len() == 0 {
                    Model { phase: Phase::Reconciling, queue, cursor: 0, ..self }
                } else {
                    Model {
                        phase: Phase::ListingPage,
                        queue,
                        cursor: 0,
                        page: FIRST_PAGE as int,
                        ..self
                    }
                }
            },
            (Phase::ListingPage, EventView::PageListed(listing)) => Model {
                phase: Phase::Dispatching,
                last_page: listing.meta.last_page as int,
                seen: self.seen.union(spec_names(listing.data)),
                ..self
            },
            (Phase::Dispatching, EventView::BatchFinished(failures)) => {
                if failures.len() > 0 {
                    Model { phase: Phase::Failed, ..self }
                } else {
                    Model { phase: Phase::Pacing, ..self }
                }
            },
            (Phase::Pacing, EventView::PacingElapsed) => {
                if self.page + 1 <= self.last_page {
                    Model { phase: Phase::ListingPage, page: self.page + 1, ..self }
                } else if self.cursor + 1 < self.queue.len() {
                    Model {
                        phase: Phase::ListingPage,
                        cursor: self.cursor + 1,
                        page: FIRST_PAGE as int,
                        ..self
                    }
                } else {
                    Model { phase: Phase::Reconciling, ..self }
                }
            },
            (Phase::Reconciling, EventView::DirectoryListed(_)) => Model {
                phase: Phase::Pruning,
                ..self
            },
            (Phase::Pruning, EventView::Pruned) => Model { phase: Phase::Done, ..self },
            (_, EventView::Failed(_)) => {
                if self.is_live() {
                    Model { phase: Phase::Failed, ..self }
                } else {
                    self
                }
            },
            _ => self,
        }
    }

    /// Whether `action` is an answer to `event` in this state. All of the
    /// answer is fixed but the length of a pause, which only stays within
    /// its bounds.
    pub open spec fn allows(self, event: EventView, action: ActionView) -> bool {
        let next = self.step(event);
        match (self.phase, event) {
            (Phase::Idle, EventView::Start) => action == ActionView::ListCollections {
                url: spec_collections_url(self.config),
            },
            (Phase::ListingCollections, EventView::CollectionsListed(_)) => {
                if next.phase == Phase::ListingPage {
                    action == next.list_page(true)
                } else {
                    action == ActionView::ListDirectory { dir: self.config.dir }
                }
            },
            (Phase::ListingPage, EventView::PageListed(listing)) => action == ActionView::Dispatch {
                jobs: spec_jobs(self.config.dir, listing.data),
            },
            (Phase::Dispatching, EventView::BatchFinished(failures)) => {
                if failures.len() > 0 {
                    action == ActionView::Abort { error: failures[0] }
                } else {
                    action matches ActionView::Pace { millis } && spec_is_pacing_delay(millis)
                }
            },
            (Phase::Pacing, EventView::PacingElapsed) => {
                if next.phase == Phase::ListingPage {
                    action == next.list_page(next.cursor != self.cursor)
                } else {
                    action == ActionView::ListDirectory { dir: self.config.dir }
                }
            },
            (Phase::Reconciling, EventView::DirectoryListed(entries)) => action
                == ActionView::Prune {
                paths: spec_stale_paths(self.config.dir, self.seen, entries),
            },
            (Phase::Pruning, EventView::Pruned) => action == ActionView::Finish,
            (_, EventView::Failed(error)) => {
                if self.is_live() {
                    action == ActionView::Abort { error }
                } else {
                    action == ActionView::Ignore
                }
            },
            _ => action == ActionView::Ignore,
        }
    }
}

/// Plans the downloads of one page and records the name of every local
/// file in `seen`, before any download begins.
fn register(seen: &mut StringHashSet, dir: &str, wallpapers: &Vec<Wallpaper>) -> (jobs: Vec<
    DownloadJob,
>)
    ensures
        final(seen)@ == old(seen)@.union(spec_names(wallpapers.deep_view())),
        jobs.deep_view() == spec_jobs(dir@, wallpapers.deep_view()),
{
    let mut jobs: Vec<DownloadJob> = Vec::new();
    let mut i: usize = 0;
    assert(seen@ =~= old(seen)@.union(spec_names(wallpapers.deep_view().take(0))));
    while i < wallpapers.len()
        invariant
            i <= wallpapers.len(),
            seen@ == old(seen)@.union(spec_names(wallpapers.deep_view().take(i as int))),
            jobs.len() == i,
            forall|k: int| 0 <= k < i ==> (#[trigger] jobs[k])@ == spec_job(dir@, wallpapers[k]@),
        decreases wallpapers.len() - i,
    {
        let job = DownloadJob::prepare(dir, &wallpapers[i]);
        seen.insert(job.file_name.clone());
        jobs.push(job);
        proof {
            let all = wallpapers.deep_view();
            let name = spec_file_name(wallpapers[i as int]@.path);
            assert(all.take(i + 1)[i as int] == wallpapers[i as int]@);
            assert forall|other: Seq<char>|
                spec_names(all.take(i + 1)).contains(other) <==> (spec_names(
                    all.take(i as int),
                ).contains(other) || other == name) by {
                if spec_names(all.take(i + 1)).contains(other) {
                    let k = choose|k: int|
                        0 <= k < all.take(i + 1).len() && other == spec_file_name(
                            (#[trigger] all.take(i + 1)[k]).path,
                        );
                    if k < i {
                        assert(all.take(i as int)[k] == all.take(i + 1)[k]);
                    }
                }
                if spec_names(all.take(i as int)).contains(other) {
                    let k = choose|k: int|
                        0 <= k < all.take(i as int).len() && other == spec_file_name(
                            (#[trigger] all.take(i as int)[k]).path,
                        );
                    assert(all.take(i + 1)[k] == all.take(i as int)[k]);
                }
            }
            assert(seen@ =~= old(seen)@.union(spec_names(all.take(i + 1))));
        }
        i += 1;
    }
    assert(wallpapers.deep_view().take(i as int) =~= wallpapers.deep_view());
    assert(jobs.deep_view() =~= spec_jobs(dir@, wallpapers.deep_view()));
    jobs
}

/// Where a run stands among the collections and their pages.
struct Position {
    phase: Phase,
    queue: Vec<Collection>,
    cursor: usize,
    page: i32,
    last_page: i32,
}

impl Position {
    /// While the run is at a page, the cursor points at a collection of
    /// the queue.
    #[verifier::type_invariant]
    spec fn well_formed(self) -> bool {
        (self.phase == Phase::ListingPage || self.phase == Phase::Dispatching || self.phase
            == Phase::Pacing) ==> self.cursor < self.queue.len()
    }
}

/// The synchronizer of one run.
pub struct Wallhaven {
    wallhaven_config: WallhavenConfig,
    position: Position,
    seen: StringHashSet,
}

impl View for Wallhaven {
    type V = Model;

    closed spec fn view(&self) -> Model {
        Model {
            config: self.wallhaven_config@,
            phase: self.position.phase,
            queue: self.position.queue.deep_view(),
            cursor: self.position.cursor as int,
            page: self.position.page as int,
            last_page: self.position.last_page as int,
            seen: self.seen@,
        }
    }
}

impl Wallhaven {
    /// Begins a run with the given configuration: idle, with no file name
    /// recorded yet.
    pub fn new(wallhaven_config: WallhavenConfig) -> (core: Wallhaven)
        ensures
            core@ == Model::initial(wallhaven_config@),
            core@.wf(),
    {
        let core = Wallhaven {
            wallhaven_config,
            position: Position {
                phase: Phase::Idle,
                queue: Vec::new(),
                cursor: 0,
                page: FIRST_PAGE,
                last_page: FIRST_PAGE,
            },
            seen: StringHashSet::new(),
        };
        assert(core.position.queue.deep_view() =~= Seq::empty());
        core
    }

    /// The configuration of the run.
    pub fn config(&self) -> (config: &WallhavenConfig)
        ensures
            config@ == self@.config,
    {
        &self.wallhaven_config
    }

    /// Where the run stands.
    pub fn phase(&self) -> (phase: Phase)
        ensures
            phase == self@.phase,
    {
        self.position.phase
    }

    /// The number of the page that the run is at.
    pub fn page(&self) -> (page: i32)
        ensures
            page == self@.page,
    {
        self.position.page
    }

    /// Tells whether a wallpaper listed so far has the local file name
    /// `file_name`.
    pub fn has_seen(&self, file_name: &str) -> (seen: bool)
        ensures
            seen == self@.seen.contains(file_name@),
    {
        self.seen.contains(file_name)
    }

    /// Chooses the files to remove, given the entries found under the
    /// destination directory, by what the run has seen so far. Only stale
    /// entries are chosen: never a directory, a hidden or system entry, an
    /// entry whose name the run has seen, or the destination itself.
    pub fn stale_paths(&self, entries: &Vec<LocalEntry>) -> (paths: Vec<String>)
        ensures
            paths.deep_view() == spec_stale_paths(
                self@.config.dir,
                self@.seen,
                entries.deep_view(),
            ),
            forall|i: int|
                0 <= i < paths.len() ==> spec_is_stale_path(
                    self@.config.dir,
                    self@.seen,
                    entries.deep_view(),
                    #[trigger] paths[i]@,
                ),
    {
        stale_paths(self.wallhaven_config.dir.as_str(), &self.seen, entries)
    }

    /// The request for the current page.
    fn list_page(&self, first: bool) -> (action: Action)
        requires
            self@.is_paging(),
        ensures
            action@ == self@.list_page(first),
    {
        proof {
            use_type_invariant(&self.position);
        }
        let collection = &self.position.queue[self.position.cursor];
        Action::ListPage {
            url: page_url(&self.wallhaven_config, collection.id, self.position.page),
            opening: if first {
                Some(collection.clone())
            } else {
                None
            },
        }
    }

    /// Takes `event` in, moves to the next state and tells what to do
    /// next.
    pub fn step(&mut self, event: Event) -> (action: Action)
        ensures
            final(self)@ == old(self)@.step(event@),
            old(self)@.allows(event@, action@),
            final(self)@.wf(),
    {
        proof {
            use_type_invariant(&self.position);
        }
        match event {
            Event::Start => match self.position.phase {
                Phase::Idle => {
                    self.position.phase = Phase::ListingCollections;
                    Action::ListCollections { url: collections_url(&self.wallhaven_config) }
                },
                _ => Action::Ignore,
            },
            Event::CollectionsListed(listed) => match self.position.phase {
                Phase::ListingCollections => {
                    let names = collection_names(self.wallhaven_config.collections.as_str());
                    self.position.queue = select(&names, &listed.data);
                    self.position.cursor = 0;
                    if self.position.queue.len() == 0 {
                        self.position.phase = Phase::Reconciling;
                        Action::ListDirectory { dir: self.wallhaven_config.dir.clone() }
                    } else {
                        self.position.page = FIRST_PAGE;
                        self.position.phase = Phase::ListingPage;
                        self.list_page(true)
                    }
                },
                _ => Action::Ignore,
            },
            Event::PageListed(listing) => match self.position.phase {
                Phase::ListingPage => {
                    let jobs = register(
                        &mut self.seen,
                        self.wallhaven_config.dir.as_str(),
                        &listing.data,
                    );
                    self.position.last_page = listing.meta.last_page;
                    self.position.phase = Phase::Dispatching;
                    Action::Dispatch { jobs }
                },
                _ => Action::Ignore,
            },
            Event::BatchFinished(failures) => match self.position.phase {
                Phase::Dispatching => {
                    if failures.len() > 0 {
                        self.position.phase = Phase::Failed;
                        Action::Abort { error: failures[0].clone() }
                    } else {
                        self.position.phase = Phase::Pacing;
                        Action::Pace { millis: pacing_delay() }
                    }
                },
                _ => Action::Ignore,
            },
            Event::PacingElapsed => match self.position.phase {
                Phase::Pacing => {
                    if self.position.page < self.position.last_page {
                        self.position.page = self.position.page + 1;
                        self.position.phase = Phase::ListingPage;
                        self.list_page(false)
                    } else if self.position.cursor < self.position.queue.len() - 1 {
                        self.position.cursor = self.position.cursor + 1;
                        self.position.page = FIRST_PAGE;
                        self.position.phase = Phase::ListingPage;
                        self.list_page(true)
                    } else {
                        self.position.phase = Phase::Reconciling;
                        Action::ListDirectory { dir: self.wallhaven_config.dir.clone() }
                    }
                },
                _ => Action::Ignore,
            },
            Event::DirectoryListed(entries) => match self.position.phase {
                Phase::Reconciling => {
                    let paths = self.stale_paths(&entries);
                    self.position.phase = Phase::Pruning;
                    Action::Prune { paths }
                },
                _ => Action::Ignore,
            },
            Event::Pruned => match self.position.phase {
                Phase::Pruning => {
                    self.position.phase = Phase::Done;
                    Action::Finish
                },
                _ => Action::Ignore,
            },
            Event::Failed(error) => match self.position.phase {
                Phase::Done | Phase::Failed => Action::Ignore,
                _ => {
                    self.position.phase = Phase::Failed;
                    Action::Abort { error }
                },
            },
        }
    }
}

} // verus!
