//! What holds of every run.

use crate::completeness::spec_is_download_completed;
use crate::download::{spec_file_name, spec_needs_fetch};
use crate::records::{WallpaperView, WallpapersView};
use crate::reconcile::{spec_is_hidden, spec_is_stale, spec_stale_paths, EntryView};
use crate::wallhaven::{spec_names, ActionView, EventView, Model, Phase};
use vstd::prelude::*;

verus! {

/// The state that `events`, taken in one after the other, lead to from
/// `state`.
pub open spec fn spec_run(state: Model, events: Seq<EventView>) -> Model
    decreases events.len(),
{
    if events.len() == 0 {
        state
    } else {
        spec_run(state, events.drop_last()).step(events.last())
    }
}

/// The state after one page has gone well: it was listed with `listing`,
/// all its downloads succeeded, and the pause has passed.
pub open spec fn spec_after_page(state: Model, listing: WallpapersView) -> Model {
    state.step(EventView::PageListed(listing)).step(EventView::BatchFinished(Seq::empty())).step(
        EventView::PacingElapsed,
    )
}

/// The state after one page after the other has gone well.
pub open spec fn spec_after_pages(state: Model, listings: Seq<WallpapersView>) -> Model
    decreases listings.len(),
{
    if listings.len() == 0 {
        state
    } else {
        spec_after_page(spec_after_pages(state, listings.drop_last()), listings.last())
    }
}

/// How far a run has come: a phase never gives way to one of lower rank.
pub open spec fn spec_rank(phase: Phase) -> int {
    match phase {
        Phase::Idle => 0,
        Phase::ListingCollections => 1,
        Phase::ListingPage => 2,
        Phase::Dispatching => 2,
        Phase::Pacing => 2,
        Phase::Reconciling => 3,
        Phase::Pruning => 4,
        Phase::Done => 5,
        Phase::Failed => 6,
    }
}

/// A run only moves forward, and it reconciles at most once: the step
/// that asks for the listing of the destination directory, and the step
/// that asks for the removal of files, each raise the rank of the phase,
/// the first to that of `Reconciling`, the second from it.
pub proof fn lemma_reconciles_once(state: Model, event: EventView, action: ActionView)
    requires
        state.allows(event, action),
    ensures
        spec_rank(state.phase) <= spec_rank(state.step(event).phase),
        action is ListDirectory ==> spec_rank(state.phase) < spec_rank(Phase::Reconciling)
            && state.step(event).phase == Phase::Reconciling,
        action is Prune ==> state.phase == Phase::Reconciling && state.step(event).phase
            == Phase::Pruning,
        action is Finish ==> state.phase == Phase::Pruning && state.step(event).phase
            == Phase::Done,
{
}

/// A run that has ended, well or in a failure, stays as it is: every
/// further event is ignored.
pub proof fn lemma_ended_run_stays(state: Model, event: EventView, action: ActionView)
    requires
        !state.is_live(),
        state.allows(event, action),
    ensures
        state.step(event) == state,
        action == ActionView::Ignore,
{
}

/// A failure that is reported while a run is under way ends the run with
/// that failure, and so does the first failure among the downloads of a
/// page.
pub proof fn lemma_failure_ends_run(state: Model, event: EventView, action: ActionView)
    requires
        state.is_live(),
        state.allows(event, action),
    ensures
        event matches EventView::Failed(error) ==> state.step(event).phase == Phase::Failed
            && action == (ActionView::Abort { error }),
        state.phase == Phase::Dispatching ==> (event matches EventView::BatchFinished(failures)
            ==> failures.len() > 0 ==> state.step(event).phase == Phase::Failed && action == (
            ActionView::Abort { error: failures[0] })),
{
}

/// A run begins in a well-formed state, and no event leads out of the
/// well-formed states.
pub proof fn lemma_well_formed(state: Model, event: EventView)
    ensures
        Model::initial(state.config).wf(),
        state.wf() ==> state.step(event).wf(),
{
}

/// No event changes the configuration or removes a name from the seen
/// set.
pub proof fn lemma_step_keeps_seen(state: Model, event: EventView)
    ensures
        state.step(event).config == state.config,
        state.seen.subset_of(state.step(event).seen),
{
}

/// Whatever happens in a run, no name leaves the seen set.
pub proof fn lemma_run_keeps_seen(state: Model, events: Seq<EventView>)
    ensures
        state.seen.subset_of(spec_run(state, events).seen),
    decreases events.len(),
{
    if events.len() > 0 {
        lemma_run_keeps_seen(state, events.drop_last());
        lemma_step_keeps_seen(spec_run(state, events.drop_last()), events.last());
    }
}

/// The local file name of every wallpaper that a run was given in the
/// listing of a page it awaited is in the seen set at the end of the run,
/// whatever came after the listing: downloads that were skipped, that
/// succeeded or that failed, and the failure of the run itself.
pub proof fn lemma_listed_wallpapers_stay_seen(
    state: Model,
    events: Seq<EventView>,
    at: int,
    listing: WallpapersView,
    i: int,
)
    requires
        0 <= at < events.len(),
        spec_run(state, events.take(at)).phase == Phase::ListingPage,
        events[at] == EventView::PageListed(listing),
        0 <= i < listing.data.len(),
    ensures
        spec_run(state, events).seen.contains(spec_file_name(listing.data[i].path)),
    decreases events.len(),
{
    let name = spec_file_name(listing.data[i].path);
    if at == events.len() - 1 {
        assert(events.take(at) =~= events.drop_last());
        assert(spec_names(listing.data).contains(name));
    } else {
        let before = events.drop_last();
        assert(before.take(at) =~= events.take(at));
        lemma_listed_wallpapers_stay_seen(state, before, at, listing, i);
        lemma_step_keeps_seen(spec_run(state, before), events.last());
    }
}

/// Reconciliation removes nothing where the name of every visible file
/// directly under the destination is in the seen set.
pub proof fn lemma_nothing_stale(dir: Seq<char>, seen: Set<Seq<char>>, entries: Seq<EntryView>)
    requires
        forall|j: int| 0 <= j < entries.len() ==> !spec_is_stale(seen, #[trigger] entries[j]),
    ensures
        spec_stale_paths(dir, seen, entries) == Seq::<Seq<char>>::empty(),
    decreases entries.len(),
{
    if entries.len() > 0 {
        let init = entries.drop_last();
        assert forall|j: int| 0 <= j < init.len() implies !spec_is_stale(
            seen,
            #[trigger] init[j],
        ) by {
            assert(init[j] == entries[j]);
        }
        lemma_nothing_stale(dir, seen, init);
    }
}

/// A second run over a destination that a first run has filled is quiet.
/// Where every wallpaper of the collections has its complete file in the
/// destination (`tails` holds the trailing bytes of each file), and every
/// visible file directly under the destination is the file of one of the
/// wallpapers, then no wallpaper is fetched, and once all of them have
/// been listed no file is removed.
pub proof fn lemma_rerun_is_quiet(
    dir: Seq<char>,
    wallpapers: Seq<WallpaperView>,
    tails: Seq<Seq<u8>>,
    seen: Set<Seq<char>>,
    entries: Seq<EntryView>,
)
    requires
        tails.len() == wallpapers.len(),
        forall|i: int|
            0 <= i < wallpapers.len() ==> spec_is_download_completed(
                spec_file_name((#[trigger] wallpapers[i]).path),
                tails[i],
            ),
        spec_names(wallpapers).subset_of(seen),
        forall|j: int|
            0 <= j < entries.len() && (#[trigger] entries[j]).depth == 1 && entries[j].exists
                && !entries[j].is_dir && !spec_is_hidden(entries[j].name) ==> spec_names(
                wallpapers,
            ).contains(entries[j].name),
    ensures
        forall|i: int|
            0 <= i < wallpapers.len() ==> !spec_needs_fetch(
                spec_file_name((#[trigger] wallpapers[i]).path),
                true,
                tails[i],
            ),
        spec_stale_paths(dir, seen, entries) == Seq::<Seq<char>>::empty(),
{
    lemma_nothing_stale(dir, seen, entries);
}

/// The pages of a collection are asked for one after the other. Where a
/// run is at the first page of a collection and every listing reports the
/// same last page `last`, then after `n` pages have gone well, with `n`
/// less than `last`, the run awaits page `n + 1` of the same collection.
pub proof fn lemma_pages_in_order(state: Model, listings: Seq<WallpapersView>, last: int)
    requires
        state.phase == Phase::ListingPage,
        state.page == 1,
        forall|k: int| 0 <= k < listings.len() ==> (#[trigger] listings[k]).meta.last_page == last,
        listings.len() < last,
    ensures
        spec_after_pages(state, listings).phase == Phase::ListingPage,
        spec_after_pages(state, listings).page == listings.len() + 1,
        spec_after_pages(state, listings).cursor == state.cursor,
        spec_after_pages(state, listings).queue == state.queue,
    decreases listings.len(),
{
    if listings.len() > 0 {
        let init = listings.drop_last();
        assert forall|k: int| 0 <= k < init.len() implies (#[trigger] init[k]).meta.last_page
            == last by {
            assert(init[k] == listings[k]);
        }
        lemma_pages_in_order(state, init, last);
    }
}

/// The last page ends the collection. Where a run awaits a page whose
/// listing reports a last page that is not beyond it, then after that
/// page has gone well the run has left the collection: it awaits the first
/// page of the next collection to mirror, or, after the last collection,
/// the listing of the destination directory.
pub proof fn lemma_last_page_ends_collection(state: Model, listing: WallpapersView)
    requires
        state.phase == Phase::ListingPage,
        listing.meta.last_page <= state.page,
    ensures
        state.cursor + 1 < state.queue.len() ==> {
            &&& spec_after_page(state, listing).phase == Phase::ListingPage
            &&& spec_after_page(state, listing).cursor == state.cursor + 1
            &&& spec_after_page(state, listing).page == 1
        },
        state.cursor + 1 >= state.queue.len() ==> spec_after_page(state, listing).phase
            == Phase::Reconciling,
{
}

} // verus!
