//! The catalog cache: one process-wide slot holding the last successfully
//! fetched upstream list. The surrounding runtime guards the slot with a
//! read/write lock and performs the upstream call; this module holds the
//! slot's state and every decision of the double-checked population
//! protocol, so that a caller runs it as:
//!
//! 1. under a shared lock, `lookup`; a hit is returned as-is (fast path);
//! 2. on a miss, under the exclusive lock, `lookup` again (the re-check): a
//!    hit left by whoever won the race is adopted without fetching;
//! 3. only when the re-check still misses, fetch once and hand the outcome
//!    to `install_fetched`, which installs a success and leaves the slot
//!    untouched on failure.
//!
//! The forced-refresh path of the no-cache endpoint skips the checks: it
//! always fetches and hands the outcome to `force_install`.

use vstd::prelude::*;
use crate::records::{
    duplicate_records, result_dv, CatalogError, CatalogErrorView, ModelRecord, ModelRecordView,
    spec_describe,
};

verus! {

/// The slot's contents: nothing yet, or the whole last installed snapshot.
/// Writers install a fully-formed snapshot or nothing.
pub struct CacheSlot {
    pub contents: Option<Vec<ModelRecord>>,
}

impl CacheSlot {
    /// Mathematical value of the slot: the snapshot it holds, if any.
    pub open spec fn view_opt(&self) -> Option<Seq<ModelRecordView>> {
        self.contents.deep_view()
    }

    /// The empty slot every process starts from.
    pub fn empty() -> (slot: CacheSlot)
        ensures
            slot.view_opt() is None,
    {
        CacheSlot { contents: None }
    }

    /// Read the slot: a copy of the held snapshot on a hit, nothing on a
    /// miss. Serves both the shared-lock fast path and the exclusive-lock
    /// re-check; it never changes the slot.
    pub fn lookup(&self) -> (r: Option<Vec<ModelRecord>>)
        ensures
            r.deep_view() == self.view_opt(),
    {
        match &self.contents {
            Some(models) => Some(duplicate_records(models)),
            None => None,
        }
    }

    /// Install the outcome of the miss-triggered fetch, under the exclusive
    /// lock, after a re-check still missed: a successful fetch becomes the
    /// new snapshot and is returned; a failed one leaves the slot exactly as
    /// it was and surfaces a population failure carrying the underlying
    /// message.
    pub fn install_fetched(&mut self, fetched: Result<Vec<ModelRecord>, CatalogError>) -> (r:
        Result<Vec<ModelRecord>, CatalogError>)
        ensures
            final(self).view_opt() == spec_populate(old(self).view_opt(), result_dv(fetched)).0,
            result_dv(r) == spec_populate(old(self).view_opt(), result_dv(fetched)).1,
    {
        match fetched {
            Ok(models) => {
                let copy = duplicate_records(&models);
                self.contents = Some(models);
                Ok(copy)
            },
            Err(e) => {
                let msg = e.describe();
                Err(CatalogError::CachePopulationFailure(msg))
            },
        }
    }

    /// Install the outcome of a forced refresh: a success unconditionally
    /// replaces whatever the slot held and is returned; a failure leaves the
    /// slot unchanged and is surfaced as it came.
    pub fn force_install(&mut self, fetched: Result<Vec<ModelRecord>, CatalogError>) -> (r: Result<
        Vec<ModelRecord>,
        CatalogError,
    >)
        ensures
            final(self).view_opt() == spec_force(old(self).view_opt(), result_dv(fetched)).0,
            result_dv(r) == spec_force(old(self).view_opt(), result_dv(fetched)).1,
    {
        match fetched {
            Ok(models) => {
                let copy = duplicate_records(&models);
                self.contents = Some(models);
                Ok(copy)
            },
            Err(e) => Err(e),
        }
    }
}

/// Whether the population protocol still has to fetch, given what a check of
/// the slot showed.
pub open spec fn spec_needs_fetch(slot: Option<Seq<ModelRecordView>>) -> bool {
    slot is None
}

/// Slot and returned outcome after installing a miss-triggered fetch result.
pub open spec fn spec_populate(
    slot: Option<Seq<ModelRecordView>>,
    fetched: Result<Seq<ModelRecordView>, CatalogErrorView>,
) -> (Option<Seq<ModelRecordView>>, Result<Seq<ModelRecordView>, CatalogErrorView>) {
    match fetched {
        Ok(models) => (Some(models), Ok(models)),
        Err(e) => (slot, Err(CatalogErrorView::CachePopulationFailure(spec_describe(e)))),
    }
}

/// Slot and returned outcome after installing a forced-refresh fetch result.
pub open spec fn spec_force(
    slot: Option<Seq<ModelRecordView>>,
    fetched: Result<Seq<ModelRecordView>, CatalogErrorView>,
) -> (Option<Seq<ModelRecordView>>, Result<Seq<ModelRecordView>, CatalogErrorView>) {
    match fetched {
        Ok(models) => (Some(models), Ok(models)),
        Err(e) => (slot, Err(e)),
    }
}

/// One retrieval episode, for `tasks` callers serialized on the slot and a
/// single upstream outcome `fetched`: a caller that finds the slot populated
/// adopts its contents; the first caller to find it empty performs the one
/// fetch and installs it; a failed fetch is propagated to every caller
/// queued behind the same exclusive lock, with no further fetch in the
/// episode. Returns the final slot, the number of fetches performed, and
/// each caller's observed outcome in order.
pub open spec fn spec_miss_episode(
    slot: Option<Seq<ModelRecordView>>,
    tasks: nat,
    fetched: Result<Seq<ModelRecordView>, CatalogErrorView>,
) -> (Option<Seq<ModelRecordView>>, nat, Seq<Result<Seq<ModelRecordView>, CatalogErrorView>>)
    decreases tasks,
{
    if tasks == 0 {
        (slot, 0, Seq::empty())
    } else {
        match slot {
            Some(models) => {
                let rest = spec_miss_episode(slot, (tasks - 1) as nat, fetched);
                (rest.0, rest.1, seq![Ok::<Seq<ModelRecordView>, CatalogErrorView>(models)]
                    + rest.2)
            },
            None => {
                match fetched {
                    Ok(models) => {
                        let rest = spec_miss_episode(Some(models), (tasks - 1) as nat, fetched);
                        (
                            rest.0,
                            1 + rest.1,
                            seq![Ok::<Seq<ModelRecordView>, CatalogErrorView>(models)] + rest.2,
                        )
                    },
                    Err(e) => (
                        None,
                        1,
                        Seq::new(
                            tasks,
                            |i: int|
                                Err::<Seq<ModelRecordView>, CatalogErrorView>(
                                    CatalogErrorView::CachePopulationFailure(spec_describe(e)),
                                ),
                        ),
                    ),
                }
            },
        }
    }
}

/// Once the slot is populated the fast path is idempotent: however many
/// callers retrieve after that point, and whatever the upstream would
/// return, not one further fetch happens, the slot keeps its snapshot, and
/// every caller observes that identical snapshot.
pub proof fn lemma_fast_path_idempotent(
    models: Seq<ModelRecordView>,
    tasks: nat,
    fetched: Result<Seq<ModelRecordView>, CatalogErrorView>,
)
    ensures
        !spec_needs_fetch(Some(models)),
        spec_miss_episode(Some(models), tasks, fetched).0 == Some(models),
        spec_miss_episode(Some(models), tasks, fetched).1 == 0,
        spec_miss_episode(Some(models), tasks, fetched).2.len() == tasks,
        forall|i: int|
            0 <= i < tasks ==> spec_miss_episode(Some(models), tasks, fetched).2[i] == Ok::<
                Seq<ModelRecordView>,
                CatalogErrorView,
            >(models),
    decreases tasks,
{
    if tasks > 0 {
        lemma_fast_path_idempotent(models, (tasks - 1) as nat, fetched);
    }
}

/// Against an empty slot a successful episode fetches exactly once: the
/// winner installs the snapshot, every caller queued behind it adopts the
/// installed snapshot at its re-check, and all of them observe the same
/// value.
pub proof fn lemma_single_fetch_on_miss_success(models: Seq<ModelRecordView>, tasks: nat)
    requires
        tasks > 0,
    ensures
        spec_needs_fetch(None::<Seq<ModelRecordView>>),
        spec_miss_episode(None, tasks, Ok(models)).0 == Some(models),
        spec_miss_episode(None, tasks, Ok(models)).1 == 1,
        spec_miss_episode(None, tasks, Ok(models)).2.len() == tasks,
        forall|i: int|
            0 <= i < tasks ==> spec_miss_episode(None, tasks, Ok(models)).2[i] == Ok::<
                Seq<ModelRecordView>,
                CatalogErrorView,
            >(models),
{
    lemma_fast_path_idempotent(models, (tasks - 1) as nat, Ok(models));
}

/// Against an empty slot a failing episode still fetches exactly once: the
/// slot is left empty — prior state intact for the next attempt — and every
/// caller observes the same population failure, carrying the underlying
/// message.
pub proof fn lemma_single_fetch_on_miss_failure(e: CatalogErrorView, tasks: nat)
    requires
        tasks > 0,
    ensures
        spec_miss_episode(None, tasks, Err(e)).0 is None,
        spec_miss_episode(None, tasks, Err(e)).1 == 1,
        spec_miss_episode(None, tasks, Err(e)).2.len() == tasks,
        forall|i: int|
            0 <= i < tasks ==> spec_miss_episode(None, tasks, Err(e)).2[i] == Err::<
                Seq<ModelRecordView>,
                CatalogErrorView,
            >(CatalogErrorView::CachePopulationFailure(spec_describe(e))),
{
}

/// The forced-refresh path never consults the slot: for any two prior states
/// the installed result is the same, a success unconditionally becomes the
/// new contents and is returned unfiltered, and a failure changes nothing.
pub proof fn lemma_force_refresh_unconditional(
    slot1: Option<Seq<ModelRecordView>>,
    slot2: Option<Seq<ModelRecordView>>,
    models: Seq<ModelRecordView>,
    e: CatalogErrorView,
)
    ensures
        spec_force(slot1, Ok(models)) == spec_force(slot2, Ok(models)),
        spec_force(slot1, Ok(models)).0 == Some(models),
        spec_force(slot1, Ok(models)).1 == Ok::<Seq<ModelRecordView>, CatalogErrorView>(models),
        spec_force(slot1, Err(e)).0 == slot1,
        spec_force(slot1, Err(e)).1 == Err::<Seq<ModelRecordView>, CatalogErrorView>(e),
{
}

} // verus!
