//! A failure of the store ends the operation that was waiting for it, and
//! the operation ends with that very failure. This holds of every task in
//! every state, under either resolution policy.

use crate::api_contracts::{LotDtoView, SubdivisionDtoView, SubdivisionPreviewView};
use crate::error::DefaultAppErrorView;
use crate::geometry::{ResolvedRingView, RingReadView, RingWriteView};
use crate::location::LocationView;
use crate::location_service::{CountTaskView, LocationTaskView};
use crate::store::{Resumable, StepView, StoreReplyView};
use crate::subdivision::LotView;
use crate::subdivision_repo::LotsTaskView;
use crate::aggregate::{AggregateTaskView, AggregateView};
use crate::creation::{CreateLotsTaskView, CreateTaskView};
use crate::search::{ListingTaskView, LotAreasTaskView, SearchTaskView};
use vstd::prelude::*;

verus! {

/// Every registry operation ends with the store's failure.
pub proof fn law_failure_ends_registry_task(task: LocationTaskView, error: DefaultAppErrorView)
    ensures
        task.resume(StoreReplyView::Failed(error)) == StepView::<
            LocationTaskView,
            LocationView,
        >::Done(Err(error)),
{
}

/// A batch write ends with the store's failure.
pub proof fn law_failure_ends_count(task: CountTaskView, error: DefaultAppErrorView)
    ensures
        task.resume(StoreReplyView::Failed(error)) == StepView::<CountTaskView, u64>::Done(
            Err(error),
        ),
{
}

/// The resolution of a ring into identifiers ends with the store's failure:
/// no further point is looked up or stored.
pub proof fn law_failure_ends_ring_write(ring: RingWriteView, error: DefaultAppErrorView)
    ensures
        ring.resume(StoreReplyView::Failed(error)) == StepView::<
            RingWriteView,
            Seq<Seq<char>>,
        >::Done(Err(error)),
{
}

/// The resolution of a ring into points ends with the store's failure under
/// either policy: a lenient ring leaves out the points that do not resolve,
/// but it never takes an outage for a missing point.
pub proof fn law_failure_ends_ring_read(ring: RingReadView, error: DefaultAppErrorView)
    ensures
        ring.resume(StoreReplyView::Failed(error)) == StepView::<
            RingReadView,
            ResolvedRingView,
        >::Done(Err(error)),
{
}

/// The creation of a subdivision or of a lot ends with the store's failure,
/// whether it was resolving the boundary or writing the entity. A failure
/// while resolving means that the entity is never written.
pub proof fn law_failure_ends_creation(task: CreateTaskView, error: DefaultAppErrorView)
    ensures
        task.resume(StoreReplyView::Failed(error)) == StepView::<CreateTaskView, Seq<char>>::Done(
            Err(error),
        ),
{
}

/// The creation of many lots ends with the store's failure, and no lot is
/// written after a failure while resolving.
pub proof fn law_failure_ends_lots_creation(task: CreateLotsTaskView, error: DefaultAppErrorView)
    ensures
        task.resume(StoreReplyView::Failed(error)) == StepView::<
            CreateLotsTaskView,
            Seq<LotView>,
        >::Done(Err(error)),
{
}

/// The reading of a subdivision's lots ends with the store's failure.
pub proof fn law_failure_ends_lots_reading(task: LotsTaskView, error: DefaultAppErrorView)
    ensures
        task.resume(StoreReplyView::Failed(error)) == StepView::<LotsTaskView, Seq<LotView>>::Done(
            Err(error),
        ),
{
}

/// The assembly of an aggregate ends with the store's failure, whether it
/// was reading the lots or resolving a ring, and under either policy.
pub proof fn law_failure_ends_aggregate(task: AggregateTaskView, error: DefaultAppErrorView)
    ensures
        task.resume(StoreReplyView::Failed(error)) == StepView::<
            AggregateTaskView,
            AggregateView,
        >::Done(Err(error)),
{
}

/// A search ends with the store's failure.
pub proof fn law_failure_ends_search(task: SearchTaskView, error: DefaultAppErrorView)
    ensures
        task.resume(StoreReplyView::Failed(error)) == StepView::<
            SearchTaskView,
            Seq<SubdivisionDtoView>,
        >::Done(Err(error)),
{
}

/// A listing ends with the store's failure.
pub proof fn law_failure_ends_listing(task: ListingTaskView, error: DefaultAppErrorView)
    ensures
        task.resume(StoreReplyView::Failed(error)) == StepView::<
            ListingTaskView,
            Seq<SubdivisionPreviewView>,
        >::Done(Err(error)),
{
}

/// The reading of a subdivision's lots with their coordinates ends with the
/// store's failure.
pub proof fn law_failure_ends_lot_areas(task: LotAreasTaskView, error: DefaultAppErrorView)
    ensures
        task.resume(StoreReplyView::Failed(error)) == StepView::<
            LotAreasTaskView,
            Seq<LotDtoView>,
        >::Done(Err(error)),
{
}

} // verus!
