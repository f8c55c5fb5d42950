//! The registry of locations: finding a location, creating one, and finding
//! or creating the one that stands for a point.

use crate::error::{DefaultAppError, DefaultAppErrorView};
use crate::location::{
    derive_location_id, location_id, Location, LocationView, Point, PointView,
};
use crate::location_repo::{single_location, LocationRepo};
use crate::storage::Storage;
use crate::store::{
    Resumable, Step, StepView, StoreReply, StoreReplyView, StoreRequest, StoreRequestView,
};
use vstd::prelude::*;

verus! {

/// What a registry operation is waiting for.
#[derive(Debug, PartialEq, Eq)]
pub enum LocationTask {
    /// The rows of a lookup whose result is the operation's result.
    Reading,
    /// The outcome of storing a location that must be new.
    Creating { location: Location },
    /// The rows of the lookup that opens a find-or-create.
    Looking { point: Point },
    /// The outcome of the write that closes a find-or-create.
    Inserting { location: Location },
}

/// A registry task as plain sequences.
pub enum LocationTaskView {
    Reading,
    Creating { location: LocationView },
    Looking { point: PointView },
    Inserting { location: LocationView },
}

impl View for LocationTask {
    type V = LocationTaskView;

    open spec fn view(&self) -> LocationTaskView {
        match self {
            LocationTask::Reading => LocationTaskView::Reading,
            LocationTask::Creating { location } => LocationTaskView::Creating {
                location: location@,
            },
            LocationTask::Looking { point } => LocationTaskView::Looking { point: point@ },
            LocationTask::Inserting { location } => LocationTaskView::Inserting {
                location: location@,
            },
        }
    }
}

impl DeepView for LocationTask {
    type V = LocationTaskView;

    open spec fn deep_view(&self) -> LocationTaskView {
        self@
    }
}

/// The step that ends an operation on a reply that does not answer its
/// request: the store's own failure where it reported one, else the error for
/// an unexpected reply.
pub open spec fn ended_by<T, X>(reply: StoreReplyView) -> StepView<T, X> {
    match reply {
        StoreReplyView::Failed(error) => StepView::Done(Err(error)),
        _ => StepView::Done(Err(DefaultAppErrorView::unexpected_reply())),
    }
}

/// The error with which an operation ends on a reply that does not answer
/// its request.
pub fn failure_of(reply: StoreReply) -> (error: DefaultAppError)
    ensures
        error@ == match reply@ {
            StoreReplyView::Failed(failure) => failure,
            _ => DefaultAppErrorView::unexpected_reply(),
        },
{
    match reply {
        StoreReply::Failed(error) => error,
        _ => DefaultAppError::unexpected_reply(),
    }
}

impl LocationTaskView {
    /// The request that opens a find-or-create for `point`, and the task
    /// that awaits its answer.
    pub open spec fn get_or_create(point: PointView) -> StepView<LocationTaskView, LocationView> {
        StepView::Ask(
            StoreRequestView::GetLocation { id: location_id(point) },
            LocationTaskView::Looking { point },
        )
    }
}

impl Resumable for LocationTaskView {
    type Outcome = LocationView;

    /// What the task does with the store's reply.
    ///
    /// A lookup ends with the one row that matched, and with an error when
    /// another number of rows did. A creation ends with the location when
    /// exactly one row was created. A find-or-create ends with the row that
    /// the lookup found; where there was none it stores the location derived
    /// from the point, and ends with that location whether the write created
    /// the row or found that another caller had created it meanwhile. A
    /// failure of the store ends every task with that failure.
    open spec fn resume(self, reply: StoreReplyView) -> StepView<LocationTaskView, LocationView> {
        match (self, reply) {
            (LocationTaskView::Reading, StoreReplyView::Locations(rows)) => StepView::Done(
                single_location(rows),
            ),
            (
                LocationTaskView::Creating { location },
                StoreReplyView::Affected(count),
            ) => if count == 1 {
                StepView::Done(Ok(location))
            } else {
                StepView::Done(Err(DefaultAppErrorView::unexpected_rows_created(count as nat)))
            },
            (LocationTaskView::Looking { point }, StoreReplyView::Locations(rows)) => if rows.len()
                == 0 {
                StepView::Ask(
                    StoreRequestView::SaveLocation { location: LocationView::at(point) },
                    LocationTaskView::Inserting { location: LocationView::at(point) },
                )
            } else {
                StepView::Done(single_location(rows))
            },
            (
                LocationTaskView::Inserting { location },
                StoreReplyView::Affected(count),
            ) => if count <= 1 {
                StepView::Done(Ok(location))
            } else {
                StepView::Done(Err(DefaultAppErrorView::unexpected_rows_created(count as nat)))
            },
            (_, other) => ended_by(other),
        }
    }
}

impl LocationTask {
    /// Takes the store's reply and says what the operation does next.
    pub fn resume(self, reply: StoreReply) -> (step: Step<LocationTask, Location>)
        ensures
            step.deep_view() == self@.resume(reply@),
    {
        match (self, reply) {
            (LocationTask::Reading, StoreReply::Locations(rows)) => Step::Done(
                LocationRepo::location_from_rows(rows),
            ),
            (LocationTask::Creating { location }, StoreReply::Affected(count)) => {
                if count == 1 {
                    Step::Done(Ok(location))
                } else {
                    Step::Done(Err(DefaultAppError::unexpected_rows_created(count)))
                }
            },
            (LocationTask::Looking { point }, StoreReply::Locations(rows)) => {
                if rows.len() == 0 {
                    let location = Location::at(&point);
                    Step::Ask(
                        StoreRequest::SaveLocation { location: location.duplicate() },
                        LocationTask::Inserting { location },
                    )
                } else {
                    Step::Done(LocationRepo::location_from_rows(rows))
                }
            },
            (LocationTask::Inserting { location }, StoreReply::Affected(count)) => {
                if count <= 1 {
                    Step::Done(Ok(location))
                } else {
                    Step::Done(Err(DefaultAppError::unexpected_rows_created(count)))
                }
            },
            (_, other) => Step::Done(Err(failure_of(other))),
        }
    }
}

/// A write of many rows waiting for the number of rows it created.
#[derive(Debug, Clone, PartialEq, Eq)]
pub struct CountTask {}

/// A pending count, as the laws see it.
pub struct CountTaskView {}

impl DeepView for CountTask {
    type V = CountTaskView;

    open spec fn deep_view(&self) -> CountTaskView {
        CountTaskView {  }
    }
}

impl Resumable for CountTaskView {
    type Outcome = u64;

    /// What the write does with the store's reply: it ends with the number
    /// of rows that the store created.
    open spec fn resume(self, reply: StoreReplyView) -> StepView<CountTaskView, u64> {
        match reply {
            StoreReplyView::Affected(count) => StepView::Done(Ok(count)),
            other => ended_by(other),
        }
    }
}

impl CountTask {
    /// Takes the store's reply and ends the write.
    pub fn resume(self, reply: StoreReply) -> (step: Step<CountTask, u64>)
        ensures
            step.deep_view() == self.deep_view().resume(reply@),
    {
        match reply {
            StoreReply::Affected(count) => Step::Done(Ok(count)),
            other => Step::Done(Err(failure_of(other))),
        }
    }
}

/// The registry of locations.
#[derive(Debug, Clone, PartialEq, Eq)]
pub struct LocationService {
    pub repo: LocationRepo,
}

impl LocationService {
    /// A registry over the store reached under `storage`.
    pub fn new(storage: Storage) -> (service: LocationService)
        ensures
            service.repo.storage == storage,
    {
        Self { repo: LocationRepo::new(storage) }
    }

    /// Starts the lookup of the location stored under `id`. The operation
    /// ends with the location, or with an error when the store holds no row,
    /// or more than one, under that identifier.
    pub fn get_location(&self, id: String) -> (step: Step<LocationTask, Location>)
        ensures
            step.deep_view() == StepView::<LocationTaskView, LocationView>::Ask(
                StoreRequestView::GetLocation { id: id@ },
                LocationTaskView::Reading,
            ),
    {
        Step::Ask(StoreRequest::GetLocation { id }, LocationTask::Reading)
    }

    /// Starts the lookup of the location that stands for the point `coords`.
    pub fn get_location_by_coords(&self, coords: Point) -> (step: Step<LocationTask, Location>)
        ensures
            step.deep_view() == StepView::<LocationTaskView, LocationView>::Ask(
                StoreRequestView::GetLocation { id: location_id(coords@) },
                LocationTaskView::Reading,
            ),
    {
        Step::Ask(
            StoreRequest::GetLocation { id: derive_location_id(&coords) },
            LocationTask::Reading,
        )
    }

    /// Starts the creation of `location`. The operation ends with the
    /// location when the store created exactly one row for it.
    pub fn create_location(&self, location: Location) -> (step: Step<LocationTask, Location>)
        ensures
            step.deep_view() == StepView::<LocationTaskView, LocationView>::Ask(
                StoreRequestView::SaveLocation { location: location@ },
                LocationTaskView::Creating { location: location@ },
            ),
    {
        Step::Ask(
            StoreRequest::SaveLocation { location: location.duplicate() },
            LocationTask::Creating { location },
        )
    }

    /// Starts the creation of all of `locations` in one write. The batch is
    /// sent as it is: the caller has removed duplicates from it. The
    /// operation ends with the number of rows that the store created.
    pub fn create_locations(&self, locations: Vec<Location>) -> (step: Step<CountTask, u64>)
        ensures
            step.deep_view() == StepView::<CountTaskView, u64>::Ask(
                StoreRequestView::SaveLocations { locations: locations.deep_view() },
                CountTaskView {  },
            ),
    {
        Step::Ask(StoreRequest::SaveLocations { locations }, CountTask {  })
    }

    /// Starts a find-or-create for the point `coords`: the operation looks
    /// the point's identifier up and stores the location only where the
    /// lookup found none.
    pub fn get_or_create_location(&self, coords: Point) -> (step: Step<LocationTask, Location>)
        ensures
            step.deep_view() == LocationTaskView::get_or_create(coords@),
    {
        Step::Ask(
            StoreRequest::GetLocation { id: derive_location_id(&coords) },
            LocationTask::Looking { point: coords },
        )
    }
}

} // verus!
