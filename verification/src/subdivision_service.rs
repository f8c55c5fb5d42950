//! What can be done with subdivisions: creating them and their lots,
//! searching them, listing them, and assembling the full aggregate of a
//! subdivision with its boundary and its lots.

use crate::aggregate::{Aggregate, AggregateTask, AggregateTaskView};
use crate::api_contracts::{
    LotDto, LotDtoView, LotRequest, SearchCriteria, SearchSubdivisionParams, SubdivisionDto,
    SubdivisionDtoView, SubdivisionPreview, SubdivisionPreviewView, SubdivisionRequest,
};
use crate::creation::{
    CreateLotsTask, CreateLotsTaskView, CreateTask, CreateTaskView, Pending,
};
use crate::geometry::{ring_from_points, ResolutionPolicy};
use crate::location::Coordinates;
use crate::location_service::LocationService;
use crate::search::{
    search_step, ListingTask, ListingTaskView, LotAreasTask, LotAreasTaskView, SearchTask,
    SearchTaskView, DEFAULT_SEARCH_RADIUS,
};
use crate::storage::Storage;
use crate::store::{Step, StepView, StoreRequest, StoreRequestView};
use crate::subdivision::{Lot, LotView, RepresentativePoint, Subdivision};
use crate::subdivision_repo::SubdivisonRepo;
use vstd::prelude::*;

verus! {

/// The operations on subdivisions.
#[derive(Debug, Clone, PartialEq, Eq)]
pub struct SubdivisionService {
    pub repo: SubdivisonRepo,
    pub location_service: LocationService,
}

impl SubdivisionService {
    /// A service over the store reached under `storage`, resolving points
    /// through `location_service`.
    pub fn new(storage: Storage, location_service: LocationService) -> (service:
        SubdivisionService)
        ensures
            service.repo.storage == storage,
            service.location_service == location_service,
    {
        Self { repo: SubdivisonRepo::new(storage), location_service: location_service }
    }

    /// Starts the search for the subdivisions whose name contains `name`,
    /// whatever the case. The search ends with one subdivision for each row
    /// that the store returns, its boundary assembled in ring order.
    pub fn search_by_name(&self, name: String) -> (step: Step<SearchTask, Vec<SubdivisionDto>>)
        ensures
            step.deep_view() == StepView::<SearchTaskView, Seq<SubdivisionDtoView>>::Ask(
                StoreRequestView::SearchByName { name: name@ },
                SearchTaskView {  },
            ),
    {
        Step::Ask(StoreRequest::SearchByName { name }, SearchTask {  })
    }

    /// Starts the search for the subdivisions near `coords`: those whose
    /// anchor point lies within the default radius, the boundary of the
    /// radius included.
    pub fn search_by_location(&self, coords: Coordinates) -> (step: Step<
        SearchTask,
        Vec<SubdivisionDto>,
    >)
        ensures
            step.deep_view() == StepView::<SearchTaskView, Seq<SubdivisionDtoView>>::Ask(
                StoreRequestView::SearchByLocation {
                    coords,
                    radius: DEFAULT_SEARCH_RADIUS,
                    measured_from: RepresentativePoint::AnchorPoint,
                },
                SearchTaskView {  },
            ),
    {
        Step::Ask(
            StoreRequest::SearchByLocation {
                coords,
                radius: DEFAULT_SEARCH_RADIUS,
                measured_from: RepresentativePoint::AnchorPoint,
            },
            SearchTask {  },
        )
    }

    /// Starts the search that a request asks for. A name takes precedence
    /// over a point; a request with neither is refused before the store is
    /// asked.
    pub fn search(&self, params: SearchSubdivisionParams) -> (step: Step<
        SearchTask,
        Vec<SubdivisionDto>,
    >)
        ensures
            step.deep_view() == search_step(params),
    {
        match params.criteria() {
            Ok(SearchCriteria::Name(name)) => self.search_by_name(name),
            Ok(SearchCriteria::Point(coords)) => self.search_by_location(coords),
            Err(error) => Step::Done(Err(error)),
        }
    }

    /// Starts the listing of every subdivision with the number of its lots.
    pub fn get_all(&self) -> (step: Step<ListingTask, Vec<SubdivisionPreview>>)
        ensures
            step.deep_view() == StepView::<ListingTaskView, Seq<SubdivisionPreviewView>>::Ask(
                StoreRequestView::GetAllPreview,
                ListingTaskView {  },
            ),
    {
        Step::Ask(StoreRequest::GetAllPreview, ListingTask {  })
    }

    /// Starts the reading of the lots of `subdivision_id` with their
    /// boundaries as points.
    pub fn get_subdivision_lots(&self, subdivision_id: String) -> (step: Step<
        LotAreasTask,
        Vec<LotDto>,
    >)
        ensures
            step.deep_view() == StepView::<LotAreasTaskView, Seq<LotDtoView>>::Ask(
                StoreRequestView::GetSubdivisionLots { subdivision_id: subdivision_id@ },
                LotAreasTaskView { subdivision_id: subdivision_id@ },
            ),
    {
        Step::Ask(
            StoreRequest::GetSubdivisionLots { subdivision_id: subdivision_id.clone() },
            LotAreasTask { subdivision_id },
        )
    }
    /// Starts the creation of the subdivision that the request describes:
    /// every point of the boundary goes through find-or-create, in ring
    /// order, and then the subdivision is written together with its boundary.
    /// The creation ends with the subdivision's identifier.
    pub fn create(&self, subdivision_dto: SubdivisionRequest) -> (step: Step<CreateTask, String>)
        ensures
            step.deep_view() == CreateTaskView::create(subdivision_dto@),
    {
        let SubdivisionRequest { id, name, area, lots: _ } = subdivision_dto;
        CreateTask::after_ring(Pending::Subdivision { id, name }, ring_from_points(area))
    }

    /// Starts the creation of the lot that `lot` describes, in the same way.
    /// The creation ends with the identifier that the request carried.
    pub fn create_lot(&self, lot: LotRequest) -> (step: Step<CreateTask, String>)
        ensures
            step.deep_view() == CreateTaskView::create_lot(lot@),
    {
        let LotRequest { area, id, name, subdivision_id } = lot;
        CreateTask::after_ring(Pending::Lot { id, name, subdivision_id }, ring_from_points(area))
    }

    /// Starts the creation of all lots of `lots_dtos`: the rings are resolved
    /// lot after lot, and then all lots are written together with their
    /// boundaries. The creation ends with the lots as they were stored.
    pub fn create_lots(&self, lots_dtos: Vec<LotRequest>) -> (step: Step<
        CreateLotsTask,
        Vec<Lot>,
    >)
        ensures
            step.deep_view() == CreateLotsTaskView::turn_to_next(
                lots_dtos.deep_view(),
                Seq::empty(),
            ),
    {
        let lots: Vec<Lot> = Vec::new();
        proof {
            assert(lots.deep_view() =~= Seq::<LotView>::empty());
        }
        CreateLotsTask::turn_to_next(lots_dtos, lots)
    }

    /// Starts the assembly of the full aggregate of `subdivision`: its lots
    /// are read, the boundary of each lot is resolved into points, and
    /// finally the subdivision's own boundary. `policy` decides, for the
    /// whole aggregate, whether a point that does not resolve fails the
    /// assembly or is left out and counted.
    pub fn to_dto(&self, subdivision: Subdivision, policy: ResolutionPolicy) -> (step: Step<
        AggregateTask,
        Aggregate,
    >)
        ensures
            step.deep_view() == AggregateTaskView::to_dto(subdivision@, policy),
    {
        let reading = self.repo.get_lots_by_subdivision(subdivision.id.clone());
        AggregateTask::after_lots(subdivision, policy, reading)
    }
}

} // verus!
