//! The services of the application, bound to one backing store, and the way
//! in which each request to the store is carried out.

use crate::location_repo::{
    get_location_statement, save_location_statement, save_locations_statement,
};
use crate::location_service::LocationService;
use crate::statement::{Statement, StatementView};
use crate::storage::{Storage, StorageView};
use crate::store::{StoreReply, StoreReplyView, StoreRequest, StoreRequestView};
use crate::subdivision_repo::{
    create_lot_statement, create_lots_statement, create_statement, delete_statement,
    get_all_preview_statement, get_subdivision_lots_statement, lot_locations_statement,
    lots_statement, search_by_location_statement, search_by_name_statement, update_statement,
};
use crate::subdivision_service::SubdivisionService;
use vstd::prelude::*;

verus! {

/// The kind of reply that a statement's result is to be read as.
#[derive(Debug, Clone, Copy, PartialEq, Eq)]
pub enum ReplyShape {
    /// Rows of the location table.
    Locations,
    /// The number of rows that the statement touched.
    Affected,
    /// Nothing but the fact that the statement was applied.
    Completed,
    /// Subdivisions with their coordinate arrays.
    Areas,
    /// Subdivisions with the number of their lots.
    Previews,
    /// Lots without boundaries.
    Lots,
    /// Identifiers of boundary points.
    LocationIds,
    /// Lots with their coordinate arrays.
    LotAreas,
}

/// How a request to the store is carried out.
#[derive(Debug, Clone, PartialEq, Eq)]
pub enum Plan {
    /// Send the statement and read its result as a reply of the given shape;
    /// report a failure of the store as a failed reply.
    Send { statement: Statement, expect: ReplyShape },
    /// Send nothing: there is nothing to write, and the reply is known.
    Skip { reply: StoreReply },
}

/// A plan as plain sequences.
pub enum PlanView {
    Send { statement: StatementView, expect: ReplyShape },
    Skip { reply: StoreReplyView },
}

impl View for Plan {
    type V = PlanView;

    open spec fn view(&self) -> PlanView {
        match self {
            Plan::Send { statement, expect } => PlanView::Send {
                statement: statement@,
                expect: *expect,
            },
            Plan::Skip { reply } => PlanView::Skip { reply: reply@ },
        }
    }
}

/// The statement for a write that may have nothing to write: sent where
/// there is a statement, skipped with the reply `otherwise` where there is
/// none.
pub open spec fn send_or_skip(
    statement: Option<StatementView>,
    expect: ReplyShape,
    otherwise: StoreReplyView,
) -> PlanView {
    match statement {
        Some(statement) => PlanView::Send { statement, expect },
        None => PlanView::Skip { reply: otherwise },
    }
}

/// How `request` is carried out: the statement that each kind of request
/// stands for, and the shape of its reply.
pub open spec fn plan_for(request: StoreRequestView) -> PlanView {
    match request {
        StoreRequestView::GetLocation { id } => PlanView::Send {
            statement: get_location_statement(id),
            expect: ReplyShape::Locations,
        },
        StoreRequestView::SaveLocation { location } => PlanView::Send {
            statement: save_location_statement(location),
            expect: ReplyShape::Affected,
        },
        StoreRequestView::SaveLocations { locations } => send_or_skip(
            save_locations_statement(locations),
            ReplyShape::Affected,
            StoreReplyView::Affected(0),
        ),
        StoreRequestView::CreateSubdivision { subdivision } => PlanView::Send {
            statement: create_statement(subdivision),
            expect: ReplyShape::Completed,
        },
        StoreRequestView::CreateLot { lot } => PlanView::Send {
            statement: create_lot_statement(lot),
            expect: ReplyShape::Completed,
        },
        StoreRequestView::CreateLots { lots } => send_or_skip(
            create_lots_statement(lots),
            ReplyShape::Completed,
            StoreReplyView::Completed,
        ),
        StoreRequestView::DeleteSubdivision { id } => PlanView::Send {
            statement: delete_statement(id),
            expect: ReplyShape::Affected,
        },
        StoreRequestView::UpdateSubdivision { id, new_name } => PlanView::Send {
            statement: update_statement(id, new_name),
            expect: ReplyShape::Affected,
        },
        StoreRequestView::SearchByName { name } => PlanView::Send {
            statement: search_by_name_statement(name),
            expect: ReplyShape::Areas,
        },
        StoreRequestView::SearchByLocation { coords, radius, measured_from } => PlanView::Send {
            statement: search_by_location_statement(coords, radius, measured_from),
            expect: ReplyShape::Areas,
        },
        StoreRequestView::GetAllPreview => PlanView::Send {
            statement: get_all_preview_statement(),
            expect: ReplyShape::Previews,
        },
        StoreRequestView::GetLots { subdivision_id } => PlanView::Send {
            statement: lots_statement(subdivision_id),
            expect: ReplyShape::Lots,
        },
        StoreRequestView::GetLotLocations { name, subdivision_id } => PlanView::Send {
            statement: lot_locations_statement(name, subdivision_id),
            expect: ReplyShape::LocationIds,
        },
        StoreRequestView::GetSubdivisionLots { subdivision_id } => PlanView::Send {
            statement: get_subdivision_lots_statement(subdivision_id),
            expect: ReplyShape::LotAreas,
        },
    }
}

/// The services of the application and the settings of the store they share.
#[derive(Debug, Clone, PartialEq, Eq)]
pub struct AppState {
    pub subdivision_service: SubdivisionService,
    pub storage: Storage,
    pub location_service: LocationService,
}

impl AppState {
    /// The settings of the local store.
    pub open spec fn local_storage() -> StorageView {
        StorageView {
            host: "localhost"@,
            user: "postgres"@,
            password: "postgres"@,
            database: "postgres"@,
        }
    }

    /// The services over the local store, all bound to the same settings.
    pub fn new() -> (state: AppState)
        ensures
            state.storage@ == AppState::local_storage(),
            state.location_service.repo.storage@ == AppState::local_storage(),
            state.subdivision_service.repo.storage@ == AppState::local_storage(),
            state.subdivision_service.location_service.repo.storage@
                == AppState::local_storage(),
    {
        let storage = Storage::new(
            String::from_str("localhost"),
            String::from_str("postgres"),
            String::from_str("postgres"),
            String::from_str("postgres"),
        );
        let location_service = LocationService::new(storage.duplicate());
        let subdivision_service = SubdivisionService::new(
            storage.duplicate(),
            LocationService::new(storage.duplicate()),
        );
        Self { storage, location_service, subdivision_service }
    }

    /// Says how `request` is carried out: which statement is sent to the
    /// store and as what its result is read, or that nothing needs sending.
    pub fn plan(&self, request: StoreRequest) -> (plan: Plan)
        ensures
            plan@ == plan_for(request@),
    {
        let locations = &self.location_service.repo;
        let subdivisions = &self.subdivision_service.repo;
        match request {
            StoreRequest::GetLocation { id } => Plan::Send {
                statement: locations.get_location(id),
                expect: ReplyShape::Locations,
            },
            StoreRequest::SaveLocation { location } => Plan::Send {
                statement: locations.save_location(location),
                expect: ReplyShape::Affected,
            },
            StoreRequest::SaveLocations { locations: batch } => match locations.save_locations(
                batch,
            ) {
                Some(statement) => Plan::Send { statement, expect: ReplyShape::Affected },
                None => Plan::Skip { reply: StoreReply::Affected(0) },
            },
            StoreRequest::CreateSubdivision { subdivision } => Plan::Send {
                statement: subdivisions.create(subdivision),
                expect: ReplyShape::Completed,
            },
            StoreRequest::CreateLot { lot } => Plan::Send {
                statement: subdivisions.create_lot(lot),
                expect: ReplyShape::Completed,
            },
            StoreRequest::CreateLots { lots } => match subdivisions.create_lots(lots) {
                Some(statement) => Plan::Send { statement, expect: ReplyShape::Completed },
                None => Plan::Skip { reply: StoreReply::Completed },
            },
            StoreRequest::DeleteSubdivision { id } => Plan::Send {
                statement: subdivisions.delete(id),
                expect: ReplyShape::Affected,
            },
            StoreRequest::UpdateSubdivision { id, new_name } => Plan::Send {
                statement: subdivisions.update(id, new_name),
                expect: ReplyShape::Affected,
            },
            StoreRequest::SearchByName { name } => Plan::Send {
                statement: subdivisions.search_by_name(name),
                expect: ReplyShape::Areas,
            },
            StoreRequest::SearchByLocation { coords, radius, measured_from } => Plan::Send {
                statement: subdivisions.search_by_location(coords, radius, measured_from),
                expect: ReplyShape::Areas,
            },
            StoreRequest::GetAllPreview => Plan::Send {
                statement: subdivisions.get_all_preview(),
                expect: ReplyShape::Previews,
            },
            StoreRequest::GetLots { subdivision_id } => Plan::Send {
                statement: subdivisions.lots_of(subdivision_id),
                expect: ReplyShape::Lots,
            },
            StoreRequest::GetLotLocations { name, subdivision_id } => Plan::Send {
                statement: subdivisions.lot_locations(name, subdivision_id),
                expect: ReplyShape::LocationIds,
            },
            StoreRequest::GetSubdivisionLots { subdivision_id } => Plan::Send {
                statement: subdivisions.get_subdivision_lots(subdivision_id),
                expect: ReplyShape::LotAreas,
            },
        }
    }
}

} // verus!
