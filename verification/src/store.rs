//! The conversation with the backing store.
//!
//! An operation never touches the store itself. It says what it needs as a
//! [`StoreRequest`], is handed the store's answer as a [`StoreReply`], and
//! decides from its own state and that answer what to ask next or what to
//! return. Whoever runs the operation performs the requests.

use crate::api_contracts::{SubdivisionPreview, SubdivisionPreviewView};
use crate::error::{DefaultAppError, DefaultAppErrorView};
use crate::location::{Coordinates, Location, LocationView};
use crate::subdivision::{Lot, LotView, RepresentativePoint, Subdivision, SubdivisionView};
use vstd::prelude::*;

verus! {

/// One matching subdivision of a search: identifier, name, and the
/// coordinates of its boundary points as two parallel arrays in ring order.
#[derive(Debug, Clone, PartialEq, Eq)]
pub struct AreaRow {
    pub id: String,
    pub name: String,
    pub lats: Vec<u64>,
    pub longs: Vec<u64>,
}

/// A search row as plain sequences.
pub struct AreaRowView {
    pub id: Seq<char>,
    pub name: Seq<char>,
    pub lats: Seq<u64>,
    pub longs: Seq<u64>,
}

impl View for AreaRow {
    type V = AreaRowView;

    open spec fn view(&self) -> AreaRowView {
        AreaRowView { id: self.id@, name: self.name@, lats: self.lats@, longs: self.longs@ }
    }
}

impl DeepView for AreaRow {
    type V = AreaRowView;

    open spec fn deep_view(&self) -> AreaRowView {
        self@
    }
}

/// One lot of a subdivision without its boundary.
#[derive(Debug, Clone, PartialEq, Eq)]
pub struct LotRow {
    pub name: String,
    pub subdivision_id: String,
}

/// A lot row as plain sequences.
pub struct LotRowView {
    pub name: Seq<char>,
    pub subdivision_id: Seq<char>,
}

impl View for LotRow {
    type V = LotRowView;

    open spec fn view(&self) -> LotRowView {
        LotRowView { name: self.name@, subdivision_id: self.subdivision_id@ }
    }
}

impl DeepView for LotRow {
    type V = LotRowView;

    open spec fn deep_view(&self) -> LotRowView {
        self@
    }
}

/// One lot of a subdivision with the coordinates of its boundary points as
/// two parallel arrays in ring order.
#[derive(Debug, Clone, PartialEq, Eq)]
pub struct LotAreaRow {
    pub name: String,
    pub lats: Vec<u64>,
    pub longs: Vec<u64>,
}

/// A lot row with coordinates as plain sequences.
pub struct LotAreaRowView {
    pub name: Seq<char>,
    pub lats: Seq<u64>,
    pub longs: Seq<u64>,
}

impl View for LotAreaRow {
    type V = LotAreaRowView;

    open spec fn view(&self) -> LotAreaRowView {
        LotAreaRowView { name: self.name@, lats: self.lats@, longs: self.longs@ }
    }
}

impl DeepView for LotAreaRow {
    type V = LotAreaRowView;

    open spec fn deep_view(&self) -> LotAreaRowView {
        self@
    }
}

/// What an operation asks of the backing store.
#[derive(Debug, PartialEq, Eq)]
pub enum StoreRequest {
    /// The locations stored under an identifier.
    GetLocation { id: String },
    /// Store a location unless its identifier is already taken.
    SaveLocation { location: Location },
    /// Store many locations at once; the caller has removed duplicates.
    SaveLocations { locations: Vec<Location> },
    /// Store a subdivision and its boundary as one atomic unit.
    CreateSubdivision { subdivision: Subdivision },
    /// Store a lot and its boundary as one atomic unit.
    CreateLot { lot: Lot },
    /// Store many lots and their boundaries as one atomic unit.
    CreateLots { lots: Vec<Lot> },
    /// Remove a subdivision.
    DeleteSubdivision { id: String },
    /// Rename a subdivision.
    UpdateSubdivision { id: String, new_name: String },
    /// The subdivisions whose name contains a text, whatever the case.
    SearchByName { name: String },
    /// The subdivisions whose representative point lies within a radius of
    /// a point, the boundary of the radius included.
    SearchByLocation { coords: Coordinates, radius: u64, measured_from: RepresentativePoint },
    /// Every subdivision with the number of its lots.
    GetAllPreview,
    /// The lots of a subdivision, without boundaries.
    GetLots { subdivision_id: String },
    /// The identifiers of a lot's boundary points, in ring order.
    GetLotLocations { name: String, subdivision_id: String },
    /// The lots of a subdivision with their boundary coordinates.
    GetSubdivisionLots { subdivision_id: String },
}

/// A request as plain sequences.
pub enum StoreRequestView {
    GetLocation { id: Seq<char> },
    SaveLocation { location: LocationView },
    SaveLocations { locations: Seq<LocationView> },
    CreateSubdivision { subdivision: SubdivisionView },
    CreateLot { lot: LotView },
    CreateLots { lots: Seq<LotView> },
    DeleteSubdivision { id: Seq<char> },
    UpdateSubdivision { id: Seq<char>, new_name: Seq<char> },
    SearchByName { name: Seq<char> },
    SearchByLocation { coords: Coordinates, radius: u64, measured_from: RepresentativePoint },
    GetAllPreview,
    GetLots { subdivision_id: Seq<char> },
    GetLotLocations { name: Seq<char>, subdivision_id: Seq<char> },
    GetSubdivisionLots { subdivision_id: Seq<char> },
}

impl View for StoreRequest {
    type V = StoreRequestView;

    open spec fn view(&self) -> StoreRequestView {
        match self {
            StoreRequest::GetLocation { id } => StoreRequestView::GetLocation { id: id@ },
            StoreRequest::SaveLocation { location } => StoreRequestView::SaveLocation {
                location: location@,
            },
            StoreRequest::SaveLocations { locations } => StoreRequestView::SaveLocations {
                locations: locations.deep_view(),
            },
            StoreRequest::CreateSubdivision { subdivision } => StoreRequestView::CreateSubdivision {
                subdivision: subdivision@,
            },
            StoreRequest::CreateLot { lot } => StoreRequestView::CreateLot { lot: lot@ },
            StoreRequest::CreateLots { lots } => StoreRequestView::CreateLots {
                lots: lots.deep_view(),
            },
            StoreRequest::DeleteSubdivision { id } => StoreRequestView::DeleteSubdivision {
                id: id@,
            },
            StoreRequest::UpdateSubdivision { id, new_name } => StoreRequestView::UpdateSubdivision {
                id: id@,
                new_name: new_name@,
            },
            StoreRequest::SearchByName { name } => StoreRequestView::SearchByName { name: name@ },
            StoreRequest::SearchByLocation {
                coords,
                radius,
                measured_from,
            } => StoreRequestView::SearchByLocation {
                coords: *coords,
                radius: *radius,
                measured_from: *measured_from,
            },
            StoreRequest::GetAllPreview => StoreRequestView::GetAllPreview,
            StoreRequest::GetLots { subdivision_id } => StoreRequestView::GetLots {
                subdivision_id: subdivision_id@,
            },
            StoreRequest::GetLotLocations { name, subdivision_id } => StoreRequestView::GetLotLocations {
                name: name@,
                subdivision_id: subdivision_id@,
            },
            StoreRequest::GetSubdivisionLots { subdivision_id } => StoreRequestView::GetSubdivisionLots {
                subdivision_id: subdivision_id@,
            },
        }
    }
}

impl DeepView for StoreRequest {
    type V = StoreRequestView;

    open spec fn deep_view(&self) -> StoreRequestView {
        self@
    }
}

/// What the backing store answered.
#[derive(Debug, Clone, PartialEq, Eq)]
pub enum StoreReply {
    /// The rows of the location table that matched.
    Locations(Vec<Location>),
    /// The number of rows that a write created, changed or removed.
    Affected(u64),
    /// An atomic unit of writes was applied in full.
    Completed,
    /// The subdivisions that matched a search.
    Areas(Vec<AreaRow>),
    /// The listing of all subdivisions.
    Previews(Vec<SubdivisionPreview>),
    /// The lots of a subdivision.
    Lots(Vec<LotRow>),
    /// The identifiers of a boundary's points, in ring order.
    LocationIds(Vec<String>),
    /// The lots of a subdivision with their coordinates.
    LotAreas(Vec<LotAreaRow>),
    /// The store failed; nothing of the request was applied.
    Failed(DefaultAppError),
}

/// A reply as plain sequences.
pub enum StoreReplyView {
    Locations(Seq<LocationView>),
    Affected(u64),
    Completed,
    Areas(Seq<AreaRowView>),
    Previews(Seq<SubdivisionPreviewView>),
    Lots(Seq<LotRowView>),
    LocationIds(Seq<Seq<char>>),
    LotAreas(Seq<LotAreaRowView>),
    Failed(DefaultAppErrorView),
}

impl View for StoreReply {
    type V = StoreReplyView;

    open spec fn view(&self) -> StoreReplyView {
        match self {
            StoreReply::Locations(rows) => StoreReplyView::Locations(rows.deep_view()),
            StoreReply::Affected(count) => StoreReplyView::Affected(*count),
            StoreReply::Completed => StoreReplyView::Completed,
            StoreReply::Areas(rows) => StoreReplyView::Areas(rows.deep_view()),
            StoreReply::Previews(rows) => StoreReplyView::Previews(rows.deep_view()),
            StoreReply::Lots(rows) => StoreReplyView::Lots(rows.deep_view()),
            StoreReply::LocationIds(ids) => StoreReplyView::LocationIds(ids.deep_view()),
            StoreReply::LotAreas(rows) => StoreReplyView::LotAreas(rows.deep_view()),
            StoreReply::Failed(error) => StoreReplyView::Failed(error@),
        }
    }
}

impl DeepView for StoreReply {
    type V = StoreReplyView;

    open spec fn deep_view(&self) -> StoreReplyView {
        self@
    }
}

/// A task as plain sequences, with what it does when it is handed the
/// store's reply to the request it was waiting on.
pub trait Resumable: Sized {
    /// What the operation ends with when it succeeds.
    type Outcome;

    /// The step that follows when `reply` comes in.
    spec fn resume(self, reply: StoreReplyView) -> StepView<Self, Self::Outcome>;
}

/// Where an operation stands after a step: it either asks the store for
/// something and keeps the state in which it awaits the answer, or it is done.
#[derive(Debug, PartialEq, Eq)]
pub enum Step<T, X> {
    /// Perform the request and resume the task with the reply.
    Ask(StoreRequest, T),
    /// The operation has ended with this result.
    Done(Result<X, DefaultAppError>),
}

/// A step as plain sequences.
pub enum StepView<T, X> {
    Ask(StoreRequestView, T),
    Done(Result<X, DefaultAppErrorView>),
}

impl<T: DeepView, X: DeepView> DeepView for Step<T, X> {
    type V = StepView<T::V, X::V>;

    open spec fn deep_view(&self) -> StepView<T::V, X::V> {
        match self {
            Step::Ask(request, task) => StepView::Ask(request@, task.deep_view()),
            Step::Done(Ok(value)) => StepView::Done(Ok(value.deep_view())),
            Step::Done(Err(error)) => StepView::Done(Err(error@)),
        }
    }
}

} // verus!
