//! The plain data shapes exchanged with callers: what is asked to be
//! created, and what is given back.

use crate::error::{DefaultAppError, DefaultAppErrorView};
use crate::location::{Coordinates, Point, PointView};
use vstd::prelude::*;

verus! {

/// The request to create a lot: its boundary ring as points, each with the
/// text of its coordinates, from which the identifiers of the points are
/// derived.
#[derive(Debug, Clone, PartialEq, Eq)]
pub struct LotRequest {
    pub area: Vec<Point>,
    pub id: String,
    pub name: String,
    pub subdivision_id: String,
}

/// A request to create a lot as plain sequences.
pub struct LotRequestView {
    pub area: Seq<PointView>,
    pub id: Seq<char>,
    pub name: Seq<char>,
    pub subdivision_id: Seq<char>,
}

impl View for LotRequest {
    type V = LotRequestView;

    open spec fn view(&self) -> LotRequestView {
        LotRequestView {
            area: self.area.deep_view(),
            id: self.id@,
            name: self.name@,
            subdivision_id: self.subdivision_id@,
        }
    }
}

impl DeepView for LotRequest {
    type V = LotRequestView;

    open spec fn deep_view(&self) -> LotRequestView {
        self@
    }
}

/// The request to create a subdivision: its boundary ring as points, each
/// with the text of its coordinates, and the lots that the request may
/// carry.
#[derive(Debug, Clone, PartialEq, Eq)]
pub struct SubdivisionRequest {
    pub id: String,
    pub name: String,
    pub area: Vec<Point>,
    pub lots: Option<Vec<LotRequest>>,
}

/// A request to create a subdivision as plain sequences.
pub struct SubdivisionRequestView {
    pub id: Seq<char>,
    pub name: Seq<char>,
    pub area: Seq<PointView>,
    pub lots: Option<Seq<LotRequestView>>,
}

impl View for SubdivisionRequest {
    type V = SubdivisionRequestView;

    open spec fn view(&self) -> SubdivisionRequestView {
        SubdivisionRequestView {
            id: self.id@,
            name: self.name@,
            area: self.area.deep_view(),
            lots: self.lots.deep_view(),
        }
    }
}

impl DeepView for SubdivisionRequest {
    type V = SubdivisionRequestView;

    open spec fn deep_view(&self) -> SubdivisionRequestView {
        self@
    }
}

/// A lot as it is given back: its boundary ring as coordinates, in ring
/// order.
#[derive(Debug, Clone, PartialEq, Eq)]
pub struct LotDto {
    pub area: Vec<Coordinates>,
    pub id: String,
    pub name: String,
    pub subdivision_id: String,
}

/// A lot as it is given back, as plain sequences.
pub struct LotDtoView {
    pub area: Seq<Coordinates>,
    pub id: Seq<char>,
    pub name: Seq<char>,
    pub subdivision_id: Seq<char>,
}

impl View for LotDto {
    type V = LotDtoView;

    open spec fn view(&self) -> LotDtoView {
        LotDtoView {
            area: self.area@,
            id: self.id@,
            name: self.name@,
            subdivision_id: self.subdivision_id@,
        }
    }
}

impl DeepView for LotDto {
    type V = LotDtoView;

    open spec fn deep_view(&self) -> LotDtoView {
        self@
    }
}

/// A subdivision as it is given back: its boundary ring as coordinates, in
/// ring order, and, where they were resolved, its lots.
#[derive(Debug, Clone, PartialEq, Eq)]
pub struct SubdivisionDto {
    pub id: String,
    pub name: String,
    pub area: Vec<Coordinates>,
    pub lots: Option<Vec<LotDto>>,
}

/// A subdivision as it is given back, as plain sequences.
pub struct SubdivisionDtoView {
    pub id: Seq<char>,
    pub name: Seq<char>,
    pub area: Seq<Coordinates>,
    pub lots: Option<Seq<LotDtoView>>,
}

impl View for SubdivisionDto {
    type V = SubdivisionDtoView;

    open spec fn view(&self) -> SubdivisionDtoView {
        SubdivisionDtoView {
            id: self.id@,
            name: self.name@,
            area: self.area@,
            lots: self.lots.deep_view(),
        }
    }
}

impl DeepView for SubdivisionDto {
    type V = SubdivisionDtoView;

    open spec fn deep_view(&self) -> SubdivisionDtoView {
        self@
    }
}

/// A subdivision in a listing: identifier, name and number of lots. Never
/// carries a boundary.
#[derive(Debug, Clone, PartialEq, Eq)]
pub struct SubdivisionPreview {
    pub id: String,
    pub name: String,
    pub lots_amount: i32,
}

/// A listing entry as plain sequences.
pub struct SubdivisionPreviewView {
    pub id: Seq<char>,
    pub name: Seq<char>,
    pub lots_amount: i32,
}

impl View for SubdivisionPreview {
    type V = SubdivisionPreviewView;

    open spec fn view(&self) -> SubdivisionPreviewView {
        SubdivisionPreviewView { id: self.id@, name: self.name@, lots_amount: self.lots_amount }
    }
}

impl DeepView for SubdivisionPreview {
    type V = SubdivisionPreviewView;

    open spec fn deep_view(&self) -> SubdivisionPreviewView {
        self@
    }
}

/// What a search request may carry: a name, a point, or both.
#[derive(Debug, Clone, PartialEq, Eq)]
pub struct SearchSubdivisionParams {
    pub name: Option<String>,
    pub lat: Option<u64>,
    pub long: Option<u64>,
}

/// What a search looks for.
#[derive(Debug, PartialEq, Eq)]
pub enum SearchCriteria {
    /// Subdivisions whose name contains the text, whatever the case.
    Name(String),
    /// Subdivisions near the point.
    Point(Coordinates),
}

/// A search criterion with its text as a sequence of characters.
pub enum SearchCriteriaView {
    Name(Seq<char>),
    Point(Coordinates),
}

impl View for SearchCriteria {
    type V = SearchCriteriaView;

    open spec fn view(&self) -> SearchCriteriaView {
        match self {
            SearchCriteria::Name(name) => SearchCriteriaView::Name(name@),
            SearchCriteria::Point(coords) => SearchCriteriaView::Point(*coords),
        }
    }
}

impl SearchSubdivisionParams {
    /// The criterion that the request selects, where it selects one: the name
    /// when there is one, else the point when both coordinates are there.
    pub open spec fn selected(&self) -> Option<SearchCriteriaView> {
        match (self.name, self.lat, self.long) {
            (Some(name), _, _) => Some(SearchCriteriaView::Name(name@)),
            (None, Some(lat), Some(long)) => Some(SearchCriteriaView::Point((lat, long))),
            _ => None,
        }
    }

    /// Decides what the request searches for. A name takes precedence over a
    /// point; a request with neither a name nor a complete point is invalid.
    pub fn criteria(self) -> (result: Result<SearchCriteria, DefaultAppError>)
        ensures
            match result {
                Ok(criteria) => self.selected() == Some(criteria@),
                Err(error) => self.selected().is_none() && error@
                    == DefaultAppErrorView::invalid_search(),
            },
    {
        match self.name {
            Some(name) => Ok(SearchCriteria::Name(name)),
            None => match (self.lat, self.long) {
                (Some(lat), Some(long)) => Ok(SearchCriteria::Point((lat, long))),
                _ => Err(DefaultAppError::invalid_search()),
            },
        }
    }
}

} // verus!
