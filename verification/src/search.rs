//! Searching and listing: the requests, and the assembly of their results
//! from the rows that the store returns.

use crate::api_contracts::{
    LotDto, LotDtoView, SearchCriteriaView, SearchSubdivisionParams, SubdivisionDto,
    SubdivisionDtoView, SubdivisionPreview, SubdivisionPreviewView,
};
use crate::error::{DefaultAppError, DefaultAppErrorView};
use crate::geometry::{assemble_area, zipped};
use crate::location_service::{ended_by, failure_of};
use crate::store::{
    AreaRow, AreaRowView, LotAreaRow, LotAreaRowView, Resumable, Step, StepView, StoreReply,
    StoreReplyView, StoreRequestView,
};
use crate::subdivision::{derive_lot_display_id, lot_display_id, RepresentativePoint};
use vstd::prelude::*;

verus! {

/// The radius within which a search by location looks: five thousand metres,
/// as the 64-bit pattern of that real number.
pub const DEFAULT_SEARCH_RADIUS: u64 = 0x40B3_8800_0000_0000;

/// The position of the first pair of arrays whose lengths differ, or the
/// number of pairs where every pair matches.
pub open spec fn first_mismatch(arrays: Seq<(Seq<u64>, Seq<u64>)>) -> int
    decreases arrays.len(),
{
    if arrays.len() == 0 {
        0
    } else if arrays[0].0.len() != arrays[0].1.len() {
        0
    } else {
        1 + first_mismatch(arrays.drop_first())
    }
}

/// The position that [`first_mismatch`] names is the first at which the
/// lengths differ.
pub proof fn lemma_first_mismatch(arrays: Seq<(Seq<u64>, Seq<u64>)>, position: int)
    requires
        0 <= position <= arrays.len(),
        forall|j: int| 0 <= j < position ==> (#[trigger] arrays[j]).0.len() == arrays[j].1.len(),
        position < arrays.len() ==> arrays[position].0.len() != arrays[position].1.len(),
    ensures
        first_mismatch(arrays) == position,
    decreases arrays.len(),
{
    if position > 0 {
        let rest = arrays.drop_first();
        assert(arrays[0].0.len() == arrays[0].1.len());
        assert forall|j: int| 0 <= j < position - 1 implies (#[trigger] rest[j]).0.len()
            == rest[j].1.len() by {
            assert(rest[j] == arrays[j + 1]);
        }
        if position < arrays.len() {
            assert(rest[position - 1] == arrays[position]);
        }
        lemma_first_mismatch(rest, position - 1);
    }
}

/// The coordinate arrays of search rows.
pub open spec fn area_arrays(rows: Seq<AreaRowView>) -> Seq<(Seq<u64>, Seq<u64>)> {
    Seq::new(rows.len(), |i: int| (rows[i].lats, rows[i].longs))
}

/// The coordinate arrays of lot rows.
pub open spec fn lot_arrays(rows: Seq<LotAreaRowView>) -> Seq<(Seq<u64>, Seq<u64>)> {
    Seq::new(rows.len(), |i: int| (rows[i].lats, rows[i].longs))
}

/// The subdivision that a search row describes; its lots are not resolved.
pub open spec fn area_dto(row: AreaRowView) -> SubdivisionDtoView {
    SubdivisionDtoView {
        id: row.id,
        name: row.name,
        area: zipped(row.lats, row.longs),
        lots: None,
    }
}

/// The subdivisions that search rows describe, one for each row and in the
/// order of the rows; where some row's arrays differ in length, the error for
/// the first such row.
pub open spec fn areas_to_dtos(rows: Seq<AreaRowView>) -> Result<
    Seq<SubdivisionDtoView>,
    DefaultAppErrorView,
> {
    let position = first_mismatch(area_arrays(rows));
    if position == rows.len() {
        Ok(Seq::new(rows.len(), |i: int| area_dto(rows[i])))
    } else {
        Err(
            DefaultAppErrorView::mismatched_arrays(
                rows[position].lats.len(),
                rows[position].longs.len(),
            ),
        )
    }
}

/// The lot of `subdivision_id` that a lot row describes.
pub open spec fn lot_area_dto(row: LotAreaRowView, subdivision_id: Seq<char>) -> LotDtoView {
    LotDtoView {
        area: zipped(row.lats, row.longs),
        id: lot_display_id(row.name, subdivision_id),
        name: row.name,
        subdivision_id,
    }
}

/// The lots that lot rows describe, one for each row and in the order of the
/// rows; where some row's arrays differ in length, the error for the first
/// such row.
pub open spec fn lot_areas_to_dtos(rows: Seq<LotAreaRowView>, subdivision_id: Seq<char>) -> Result<
    Seq<LotDtoView>,
    DefaultAppErrorView,
> {
    let position = first_mismatch(lot_arrays(rows));
    if position == rows.len() {
        Ok(Seq::new(rows.len(), |i: int| lot_area_dto(rows[i], subdivision_id)))
    } else {
        Err(
            DefaultAppErrorView::mismatched_arrays(
                rows[position].lats.len(),
                rows[position].longs.len(),
            ),
        )
    }
}

/// Assembles the subdivisions that the rows of a search describe.
pub fn subdivisions_from_rows(rows: &Vec<AreaRow>) -> (result: Result<
    Vec<SubdivisionDto>,
    DefaultAppError,
>)
    ensures
        match result {
            Ok(dtos) => areas_to_dtos(rows.deep_view()) == Ok::<
                Seq<SubdivisionDtoView>,
                DefaultAppErrorView,
            >(dtos.deep_view()),
            Err(error) => areas_to_dtos(rows.deep_view()) == Err::<
                Seq<SubdivisionDtoView>,
                DefaultAppErrorView,
            >(error@),
        },
{
    let ghost arrays = area_arrays(rows.deep_view());
    let mut dtos: Vec<SubdivisionDto> = Vec::new();
    let mut i: usize = 0;
    while i < rows.len()
        invariant
            i <= rows.len(),
            arrays == area_arrays(rows.deep_view()),
            forall|j: int| 0 <= j < i ==> (#[trigger] arrays[j]).0.len() == arrays[j].1.len(),
            dtos.deep_view() == Seq::new(i as nat, |j: int| area_dto(rows.deep_view()[j])),
        decreases rows.len() - i,
    {
        let row = &rows[i];
        match assemble_area(&row.lats, &row.longs) {
            Ok(area) => {
                let ghost before = dtos.deep_view();
                let dto = SubdivisionDto {
                    id: row.id.clone(),
                    name: row.name.clone(),
                    area,
                    lots: None,
                };
                dtos.push(dto);
                proof {
                    assert(dto@ == area_dto(row@));
                    assert(dtos.deep_view() =~= before.push(dto@));
                    assert(dtos.deep_view() =~= Seq::new(
                        (i + 1) as nat,
                        |j: int| area_dto(rows.deep_view()[j]),
                    ));
                }
            },
            Err(error) => {
                proof {
                    lemma_first_mismatch(arrays, i as int);
                }
                return Err(error);
            },
        }
        i += 1;
    }
    proof {
        lemma_first_mismatch(arrays, rows@.len() as int);
    }
    Ok(dtos)
}

/// Assembles the lots of `subdivision_id` that lot rows describe.
pub fn lots_from_rows(rows: &Vec<LotAreaRow>, subdivision_id: &String) -> (result: Result<
    Vec<LotDto>,
    DefaultAppError,
>)
    ensures
        match result {
            Ok(dtos) => lot_areas_to_dtos(rows.deep_view(), subdivision_id@) == Ok::<
                Seq<LotDtoView>,
                DefaultAppErrorView,
            >(dtos.deep_view()),
            Err(error) => lot_areas_to_dtos(rows.deep_view(), subdivision_id@) == Err::<
                Seq<LotDtoView>,
                DefaultAppErrorView,
            >(error@),
        },
{
    let ghost arrays = lot_arrays(rows.deep_view());
    let mut dtos: Vec<LotDto> = Vec::new();
    let mut i: usize = 0;
    while i < rows.len()
        invariant
            i <= rows.len(),
            arrays == lot_arrays(rows.deep_view()),
            forall|j: int| 0 <= j < i ==> (#[trigger] arrays[j]).0.len() == arrays[j].1.len(),
            dtos.deep_view() == Seq::new(
                i as nat,
                |j: int| lot_area_dto(rows.deep_view()[j], subdivision_id@),
            ),
        decreases rows.len() - i,
    {
        let row = &rows[i];
        match assemble_area(&row.lats, &row.longs) {
            Ok(area) => {
                let ghost before = dtos.deep_view();
                let dto = LotDto {
                    area,
                    id: derive_lot_display_id(&row.name, subdivision_id),
                    name: row.name.clone(),
                    subdivision_id: subdivision_id.clone(),
                };
                dtos.push(dto);
                proof {
                    assert(dto@ == lot_area_dto(row@, subdivision_id@));
                    assert(dtos.deep_view() =~= before.push(dto@));
                    assert(dtos.deep_view() =~= Seq::new(
                        (i + 1) as nat,
                        |j: int| lot_area_dto(rows.deep_view()[j], subdivision_id@),
                    ));
                }
            },
            Err(error) => {
                proof {
                    lemma_first_mismatch(arrays, i as int);
                }
                return Err(error);
            },
        }
        i += 1;
    }
    proof {
        lemma_first_mismatch(arrays, rows@.len() as int);
    }
    Ok(dtos)
}

/// A search waiting for its rows.
#[derive(Debug, Clone, PartialEq, Eq)]
pub struct SearchTask {}

/// A pending search, as the laws see it.
pub struct SearchTaskView {}

impl DeepView for SearchTask {
    type V = SearchTaskView;

    open spec fn deep_view(&self) -> SearchTaskView {
        SearchTaskView {  }
    }
}

impl Resumable for SearchTaskView {
    type Outcome = Seq<SubdivisionDtoView>;

    /// What the search does with the store's reply: it ends with the
    /// subdivisions that the rows describe.
    open spec fn resume(self, reply: StoreReplyView) -> StepView<
        SearchTaskView,
        Seq<SubdivisionDtoView>,
    > {
        match reply {
            StoreReplyView::Areas(rows) => StepView::Done(areas_to_dtos(rows)),
            other => ended_by(other),
        }
    }
}

impl SearchTask {
    /// Takes the store's reply and ends the search.
    pub fn resume(self, reply: StoreReply) -> (step: Step<SearchTask, Vec<SubdivisionDto>>)
        ensures
            step.deep_view() == self.deep_view().resume(reply@),
    {
        match reply {
            StoreReply::Areas(rows) => Step::Done(subdivisions_from_rows(&rows)),
            other => Step::Done(Err(failure_of(other))),
        }
    }
}

/// The first step of the search that `params` asks for: by name where the
/// request carries a name, else by location where it carries a point; a
/// request with neither ends at once with the error for invalid search
/// parameters, and the store is not asked.
pub open spec fn search_step(params: SearchSubdivisionParams) -> StepView<
    SearchTaskView,
    Seq<SubdivisionDtoView>,
> {
    match params.selected() {
        Some(SearchCriteriaView::Name(name)) => StepView::Ask(
            StoreRequestView::SearchByName { name },
            SearchTaskView {  },
        ),
        Some(SearchCriteriaView::Point(coords)) => StepView::Ask(
            StoreRequestView::SearchByLocation {
                coords,
                radius: DEFAULT_SEARCH_RADIUS,
                measured_from: RepresentativePoint::AnchorPoint,
            },
            SearchTaskView {  },
        ),
        None => StepView::Done(Err(DefaultAppErrorView::invalid_search())),
    }
}

/// A listing waiting for its rows.
#[derive(Debug, Clone, PartialEq, Eq)]
pub struct ListingTask {}

/// A pending listing, as the laws see it.
pub struct ListingTaskView {}

impl DeepView for ListingTask {
    type V = ListingTaskView;

    open spec fn deep_view(&self) -> ListingTaskView {
        ListingTaskView {  }
    }
}

impl Resumable for ListingTaskView {
    type Outcome = Seq<SubdivisionPreviewView>;

    /// What the listing does with the store's reply: it ends with the
    /// previews as the store gave them.
    open spec fn resume(self, reply: StoreReplyView) -> StepView<
        ListingTaskView,
        Seq<SubdivisionPreviewView>,
    > {
        match reply {
            StoreReplyView::Previews(rows) => StepView::Done(Ok(rows)),
            other => ended_by(other),
        }
    }
}

impl ListingTask {
    /// Takes the store's reply and ends the listing.
    pub fn resume(self, reply: StoreReply) -> (step: Step<ListingTask, Vec<SubdivisionPreview>>)
        ensures
            step.deep_view() == self.deep_view().resume(reply@),
    {
        match reply {
            StoreReply::Previews(rows) => Step::Done(Ok(rows)),
            other => Step::Done(Err(failure_of(other))),
        }
    }
}

/// The reading of a subdivision's lots with their coordinates, waiting for
/// its rows.
#[derive(Debug, Clone, PartialEq, Eq)]
pub struct LotAreasTask {
    pub subdivision_id: String,
}

/// The pending reading of a subdivision's lots, as plain sequences.
pub struct LotAreasTaskView {
    pub subdivision_id: Seq<char>,
}

impl DeepView for LotAreasTask {
    type V = LotAreasTaskView;

    open spec fn deep_view(&self) -> LotAreasTaskView {
        LotAreasTaskView { subdivision_id: self.subdivision_id@ }
    }
}

impl Resumable for LotAreasTaskView {
    type Outcome = Seq<LotDtoView>;

    /// What the reading does with the store's reply: it ends with the lots
    /// that the rows describe.
    open spec fn resume(self, reply: StoreReplyView) -> StepView<
        LotAreasTaskView,
        Seq<LotDtoView>,
    > {
        match reply {
            StoreReplyView::LotAreas(rows) => StepView::Done(
                lot_areas_to_dtos(rows, self.subdivision_id),
            ),
            other => ended_by(other),
        }
    }
}

impl LotAreasTask {
    /// Takes the store's reply and ends the reading.
    pub fn resume(self, reply: StoreReply) -> (step: Step<LotAreasTask, Vec<LotDto>>)
        ensures
            step.deep_view() == self.deep_view().resume(reply@),
    {
        match reply {
            StoreReply::LotAreas(rows) => Step::Done(lots_from_rows(&rows, &self.subdivision_id)),
            other => Step::Done(Err(failure_of(other))),
        }
    }
}

} // verus!
