//! What the registry guarantees: one row for each point, however often and by
//! however many callers the point is asked for.
//!
//! A point is handed in with the text of its coordinates, and its identifier
//! is derived from that text. What is proved here of one point is therefore
//! proved of one point that comes with the same text each time.

use crate::error::DefaultAppErrorView;
use crate::location::{location_id, tells_apart, LocationView, PointView};
use crate::location_service::LocationTaskView;
use crate::location_table::{
    count_with_id, ids_unique, lemma_lookup_in_unique_table, lemma_lookup_in_written_table,
    lemma_save_location, reply_to, rows_with_id, table_after, table_written,
};
use crate::store::{Resumable, StepView, StoreRequestView};
use crate::store_model::{run, StoreModel};
use vstd::prelude::*;

verus! {

/// The store with the location of `point` stored unless a row was there
/// under the point's identifier.
pub open spec fn with_point(store: StoreModel, point: PointView) -> StoreModel {
    store.after(StoreRequestView::SaveLocation { location: LocationView::at(point) })
}

/// The row stored under the identifier of `point`.
pub open spec fn stored_for(store: StoreModel, point: PointView) -> LocationView {
    rows_with_id(store.locations, location_id(point))[0]
}

/// Run alone on a table in which no identifier is stored twice,
/// find-or-create leaves exactly one row under the point's identifier, the
/// table as it was where a row was there and the table with the point's
/// location added where none was, and ends with that row.
pub proof fn law_get_or_create(store: StoreModel, point: PointView, fuel: nat)
    requires
        ids_unique(store.locations),
        fuel >= 2,
    ensures
        run(store, LocationTaskView::get_or_create(point), fuel) == Some(
            (
                with_point(store, point),
                Ok::<LocationView, DefaultAppErrorView>(
                    stored_for(with_point(store, point), point),
                ),
            ),
        ),
        stored_for(with_point(store, point), point).id == location_id(point),
        count_with_id(with_point(store, point).locations, location_id(point)) == 1,
        ids_unique(with_point(store, point).locations),
        count_with_id(store.locations, location_id(point)) == 0 ==> stored_for(
            with_point(store, point),
            point,
        ) == LocationView::at(point),
{
    let id = location_id(point);
    let location = LocationView::at(point);
    let lookup = StoreRequestView::GetLocation { id };
    let looking = LocationTaskView::Looking { point };
    let after = with_point(store, point);
    lemma_lookup_in_unique_table(store.locations, id);
    lemma_save_location(store.locations, location);
    lemma_lookup_in_unique_table(after.locations, id);
    assert(store.after(lookup) == store);
    let after_lookup = looking.resume(store.reply(lookup));
    assert(run(store, LocationTaskView::get_or_create(point), fuel) == run(
        store,
        after_lookup,
        (fuel - 1) as nat,
    ));
    if count_with_id(store.locations, id) == 0 {
        let save = StoreRequestView::SaveLocation { location };
        let inserting = LocationTaskView::Inserting { location };
        assert(rows_with_id(store.locations, id) =~= Seq::<LocationView>::empty());
        assert(after_lookup == StepView::<LocationTaskView, LocationView>::Ask(save, inserting));
        let after_save = inserting.resume(store.reply(save));
        assert(after_save == StepView::<LocationTaskView, LocationView>::Done(Ok(location)));
        assert(run(store, after_lookup, (fuel - 1) as nat) == run(
            store.after(save),
            after_save,
            (fuel - 2) as nat,
        ));
        assert(after.locations == store.locations.push(location));
        assert(after.locations.drop_last() =~= store.locations);
        assert(rows_with_id(after.locations, id) =~= seq![location]);
    } else {
        assert(after == store);
        assert(after_lookup == StepView::<LocationTaskView, LocationView>::Done(
            Ok(stored_for(store, point)),
        ));
    }
}

/// Called twice for the same point, find-or-create returns the same location
/// both times, under the identifier derived from the point; afterwards
/// exactly one row is stored under that identifier, and the second call has
/// written nothing.
pub proof fn law_get_or_create_twice(store: StoreModel, point: PointView, fuel: nat)
    requires
        ids_unique(store.locations),
        fuel >= 2,
    ensures
        ({
            let first = run(store, LocationTaskView::get_or_create(point), fuel);
            &&& first matches Some((after_first, Ok(location)))
            &&& location.id == location_id(point)
            &&& run(after_first, LocationTaskView::get_or_create(point), fuel) == Some(
                (after_first, Ok::<LocationView, DefaultAppErrorView>(location)),
            )
            &&& count_with_id(after_first.locations, location_id(point)) == 1
            &&& ids_unique(after_first.locations)
        }),
{
    law_get_or_create(store, point, fuel);
    let after_first = with_point(store, point);
    law_get_or_create(after_first, point, fuel);
    assert(with_point(after_first, point) == after_first);
}

/// Where every row is stored under the identifier that the writing gives to
/// its coordinates, and the writing tells points apart, find-or-create ends
/// with the location of the point itself: the point's own coordinates under
/// the point's identifier.
pub proof fn law_get_or_create_returns_the_point(
    store: StoreModel,
    writing: spec_fn(u64) -> Seq<char>,
    point: PointView,
    fuel: nat,
)
    requires
        table_written(store.locations, writing),
        tells_apart(writing),
        point.written_by(writing),
        fuel >= 2,
    ensures
        run(store, LocationTaskView::get_or_create(point), fuel) == Some(
            (
                with_point(store, point),
                Ok::<LocationView, DefaultAppErrorView>(LocationView::at(point)),
            ),
        ),
{
    law_get_or_create(store, point, fuel);
    lemma_lookup_in_written_table(store.locations, writing, point);
    if count_with_id(store.locations, location_id(point)) != 0 {
        assert(with_point(store, point) == store);
    }
}

/// However the steps of several callers interleave, a find-or-create for a
/// point ends with a location under the point's identifier, and the write
/// that it may make leaves exactly one row under that identifier.
///
/// `at_lookup` is the table when the caller's lookup is served and `at_write`
/// the table when its write is served; what other callers did in between is
/// not restricted beyond no identifier being stored twice.
pub proof fn law_get_or_create_among_others(
    at_lookup: Seq<LocationView>,
    at_write: Seq<LocationView>,
    point: PointView,
)
    requires
        ids_unique(at_lookup),
        ids_unique(at_write),
    ensures
        ({
            let location = LocationView::at(point);
            let lookup = StoreRequestView::GetLocation { id: location_id(point) };
            let save = StoreRequestView::SaveLocation { location };
            let after_lookup = LocationTaskView::Looking { point }.resume(
                reply_to(at_lookup, lookup),
            );
            ||| {
                &&& after_lookup matches StepView::Done(Ok(found))
                &&& found.id == location_id(point)
            }
            ||| {
                &&& after_lookup matches StepView::Ask(request, task)
                &&& request == save
                &&& task.resume(reply_to(at_write, save)) == StepView::<
                    LocationTaskView,
                    LocationView,
                >::Done(Ok(location))
                &&& count_with_id(table_after(at_write, save), location_id(point)) == 1
                &&& ids_unique(table_after(at_write, save))
            }
        }),
{
    lemma_lookup_in_unique_table(at_lookup, location_id(point));
    lemma_save_location(at_write, LocationView::at(point));
    lemma_lookup_in_unique_table(at_write, location_id(point));
    if count_with_id(at_lookup, location_id(point)) == 0 {
        assert(rows_with_id(at_lookup, location_id(point)) =~= Seq::<LocationView>::empty());
    }
}

/// Two callers that look the same new point up before either has written,
/// and then both write, leave one row for the point and end with the same
/// location.
pub proof fn law_two_callers_one_row(table: Seq<LocationView>, point: PointView)
    requires
        ids_unique(table),
        count_with_id(table, location_id(point)) == 0,
    ensures
        ({
            let location = LocationView::at(point);
            let lookup = StoreRequestView::GetLocation { id: location_id(point) };
            let save = StoreRequestView::SaveLocation { location };
            let looking = LocationTaskView::Looking { point };
            let inserting = LocationTaskView::Inserting { location };
            let after_first_write = table_after(table, save);
            let after_second_write = table_after(after_first_write, save);
            &&& looking.resume(reply_to(table, lookup)) == StepView::<
                LocationTaskView,
                LocationView,
            >::Ask(save, inserting)
            &&& inserting.resume(reply_to(table, save)) == StepView::<
                LocationTaskView,
                LocationView,
            >::Done(Ok(location))
            &&& inserting.resume(reply_to(after_first_write, save)) == StepView::<
                LocationTaskView,
                LocationView,
            >::Done(Ok(location))
            &&& count_with_id(after_second_write, location_id(point)) == 1
            &&& after_second_write == after_first_write
        }),
{
    lemma_lookup_in_unique_table(table, location_id(point));
    assert(rows_with_id(table, location_id(point)) =~= Seq::<LocationView>::empty());
    lemma_save_location(table, LocationView::at(point));
}

} // verus!
