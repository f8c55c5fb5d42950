//! Rings survive the way through the location table: a ring resolved into
//! identifiers and the identifiers resolved back give the ring again, point
//! for point and in order.
//!
//! What is proved of identifiers and of the number of rows needs no more
//! than a table in which no identifier is stored twice. That the coordinates
//! come back needs more: the text from which identifiers are derived is
//! written outside this crate, so the laws take as premise that one
//! coordinate always comes with the same text, and that this text tells
//! points apart.

use crate::error::DefaultAppErrorView;
use crate::geometry::{ResolutionPolicy, ResolvedRingView, RingReadView, RingWriteView};
use crate::location::{location_id, tells_apart, Coordinates, LocationView, PointView};
use crate::location_service::LocationTaskView;
use crate::location_table::{
    count_with_id, ids_unique, lemma_count_after_push, lemma_lookup_in_unique_table,
    lemma_lookup_in_written_table, lemma_rows_with_id, lemma_save_location,
    lemma_save_written_location, rows_with_id, table_after, table_written,
};
use crate::store::{Resumable, StepView, StoreRequestView};
use crate::store_model::{run, StoreModel};
use vstd::prelude::*;

verus! {

/// The identifiers of `points`, in their order.
pub open spec fn ids_of(points: Seq<PointView>) -> Seq<Seq<char>> {
    Seq::new(points.len(), |i: int| location_id(points[i]))
}

/// The coordinates of `points`, in their order.
pub open spec fn coords_of(points: Seq<PointView>) -> Seq<Coordinates> {
    Seq::new(points.len(), |i: int| points[i].coords())
}

/// Every point of `points` comes with the text that `writing` gives to its
/// coordinates.
pub open spec fn points_written_by(points: Seq<PointView>, writing: spec_fn(u64) -> Seq<char>)
    -> bool {
    forall|i: int| 0 <= i < points.len() ==> (#[trigger] points[i]).written_by(writing)
}

/// The table after every point of `points` from position `from` on has been
/// stored unless it was there.
pub open spec fn table_with_points(table: Seq<LocationView>, points: Seq<PointView>, from: nat)
    -> Seq<LocationView>
    decreases points.len() - from,
{
    if from >= points.len() {
        table
    } else {
        table_with_points(
            table_after(
                table,
                StoreRequestView::SaveLocation { location: LocationView::at(points[from as int]) },
            ),
            points,
            from + 1,
        )
    }
}

/// The store with every point of `points` stored unless it was there.
pub open spec fn with_points(store: StoreModel, points: Seq<PointView>) -> StoreModel {
    StoreModel {
        locations: table_with_points(store.locations, points, 0),
        subdivisions: store.subdivisions,
        lots: store.lots,
    }
}

/// Storing the points of a ring never stores an identifier twice, keeps
/// every row that was there, and leaves one row for each point stored.
pub proof fn lemma_table_with_points(table: Seq<LocationView>, points: Seq<PointView>, from: nat)
    requires
        ids_unique(table),
    ensures
        ids_unique(table_with_points(table, points, from)),
        forall|id: Seq<char>|
            count_with_id(table, id) == 1 ==> #[trigger] count_with_id(
                table_with_points(table, points, from),
                id,
            ) == 1,
        forall|j: int|
            from <= j < points.len() ==> count_with_id(
                table_with_points(table, points, from),
                #[trigger] location_id(points[j]),
            ) == 1,
    decreases points.len() - from,
{
    if from < points.len() {
        let location = LocationView::at(points[from as int]);
        let next = table_after(table, StoreRequestView::SaveLocation { location });
        lemma_save_location(table, location);
        lemma_table_with_points(next, points, from + 1);
        let last = table_with_points(table, points, from);
        assert(last == table_with_points(next, points, from + 1));
        assert forall|id: Seq<char>| count_with_id(table, id) == 1 implies #[trigger] count_with_id(
            last,
            id,
        ) == 1 by {
            lemma_count_after_push(table, location, id);
            assert(count_with_id(next, id) <= 1);
        }
        assert forall|j: int| from <= j < points.len() implies count_with_id(
            last,
            #[trigger] location_id(points[j]),
        ) == 1 by {
            if j == from {
                assert(count_with_id(next, location_id(points[j])) == 1);
            }
        }
    }
}

/// Storing points that come with the text that the writing gives them keeps
/// every row stored under the identifier that the writing gives to its
/// coordinates.
pub proof fn lemma_table_with_written_points(
    table: Seq<LocationView>,
    writing: spec_fn(u64) -> Seq<char>,
    points: Seq<PointView>,
    from: nat,
)
    requires
        table_written(table, writing),
        points_written_by(points, writing),
    ensures
        table_written(table_with_points(table, points, from), writing),
    decreases points.len() - from,
{
    if from < points.len() {
        let point = points[from as int];
        let next = table_after(
            table,
            StoreRequestView::SaveLocation { location: LocationView::at(point) },
        );
        lemma_save_written_location(table, writing, point);
        lemma_table_with_written_points(next, writing, points, from + 1);
    }
}

/// The store with every point of `points` from position `from` on stored
/// unless it was there.
pub open spec fn with_points_from(store: StoreModel, points: Seq<PointView>, from: nat)
    -> StoreModel {
    StoreModel {
        locations: table_with_points(store.locations, points, from),
        subdivisions: store.subdivisions,
        lots: store.lots,
    }
}

/// From any position on, the resolution of a ring into identifiers ends with
/// the identifiers of all its points, and leaves the table with every
/// remaining point stored.
pub proof fn lemma_ring_write_from(
    store: StoreModel,
    points: Seq<PointView>,
    state: RingWriteView,
    position: nat,
    fuel: nat,
)
    requires
        ids_unique(store.locations),
        position < points.len(),
        state.points == points,
        state.ids == ids_of(points).take(position as int),
        fuel >= 2 * (points.len() - position),
    ensures
        run(store, state.seek(position as int), fuel) == Some(
            (
                with_points_from(store, points, position),
                Ok::<Seq<Seq<char>>, DefaultAppErrorView>(ids_of(points)),
            ),
        ),
    decreases points.len() - position,
{
    let table = store.locations;
    let point = points[position as int];
    let id = location_id(point);
    let location = LocationView::at(point);
    let lookup = StoreRequestView::GetLocation { id };
    let save = StoreRequestView::SaveLocation { location };
    let ids = state.ids.push(id);
    assert(ids =~= ids_of(points).take(position as int + 1));
    lemma_lookup_in_unique_table(table, id);
    lemma_save_location(table, location);
    assert(store.after(lookup) == store);
    let waiting = state.seek(position as int)->Ask_1;
    let after_lookup = waiting.resume(store.reply(lookup));
    assert(run(store, state.seek(position as int), fuel) == run(
        store,
        after_lookup,
        (fuel - 1) as nat,
    ));
    let stored = store.after(save);
    assert(with_points_from(store, points, position) == with_points_from(
        stored,
        points,
        position + 1,
    ));
    let resolved = RingWriteView { points, ids, current: waiting.current };
    if count_with_id(table, id) == 0 {
        assert(rows_with_id(table, id) =~= Seq::<LocationView>::empty());
        let inserting = RingWriteView {
            points,
            ids: state.ids,
            current: LocationTaskView::Inserting { location },
        };
        assert(after_lookup == StepView::<RingWriteView, Seq<Seq<char>>>::Ask(save, inserting));
        let after_save = inserting.resume(store.reply(save));
        assert(run(store, after_lookup, (fuel - 1) as nat) == run(
            stored,
            after_save,
            (fuel - 2) as nat,
        ));
        if position + 1 < points.len() {
            let onward = RingWriteView { points, ids, current: inserting.current };
            assert(after_save == onward.seek(position as int + 1));
            lemma_ring_write_from(stored, points, onward, position + 1, (fuel - 2) as nat);
        } else {
            assert(ids =~= ids_of(points));
            assert(after_save == StepView::<RingWriteView, Seq<Seq<char>>>::Done(Ok(ids)));
        }
    } else {
        assert(stored == store);
        assert(rows_with_id(table, id)[0].id == id);
        if position + 1 < points.len() {
            assert(after_lookup == resolved.seek(position as int + 1));
            lemma_ring_write_from(store, points, resolved, position + 1, (fuel - 1) as nat);
        } else {
            assert(ids =~= ids_of(points));
            assert(after_lookup == StepView::<RingWriteView, Seq<Seq<char>>>::Done(Ok(ids)));
        }
    }
}

/// The resolution of a ring into identifiers ends with the identifiers
/// derived from its points, in the order of the points, and leaves one row
/// under the identifier of each point.
pub proof fn law_ring_from_points(store: StoreModel, points: Seq<PointView>, fuel: nat)
    requires
        ids_unique(store.locations),
        fuel >= 2 * points.len(),
    ensures
        run(store, RingWriteView::ring_from_points(points), fuel) == Some(
            (
                with_points(store, points),
                Ok::<Seq<Seq<char>>, DefaultAppErrorView>(ids_of(points)),
            ),
        ),
        ids_unique(with_points(store, points).locations),
        forall|j: int|
            0 <= j < points.len() ==> count_with_id(
                with_points(store, points).locations,
                #[trigger] location_id(points[j]),
            ) == 1,
        forall|id: Seq<char>|
            count_with_id(store.locations, id) == 1 ==> #[trigger] count_with_id(
                with_points(store, points).locations,
                id,
            ) == 1,
{
    lemma_table_with_points(store.locations, points, 0);
    if points.len() == 0 {
        assert(ids_of(points) =~= Seq::<Seq<char>>::empty());
        assert(with_points(store, points) == store);
    } else {
        let start = RingWriteView { points, ids: Seq::empty(), current: LocationTaskView::Reading };
        assert(start.ids =~= ids_of(points).take(0));
        lemma_ring_write_from(store, points, start, 0, fuel);
    }
}

/// Every identifier of `ids` is stored exactly once.
pub open spec fn resolves(table: Seq<LocationView>, ids: Seq<Seq<char>>) -> bool {
    forall|j: int| 0 <= j < ids.len() ==> #[trigger] count_with_id(table, ids[j]) == 1
}

/// The points stored under `ids`, in the order of the identifiers.
pub open spec fn points_at(table: Seq<LocationView>, ids: Seq<Seq<char>>) -> Seq<Coordinates> {
    Seq::new(ids.len(), |j: int| rows_with_id(table, ids[j])[0].coords())
}

/// Where every row is stored under the identifier that the writing gives to
/// its coordinates, and the writing tells points apart, the coordinates
/// stored under the identifiers of `points` are the coordinates of `points`.
pub proof fn lemma_points_at_derived_ids(
    table: Seq<LocationView>,
    writing: spec_fn(u64) -> Seq<char>,
    points: Seq<PointView>,
)
    requires
        table_written(table, writing),
        tells_apart(writing),
        points_written_by(points, writing),
        forall|j: int|
            0 <= j < points.len() ==> count_with_id(table, #[trigger] location_id(points[j]))
                == 1,
    ensures
        resolves(table, ids_of(points)),
        points_at(table, ids_of(points)) == coords_of(points),
{
    assert forall|j: int| 0 <= j < points.len() implies #[trigger] points_at(
        table,
        ids_of(points),
    )[j] == coords_of(points)[j] by {
        assert(points[j].written_by(writing));
        lemma_lookup_in_written_table(table, writing, points[j]);
        assert(count_with_id(table, location_id(points[j])) == 1);
    }
    assert(points_at(table, ids_of(points)) =~= coords_of(points));
    assert forall|j: int| 0 <= j < ids_of(points).len() implies #[trigger] count_with_id(
        table,
        ids_of(points)[j],
    ) == 1 by {
        assert(count_with_id(table, location_id(points[j])) == 1);
    }
}

/// From any position on, the resolution of identifiers that are all stored
/// ends with the points stored under them, in order and none dropped, and
/// writes nothing.
pub proof fn lemma_ring_read_from(
    store: StoreModel,
    ids: Seq<Seq<char>>,
    state: RingReadView,
    fuel: nat,
)
    requires
        resolves(store.locations, ids),
        state.ids == ids,
        state.next <= ids.len(),
        state.points == points_at(store.locations, ids).take(state.next as int),
        fuel >= ids.len() - state.next,
    ensures
        run(store, state.seek(), fuel) == Some(
            (
                store,
                Ok::<ResolvedRingView, DefaultAppErrorView>(
                    ResolvedRingView { points: points_at(store.locations, ids), dropped: 0 },
                ),
            ),
        ),
    decreases ids.len() - state.next,
{
    let points = points_at(store.locations, ids);
    if state.next < ids.len() {
        let id = ids[state.next as int];
        let lookup = StoreRequestView::GetLocation { id };
        lemma_rows_with_id(store.locations, id);
        assert(count_with_id(store.locations, id) == 1);
        assert(store.after(lookup) == store);
        let onward = RingReadView {
            ids: state.ids,
            points: state.points.push(points[state.next as int]),
            next: state.next + 1,
            policy: state.policy,
        };
        assert(onward.points =~= points.take(onward.next as int));
        assert(state.resume(store.reply(lookup)) == onward.seek());
        assert(run(store, state.seek(), fuel) == run(store, onward.seek(), (fuel - 1) as nat));
        lemma_ring_read_from(store, ids, onward, (fuel - 1) as nat);
    } else {
        assert(state.points =~= points);
    }
}

/// The resolution of identifiers that are all stored ends with the points
/// stored under them, in the order of the identifiers and none dropped, under
/// either policy, and writes nothing.
pub proof fn law_ring_to_points(
    store: StoreModel,
    ids: Seq<Seq<char>>,
    policy: ResolutionPolicy,
    fuel: nat,
)
    requires
        resolves(store.locations, ids),
        fuel >= ids.len(),
    ensures
        run(store, RingReadView::ring_to_points(ids, policy), fuel) == Some(
            (
                store,
                Ok::<ResolvedRingView, DefaultAppErrorView>(
                    ResolvedRingView { points: points_at(store.locations, ids), dropped: 0 },
                ),
            ),
        ),
{
    let reading = RingReadView { ids, points: Seq::empty(), next: 0, policy };
    assert(reading.points =~= points_at(store.locations, ids).take(0));
    lemma_ring_read_from(store, ids, reading, fuel);
}

/// Resolving a ring into identifiers and the identifiers back into points
/// gives the ring again: the same coordinates in the same order, none
/// dropped, under either policy. The identifiers in between are those derived
/// from the points, in order.
///
/// This holds where one coordinate always comes with the same text, for the
/// points of the ring as for the rows that are stored already, and where that
/// text tells points apart.
pub proof fn law_ring_round_trip(
    store: StoreModel,
    writing: spec_fn(u64) -> Seq<char>,
    points: Seq<PointView>,
    policy: ResolutionPolicy,
    fuel: nat,
)
    requires
        table_written(store.locations, writing),
        tells_apart(writing),
        points_written_by(points, writing),
        fuel >= 2 * points.len(),
    ensures
        ({
            let written = run(store, RingWriteView::ring_from_points(points), fuel);
            &&& written matches Some((stored, Ok(ids)))
            &&& ids == ids_of(points)
            &&& table_written(stored.locations, writing)
            &&& run(stored, RingReadView::ring_to_points(ids, policy), fuel) == Some(
                (
                    stored,
                    Ok::<ResolvedRingView, DefaultAppErrorView>(
                        ResolvedRingView { points: coords_of(points), dropped: 0 },
                    ),
                ),
            )
        }),
{
    law_ring_from_points(store, points, fuel);
    lemma_table_with_written_points(store.locations, writing, points, 0);
    lemma_points_at_derived_ids(with_points(store, points).locations, writing, points);
    law_ring_to_points(with_points(store, points), ids_of(points), policy, fuel);
}

/// The points that a lenient resolution of `ids` finds: for each identifier
/// that is stored exactly once, the point stored under it, in the order of
/// the identifiers.
pub open spec fn found_points(table: Seq<LocationView>, ids: Seq<Seq<char>>) -> Seq<Coordinates>
    decreases ids.len(),
{
    if ids.len() == 0 {
        Seq::empty()
    } else if count_with_id(table, ids.last()) == 1 {
        found_points(table, ids.drop_last()).push(rows_with_id(table, ids.last())[0].coords())
    } else {
        found_points(table, ids.drop_last())
    }
}

/// A lenient resolution never finds more points than there are identifiers.
pub proof fn lemma_found_points_len(table: Seq<LocationView>, ids: Seq<Seq<char>>)
    ensures
        found_points(table, ids).len() <= ids.len(),
    decreases ids.len(),
{
    if ids.len() > 0 {
        lemma_found_points_len(table, ids.drop_last());
    }
}

/// From any position on, a lenient resolution ends with the points of the
/// identifiers that resolve, and counts the others.
pub proof fn lemma_lenient_read_from(
    store: StoreModel,
    ids: Seq<Seq<char>>,
    state: RingReadView,
    fuel: nat,
)
    requires
        state.ids == ids,
        state.policy == ResolutionPolicy::Lenient,
        state.next <= ids.len(),
        state.points == found_points(store.locations, ids.take(state.next as int)),
        fuel >= ids.len() - state.next,
    ensures
        run(store, state.seek(), fuel) == Some(
            (
                store,
                Ok::<ResolvedRingView, DefaultAppErrorView>(
                    ResolvedRingView {
                        points: found_points(store.locations, ids),
                        dropped: (ids.len() - found_points(store.locations, ids).len()) as nat,
                    },
                ),
            ),
        ),
    decreases ids.len() - state.next,
{
    let table = store.locations;
    lemma_found_points_len(table, ids);
    if state.next < ids.len() {
        let id = ids[state.next as int];
        let lookup = StoreRequestView::GetLocation { id };
        lemma_rows_with_id(table, id);
        assert(store.after(lookup) == store);
        let taken = ids.take(state.next as int + 1);
        assert(taken.drop_last() =~= ids.take(state.next as int));
        assert(taken.last() == id);
        let onward = RingReadView {
            ids,
            points: found_points(table, taken),
            next: state.next + 1,
            policy: state.policy,
        };
        assert(state.resume(store.reply(lookup)) == onward.seek());
        assert(run(store, state.seek(), fuel) == run(store, onward.seek(), (fuel - 1) as nat));
        lemma_lenient_read_from(store, ids, onward, (fuel - 1) as nat);
    } else {
        assert(ids.take(state.next as int) =~= ids);
    }
}

/// Whatever the table holds, a lenient resolution of identifiers ends well:
/// with the points of the identifiers that resolve, in the order of the
/// identifiers, and with the number of identifiers that gave no point.
pub proof fn law_lenient_ring_to_points(store: StoreModel, ids: Seq<Seq<char>>, fuel: nat)
    requires
        fuel >= ids.len(),
    ensures
        run(store, RingReadView::ring_to_points(ids, ResolutionPolicy::Lenient), fuel) == Some(
            (
                store,
                Ok::<ResolvedRingView, DefaultAppErrorView>(
                    ResolvedRingView {
                        points: found_points(store.locations, ids),
                        dropped: (ids.len() - found_points(store.locations, ids).len()) as nat,
                    },
                ),
            ),
        ),
        found_points(store.locations, ids).len() <= ids.len(),
{
    let reading = RingReadView {
        ids,
        points: Seq::empty(),
        next: 0,
        policy: ResolutionPolicy::Lenient,
    };
    assert(ids.take(0) =~= Seq::<Seq<char>>::empty());
    lemma_found_points_len(store.locations, ids);
    lemma_lenient_read_from(store, ids, reading, fuel);
}

/// From any position on, a strict resolution that meets an identifier that
/// does not resolve ends with the error for that identifier; the identifiers
/// before it all resolve.
pub proof fn lemma_strict_read_from(
    store: StoreModel,
    ids: Seq<Seq<char>>,
    state: RingReadView,
    failing: nat,
    fuel: nat,
)
    requires
        state.ids == ids,
        state.policy == ResolutionPolicy::Strict,
        state.next <= failing < ids.len(),
        forall|j: int| state.next <= j < failing ==> #[trigger] count_with_id(
            store.locations,
            ids[j],
        ) == 1,
        count_with_id(store.locations, ids[failing as int]) != 1,
        fuel >= failing + 1 - state.next,
    ensures
        run(store, state.seek(), fuel) == Some(
            (
                store,
                Err::<ResolvedRingView, DefaultAppErrorView>(
                    DefaultAppErrorView::unexpected_results(
                        count_with_id(store.locations, ids[failing as int]),
                    ),
                ),
            ),
        ),
    decreases failing - state.next,
{
    let table = store.locations;
    let id = ids[state.next as int];
    let lookup = StoreRequestView::GetLocation { id };
    lemma_rows_with_id(table, id);
    assert(store.after(lookup) == store);
    assert(run(store, state.seek(), fuel) == run(
        store,
        state.resume(store.reply(lookup)),
        (fuel - 1) as nat,
    ));
    if state.next < failing {
        assert(count_with_id(table, id) == 1);
        let onward = RingReadView {
            ids,
            points: state.points.push(rows_with_id(table, id)[0].coords()),
            next: state.next + 1,
            policy: state.policy,
        };
        assert(state.resume(store.reply(lookup)) == onward.seek());
        lemma_strict_read_from(store, ids, onward, failing, (fuel - 1) as nat);
    }
}

/// A strict resolution fails the whole ring at the first identifier that
/// does not resolve, with the error that tells how many rows are stored
/// under it, and writes nothing.
pub proof fn law_strict_ring_to_points_fails(
    store: StoreModel,
    ids: Seq<Seq<char>>,
    failing: nat,
    fuel: nat,
)
    requires
        failing < ids.len(),
        forall|j: int| 0 <= j < failing ==> #[trigger] count_with_id(store.locations, ids[j]) == 1,
        count_with_id(store.locations, ids[failing as int]) != 1,
        fuel >= failing + 1,
    ensures
        run(store, RingReadView::ring_to_points(ids, ResolutionPolicy::Strict), fuel) == Some(
            (
                store,
                Err::<ResolvedRingView, DefaultAppErrorView>(
                    DefaultAppErrorView::unexpected_results(
                        count_with_id(store.locations, ids[failing as int]),
                    ),
                ),
            ),
        ),
{
    let reading = RingReadView {
        ids,
        points: Seq::empty(),
        next: 0,
        policy: ResolutionPolicy::Strict,
    };
    lemma_strict_read_from(store, ids, reading, failing, fuel);
}

} // verus!
