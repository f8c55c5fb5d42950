//! The location table as the registry relies on it.
//!
//! The backing store is outside this crate, so what is proved of the
//! registry is proved of a model: a table of rows that answers a lookup with
//! the rows stored under an identifier, and that stores a location only
//! where its identifier is not taken. A store that keeps a uniqueness
//! constraint on the identifier and treats a conflicting write as done
//! behaves like this model.

use crate::error::DefaultAppErrorView;
use crate::location::{location_id, tells_apart, written_id, LocationView, PointView};
use crate::store::{StoreReplyView, StoreRequestView};
use vstd::prelude::*;

verus! {

/// How many rows of `table` are stored under `id`.
pub open spec fn count_with_id(table: Seq<LocationView>, id: Seq<char>) -> nat
    decreases table.len(),
{
    if table.len() == 0 {
        0
    } else {
        count_with_id(table.drop_last(), id) + if table.last().id == id {
            1nat
        } else {
            0nat
        }
    }
}

/// The rows of `table` stored under `id`, in table order.
pub open spec fn rows_with_id(table: Seq<LocationView>, id: Seq<char>) -> Seq<LocationView>
    decreases table.len(),
{
    if table.len() == 0 {
        Seq::empty()
    } else if table.last().id == id {
        rows_with_id(table.drop_last(), id).push(table.last())
    } else {
        rows_with_id(table.drop_last(), id)
    }
}

/// No identifier is stored twice.
pub open spec fn ids_unique(table: Seq<LocationView>) -> bool {
    forall|id: Seq<char>| #[trigger] count_with_id(table, id) <= 1
}

/// Every row is stored under the identifier that `writing` gives to its
/// coordinates.
pub open spec fn rows_written_by(table: Seq<LocationView>, writing: spec_fn(u64) -> Seq<char>)
    -> bool {
    forall|i: int| 0 <= i < table.len() ==> (#[trigger] table[i]).written_by(writing)
}

/// The table is one from which points can be read back: no identifier is
/// stored twice, and every row is stored under the identifier that `writing`
/// gives to its coordinates.
pub open spec fn table_written(table: Seq<LocationView>, writing: spec_fn(u64) -> Seq<char>)
    -> bool {
    ids_unique(table) && rows_written_by(table, writing)
}

/// The table after the store has served `request`.
pub open spec fn table_after(table: Seq<LocationView>, request: StoreRequestView) -> Seq<
    LocationView,
> {
    match request {
        StoreRequestView::SaveLocation { location } => if count_with_id(table, location.id) == 0 {
            table.push(location)
        } else {
            table
        },
        _ => table,
    }
}

/// The store's reply to `request` on `table`.
pub open spec fn reply_to(table: Seq<LocationView>, request: StoreRequestView) -> StoreReplyView {
    match request {
        StoreRequestView::GetLocation { id } => StoreReplyView::Locations(rows_with_id(table, id)),
        StoreRequestView::SaveLocation { location } => if count_with_id(table, location.id) == 0 {
            StoreReplyView::Affected(1)
        } else {
            StoreReplyView::Affected(0)
        },
        _ => StoreReplyView::Failed(DefaultAppErrorView::unexpected_reply()),
    }
}

/// A lookup returns as many rows as are stored under the identifier, and each
/// of them is a row of the table stored under it.
pub proof fn lemma_rows_with_id(table: Seq<LocationView>, id: Seq<char>)
    ensures
        rows_with_id(table, id).len() == count_with_id(table, id),
        forall|k: int|
            0 <= k < rows_with_id(table, id).len() ==> (#[trigger] rows_with_id(table, id)[k]).id
                == id && table.contains(rows_with_id(table, id)[k]),
    decreases table.len(),
{
    if table.len() > 0 {
        let rest = table.drop_last();
        lemma_rows_with_id(rest, id);
        assert forall|k: int| 0 <= k < rows_with_id(table, id).len() implies (
        #[trigger] rows_with_id(table, id)[k]).id == id && table.contains(
            rows_with_id(table, id)[k],
        ) by {
            let row = rows_with_id(table, id)[k];
            if k < rows_with_id(rest, id).len() {
                assert(row == rows_with_id(rest, id)[k]);
                assert(rest.contains(row));
                let i = choose|i: int| 0 <= i < rest.len() && rest[i] == row;
                assert(table[i] == row);
            } else {
                assert(row == table.last());
                assert(table[table.len() - 1] == row);
            }
        }
    }
}

/// Storing one more row adds one to the count of its identifier and leaves
/// every other count as it was.
pub proof fn lemma_count_after_push(table: Seq<LocationView>, row: LocationView, id: Seq<char>)
    ensures
        count_with_id(table.push(row), id) == count_with_id(table, id) + if row.id == id {
            1nat
        } else {
            0nat
        },
{
    assert(table.push(row).drop_last() =~= table);
}

/// Where no identifier is stored twice, a lookup returns no row or one, and
/// the one row is stored under the identifier that was looked up.
pub proof fn lemma_lookup_in_unique_table(table: Seq<LocationView>, id: Seq<char>)
    requires
        ids_unique(table),
    ensures
        rows_with_id(table, id).len() == count_with_id(table, id),
        count_with_id(table, id) <= 1,
        count_with_id(table, id) == 1 ==> rows_with_id(table, id)[0].id == id,
{
    lemma_rows_with_id(table, id);
    assert(count_with_id(table, id) <= 1);
}

/// Where every row is stored under the identifier that the writing gives to
/// its coordinates, and the writing tells points apart, the rows stored under
/// the identifier of a point are that point's location and nothing else.
pub proof fn lemma_lookup_in_written_table(
    table: Seq<LocationView>,
    writing: spec_fn(u64) -> Seq<char>,
    point: PointView,
)
    requires
        table_written(table, writing),
        tells_apart(writing),
        point.written_by(writing),
    ensures
        rows_with_id(table, location_id(point)) == if count_with_id(table, location_id(point))
            == 0 {
            Seq::<LocationView>::empty()
        } else {
            seq![LocationView::at(point)]
        },
{
    let id = location_id(point);
    let rows = rows_with_id(table, id);
    lemma_rows_with_id(table, id);
    assert(count_with_id(table, id) <= 1);
    if count_with_id(table, id) == 0 {
        assert(rows =~= Seq::<LocationView>::empty());
    } else {
        let row = rows[0];
        assert(row.id == id && table.contains(row));
        let i = choose|i: int| 0 <= i < table.len() && table[i] == row;
        assert(table[i].written_by(writing));
        assert(written_id(writing, row.coords()) == written_id(writing, point.coords()));
        assert(row.coords() == point.coords());
        assert(row == LocationView::at(point));
        assert(rows =~= seq![LocationView::at(point)]);
    }
}

/// Whatever the store is asked, no identifier ever comes to be stored twice.
pub proof fn law_store_keeps_ids_unique(table: Seq<LocationView>, request: StoreRequestView)
    requires
        ids_unique(table),
    ensures
        ids_unique(table_after(table, request)),
{
    match request {
        StoreRequestView::SaveLocation { location } => {
            assert forall|id: Seq<char>| #[trigger]
                count_with_id(table_after(table, request), id) <= 1 by {
                assert(count_with_id(table, id) <= 1);
                lemma_count_after_push(table, location, id);
            }
        },
        _ => {},
    }
}

/// A write of a location leaves exactly one row under the location's
/// identifier, and no identifier stored twice.
pub proof fn lemma_save_location(table: Seq<LocationView>, location: LocationView)
    requires
        ids_unique(table),
    ensures
        ids_unique(table_after(table, StoreRequestView::SaveLocation { location })),
        count_with_id(
            table_after(table, StoreRequestView::SaveLocation { location }),
            location.id,
        ) == 1,
{
    let request = StoreRequestView::SaveLocation { location };
    law_store_keeps_ids_unique(table, request);
    lemma_count_after_push(table, location, location.id);
    assert(count_with_id(table, location.id) <= 1);
}

/// A write of the location that stands for a point keeps every row stored
/// under the identifier that the writing gives to its coordinates.
pub proof fn lemma_save_written_location(
    table: Seq<LocationView>,
    writing: spec_fn(u64) -> Seq<char>,
    point: PointView,
)
    requires
        table_written(table, writing),
        point.written_by(writing),
    ensures
        table_written(
            table_after(
                table,
                StoreRequestView::SaveLocation { location: LocationView::at(point) },
            ),
            writing,
        ),
{
    let location = LocationView::at(point);
    lemma_save_location(table, location);
    assert(location.written_by(writing));
}

} // verus!
