//! The statements that read and write the location table, and the reading of
//! their results.

use crate::error::{DefaultAppError, DefaultAppErrorView};
use crate::location::{Location, LocationView};
use crate::statement::{
    placeholder, values_text, BatchStatementBuilder, SqlValue, SqlValueView, Statement,
    StatementView, concat_rows,
};
use crate::storage::Storage;
use vstd::prelude::*;

verus! {

/// The values that stand for one location in a row of the location table:
/// identifier, latitude, longitude.
pub open spec fn location_values(location: LocationView) -> Seq<SqlValueView> {
    seq![
        SqlValueView::Text(location.id),
        SqlValueView::Real(location.lat),
        SqlValueView::Real(location.long),
    ]
}

/// The statement that reads the locations stored under `id`.
pub open spec fn get_location_statement(id: Seq<char>) -> StatementView {
    StatementView {
        text: "SELECT id, lat, long FROM app_location WHERE id = "@ + placeholder(1) + ";"@,
        params: seq![SqlValueView::Text(id)],
    }
}

/// The statement that stores `location` unless its identifier is taken. It
/// may be repeated, and sent by several callers at once, without ever storing
/// a second row under one identifier.
pub open spec fn save_location_statement(location: LocationView) -> StatementView {
    StatementView {
        text: "INSERT INTO app_location (id, lat, long) VALUES "@ + values_text(0, 1, 3)
            + " ON CONFLICT (id) DO NOTHING;"@,
        params: location_values(location),
    }
}

/// The statement that stores all of `locations` in one write, skipping the
/// identifiers that are taken; none where there is nothing to store.
pub open spec fn save_locations_statement(locations: Seq<LocationView>) -> Option<
    StatementView,
> {
    if locations.len() == 0 {
        None
    } else {
        Some(
            StatementView {
                text: "INSERT INTO app_location (id, lat, long) VALUES "@ + values_text(
                    0,
                    locations.len(),
                    3,
                ) + " ON CONFLICT (id) DO NOTHING;"@,
                params: concat_rows(location_rows(locations)),
            },
        )
    }
}

/// One row of values for each of `locations`, in their order.
pub open spec fn location_rows(locations: Seq<LocationView>) -> Seq<Seq<SqlValueView>> {
    Seq::new(locations.len(), |i: int| location_values(locations[i]))
}

/// The one location among `rows`, where there is exactly one.
pub open spec fn single_location(rows: Seq<LocationView>) -> Result<
    LocationView,
    DefaultAppErrorView,
> {
    if rows.len() == 1 {
        Ok(rows[0])
    } else {
        Err(DefaultAppErrorView::unexpected_results(rows.len()))
    }
}

/// The row of values for `location`.
fn location_row(location: &Location) -> (row: Vec<SqlValue>)
    ensures
        row.deep_view() == location_values(location@),
        row@.len() == 3,
{
    let mut row: Vec<SqlValue> = Vec::new();
    row.push(SqlValue::Text(location.id.clone()));
    row.push(SqlValue::Real(location.lat));
    row.push(SqlValue::Real(location.long));
    assert(row.deep_view() =~= location_values(location@));
    row
}

/// Builds the statements on the location table.
#[derive(Debug, Clone, PartialEq, Eq)]
pub struct LocationRepo {
    pub storage: Storage,
}

impl LocationRepo {
    /// A repository for the store reached under `storage`.
    pub fn new(storage: Storage) -> (repo: LocationRepo)
        ensures
            repo.storage == storage,
    {
        Self { storage: storage }
    }

    /// The statement that reads the locations stored under `id`.
    pub fn get_location(&self, id: String) -> (statement: Statement)
        ensures
            statement@ == get_location_statement(id@),
    {
        let mut builder = BatchStatementBuilder::new();
        builder.push_text("SELECT id, lat, long FROM app_location WHERE id = ");
        builder.bind(SqlValue::Text(id));
        builder.push_text(";");
        let statement = builder.finish();
        proof {
            assert(statement@.text =~= get_location_statement(id@).text);
            assert(statement@.params =~= get_location_statement(id@).params);
        }
        statement
    }

    /// Reads the result of [`LocationRepo::get_location`]: the location, where
    /// exactly one row came back; else the error that tells how many did.
    pub fn location_from_rows(rows: Vec<Location>) -> (result: Result<Location, DefaultAppError>)
        ensures
            match result {
                Ok(location) => single_location(rows.deep_view()) == Ok::<
                    LocationView,
                    DefaultAppErrorView,
                >(location@),
                Err(error) => single_location(rows.deep_view()) == Err::<
                    LocationView,
                    DefaultAppErrorView,
                >(error@),
            },
    {
        let count = rows.len();
        let mut rows = rows;
        if count == 1 {
            match rows.pop() {
                Some(location) => Ok(location),
                None => Err(DefaultAppError::unexpected_results(count)),
            }
        } else {
            Err(DefaultAppError::unexpected_results(count))
        }
    }

    /// The statement that stores `location` unless its identifier is taken.
    pub fn save_location(&self, location: Location) -> (statement: Statement)
        ensures
            statement@ == save_location_statement(location@),
    {
        let mut rows: Vec<Vec<SqlValue>> = Vec::new();
        rows.push(location_row(&location));
        let mut builder = BatchStatementBuilder::new();
        builder.push_text("INSERT INTO app_location (id, lat, long) VALUES ");
        builder.push_rows(&rows, 3);
        builder.push_text(" ON CONFLICT (id) DO NOTHING;");
        let statement = builder.finish();
        proof {
            assert(rows.deep_view() =~= seq![location_values(location@)]);
            assert(rows.deep_view().drop_last() =~= Seq::<Seq<SqlValueView>>::empty());
            assert(concat_rows(rows.deep_view()) =~= location_values(location@));
            assert(statement@.text =~= save_location_statement(location@).text);
            assert(statement@.params =~= save_location_statement(location@).params);
        }
        statement
    }

    /// The statement that stores all of `locations` in one write, or none
    /// where the batch is empty. The caller has removed duplicates from the
    /// batch.
    pub fn save_locations(&self, locations: Vec<Location>) -> (statement: Option<Statement>)
        ensures
            statement.deep_view() == save_locations_statement(locations.deep_view()),
    {
        if locations.len() == 0 {
            return None;
        }
        let mut rows: Vec<Vec<SqlValue>> = Vec::new();
        let mut i: usize = 0;
        while i < locations.len()
            invariant
                i <= locations.len(),
                rows@.len() == i,
                forall|r: int| 0 <= r < rows@.len() ==> (#[trigger] rows@[r])@.len() == 3,
                rows.deep_view() == location_rows(locations.deep_view().take(i as int)),
            decreases locations.len() - i,
        {
            let ghost before = rows.deep_view();
            rows.push(location_row(&locations[i]));
            proof {
                assert(rows.deep_view() =~= before.push(location_values(locations@[i as int]@)));
                assert(rows.deep_view() =~= location_rows(
                    locations.deep_view().take(i as int + 1),
                ));
            }
            i += 1;
        }
        let mut builder = BatchStatementBuilder::new();
        builder.push_text("INSERT INTO app_location (id, lat, long) VALUES ");
        builder.push_rows(&rows, 3);
        builder.push_text(" ON CONFLICT (id) DO NOTHING;");
        let statement = builder.finish();
        proof {
            assert(locations.deep_view().take(locations@.len() as int) =~= locations.deep_view());
            let expected = save_locations_statement(locations.deep_view())->0;
            assert(statement@.text =~= expected.text);
            assert(statement@.params =~= expected.params);
        }
        Some(statement)
    }
}

} // verus!
