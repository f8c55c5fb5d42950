//! The statements that read and write subdivisions, lots and their
//! boundaries.
//!
//! Every boundary point is a row of its own in an association table, and each
//! such row carries its position in the ring, so that the order in which the
//! points come back never depends on how the store happens to aggregate.

use crate::statement::{
    chained_insert, placeholder, BatchStatementBuilder, SqlValue, SqlValueView, Statement,
    StatementView,
};
use crate::error::{DefaultAppError, DefaultAppErrorView};
use crate::location::Coordinates;
use crate::location_service::{ended_by, failure_of};
use crate::storage::Storage;
use crate::store::{
    LotRow, LotRowView, Resumable, Step, StepView, StoreReply, StoreReplyView, StoreRequest,
    StoreRequestView,
};
use crate::subdivision::{Lot, LotView, RepresentativePoint, Subdivision, SubdivisionView};
use vstd::prelude::*;

verus! {

pub const SELECT_AREAS: &'static str =
    "SELECT s.s_name, s.id, array_agg(al.lat ORDER BY sl.seq) AS lats, array_agg(al.long ORDER BY sl.seq) AS longs FROM subdivision s JOIN subdivision_location sl ON s.id = sl.subdivision_id JOIN app_location al ON sl.location_id = al.id ";

pub const ANCHOR_POINT: &'static str =
    "ST_MakePoint((array_agg(al.long ORDER BY sl.seq))[1], (array_agg(al.lat ORDER BY sl.seq))[1])";

pub const CENTROID: &'static str = "ST_MakePoint(avg(al.long), avg(al.lat))";

pub const SELECT_PREVIEWS: &'static str =
    "SELECT s.s_name, s.id, count(l.l_name)::int AS lots FROM subdivision s LEFT JOIN lot l ON l.subdivision_id = s.id GROUP BY s.s_name, s.id;";

pub const SELECT_LOT_AREAS: &'static str =
    "SELECT l.l_name, array_agg(al.lat ORDER BY ll.seq) AS lats, array_agg(al.long ORDER BY ll.seq) AS longs FROM lot l JOIN lot_location ll ON l.l_name = ll.l_name AND l.subdivision_id = ll.subdivision_id JOIN app_location al ON al.id = ll.location_id WHERE l.subdivision_id = ";

pub const INSERT_SUBDIVISION: &'static str = "INSERT INTO subdivision (id, s_name) VALUES ";

pub const INSERT_SUBDIVISION_LOCATION: &'static str =
    "INSERT INTO subdivision_location (subdivision_id, location_id, seq) VALUES ";

pub const INSERT_LOT: &'static str = "INSERT INTO lot (l_name, subdivision_id) VALUES ";

pub const INSERT_LOT_LOCATION: &'static str =
    "INSERT INTO lot_location (l_name, subdivision_id, location_id, seq) VALUES ";

/// The association rows of a boundary: for each point of `area`, the values
/// that name the owner, then the point's identifier and its position in the
/// ring.
pub open spec fn boundary_rows(owner: Seq<SqlValueView>, area: Seq<Seq<char>>) -> Seq<
    Seq<SqlValueView>,
> {
    Seq::new(
        area.len(),
        |i: int| owner + seq![SqlValueView::Text(area[i]), SqlValueView::Sequence(i as u64)],
    )
}

/// The values that name a subdivision in its association rows.
pub open spec fn subdivision_owner(subdivision: SubdivisionView) -> Seq<SqlValueView> {
    seq![SqlValueView::Text(subdivision.id)]
}

/// The row of a subdivision in its own table.
pub open spec fn subdivision_values(subdivision: SubdivisionView) -> Seq<SqlValueView> {
    seq![SqlValueView::Text(subdivision.id), SqlValueView::Text(subdivision.name)]
}

/// The values that name a lot, in its own table and in its association rows.
pub open spec fn lot_owner(lot: LotView) -> Seq<SqlValueView> {
    seq![SqlValueView::Text(lot.name), SqlValueView::Text(lot.subdivision_id)]
}

/// The statement that stores `subdivision` and its boundary.
pub open spec fn create_statement(subdivision: SubdivisionView) -> StatementView {
    chained_insert(
        INSERT_SUBDIVISION@,
        seq![subdivision_values(subdivision)],
        2,
        INSERT_SUBDIVISION_LOCATION@,
        boundary_rows(subdivision_owner(subdivision), subdivision.area),
        3,
    )
}

/// The statement that stores `lot` and its boundary.
pub open spec fn create_lot_statement(lot: LotView) -> StatementView {
    chained_insert(
        INSERT_LOT@,
        seq![lot_owner(lot)],
        2,
        INSERT_LOT_LOCATION@,
        boundary_rows(lot_owner(lot), lot.area),
        4,
    )
}

/// The rows of many lots in their own table, in the order of the lots.
pub open spec fn lot_owner_rows(lots: Seq<LotView>) -> Seq<Seq<SqlValueView>> {
    Seq::new(lots.len(), |i: int| lot_owner(lots[i]))
}

/// The association rows of many lots: those of the first lot, then those of
/// the second, and so on. Positions start again from zero with each lot.
pub open spec fn lots_boundary_rows(lots: Seq<LotView>) -> Seq<Seq<SqlValueView>>
    decreases lots.len(),
{
    if lots.len() == 0 {
        Seq::empty()
    } else {
        lots_boundary_rows(lots.drop_last()) + boundary_rows(
            lot_owner(lots.last()),
            lots.last().area,
        )
    }
}

/// The statement that stores `lots` and their boundaries; none where there
/// is no lot to store.
pub open spec fn create_lots_statement(lots: Seq<LotView>) -> Option<StatementView> {
    if lots.len() == 0 {
        None
    } else {
        Some(
            chained_insert(
                INSERT_LOT@,
                lot_owner_rows(lots),
                2,
                INSERT_LOT_LOCATION@,
                lots_boundary_rows(lots),
                4,
            ),
        )
    }
}

/// A statement made of `before`, the first placeholder, and `after`.
pub open spec fn with_one_value(before: Seq<char>, value: SqlValueView, after: Seq<char>)
    -> StatementView {
    StatementView { text: before + placeholder(1) + after, params: seq![value] }
}

/// The statement that removes the subdivision `id`.
pub open spec fn delete_statement(id: Seq<char>) -> StatementView {
    with_one_value("DELETE FROM subdivision WHERE id = "@, SqlValueView::Text(id), ";"@)
}

/// The statement that gives the subdivision `id` the name `new_name`.
pub open spec fn update_statement(id: Seq<char>, new_name: Seq<char>) -> StatementView {
    StatementView {
        text: "UPDATE subdivision SET s_name = "@ + placeholder(1) + " WHERE id = "@
            + placeholder(2) + ";"@,
        params: seq![SqlValueView::Text(new_name), SqlValueView::Text(id)],
    }
}

/// The statement that finds the subdivisions whose name contains `name`,
/// whatever the case, each with its boundary coordinates in ring order.
pub open spec fn search_by_name_statement(name: Seq<char>) -> StatementView {
    with_one_value(
        SELECT_AREAS@ + "WHERE POSITION(LOWER("@,
        SqlValueView::Text(name),
        ") IN LOWER(s.s_name)) > 0 GROUP BY s.s_name, s.id;"@,
    )
}

/// How the store computes the representative point of a subdivision.
pub open spec fn representative_point_text(measured_from: RepresentativePoint) -> Seq<char> {
    match measured_from {
        RepresentativePoint::AnchorPoint => ANCHOR_POINT@,
        RepresentativePoint::Centroid => CENTROID@,
    }
}

/// The statement that finds the subdivisions whose representative point lies
/// at most `radius` from `coords` on the sphere. The query point is bound
/// longitude first.
pub open spec fn search_by_location_statement(
    coords: Coordinates,
    radius: u64,
    measured_from: RepresentativePoint,
) -> StatementView {
    StatementView {
        text: SELECT_AREAS@ + "GROUP BY s.s_name, s.id HAVING ST_DistanceSphere("@
            + representative_point_text(measured_from) + ", ST_MakePoint("@ + placeholder(1)
            + ", "@ + placeholder(2) + ")) <= "@ + placeholder(3) + ";"@,
        params: seq![
            SqlValueView::Real(coords.1),
            SqlValueView::Real(coords.0),
            SqlValueView::Real(radius),
        ],
    }
}

/// The statement that lists every subdivision with the number of its lots.
pub open spec fn get_all_preview_statement() -> StatementView {
    StatementView { text: SELECT_PREVIEWS@, params: Seq::empty() }
}

/// The statement that reads the lots of `subdivision_id`, without boundaries.
pub open spec fn lots_statement(subdivision_id: Seq<char>) -> StatementView {
    with_one_value(
        "SELECT l_name, subdivision_id FROM lot WHERE subdivision_id = "@,
        SqlValueView::Text(subdivision_id),
        ";"@,
    )
}

/// The statement that reads the identifiers of a lot's boundary points in
/// ring order.
pub open spec fn lot_locations_statement(name: Seq<char>, subdivision_id: Seq<char>)
    -> StatementView {
    StatementView {
        text: "SELECT location_id FROM lot_location WHERE l_name = "@ + placeholder(1)
            + " AND subdivision_id = "@ + placeholder(2) + " ORDER BY seq;"@,
        params: seq![SqlValueView::Text(name), SqlValueView::Text(subdivision_id)],
    }
}

/// The statement that reads the lots of `subdivision_id`, each with its
/// boundary coordinates in ring order.
pub open spec fn get_subdivision_lots_statement(subdivision_id: Seq<char>) -> StatementView {
    with_one_value(
        SELECT_LOT_AREAS@,
        SqlValueView::Text(subdivision_id),
        " GROUP BY l.l_name;"@,
    )
}

/// Builds the statement made of `before`, a placeholder for `value`, and
/// `after`.
fn statement_with_one_value(before: &str, value: SqlValue, after: &str) -> (statement: Statement)
    ensures
        statement@ == with_one_value(before@, value@, after@),
{
    let mut builder = BatchStatementBuilder::new();
    builder.push_text(before);
    builder.bind(value);
    builder.push_text(after);
    let statement = builder.finish();
    proof {
        assert(statement@.text =~= before@ + placeholder(1) + after@);
        assert(statement@.params =~= seq![value@]);
    }
    statement
}

/// Copies `values`.
fn duplicate_values(values: &Vec<SqlValue>) -> (copy: Vec<SqlValue>)
    ensures
        copy.deep_view() == values.deep_view(),
        copy@.len() == values@.len(),
{
    let mut copy: Vec<SqlValue> = Vec::new();
    let mut i: usize = 0;
    while i < values.len()
        invariant
            i <= values.len(),
            copy@.len() == i,
            copy.deep_view() == values.deep_view().take(i as int),
        decreases values.len() - i,
    {
        copy.push(values[i].duplicate());
        i += 1;
        proof {
            assert(copy.deep_view() =~= values.deep_view().take(i as int));
        }
    }
    proof {
        assert(values.deep_view().take(values@.len() as int) =~= values.deep_view());
    }
    copy
}

/// Appends to `rows` the association rows of the boundary `area` owned by
/// `owner`.
fn push_boundary_rows(rows: &mut Vec<Vec<SqlValue>>, owner: &Vec<SqlValue>, area: &Vec<String>)
    requires
        forall|r: int|
            0 <= r < old(rows)@.len() ==> (#[trigger] old(rows)@[r])@.len() == owner@.len() + 2,
    ensures
        final(rows).deep_view() == old(rows).deep_view() + boundary_rows(
            owner.deep_view(),
            area.deep_view(),
        ),
        forall|r: int|
            0 <= r < final(rows)@.len() ==> (#[trigger] final(rows)@[r])@.len() == owner@.len()
                + 2,
{
    let ghost before = rows.deep_view();
    let mut i: usize = 0;
    while i < area.len()
        invariant
            i <= area.len(),
            forall|r: int| 0 <= r < rows@.len() ==> (#[trigger] rows@[r])@.len() == owner@.len() + 2,
            rows.deep_view() == before + boundary_rows(
                owner.deep_view(),
                area.deep_view(),
            ).take(i as int),
        decreases area.len() - i,
    {
        let ghost so_far = rows.deep_view();
        let mut row = duplicate_values(owner);
        row.push(SqlValue::Text(area[i].clone()));
        row.push(SqlValue::Sequence(i as u64));
        proof {
            assert(row.deep_view() =~= owner.deep_view() + seq![
                SqlValueView::Text(area@[i as int]@),
                SqlValueView::Sequence(i as u64),
            ]);
        }
        rows.push(row);
        proof {
            assert(rows.deep_view() =~= so_far.push(row.deep_view()));
            assert(rows.deep_view() =~= before + boundary_rows(
                owner.deep_view(),
                area.deep_view(),
            ).take(i as int + 1));
        }
        i += 1;
    }
    proof {
        let all = boundary_rows(owner.deep_view(), area.deep_view());
        assert(all.take(area@.len() as int) =~= all);
    }
}

/// What the reading of a subdivision's lots is waiting for.
#[derive(Debug, Clone, PartialEq, Eq)]
pub enum LotsTask {
    /// The lots of the subdivision, without boundaries.
    Listing,
    /// The boundary of the lot `rows[lots.len()]`; the lots before it are
    /// complete.
    Filling { rows: Vec<LotRow>, lots: Vec<Lot> },
}

/// The reading of a subdivision's lots, as plain sequences.
pub enum LotsTaskView {
    Listing,
    Filling { rows: Seq<LotRowView>, lots: Seq<LotView> },
}

impl View for LotsTask {
    type V = LotsTaskView;

    open spec fn view(&self) -> LotsTaskView {
        match self {
            LotsTask::Listing => LotsTaskView::Listing,
            LotsTask::Filling { rows, lots } => LotsTaskView::Filling {
                rows: rows.deep_view(),
                lots: lots.deep_view(),
            },
        }
    }
}

impl DeepView for LotsTask {
    type V = LotsTaskView;

    open spec fn deep_view(&self) -> LotsTaskView {
        self@
    }
}

impl LotsTaskView {
    /// The first step: asking for the lots of `subdivision_id`.
    pub open spec fn get_lots_by_subdivision(subdivision_id: Seq<char>) -> StepView<
        LotsTaskView,
        Seq<LotView>,
    > {
        StepView::Ask(StoreRequestView::GetLots { subdivision_id }, LotsTaskView::Listing)
    }

    /// With `lots` complete, the request for the boundary of the next lot of
    /// `rows`, or the end when every lot is complete.
    pub open spec fn fill(rows: Seq<LotRowView>, lots: Seq<LotView>) -> StepView<
        LotsTaskView,
        Seq<LotView>,
    > {
        if lots.len() < rows.len() {
            StepView::Ask(
                StoreRequestView::GetLotLocations {
                    name: rows[lots.len() as int].name,
                    subdivision_id: rows[lots.len() as int].subdivision_id,
                },
                LotsTaskView::Filling { rows, lots },
            )
        } else {
            StepView::Done(Ok(lots))
        }
    }
}

impl Resumable for LotsTaskView {
    type Outcome = Seq<LotView>;

    /// What the reading does with the store's reply: the list of lots opens
    /// the filling; each boundary completes the lot it was asked for, in the
    /// order in which the store listed the lots. A boundary that comes when
    /// every lot is complete answers no request, and ends the reading with
    /// an error.
    open spec fn resume(self, reply: StoreReplyView) -> StepView<LotsTaskView, Seq<LotView>> {
        match (self, reply) {
            (LotsTaskView::Listing, StoreReplyView::Lots(rows)) => Self::fill(rows, Seq::empty()),
            (LotsTaskView::Filling { rows, lots }, StoreReplyView::LocationIds(ids)) => if lots.len()
                < rows.len() {
                Self::fill(
                    rows,
                    lots.push(
                        LotView {
                            name: rows[lots.len() as int].name,
                            subdivision_id: rows[lots.len() as int].subdivision_id,
                            area: ids,
                        },
                    ),
                )
            } else {
                StepView::Done(Err(DefaultAppErrorView::unexpected_reply()))
            },
            (_, other) => ended_by(other),
        }
    }
}

impl LotsTask {
    /// With `lots` complete, asks for the boundary of the next lot of `rows`,
    /// or ends when every lot is complete.
    pub fn fill(rows: Vec<LotRow>, lots: Vec<Lot>) -> (step: Step<LotsTask, Vec<Lot>>)
        ensures
            step.deep_view() == LotsTaskView::fill(rows.deep_view(), lots.deep_view()),
    {
        if lots.len() < rows.len() {
            let row = &rows[lots.len()];
            let request = StoreRequest::GetLotLocations {
                name: row.name.clone(),
                subdivision_id: row.subdivision_id.clone(),
            };
            Step::Ask(request, LotsTask::Filling { rows, lots })
        } else {
            Step::Done(Ok(lots))
        }
    }

    /// Takes the store's reply and says what the reading does next.
    pub fn resume(self, reply: StoreReply) -> (step: Step<LotsTask, Vec<Lot>>)
        ensures
            step.deep_view() == self@.resume(reply@),
    {
        match (self, reply) {
            (LotsTask::Listing, StoreReply::Lots(rows)) => {
                let lots: Vec<Lot> = Vec::new();
                proof {
                    assert(lots.deep_view() =~= Seq::<LotView>::empty());
                }
                LotsTask::fill(rows, lots)
            },
            (LotsTask::Filling { rows, lots }, StoreReply::LocationIds(ids)) => {
                if lots.len() < rows.len() {
                    let ghost before = lots.deep_view();
                    let row = &rows[lots.len()];
                    let lot = Lot {
                        name: row.name.clone(),
                        subdivision_id: row.subdivision_id.clone(),
                        area: ids,
                    };
                    let mut lots = lots;
                    lots.push(lot);
                    proof {
                        assert(lots.deep_view() =~= before.push(lot@));
                    }
                    LotsTask::fill(rows, lots)
                } else {
                    Step::Done(Err(DefaultAppError::unexpected_reply()))
                }
            },
            (_, other) => Step::Done(Err(failure_of(other))),
        }
    }
}

/// Builds the statements on subdivisions and lots, and reads lots back.
#[derive(Debug, Clone, PartialEq, Eq)]
pub struct SubdivisonRepo {
    pub storage: Storage,
}

impl SubdivisonRepo {
    /// A repository for the store reached under `storage`.
    pub fn new(storage: Storage) -> (repo: SubdivisonRepo)
        ensures
            repo.storage == storage,
    {
        Self { storage: storage }
    }

    /// The statement that stores `subdivision` together with one association
    /// row for each point of its boundary, as one atomic unit.
    pub fn create(&self, subdivision: Subdivision) -> (statement: Statement)
        ensures
            statement@ == create_statement(subdivision@),
    {
        let mut parent: Vec<SqlValue> = Vec::new();
        parent.push(SqlValue::Text(subdivision.id.clone()));
        parent.push(SqlValue::Text(subdivision.name.clone()));
        proof {
            assert(parent.deep_view() =~= subdivision_values(subdivision@));
        }
        let mut parents: Vec<Vec<SqlValue>> = Vec::new();
        parents.push(parent);
        let mut owner: Vec<SqlValue> = Vec::new();
        owner.push(SqlValue::Text(subdivision.id.clone()));
        let mut children: Vec<Vec<SqlValue>> = Vec::new();
        push_boundary_rows(&mut children, &owner, &subdivision.area);
        proof {
            assert(parents.deep_view() =~= seq![subdivision_values(subdivision@)]);
            assert(owner.deep_view() =~= subdivision_owner(subdivision@));
            assert(children.deep_view() =~= boundary_rows(
                subdivision_owner(subdivision@),
                subdivision@.area,
            ));
        }
        BatchStatementBuilder::parent_with_children(
            INSERT_SUBDIVISION,
            &parents,
            2,
            INSERT_SUBDIVISION_LOCATION,
            &children,
            3,
        )
    }

    /// The statement that stores `lot` together with one association row for
    /// each point of its boundary, as one atomic unit. The locations that the
    /// boundary names must be in the store already.
    pub fn create_lot(&self, lot: Lot) -> (statement: Statement)
        ensures
            statement@ == create_lot_statement(lot@),
    {
        let mut owner: Vec<SqlValue> = Vec::new();
        owner.push(SqlValue::Text(lot.name.clone()));
        owner.push(SqlValue::Text(lot.subdivision_id.clone()));
        let mut parents: Vec<Vec<SqlValue>> = Vec::new();
        parents.push(duplicate_values(&owner));
        let mut children: Vec<Vec<SqlValue>> = Vec::new();
        push_boundary_rows(&mut children, &owner, &lot.area);
        proof {
            assert(owner.deep_view() =~= lot_owner(lot@));
            assert(parents.deep_view() =~= seq![lot_owner(lot@)]);
            assert(children.deep_view() =~= boundary_rows(lot_owner(lot@), lot@.area));
        }
        BatchStatementBuilder::parent_with_children(
            INSERT_LOT,
            &parents,
            2,
            INSERT_LOT_LOCATION,
            &children,
            4,
        )
    }
    /// The statement that stores `lots` together with one association row for
    /// each point of each boundary, as one atomic unit; none where there is
    /// no lot. The locations that the boundaries name must be in the store
    /// already.
    pub fn create_lots(&self, lots: Vec<Lot>) -> (statement: Option<Statement>)
        ensures
            statement.deep_view() == create_lots_statement(lots.deep_view()),
    {
        if lots.len() == 0 {
            return None;
        }
        let mut parents: Vec<Vec<SqlValue>> = Vec::new();
        let mut children: Vec<Vec<SqlValue>> = Vec::new();
        let mut i: usize = 0;
        proof {
            assert(lots.deep_view().take(0) =~= Seq::<LotView>::empty());
            assert(parents.deep_view() =~= lot_owner_rows(lots.deep_view().take(0)));
            assert(children.deep_view() =~= lots_boundary_rows(lots.deep_view().take(0)));
        }
        while i < lots.len()
            invariant
                i <= lots.len(),
                forall|r: int| 0 <= r < parents@.len() ==> (#[trigger] parents@[r])@.len() == 2,
                forall|r: int| 0 <= r < children@.len() ==> (#[trigger] children@[r])@.len() == 4,
                parents.deep_view() == lot_owner_rows(lots.deep_view().take(i as int)),
                children.deep_view() == lots_boundary_rows(lots.deep_view().take(i as int)),
            decreases lots.len() - i,
        {
            let ghost parents_before = parents.deep_view();
            let lot = &lots[i];
            let mut owner: Vec<SqlValue> = Vec::new();
            owner.push(SqlValue::Text(lot.name.clone()));
            owner.push(SqlValue::Text(lot.subdivision_id.clone()));
            proof {
                assert(owner.deep_view() =~= lot_owner(lot@));
            }
            parents.push(duplicate_values(&owner));
            push_boundary_rows(&mut children, &owner, &lot.area);
            proof {
                let taken = lots.deep_view().take(i as int + 1);
                assert(taken.drop_last() =~= lots.deep_view().take(i as int));
                assert(taken.last() == lot@);
                assert(parents.deep_view() =~= parents_before.push(lot_owner(lot@)));
                assert(parents.deep_view() =~= lot_owner_rows(taken));
            }
            i += 1;
        }
        proof {
            assert(lots.deep_view().take(lots@.len() as int) =~= lots.deep_view());
        }
        Some(
            BatchStatementBuilder::parent_with_children(
                INSERT_LOT,
                &parents,
                2,
                INSERT_LOT_LOCATION,
                &children,
                4,
            ),
        )
    }

    /// The statement that removes the subdivision `id`.
    pub fn delete(&self, id: String) -> (statement: Statement)
        ensures
            statement@ == delete_statement(id@),
    {
        statement_with_one_value("DELETE FROM subdivision WHERE id = ", SqlValue::Text(id), ";")
    }

    /// The statement that gives the subdivision `id` the name `new_name`.
    pub fn update(&self, id: String, new_name: String) -> (statement: Statement)
        ensures
            statement@ == update_statement(id@, new_name@),
    {
        let mut builder = BatchStatementBuilder::new();
        builder.push_text("UPDATE subdivision SET s_name = ");
        builder.bind(SqlValue::Text(new_name));
        builder.push_text(" WHERE id = ");
        builder.bind(SqlValue::Text(id));
        builder.push_text(";");
        let statement = builder.finish();
        proof {
            assert(statement@.text =~= update_statement(id@, new_name@).text);
            assert(statement@.params =~= update_statement(id@, new_name@).params);
        }
        statement
    }

    /// The statement that finds the subdivisions whose name contains `name`,
    /// whatever the case.
    pub fn search_by_name(&self, name: String) -> (statement: Statement)
        ensures
            statement@ == search_by_name_statement(name@),
    {
        let mut before = String::from_str(SELECT_AREAS);
        before.append("WHERE POSITION(LOWER(");
        statement_with_one_value(
            before.as_str(),
            SqlValue::Text(name),
            ") IN LOWER(s.s_name)) > 0 GROUP BY s.s_name, s.id;",
        )
    }

    /// The statement that finds the subdivisions whose representative point
    /// lies at most `radius` from `coords`, measured on the sphere.
    pub fn search_by_location(
        &self,
        coords: Coordinates,
        radius: u64,
        measured_from: RepresentativePoint,
    ) -> (statement: Statement)
        ensures
            statement@ == search_by_location_statement(coords, radius, measured_from),
    {
        let mut builder = BatchStatementBuilder::new();
        builder.push_text(SELECT_AREAS);
        builder.push_text("GROUP BY s.s_name, s.id HAVING ST_DistanceSphere(");
        match measured_from {
            RepresentativePoint::AnchorPoint => builder.push_text(ANCHOR_POINT),
            RepresentativePoint::Centroid => builder.push_text(CENTROID),
        }
        builder.push_text(", ST_MakePoint(");
        builder.bind(SqlValue::Real(coords.1));
        builder.push_text(", ");
        builder.bind(SqlValue::Real(coords.0));
        builder.push_text(")) <= ");
        builder.bind(SqlValue::Real(radius));
        builder.push_text(";");
        let statement = builder.finish();
        proof {
            let expected = search_by_location_statement(coords, radius, measured_from);
            assert(statement@.text =~= expected.text);
            assert(statement@.params =~= expected.params);
        }
        statement
    }

    /// The statement that lists every subdivision with the number of its
    /// lots. It reads no boundary.
    pub fn get_all_preview(&self) -> (statement: Statement)
        ensures
            statement@ == get_all_preview_statement(),
    {
        let mut builder = BatchStatementBuilder::new();
        builder.push_text(SELECT_PREVIEWS);
        let statement = builder.finish();
        proof {
            assert(statement@.text =~= SELECT_PREVIEWS@);
        }
        statement
    }

    /// The statement that reads the lots of `subdivision_id`, without their
    /// boundaries.
    pub fn lots_of(&self, subdivision_id: String) -> (statement: Statement)
        ensures
            statement@ == lots_statement(subdivision_id@),
    {
        statement_with_one_value(
            "SELECT l_name, subdivision_id FROM lot WHERE subdivision_id = ",
            SqlValue::Text(subdivision_id),
            ";",
        )
    }

    /// The statement that reads the identifiers of the boundary points of the
    /// lot `name` of `subdivision_id`, in ring order.
    pub fn lot_locations(&self, name: String, subdivision_id: String) -> (statement: Statement)
        ensures
            statement@ == lot_locations_statement(name@, subdivision_id@),
    {
        let mut builder = BatchStatementBuilder::new();
        builder.push_text("SELECT location_id FROM lot_location WHERE l_name = ");
        builder.bind(SqlValue::Text(name));
        builder.push_text(" AND subdivision_id = ");
        builder.bind(SqlValue::Text(subdivision_id));
        builder.push_text(" ORDER BY seq;");
        let statement = builder.finish();
        proof {
            let expected = lot_locations_statement(name@, subdivision_id@);
            assert(statement@.text =~= expected.text);
            assert(statement@.params =~= expected.params);
        }
        statement
    }

    /// Starts reading the lots of `subdivision_id` with their boundaries as
    /// identifiers: first the lots, then the boundary of each in turn.
    pub fn get_lots_by_subdivision(&self, subdivision_id: String) -> (step: Step<
        LotsTask,
        Vec<Lot>,
    >)
        ensures
            step.deep_view() == LotsTaskView::get_lots_by_subdivision(subdivision_id@),
    {
        Step::Ask(StoreRequest::GetLots { subdivision_id }, LotsTask::Listing)
    }

    /// The statement that reads the lots of `subdivision_id`, each with its
    /// boundary coordinates in ring order.
    pub fn get_subdivision_lots(&self, subdivision_id: String) -> (statement: Statement)
        ensures
            statement@ == get_subdivision_lots_statement(subdivision_id@),
    {
        statement_with_one_value(
            SELECT_LOT_AREAS,
            SqlValue::Text(subdivision_id),
            " GROUP BY l.l_name;",
        )
    }
}

} // verus!
