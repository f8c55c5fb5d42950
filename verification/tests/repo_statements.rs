use real_estate_server::app_state::{AppState, Plan, ReplyShape};
use real_estate_server::location::{derive_location_id, Location, Point};
use real_estate_server::location_repo::LocationRepo;
use real_estate_server::statement::SqlValue;
use real_estate_server::storage::Storage;
use real_estate_server::store::{StoreReply, StoreRequest};
use real_estate_server::subdivision::{Lot, RepresentativePoint, Subdivision};
use real_estate_server::subdivision_repo::SubdivisonRepo;
use real_estate_server::search::DEFAULT_SEARCH_RADIUS;

fn storage() -> Storage {
    Storage::new(
        String::from("db.example"),
        String::from("agent"),
        String::from("letmein"),
        String::from("estates"),
    )
}

fn pt(lat: u64, long: u64) -> Point {
    Point { lat, long, lat_text: lat.to_string(), long_text: long.to_string() }
}

fn point(lat: f64, long: f64) -> Point {
    Point {
        lat: lat.to_bits(),
        long: long.to_bits(),
        lat_text: lat.to_string(),
        long_text: long.to_string(),
    }
}

fn text(value: &str) -> SqlValue {
    SqlValue::Text(value.to_string())
}

fn ids(words: &[&str]) -> Vec<String> {
    words.iter().map(|word| word.to_string()).collect()
}

#[test]
fn storage_keeps_its_settings() {
    let storage = storage();
    assert_eq!(storage.host, "db.example");
    assert_eq!(storage.user, "agent");
    assert_eq!(storage.database, "estates");
    assert_eq!(storage.duplicate(), storage);
}

#[test]
fn repositories_keep_their_storage() {
    assert_eq!(LocationRepo::new(storage()).storage, storage());
    assert_eq!(SubdivisonRepo::new(storage()).storage, storage());
}

#[test]
fn get_location_statement_binds_the_identifier() {
    let statement = LocationRepo::new(storage()).get_location(String::from("1-2"));
    assert_eq!(statement.text, "SELECT id, lat, long FROM app_location WHERE id = $1;");
    assert_eq!(statement.params, vec![text("1-2")]);
}

#[test]
fn save_location_statement_is_an_idempotent_write() {
    let location = Location { id: String::from("7-9"), lat: 7, long: 9 };
    let statement = LocationRepo::new(storage()).save_location(location);
    assert_eq!(
        statement.text,
        "INSERT INTO app_location (id, lat, long) VALUES ($1, $2, $3) ON CONFLICT (id) DO NOTHING;"
    );
    assert_eq!(statement.params, vec![text("7-9"), SqlValue::Real(7), SqlValue::Real(9)]);
}

#[test]
fn save_locations_statement_has_a_row_for_each_location() {
    let locations = vec![
        Location { id: String::from("1-2"), lat: 1, long: 2 },
        Location { id: String::from("3-4"), lat: 3, long: 4 },
    ];
    let statement = LocationRepo::new(storage()).save_locations(locations).unwrap();
    assert_eq!(
        statement.text,
        "INSERT INTO app_location (id, lat, long) VALUES ($1, $2, $3), ($4, $5, $6) ON CONFLICT (id) DO NOTHING;"
    );
    assert_eq!(
        statement.params,
        vec![
            text("1-2"),
            SqlValue::Real(1),
            SqlValue::Real(2),
            text("3-4"),
            SqlValue::Real(3),
            SqlValue::Real(4)
        ]
    );
}

#[test]
fn save_locations_of_nothing_is_no_statement() {
    assert_eq!(LocationRepo::new(storage()).save_locations(Vec::new()), None);
}

#[test]
fn create_statement_for_a_triangle() {
    let subdivision = Subdivision {
        id: String::from("s1"),
        name: String::from("Oak Hills"),
        area: ids(&["a", "b", "c"]),
    };
    let statement = SubdivisonRepo::new(storage()).create(subdivision);
    assert_eq!(
        statement.text,
        "WITH parent AS (INSERT INTO subdivision (id, s_name) VALUES ($1, $2)) INSERT INTO subdivision_location (subdivision_id, location_id, seq) VALUES ($3, $4, $5), ($6, $7, $8), ($9, $10, $11);"
    );
    assert_eq!(
        statement.params,
        vec![
            text("s1"),
            text("Oak Hills"),
            text("s1"),
            text("a"),
            SqlValue::Sequence(0),
            text("s1"),
            text("b"),
            SqlValue::Sequence(1),
            text("s1"),
            text("c"),
            SqlValue::Sequence(2),
        ]
    );
}

#[test]
fn create_statement_without_boundary_writes_the_subdivision_alone() {
    let subdivision =
        Subdivision { id: String::from("s1"), name: String::from("Oak Hills"), area: Vec::new() };
    let statement = SubdivisonRepo::new(storage()).create(subdivision);
    assert_eq!(statement.text, "INSERT INTO subdivision (id, s_name) VALUES ($1, $2);");
    assert_eq!(statement.params, vec![text("s1"), text("Oak Hills")]);
}

#[test]
fn create_statement_binds_names_instead_of_quoting_them() {
    let subdivision = Subdivision {
        id: String::from("s'1"),
        name: String::from("O'Hara; DROP TABLE lot"),
        area: ids(&["a"]),
    };
    let statement = SubdivisonRepo::new(storage()).create(subdivision);
    assert!(!statement.text.contains("O'Hara"));
    assert!(!statement.text.contains("DROP"));
    assert_eq!(statement.params[1], text("O'Hara; DROP TABLE lot"));
}

#[test]
fn create_lot_statement_for_two_points() {
    let lot = Lot {
        name: String::from("L1"),
        subdivision_id: String::from("s1"),
        area: ids(&["a", "b"]),
    };
    let statement = SubdivisonRepo::new(storage()).create_lot(lot);
    assert_eq!(
        statement.text,
        "WITH parent AS (INSERT INTO lot (l_name, subdivision_id) VALUES ($1, $2)) INSERT INTO lot_location (l_name, subdivision_id, location_id, seq) VALUES ($3, $4, $5, $6), ($7, $8, $9, $10);"
    );
    assert_eq!(
        statement.params,
        vec![
            text("L1"),
            text("s1"),
            text("L1"),
            text("s1"),
            text("a"),
            SqlValue::Sequence(0),
            text("L1"),
            text("s1"),
            text("b"),
            SqlValue::Sequence(1),
        ]
    );
}

#[test]
fn create_lots_statement_numbers_all_rows_from_one_counter() {
    let lots = vec![
        Lot { name: String::from("L1"), subdivision_id: String::from("s1"), area: ids(&["a", "b"]) },
        Lot { name: String::from("L2"), subdivision_id: String::from("s1"), area: ids(&["c"]) },
    ];
    let statement = SubdivisonRepo::new(storage()).create_lots(lots).unwrap();
    assert_eq!(
        statement.text,
        "WITH parent AS (INSERT INTO lot (l_name, subdivision_id) VALUES ($1, $2), ($3, $4)) INSERT INTO lot_location (l_name, subdivision_id, location_id, seq) VALUES ($5, $6, $7, $8), ($9, $10, $11, $12), ($13, $14, $15, $16);"
    );
    assert_eq!(
        statement.params,
        vec![
            text("L1"),
            text("s1"),
            text("L2"),
            text("s1"),
            text("L1"),
            text("s1"),
            text("a"),
            SqlValue::Sequence(0),
            text("L1"),
            text("s1"),
            text("b"),
            SqlValue::Sequence(1),
            text("L2"),
            text("s1"),
            text("c"),
            SqlValue::Sequence(0),
        ]
    );
}

#[test]
fn create_lots_without_points_writes_the_lots_alone() {
    let lots = vec![
        Lot { name: String::from("L1"), subdivision_id: String::from("s1"), area: Vec::new() },
        Lot { name: String::from("L2"), subdivision_id: String::from("s1"), area: Vec::new() },
    ];
    let statement = SubdivisonRepo::new(storage()).create_lots(lots).unwrap();
    assert_eq!(
        statement.text,
        "INSERT INTO lot (l_name, subdivision_id) VALUES ($1, $2), ($3, $4);"
    );
    assert_eq!(statement.params, vec![text("L1"), text("s1"), text("L2"), text("s1")]);
}

#[test]
fn create_lots_of_nothing_is_no_statement() {
    assert_eq!(SubdivisonRepo::new(storage()).create_lots(Vec::new()), None);
}

#[test]
fn delete_statement_binds_the_identifier() {
    let statement = SubdivisonRepo::new(storage()).delete(String::from("s1"));
    assert_eq!(statement.text, "DELETE FROM subdivision WHERE id = $1;");
    assert_eq!(statement.params, vec![text("s1")]);
}

#[test]
fn update_statement_binds_the_name_first() {
    let statement =
        SubdivisonRepo::new(storage()).update(String::from("s1"), String::from("Elm Park"));
    assert_eq!(statement.text, "UPDATE subdivision SET s_name = $1 WHERE id = $2;");
    assert_eq!(statement.params, vec![text("Elm Park"), text("s1")]);
}

#[test]
fn search_by_name_statement_matches_whatever_the_case() {
    let statement = SubdivisonRepo::new(storage()).search_by_name(String::from("oak"));
    assert_eq!(
        statement.text,
        "SELECT s.s_name, s.id, array_agg(al.lat ORDER BY sl.seq) AS lats, array_agg(al.long ORDER BY sl.seq) AS longs FROM subdivision s JOIN subdivision_location sl ON s.id = sl.subdivision_id JOIN app_location al ON sl.location_id = al.id WHERE POSITION(LOWER($1) IN LOWER(s.s_name)) > 0 GROUP BY s.s_name, s.id;"
    );
    assert_eq!(statement.params, vec![text("oak")]);
}

#[test]
fn search_by_location_statement_includes_the_boundary_of_the_radius() {
    let statement = SubdivisonRepo::new(storage()).search_by_location(
        (11, 22),
        33,
        RepresentativePoint::AnchorPoint,
    );
    assert_eq!(
        statement.text,
        "SELECT s.s_name, s.id, array_agg(al.lat ORDER BY sl.seq) AS lats, array_agg(al.long ORDER BY sl.seq) AS longs FROM subdivision s JOIN subdivision_location sl ON s.id = sl.subdivision_id JOIN app_location al ON sl.location_id = al.id GROUP BY s.s_name, s.id HAVING ST_DistanceSphere(ST_MakePoint((array_agg(al.long ORDER BY sl.seq))[1], (array_agg(al.lat ORDER BY sl.seq))[1]), ST_MakePoint($1, $2)) <= $3;"
    );
    assert!(statement.text.ends_with(" <= $3;"));
    assert_eq!(
        statement.params,
        vec![SqlValue::Real(22), SqlValue::Real(11), SqlValue::Real(33)]
    );
}

#[test]
fn search_by_location_statement_can_measure_from_the_centroid() {
    let statement = SubdivisonRepo::new(storage()).search_by_location(
        (11, 22),
        33,
        RepresentativePoint::Centroid,
    );
    assert!(statement
        .text
        .contains("HAVING ST_DistanceSphere(ST_MakePoint(avg(al.long), avg(al.lat)), ST_MakePoint($1, $2)) <= $3;"));
    assert_eq!(
        statement.params,
        vec![SqlValue::Real(22), SqlValue::Real(11), SqlValue::Real(33)]
    );
}

#[test]
fn default_search_radius_is_five_thousand() {
    assert_eq!(f64::from_bits(DEFAULT_SEARCH_RADIUS), 5000.0);
}

#[test]
fn get_all_preview_statement_counts_lots_and_reads_no_boundary() {
    let statement = SubdivisonRepo::new(storage()).get_all_preview();
    assert_eq!(
        statement.text,
        "SELECT s.s_name, s.id, count(l.l_name)::int AS lots FROM subdivision s LEFT JOIN lot l ON l.subdivision_id = s.id GROUP BY s.s_name, s.id;"
    );
    assert!(statement.params.is_empty());
    assert!(!statement.text.contains("app_location"));
}

#[test]
fn lots_statement_binds_the_subdivision() {
    let statement = SubdivisonRepo::new(storage()).lots_of(String::from("s1"));
    assert_eq!(statement.text, "SELECT l_name, subdivision_id FROM lot WHERE subdivision_id = $1;");
    assert_eq!(statement.params, vec![text("s1")]);
}

#[test]
fn lot_locations_statement_reads_in_ring_order() {
    let statement =
        SubdivisonRepo::new(storage()).lot_locations(String::from("L1"), String::from("s1"));
    assert_eq!(
        statement.text,
        "SELECT location_id FROM lot_location WHERE l_name = $1 AND subdivision_id = $2 ORDER BY seq;"
    );
    assert_eq!(statement.params, vec![text("L1"), text("s1")]);
}

#[test]
fn get_subdivision_lots_statement_aggregates_in_ring_order() {
    let statement = SubdivisonRepo::new(storage()).get_subdivision_lots(String::from("s1"));
    assert_eq!(
        statement.text,
        "SELECT l.l_name, array_agg(al.lat ORDER BY ll.seq) AS lats, array_agg(al.long ORDER BY ll.seq) AS longs FROM lot l JOIN lot_location ll ON l.l_name = ll.l_name AND l.subdivision_id = ll.subdivision_id JOIN app_location al ON al.id = ll.location_id WHERE l.subdivision_id = $1 GROUP BY l.l_name;"
    );
    assert_eq!(statement.params, vec![text("s1")]);
}

#[test]
fn app_state_binds_every_service_to_the_local_store() {
    let state = AppState::new();
    let local = Storage::new(
        String::from("localhost"),
        String::from("postgres"),
        String::from("postgres"),
        String::from("postgres"),
    );
    assert_eq!(state.storage, local);
    assert_eq!(state.location_service.repo.storage, local);
    assert_eq!(state.subdivision_service.repo.storage, local);
    assert_eq!(state.subdivision_service.location_service.repo.storage, local);
}

#[test]
fn plan_sends_the_statement_of_each_request() {
    let state = AppState::new();
    let plan = state.plan(StoreRequest::GetLocation { id: String::from("1-2") });
    assert_eq!(
        plan,
        Plan::Send {
            statement: state.location_service.repo.get_location(String::from("1-2")),
            expect: ReplyShape::Locations
        }
    );
    let location = Location::at(&pt(5, 6));
    let plan = state.plan(StoreRequest::SaveLocation { location: location.clone() });
    assert_eq!(
        plan,
        Plan::Send {
            statement: state.location_service.repo.save_location(location),
            expect: ReplyShape::Affected
        }
    );
    let subdivision =
        Subdivision { id: String::from("s1"), name: String::from("Oak"), area: ids(&["a"]) };
    let plan = state.plan(StoreRequest::CreateSubdivision { subdivision: subdivision.clone() });
    assert_eq!(
        plan,
        Plan::Send {
            statement: state.subdivision_service.repo.create(subdivision),
            expect: ReplyShape::Completed
        }
    );
    let lot =
        Lot { name: String::from("L1"), subdivision_id: String::from("s1"), area: ids(&["a"]) };
    let plan = state.plan(StoreRequest::CreateLot { lot: lot.clone() });
    assert_eq!(
        plan,
        Plan::Send {
            statement: state.subdivision_service.repo.create_lot(lot.clone()),
            expect: ReplyShape::Completed
        }
    );
    let plan = state.plan(StoreRequest::CreateLots { lots: vec![lot.clone()] });
    assert_eq!(
        plan,
        Plan::Send {
            statement: state.subdivision_service.repo.create_lots(vec![lot]).unwrap(),
            expect: ReplyShape::Completed
        }
    );
}

#[test]
fn plan_reads_each_query_in_its_own_shape() {
    let state = AppState::new();
    let repo = &state.subdivision_service.repo;
    let cases = vec![
        (
            StoreRequest::DeleteSubdivision { id: String::from("s1") },
            repo.delete(String::from("s1")),
            ReplyShape::Affected,
        ),
        (
            StoreRequest::UpdateSubdivision { id: String::from("s1"), new_name: String::from("n") },
            repo.update(String::from("s1"), String::from("n")),
            ReplyShape::Affected,
        ),
        (
            StoreRequest::SearchByName { name: String::from("oak") },
            repo.search_by_name(String::from("oak")),
            ReplyShape::Areas,
        ),
        (
            StoreRequest::SearchByLocation {
                coords: (1, 2),
                radius: 3,
                measured_from: RepresentativePoint::Centroid,
            },
            repo.search_by_location((1, 2), 3, RepresentativePoint::Centroid),
            ReplyShape::Areas,
        ),
        (StoreRequest::GetAllPreview, repo.get_all_preview(), ReplyShape::Previews),
        (
            StoreRequest::GetLots { subdivision_id: String::from("s1") },
            repo.lots_of(String::from("s1")),
            ReplyShape::Lots,
        ),
        (
            StoreRequest::GetLotLocations {
                name: String::from("L1"),
                subdivision_id: String::from("s1"),
            },
            repo.lot_locations(String::from("L1"), String::from("s1")),
            ReplyShape::LocationIds,
        ),
        (
            StoreRequest::GetSubdivisionLots { subdivision_id: String::from("s1") },
            repo.get_subdivision_lots(String::from("s1")),
            ReplyShape::LotAreas,
        ),
    ];
    for (request, statement, expect) in cases {
        assert_eq!(state.plan(request), Plan::Send { statement, expect });
    }
}

#[test]
fn plan_skips_writes_of_nothing() {
    let state = AppState::new();
    assert_eq!(
        state.plan(StoreRequest::SaveLocations { locations: Vec::new() }),
        Plan::Skip { reply: StoreReply::Affected(0) }
    );
    assert_eq!(
        state.plan(StoreRequest::CreateLots { lots: Vec::new() }),
        Plan::Skip { reply: StoreReply::Completed }
    );
    let locations = vec![Location::at(&pt(1, 2))];
    assert_eq!(
        state.plan(StoreRequest::SaveLocations { locations: locations.clone() }),
        Plan::Send {
            statement: state.location_service.repo.save_locations(locations).unwrap(),
            expect: ReplyShape::Affected
        }
    );
}

#[test]
fn location_identifier_joins_the_texts_of_both_coordinates() {
    assert_eq!(derive_location_id(&pt(1, 2)), "1-2");
    assert_eq!(derive_location_id(&pt(0, 0)), "0-0");
    assert_eq!(derive_location_id(&point(1.0, 2.0)), "1-2");
    assert_eq!(derive_location_id(&point(48.8566, 2.3522)), "48.8566-2.3522");
    assert_eq!(derive_location_id(&point(-1.5, -0.25)), "-1.5--0.25");
}

#[test]
fn location_identifier_follows_the_text_and_not_the_pattern() {
    let written = Point {
        lat: 7,
        long: 9,
        lat_text: String::from("north"),
        long_text: String::from("east"),
    };
    assert_eq!(derive_location_id(&written), "north-east");
}

#[test]
fn location_identifiers_tell_points_apart() {
    let points = [
        point(1.0, 23.0),
        point(12.0, 3.0),
        point(1.0, 2.0),
        point(2.0, 1.0),
        point(0.0, 0.0),
        point(-1.0, 2.0),
        point(1.0, -2.0),
        point(1.5, 2.0),
        point(1.0, 5.2),
    ];
    for a in points.iter() {
        for b in points.iter() {
            assert_eq!(derive_location_id(a) == derive_location_id(b), a.coords() == b.coords());
        }
    }
}

#[test]
fn location_at_a_point_carries_the_derived_identifier() {
    let location = Location::at(&point(40.0, 74.5));
    assert_eq!(
        location,
        Location { id: String::from("40-74.5"), lat: 40.0f64.to_bits(), long: 74.5f64.to_bits() }
    );
    assert_eq!(location.coords(), (40.0f64.to_bits(), 74.5f64.to_bits()));
    assert_eq!(location.duplicate(), location);
    let point = point(40.0, 74.5);
    assert_eq!(point.coords(), location.coords());
    assert_eq!(point.duplicate(), point);
}
